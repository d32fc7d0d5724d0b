//! A small permuted congruential generator (PCG-XSH-RR, 64-bit state,
//! 32-bit output).
use vstd::prelude::*;
use vstd::arithmetic::div_mod::{lemma_add_mod_noop, lemma_small_mod};

verus! {

/// Multiplier of the underlying linear congruential step.
pub const PCG_MULTIPLIER: u64 = 6364136223846793005;

/// Added to the stream increment when seeding.
pub const PCG_INCREMENT: u64 = 1442695040888963407;

pub open spec fn mod64(x: int) -> u64 {
    (x % 0x1_0000_0000_0000_0000) as u64
}

/// The state after one step: `state * multiplier + inc`, modulo 2^64.
pub open spec fn pcg_step(state: u64, inc: u64) -> u64 {
    mod64(state * PCG_MULTIPLIER + inc)
}

/// `x` rotated right by `r` bits (`r` below 32).
pub open spec fn rotate_right32(x: u32, r: u32) -> u32 {
    (x >> r) | (x << ((32 - r) % 32) as u32)
}

/// The output drawn from `state`: the xorshifted high bits, rotated by the
/// top five bits.
pub open spec fn pcg_output(state: u64) -> u32 {
    let x = ((((state >> 18u64) ^ state) >> 27u64) % 0x1_0000_0000) as u32;
    rotate_right32(x, (state >> 59u64) as u32)
}

/// The increment that stream number `seq` uses before seeding.
pub open spec fn stream_inc(seq: u64) -> u64 {
    mod64(2 * seq + 1)
}

/// The increment after seeding.
pub open spec fn seeded_inc(inc: u64) -> u64 {
    mod64(inc * PCG_MULTIPLIER + PCG_INCREMENT)
}

/// Multiplying and then adding with wrap-around is the sum taken modulo 2^64.
proof fn lemma_wrapping_mul_add(a: u64, m: u64, c: u64)
    ensures
        vstd::wrapping::u64_specs::wrapping_add(vstd::wrapping::u64_specs::wrapping_mul(a, m), c) == mod64(
            a * m + c,
        ),
{
    let r: int = 0x1_0000_0000_0000_0000;
    let p = vstd::wrapping::u64_specs::wrapping_mul(a, m);
    assert(p == (a * m) % r);
    lemma_small_mod(c as nat, r as nat);
    lemma_add_mod_noop(a * m, c as int, r);
    if p + c > u64::MAX {
        lemma_small_mod((p + c - r) as nat, r as nat);
        vstd::arithmetic::div_mod::lemma_mod_add_multiples_vanish(p + c - r, r);
    } else {
        lemma_small_mod((p + c) as nat, r as nat);
    }
}

/// Adding with wrap-around is the sum taken modulo 2^64.
proof fn lemma_wrapping_add(a: u64, c: u64)
    ensures
        vstd::wrapping::u64_specs::wrapping_add(a, c) == mod64(a + c),
{
    let r: int = 0x1_0000_0000_0000_0000;
    if a + c > u64::MAX {
        lemma_small_mod((a + c - r) as nat, r as nat);
        vstd::arithmetic::div_mod::lemma_mod_add_multiples_vanish(a + c - r, r);
    } else {
        lemma_small_mod((a + c) as nat, r as nat);
    }
}

/// A PCG random number generator.
pub struct RandomNumberGenerator {
    state: u64,
    inc: u64,
}

impl View for RandomNumberGenerator {
    type V = (u64, u64);

    closed spec fn view(&self) -> (u64, u64) {
        (self.state, self.inc)
    }
}

impl RandomNumberGenerator {
    /// A generator on stream `seq`, seeded with `seed`.
    pub fn new(seed: u64, seq: u64) -> (r: RandomNumberGenerator)
        ensures
            r@.1 == seeded_inc(stream_inc(seq)),
            r@.0 == mod64(r@.1 + seed),
    {
        let inc: u64 = seq.wrapping_mul(2).wrapping_add(1);
        proof {
            lemma_wrapping_mul_add(seq, 2, 1);
        }
        let mut rng = RandomNumberGenerator { state: 0, inc };
        rng.seed(seed);
        rng
    }

    /// Restarts the generator from `seed`, moving to the next increment.
    pub fn seed(&mut self, seed: u64)
        ensures
            final(self)@.1 == seeded_inc(old(self)@.1),
            final(self)@.0 == mod64(final(self)@.1 + seed),
    {
        let ghost inc0 = self.inc;
        self.state = 0;
        self.inc = self.inc.wrapping_mul(PCG_MULTIPLIER).wrapping_add(PCG_INCREMENT);
        proof {
            lemma_wrapping_mul_add(inc0, PCG_MULTIPLIER, PCG_INCREMENT);
        }
        let stepped = self.state.wrapping_mul(PCG_MULTIPLIER).wrapping_add(self.inc);
        proof {
            lemma_wrapping_mul_add(0, PCG_MULTIPLIER, self.inc);
            lemma_small_mod(self.inc as nat, 0x1_0000_0000_0000_0000nat);
        }
        self.state = stepped.wrapping_add(seed);
        proof {
            lemma_wrapping_add(stepped, seed);
        }
    }

    /// The next number; the state moves one step.
    pub fn next(&mut self) -> (r: u32)
        ensures
            r == pcg_output(old(self)@.0),
            final(self)@ == (pcg_step(old(self)@.0, old(self)@.1), old(self)@.1),
    {
        let old_state = self.state;
        self.state = self.state.wrapping_mul(PCG_MULTIPLIER).wrapping_add(self.inc);
        proof {
            lemma_wrapping_mul_add(old_state, PCG_MULTIPLIER, self.inc);
        }
        let x: u32 = ((((old_state >> 18u64) ^ old_state) >> 27u64) % 0x1_0000_0000) as u32;
        proof {
            assert(old_state >> 59u64 <= 31) by (bit_vector);
        }
        let rot: u32 = (old_state >> 59u64) as u32;
        let back: u32 = (32 - rot) % 32;
        (x >> rot) | (x << back)
    }
}

} // verus!
