//! The Program Segment Prefix that DOS puts before every program.
use vstd::prelude::*;
use vstd::string::StringSliceAdditionalSpecFns;

verus! {

/// Size of the prefix in bytes.
pub const PSP_SIZE: usize = 256;

/// Offset of the command line's length byte; its text follows.
pub const COMMAND_LINE_OFFSET: usize = 0x80;

/// Most bytes the command line can hold.
pub const COMMAND_LINE_CAPACITY: usize = 127;

pub open spec fn word_at(b: Seq<u8>, i: int) -> u16 {
    (b[i] + 256 * b[i + 1]) as u16
}

/// The command line held in a prefix block: as many bytes as the length
/// byte says, cut to the space the block has for them.
pub open spec fn command_line_of(b: Seq<u8>) -> Seq<u8> {
    let n = if b[COMMAND_LINE_OFFSET as int] <= COMMAND_LINE_CAPACITY {
        b[COMMAND_LINE_OFFSET as int] as int
    } else {
        COMMAND_LINE_CAPACITY as int
    };
    b.subrange(COMMAND_LINE_OFFSET + 1, COMMAND_LINE_OFFSET + 1 + n)
}

/// Relies on core::str::from_utf8: when it accepts the bytes, the string it
/// returns is made of exactly those bytes.
#[verifier::external_body]
fn utf8_str(bytes: &[u8]) -> (r: Option<&str>)
    ensures
        r is Some ==> r->Some_0.spec_bytes() == bytes@,
{
    core::str::from_utf8(bytes).ok()
}

/// What a program needs from its prefix.
pub struct ProgramSegmentPrefix {
    next_free_segment: u16,
    parent_psp: u16,
    environment_segment: u16,
    command_line: Vec<u8>,
}

pub struct PspView {
    pub next_free_segment: u16,
    pub parent_psp: u16,
    pub environment_segment: u16,
    pub command_line: Seq<u8>,
}

impl View for ProgramSegmentPrefix {
    type V = PspView;

    closed spec fn view(&self) -> PspView {
        PspView {
            next_free_segment: self.next_free_segment,
            parent_psp: self.parent_psp,
            environment_segment: self.environment_segment,
            command_line: self.command_line@,
        }
    }
}

impl ProgramSegmentPrefix {
    /// Reads the prefix from a copy of its 256 bytes; `None` when fewer
    /// bytes are given.
    pub fn from_bytes(block: &[u8]) -> (r: Option<ProgramSegmentPrefix>)
        ensures
            r is Some <==> block@.len() >= PSP_SIZE,
            r is Some ==> r->Some_0@ == (PspView {
                next_free_segment: word_at(block@, 0x02),
                parent_psp: word_at(block@, 0x16),
                environment_segment: word_at(block@, 0x2C),
                command_line: command_line_of(block@),
            }),
    {
        if block.len() < PSP_SIZE {
            return None;
        }
        let stored = block[COMMAND_LINE_OFFSET] as usize;
        let n = if stored <= COMMAND_LINE_CAPACITY { stored } else { COMMAND_LINE_CAPACITY };
        let start = COMMAND_LINE_OFFSET + 1;
        let mut command_line: Vec<u8> = Vec::new();
        let mut i: usize = 0;
        while i < n
            invariant
                n <= COMMAND_LINE_CAPACITY,
                start == COMMAND_LINE_OFFSET + 1,
                block@.len() >= PSP_SIZE,
                i <= n,
                command_line@ == block@.subrange(start as int, start + i),
            decreases n - i,
        {
            command_line.push(block[start + i]);
            i = i + 1;
            assert(command_line@ =~= block@.subrange(start as int, start + i));
        }
        Some(ProgramSegmentPrefix {
            next_free_segment: block[0x02] as u16 + block[0x03] as u16 * 256,
            parent_psp: block[0x16] as u16 + block[0x17] as u16 * 256,
            environment_segment: block[0x2C] as u16 + block[0x2D] as u16 * 256,
            command_line,
        })
    }

    /// The command line's bytes.
    pub fn command_line_bytes(&self) -> (r: &[u8])
        ensures
            r@ == self@.command_line,
    {
        self.command_line.as_slice()
    }

    /// The command line as text; `None` when it is not valid UTF-8.
    pub fn command_line(&self) -> (r: Option<&str>)
        ensures
            r is Some ==> r->Some_0.spec_bytes() == self@.command_line,
    {
        utf8_str(self.command_line.as_slice())
    }

    pub fn environment_segment(&self) -> (r: u16)
        ensures
            r == self@.environment_segment,
    {
        self.environment_segment
    }

    pub fn parent_psp(&self) -> (r: u16)
        ensures
            r == self@.parent_psp,
    {
        self.parent_psp
    }

    pub fn next_free_segment(&self) -> (r: u16)
        ensures
            r == self@.next_free_segment,
    {
        self.next_free_segment
    }
}

} // verus!
