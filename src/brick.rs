//! Bricks of the block-breaking demo: their packed attributes, the random
//! choice of brick artwork, and how a brick is drawn.
use vstd::prelude::*;

use crate::canvas::{blit_pixels, shift_pixels, whole, BlitOperation, Canvas, CanvasView};
use crate::error::GraphicsError;
use crate::geometry::{Point, Rect};
use crate::random::{mod64, pcg_output, pcg_step, seeded_inc, stream_inc, RandomNumberGenerator};

verus! {

/// Bit 7: the brick can be broken.
pub const BRICK_BREAK_BIT: u8 = 0x80;

/// Bits 0-4: the brick type; 0 is no brick.
pub const BRICK_TYPE_MASK: u8 = 0x1f;

/// Bits 5-6: the brick format.
pub const BRICK_FORMAT_MASK: u8 = 0x60;

/// Palette entries each brick type occupies.
pub const BRICK_COLOURS: u8 = 6;

/// Which part of a brick a cell shows.
#[derive(Clone, Copy, Debug, PartialEq, Eq, Structural)]
pub enum BrickFormat {
    /// Not a format; the value 0 of the format bits.
    Reserved,
    /// The left half of a brick.
    Left,
    /// The right half of a brick.
    Right,
    /// A standalone half brick.
    Half,
}

impl BrickFormat {
    /// The format bits, in place.
    pub open spec fn spec_bits(self) -> u8 {
        match self {
            BrickFormat::Reserved => 0x00,
            BrickFormat::Left => 0x20,
            BrickFormat::Right => 0x40,
            BrickFormat::Half => 0x60,
        }
    }
}

/// A cell of the playfield, packed into a byte: bit 7 breakable, bits 5-6
/// format, bits 0-4 type.
#[derive(Clone, Copy, Debug, PartialEq, Eq, Structural)]
pub struct Brick {
    data: u8,
}

impl View for Brick {
    type V = u8;

    closed spec fn view(&self) -> u8 {
        self.data
    }
}

impl Brick {
    /// The brick packed in `value`.
    pub fn from_byte(value: u8) -> (r: Brick)
        ensures
            r@ == value,
    {
        Brick { data: value }
    }

    /// A brick with the given attributes.
    pub fn new(breakable: bool, format: BrickFormat, brick_type: u8) -> (r: Brick)
        requires
            format != BrickFormat::Reserved,
            brick_type <= BRICK_TYPE_MASK,
        ensures
            r@ == (if breakable { BRICK_BREAK_BIT } else { 0u8 }) | format.spec_bits() | brick_type,
    {
        let mut value = Brick { data: 0 };
        value.set_breakable(breakable);
        value.set_format(format);
        value.set_brick_type(brick_type);
        proof {
            let b: u8 = if breakable { BRICK_BREAK_BIT } else { 0u8 };
            let f = format.spec_bits();
            let t = brick_type;
            assert(b == 0 || b == 0x80);
            assert(f == 0x20 || f == 0x40 || f == 0x60);
            assert((b == 0 || b == 0x80) && (f == 0x20 || f == 0x40 || f == 0x60) && t <= 0x1f ==> ((
            (((0u8 & !0x80u8) | b) & !0x60u8) | f) & !0x1fu8) | t == (b | f) | t) by (bit_vector);
            assert((b == 0 || b == 0x80) ==> (if b == 0x80 { 0u8 | 0x80u8 } else { 0u8 & !0x80u8 }) == (0u8
                & !0x80u8) | b) by (bit_vector);
        }
        value
    }

    /// Whether the brick can be broken.
    pub fn breakable(&self) -> (r: bool)
        ensures
            r == (self@ & BRICK_BREAK_BIT != 0),
    {
        self.data & BRICK_BREAK_BIT > 0
    }

    pub fn set_breakable(&mut self, value: bool)
        ensures
            final(self)@ == (if value { old(self)@ | BRICK_BREAK_BIT } else { old(self)@ & !BRICK_BREAK_BIT }),
    {
        if value {
            self.data = self.data | BRICK_BREAK_BIT;
        } else {
            self.data = self.data & !BRICK_BREAK_BIT;
        }
    }

    /// The brick's format; the format bits must not be zero.
    pub fn format(&self) -> (r: BrickFormat)
        requires
            self@ & BRICK_FORMAT_MASK != 0,
        ensures
            r.spec_bits() == self@ & BRICK_FORMAT_MASK,
    {
        let bits = self.data & BRICK_FORMAT_MASK;
        proof {
            let d = self.data;
            assert(d & 0x60u8 == 0 || d & 0x60u8 == 0x20 || d & 0x60u8 == 0x40 || d & 0x60u8 == 0x60) by (bit_vector);
        }
        if bits == 0x20 {
            BrickFormat::Left
        } else if bits == 0x40 {
            BrickFormat::Right
        } else {
            BrickFormat::Half
        }
    }

    /// The format bits as a number from 0 to 3.
    pub fn format_raw(&self) -> (r: u8)
        ensures
            r == (self@ & BRICK_FORMAT_MASK) >> 5u8,
            r <= 3,
    {
        let d = self.data;
        proof {
            assert((d & 0x60u8) >> 5u8 <= 3) by (bit_vector);
        }
        (self.data & BRICK_FORMAT_MASK) >> 5
    }

    pub fn set_format(&mut self, value: BrickFormat)
        requires
            value != BrickFormat::Reserved,
        ensures
            final(self)@ == (old(self)@ & !BRICK_FORMAT_MASK) | value.spec_bits(),
    {
        let bits: u8 = match value {
            BrickFormat::Left => 0x20,
            BrickFormat::Right => 0x40,
            _ => 0x60,
        };
        self.data = self.data & !BRICK_FORMAT_MASK;
        self.data = self.data | bits;
    }

    /// The brick type; 0 means no brick.
    pub fn brick_type(&self) -> (r: u8)
        ensures
            r == self@ & BRICK_TYPE_MASK,
            r <= BRICK_TYPE_MASK,
    {
        let d = self.data;
        proof {
            assert(d & 0x1fu8 <= 0x1f) by (bit_vector);
        }
        self.data & BRICK_TYPE_MASK
    }

    pub fn set_brick_type(&mut self, value: u8)
        requires
            value <= BRICK_TYPE_MASK,
        ensures
            final(self)@ == (old(self)@ & !BRICK_TYPE_MASK) | value,
    {
        self.data = self.data & !BRICK_TYPE_MASK;
        self.data = self.data | value;
    }
}

/// Index that brick artwork leaves transparent.
pub const BRICK_TRANSPARENT: u8 = 255;

/// Seed of the generator that picks brick artwork.
pub const BRICK_SEED: u64 = 13145;

/// Stream of the generator that picks brick artwork.
pub const BRICK_STREAM: u64 = 535;

/// Formats a row of brick artwork holds: left, right, half.
pub const BRICK_FORMATS: usize = 3;

pub struct BrickGraphicsView {
    /// Styles of artwork; each holds one canvas per format.
    pub images: Seq<Seq<CanvasView>>,
    /// The generator's state and increment.
    pub rand: (u64, u64),
}

impl BrickGraphicsView {
    pub open spec fn wf(self) -> bool {
        &&& self.images.len() > 0
        &&& forall|i: int| 0 <= i < self.images.len() ==> #[trigger] self.images[i].len() >= BRICK_FORMATS
        &&& forall|i: int, j: int| 0 <= i < self.images.len() && 0 <= j < self.images[i].len()
            ==> (#[trigger] self.images[i][j]).wf()
    }
}

/// The area a piece of artwork covers when drawn at `p`.
pub open spec fn brick_area(img: CanvasView, p: Point) -> Rect {
    Rect { x: p.x, y: p.y, width: img.rect.width, height: img.rect.height }
}

/// The surface after drawing `img` at `p` for a brick of type `t`: the
/// artwork keyed on the transparent index, then the covered area shifted
/// into that type's palette range.
pub open spec fn brick_drawn(img: CanvasView, surface: CanvasView, p: Point, t: u8) -> Seq<u8> {
    shift_pixels(
        blit_pixels(
            img.pixels,
            img.rect.width as int,
            whole(img),
            surface.pixels,
            surface.rect.width as int,
            p,
            BlitOperation::Keyed(BRICK_TRANSPARENT),
        ),
        surface.rect.width as int,
        brick_area(img, p),
        ((t - 1) * BRICK_COLOURS) as u8,
    )
}

/// Draws bricks from a set of artwork, picking a style at random.
pub struct BrickGraphics {
    images: Vec<Vec<Canvas>>,
    rand: RandomNumberGenerator,
}

impl View for BrickGraphics {
    type V = BrickGraphicsView;

    closed spec fn view(&self) -> BrickGraphicsView {
        BrickGraphicsView {
            images: self.images@.map_values(|row: Vec<Canvas>| row@.map_values(|c: Canvas| c@)),
            rand: self.rand@,
        }
    }
}

impl BrickGraphics {
    pub open spec fn wf(&self) -> bool {
        self@.wf()
    }

    /// Brick drawing with `images`: one row per style, each with the left,
    /// right and half artwork.
    pub fn new(images: Vec<Vec<Canvas>>) -> (r: BrickGraphics)
        requires
            images@.len() > 0,
            forall|i: int| 0 <= i < images@.len() ==> #[trigger] images@[i]@.len() >= BRICK_FORMATS,
            forall|i: int, j: int| 0 <= i < images@.len() && 0 <= j < images@[i]@.len()
                ==> (#[trigger] images@[i]@[j]).wf(),
        ensures
            r.wf(),
            r@.images == images@.map_values(|row: Vec<Canvas>| row@.map_values(|c: Canvas| c@)),
            r@.rand.1 == seeded_inc(stream_inc(BRICK_STREAM)),
            r@.rand.0 == mod64(r@.rand.1 + BRICK_SEED),
    {
        let rand = RandomNumberGenerator::new(BRICK_SEED, BRICK_STREAM);
        let r = BrickGraphics { images, rand };
        proof {
            assert forall|i: int, j: int| 0 <= i < r@.images.len() && 0 <= j < r@.images[i].len()
                implies (#[trigger] r@.images[i][j]).wf() by {
                assert(r@.images[i][j] == images@[i]@[j]@);
            }
            assert forall|i: int| 0 <= i < r@.images.len() implies #[trigger] r@.images[i].len() >= BRICK_FORMATS by {
                assert(r@.images[i] == images@[i]@.map_values(|c: Canvas| c@));
            }
        }
        r
    }

    /// Draws `brick` on `surface` at `point`. A brick of type 0 draws
    /// nothing. Otherwise the generator picks a style, whose artwork for the
    /// brick's format is drawn keyed on index 255 and then shifted by six
    /// palette entries per type above 1. Fails with `InvalidFormat` when the
    /// format bits are 0, and with `OutOfBounds` when the artwork would reach
    /// outside `surface`; the surface is then unchanged.
    pub fn draw(&mut self, surface: &mut Canvas, point: Point, brick: Brick) -> (r: Result<(), GraphicsError>)
        requires
            old(self).wf(),
            old(surface).wf(),
        ensures
            final(self).wf(),
            final(surface).wf(),
            final(self)@.images == old(self)@.images,
            ({
                let t = brick@ & BRICK_TYPE_MASK;
                let f = (brick@ & BRICK_FORMAT_MASK) >> 5u8;
                let s0 = old(self)@;
                let k = pcg_output(s0.rand.0) as int % s0.images.len() as int;
                if t == 0 {
                    r is Ok && final(self)@ == s0 && final(surface)@ == old(surface)@
                } else if f == 0 {
                    r == Err::<(), GraphicsError>(GraphicsError::InvalidFormat) && final(self)@ == s0
                        && final(surface)@ == old(surface)@
                } else {
                    let img = s0.images[k][f - 1int];
                    &&& final(self)@.rand == (pcg_step(s0.rand.0, s0.rand.1), s0.rand.1)
                    &&& (r is Ok <==> old(surface)@.holds(brick_area(img, point)))
                    &&& (r is Err ==> r->Err_0 == GraphicsError::OutOfBounds && final(surface)@ == old(surface)@)
                    &&& (r is Ok ==> final(surface)@ == (CanvasView {
                        rect: old(surface)@.rect,
                        pixels: brick_drawn(img, old(surface)@, point, t),
                    }))
                }
            }),
    {
        let t = brick.brick_type();
        if t == 0 {
            return Ok(());
        }
        let f = brick.format_raw();
        if f == 0 {
            return Err(GraphicsError::InvalidFormat);
        }
        let offset: u8 = (t - 1) * BRICK_COLOURS;
        let ghost s0 = self@;
        let n = self.images.len();
        let index = self.rand.next() as usize % n;
        proof {
            assert(self.images@[index as int]@.len() >= BRICK_FORMATS) by {
                assert(s0.images[index as int].len() >= BRICK_FORMATS);
            }
            assert(self.images@[index as int]@[f - 1]@ == s0.images[index as int][f - 1]);
        }
        let image = &self.images[index][(f - 1) as usize];
        let size = image.rect();
        let local = Rect { x: 0, y: 0, width: size.width, height: size.height };
        image.blit(local, surface, point, BlitOperation::Keyed(BRICK_TRANSPARENT))?;
        let area = Rect { x: point.x, y: point.y, width: size.width, height: size.height };
        surface.shift_colour(area, offset)?;
        proof {
            assert(self@.images =~= s0.images);
        }
        Ok(())
    }
}

/// The index, in a row-major grid `dimensions.x` cells wide and
/// `dimensions.y` cells high, of the cell at `location`; `None` outside the
/// grid or past the machine's address range.
pub fn cell_index(location: Point, dimensions: Point) -> (r: Option<usize>)
    ensures
        (0 <= location.x < dimensions.x && 0 <= location.y < dimensions.y
            && location.y * dimensions.x + location.x <= usize::MAX) <==> r is Some,
        r is Some ==> r->Some_0 == location.y * dimensions.x + location.x,
{
    if location.x < 0 || location.y < 0 || location.x >= dimensions.x || location.y >= dimensions.y {
        return None;
    }
    proof {
        let (x, y, w, h) = (location.x as int, location.y as int, dimensions.x as int, dimensions.y as int);
        assert(0 <= y * w + x < w * h && w * h <= 0x7fff_ffff * 0x7fff_ffff) by (nonlinear_arith)
            requires
                0 <= x < w <= 0x7fff_ffff,
                0 <= y < h <= 0x7fff_ffff,
        ;
    }
    let index: u64 = location.y as u64 * dimensions.x as u64 + location.x as u64;
    if index > usize::MAX as u64 {
        return None;
    }
    Some(index as usize)
}

} // verus!
