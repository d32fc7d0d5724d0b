//! Indexed-pixel buffers and the blit operations between them.
use vstd::prelude::*;
use vstd::arithmetic::div_mod::{lemma_fundamental_div_mod, lemma_fundamental_div_mod_converse};

use crate::error::GraphicsError;
use crate::geometry::{Point, Rect};
use crate::image::{Image, ImageView};

verus! {

/// How source pixels are combined with destination pixels.
#[derive(Clone, Copy, Debug, PartialEq, Eq, Structural)]
pub enum BlitOperation {
    /// Destination := destination AND source.
    And,
    /// Destination := destination OR source.
    Or,
    /// Destination := source.
    Direct,
    /// Destination := source, except where the source holds this
    /// transparent index.
    Keyed(u8),
}

/// The new value of a destination pixel `d` under source pixel `s`.
pub open spec fn apply_op(op: BlitOperation, s: u8, d: u8) -> u8 {
    match op {
        BlitOperation::And => d & s,
        BlitOperation::Or => d | s,
        BlitOperation::Direct => s,
        BlitOperation::Keyed(key) => if s == key { d } else { s },
    }
}

fn combine(op: BlitOperation, s: u8, d: u8) -> (r: u8)
    ensures
        r == apply_op(op, s, d),
{
    match op {
        BlitOperation::And => d & s,
        BlitOperation::Or => d | s,
        BlitOperation::Direct => s,
        BlitOperation::Keyed(key) => if s == key { d } else { s },
    }
}

/// Index `j` of a row-major buffer with `stride` columns falls in the block
/// of `w` columns and `h` rows whose upper-left pixel is (`x`, `y`).
pub open spec fn in_block(j: int, stride: int, x: int, y: int, w: int, h: int) -> bool {
    &&& x <= j % stride < x + w
    &&& y <= j / stride < y + h
}

/// Index in a source buffer with `src_stride` columns of the pixel that a
/// blit of `sr` to `at` puts at index `j` of a buffer with `dst_stride` columns.
pub open spec fn source_index(j: int, dst_stride: int, src_stride: int, sr: Rect, at: Point) -> int {
    (sr.y + j / dst_stride - at.y) * src_stride + sr.x + j % dst_stride - at.x
}

/// The destination pixels after blitting `sr` of `src` to `at` of `dst`.
pub open spec fn blit_pixels(
    src: Seq<u8>,
    src_stride: int,
    sr: Rect,
    dst: Seq<u8>,
    dst_stride: int,
    at: Point,
    op: BlitOperation,
) -> Seq<u8> {
    Seq::new(
        dst.len(),
        |j: int|
            if in_block(j, dst_stride, at.x as int, at.y as int, sr.width as int, sr.height as int) {
                apply_op(op, src[source_index(j, dst_stride, src_stride, sr, at)], dst[j])
            } else {
                dst[j]
            },
    )
}

/// The pixels after adding `amount` (wrapping) to those inside `rect`.
pub open spec fn shift_pixels(pixels: Seq<u8>, stride: int, rect: Rect, amount: u8) -> Seq<u8> {
    Seq::new(
        pixels.len(),
        |j: int|
            if in_block(j, stride, rect.x as int, rect.y as int, rect.width as int, rect.height as int) {
                ((pixels[j] + amount) % 256) as u8
            } else {
                pixels[j]
            },
    )
}

/// Bytes per stored row of an 8-bit image `width` pixels wide: rows are
/// padded to a multiple of four bytes.
pub open spec fn padded_stride(width: int) -> int {
    (width + 3) / 4 * 4
}

/// The image can be turned into a canvas: one byte per pixel, sides that
/// fit a rectangle, and every stored row present.
pub open spec fn canvas_ready(img: ImageView) -> bool {
    &&& img.bpp == 8
    &&& img.width <= i32::MAX
    &&& img.height <= i32::MAX
    &&& padded_stride(img.width as int) * img.height <= img.image_data.len()
}

/// Top-down, unpadded pixels of an image whose `height` rows of `stride`
/// bytes are stored bottom-up in `data`: row `r` of the result is stored row
/// `height - 1 - r`, cut to `width` bytes.
pub open spec fn flipped_rows(data: Seq<u8>, width: int, height: int, stride: int) -> Seq<u8> {
    Seq::new(
        (width * height) as nat,
        |j: int| data[(height - 1 - j / width) * stride + j % width],
    )
}

/// What a canvas holds: where it is and its pixels, row by row from the top.
pub struct CanvasView {
    pub rect: Rect,
    pub pixels: Seq<u8>,
}

impl CanvasView {
    pub open spec fn wf(self) -> bool {
        &&& self.rect.wf()
        &&& self.pixels.len() == self.rect.width * self.rect.height
    }

    /// `r`, in the canvas's own coordinates, lies inside the canvas.
    pub open spec fn holds(self, r: Rect) -> bool {
        &&& r.wf()
        &&& 0 <= r.x
        &&& 0 <= r.y
        &&& r.right() <= self.rect.width
        &&& r.bottom() <= self.rect.height
    }
}

/// The whole of a canvas, in its own coordinates.
pub open spec fn whole(c: CanvasView) -> Rect {
    Rect { x: 0, y: 0, width: c.rect.width, height: c.rect.height }
}

/// The source rectangle lies inside `src` and, put at `at`, inside `dst`.
pub open spec fn blit_fits(src: CanvasView, sr: Rect, dst: CanvasView, at: Point) -> bool {
    &&& src.holds(sr)
    &&& dst.holds(Rect { x: at.x, y: at.y, width: sr.width, height: sr.height })
}

/// A rectangular buffer of one-byte palette indices, stored row by row from
/// the top with no padding.
pub struct Canvas {
    rect: Rect,
    pixels: Vec<u8>,
}

impl View for Canvas {
    type V = CanvasView;

    closed spec fn view(&self) -> CanvasView {
        CanvasView { rect: self.rect, pixels: self.pixels@ }
    }
}

proof fn lemma_cell_in_buffer(row: int, col: int, stride: int, rows: int)
    requires
        0 <= row < rows,
        0 <= col < stride,
    ensures
        0 <= row * stride + col < stride * rows,
        0 <= row * stride,
{
    assert(0 <= row * stride + col < stride * rows && 0 <= row * stride) by (nonlinear_arith)
        requires
            0 <= row < rows,
            0 <= col < stride,
    ;
}

/// The cell (`row`, `col`) of a buffer with `stride` columns is at index
/// `row * stride + col`, and no other index names it.
proof fn lemma_cell_index(row: int, col: int, stride: int)
    requires
        0 <= row,
        0 <= col < stride,
    ensures
        (row * stride + col) / stride == row,
        (row * stride + col) % stride == col,
        forall|j: int| #![trigger j / stride, j % stride]
            j / stride == row && j % stride == col ==> j == row * stride + col,
{
    lemma_fundamental_div_mod_converse(row * stride + col, stride, row, col);
    assert forall|j: int| #![trigger j / stride, j % stride]
        j / stride == row && j % stride == col implies j == row * stride + col by {
        lemma_fundamental_div_mod(j, stride);
        assert(stride * row == row * stride) by (nonlinear_arith);
    }
}

impl Canvas {
    pub open spec fn wf(&self) -> bool {
        self@.wf()
    }

    /// A canvas over `rect` with every pixel 0.
    pub fn new_blank(rect: Rect) -> (r: Canvas)
        requires
            rect.wf(),
            rect.width * rect.height <= usize::MAX,
        ensures
            r.wf(),
            r@.rect == rect,
            r@.pixels == Seq::new((rect.width * rect.height) as nat, |i: int| 0u8),
    {
        let n: usize = (rect.width as usize) * (rect.height as usize);
        let mut pixels: Vec<u8> = Vec::new();
        let mut i: usize = 0;
        while i < n
            invariant
                i <= n,
                pixels@ == Seq::new(i as nat, |k: int| 0u8),
            decreases n - i,
        {
            pixels.push(0u8);
            i = i + 1;
            assert(pixels@ =~= Seq::new(i as nat, |k: int| 0u8));
        }
        Canvas { rect, pixels }
    }

    /// A canvas over `rect` holding `pixels` row by row; fails when the
    /// rectangle has a negative side or the pixel count does not match it.
    pub fn new(rect: Rect, pixels: Vec<u8>) -> (r: Result<Canvas, GraphicsError>)
        ensures
            (rect.wf() && pixels@.len() == rect.width * rect.height) <==> r is Ok,
            r is Ok ==> r->Ok_0.wf() && r->Ok_0@ == (CanvasView { rect, pixels: pixels@ }),
            r is Err ==> r->Err_0 == GraphicsError::InvalidDimensions,
    {
        if rect.width < 0 || rect.height < 0 {
            return Err(GraphicsError::InvalidDimensions);
        }
        proof {
            let (w, h) = (rect.width as int, rect.height as int);
            assert(0 <= w * h <= 0x7fff_ffff * 0x7fff_ffff) by (nonlinear_arith)
                requires
                    0 <= w <= 0x7fff_ffff,
                    0 <= h <= 0x7fff_ffff,
            ;
        }
        let n: u64 = (rect.width as u64) * (rect.height as u64);
        if pixels.len() as u64 != n {
            return Err(GraphicsError::InvalidDimensions);
        }
        Ok(Canvas { rect, pixels })
    }

    pub fn rect(&self) -> (r: Rect)
        ensures
            r == self@.rect,
    {
        self.rect
    }

    pub fn pixels(&self) -> (r: &[u8])
        ensures
            r@ == self@.pixels,
    {
        self.pixels.as_slice()
    }

    /// Moves the canvas's recorded location, keeping its size and pixels.
    pub fn set_location(&mut self, location: Point)
        ensures
            final(self)@.rect == (Rect { x: location.x, y: location.y, ..old(self)@.rect }),
            final(self)@.pixels == old(self)@.pixels,
    {
        self.rect.x = location.x;
        self.rect.y = location.y;
    }

    /// Copies the block `source_rect` of this canvas onto `destination` with
    /// its upper-left pixel at `destination_point`, combining pixels by
    /// `operation`. Both rectangles are in the canvases' own coordinates.
    /// Nothing is written when either block reaches outside its canvas.
    pub fn blit(
        &self,
        source_rect: Rect,
        destination: &mut Canvas,
        destination_point: Point,
        operation: BlitOperation,
    ) -> (r: Result<(), GraphicsError>)
        requires
            self.wf(),
            old(destination).wf(),
        ensures
            final(destination).wf(),
            r is Ok <==> blit_fits(self@, source_rect, old(destination)@, destination_point),
            r is Err ==> r->Err_0 == GraphicsError::OutOfBounds && final(destination)@ == old(destination)@,
            r is Ok ==> final(destination)@ == (CanvasView {
                rect: old(destination)@.rect,
                pixels: blit_pixels(
                    self@.pixels,
                    self@.rect.width as int,
                    source_rect,
                    old(destination)@.pixels,
                    old(destination)@.rect.width as int,
                    destination_point,
                    operation,
                ),
            }),
    {
        let sr = source_rect;
        let at = destination_point;
        if sr.width < 0 || sr.height < 0 || sr.x < 0 || sr.y < 0 || at.x < 0 || at.y < 0 {
            return Err(GraphicsError::OutOfBounds);
        }
        if sr.x as i64 + sr.width as i64 > self.rect.width as i64
            || sr.y as i64 + sr.height as i64 > self.rect.height as i64
            || at.x as i64 + sr.width as i64 > destination.rect.width as i64
            || at.y as i64 + sr.height as i64 > destination.rect.height as i64 {
            return Err(GraphicsError::OutOfBounds);
        }
        let ghost src = self.pixels@;
        let ghost dst0 = destination.pixels@;
        let src_step = self.rect.width as usize;
        let dst_step = destination.rect.width as usize;
        let width = sr.width as usize;
        let height = sr.height as usize;
        let ghost ss = src_step as int;
        let ghost ds = dst_step as int;
        let ghost target = blit_pixels(src, ss, sr, dst0, ds, at, operation);
        let src_len = self.pixels.len();
        let dst_len = destination.pixels.len();
        let mut row: usize = 0;
        while row < height
            invariant
                self.wf(),
                destination.wf(),
                destination.rect == old(destination).rect,
                src == self.pixels@,
                ss == self.rect.width,
                ds == destination.rect.width,
                src_step == ss,
                dst_step == ds,
                width == sr.width,
                height == sr.height,
                blit_fits(self@, sr, old(destination)@, at),
                dst0 == old(destination).pixels@,
                src_len == src.len(),
                dst_len == dst0.len(),
                row <= height,
                destination.pixels@.len() == dst0.len(),
                forall|j: int| 0 <= j < dst0.len() ==> #[trigger] destination.pixels@[j] == if in_block(
                    j, ds, at.x as int, at.y as int, sr.width as int, row as int) {
                    apply_op(operation, src[source_index(j, ds, ss, sr, at)], dst0[j])
                } else {
                    dst0[j]
                },
            decreases height - row,
        {
            let mut col: usize = 0;
            while col < width
                invariant
                    self.wf(),
                    destination.wf(),
                    destination.rect == old(destination).rect,
                    src == self.pixels@,
                    ss == self.rect.width,
                    ds == destination.rect.width,
                    src_step == ss,
                    dst_step == ds,
                    width == sr.width,
                    height == sr.height,
                    blit_fits(self@, sr, old(destination)@, at),
                    dst0 == old(destination).pixels@,
                    src_len == src.len(),
                    dst_len == dst0.len(),
                    row < height,
                    col <= width,
                    destination.pixels@.len() == dst0.len(),
                    forall|j: int| 0 <= j < dst0.len() ==> #[trigger] destination.pixels@[j] == if in_block(
                        j, ds, at.x as int, at.y as int, sr.width as int, row as int) || (
                        j / ds == at.y + row && at.x <= j % ds < at.x + col) {
                        apply_op(operation, src[source_index(j, ds, ss, sr, at)], dst0[j])
                    } else {
                        dst0[j]
                    },
                decreases width - col,
            {
                let ghost sy = sr.y + row;
                let ghost sx = sr.x + col;
                let ghost dy = at.y + row;
                let ghost dx = at.x + col;
                proof {
                    lemma_cell_in_buffer(sy, sx, ss, self.rect.height as int);
                    lemma_cell_in_buffer(dy, dx, ds, destination.rect.height as int);
                    lemma_cell_index(dy, dx, ds);
                }
                let si: usize = (sr.y as usize + row) * src_step + sr.x as usize + col;
                let di: usize = (at.y as usize + row) * dst_step + at.x as usize + col;
                let v = combine(operation, self.pixels[si], destination.pixels[di]);
                destination.pixels.set(di, v);
                col = col + 1;
            }
            row = row + 1;
        }
        proof {
            assert(destination.pixels@ =~= target);
        }
        Ok(())
    }

    /// Adds `colour` to every pixel inside `rect` (in the canvas's own
    /// coordinates), wrapping past 255; remaps a drawing into another range
    /// of the palette. Nothing is written when `rect` reaches outside.
    pub fn shift_colour(&mut self, rect: Rect, colour: u8) -> (r: Result<(), GraphicsError>)
        requires
            old(self).wf(),
        ensures
            final(self).wf(),
            r is Ok <==> old(self)@.holds(rect),
            r is Err ==> r->Err_0 == GraphicsError::OutOfBounds && final(self)@ == old(self)@,
            r is Ok ==> final(self)@ == (CanvasView {
                rect: old(self)@.rect,
                pixels: shift_pixels(old(self)@.pixels, old(self)@.rect.width as int, rect, colour),
            }),
    {
        if rect.width < 0 || rect.height < 0 || rect.x < 0 || rect.y < 0 {
            return Err(GraphicsError::OutOfBounds);
        }
        if rect.x as i64 + rect.width as i64 > self.rect.width as i64
            || rect.y as i64 + rect.height as i64 > self.rect.height as i64 {
            return Err(GraphicsError::OutOfBounds);
        }
        let ghost before = self.pixels@;
        let step = self.rect.width as usize;
        let width = rect.width as usize;
        let height = rect.height as usize;
        let ghost st = step as int;
        let len = self.pixels.len();
        let mut row: usize = 0;
        while row < height
            invariant
                self.wf(),
                self.rect == old(self).rect,
                old(self)@.holds(rect),
                st == self.rect.width,
                step == st,
                width == rect.width,
                height == rect.height,
                before == old(self).pixels@,
                len == before.len(),
                row <= height,
                self.pixels@.len() == before.len(),
                forall|j: int| 0 <= j < before.len() ==> #[trigger] self.pixels@[j] == if in_block(
                    j, st, rect.x as int, rect.y as int, rect.width as int, row as int) {
                    ((before[j] + colour) % 256) as u8
                } else {
                    before[j]
                },
            decreases height - row,
        {
            let mut col: usize = 0;
            while col < width
                invariant
                    self.wf(),
                    self.rect == old(self).rect,
                    old(self)@.holds(rect),
                    st == self.rect.width,
                    step == st,
                    width == rect.width,
                    height == rect.height,
                    before == old(self).pixels@,
                    len == before.len(),
                    row < height,
                    col <= width,
                    self.pixels@.len() == before.len(),
                    forall|j: int| 0 <= j < before.len() ==> #[trigger] self.pixels@[j] == if in_block(
                        j, st, rect.x as int, rect.y as int, rect.width as int, row as int) || (
                        j / st == rect.y + row && rect.x <= j % st < rect.x + col) {
                        ((before[j] + colour) % 256) as u8
                    } else {
                        before[j]
                    },
                decreases width - col,
            {
                proof {
                    lemma_cell_in_buffer(rect.y + row, rect.x + col, st, self.rect.height as int);
                    lemma_cell_index(rect.y + row, rect.x + col, st);
                }
                let i: usize = (rect.y as usize + row) * step + rect.x as usize + col;
                let v: u8 = ((self.pixels[i] as u16 + colour as u16) % 256) as u8;
                self.pixels.set(i, v);
                col = col + 1;
            }
            row = row + 1;
        }
        proof {
            assert(self.pixels@ =~= shift_pixels(before, st, rect, colour));
        }
        Ok(())
    }

    /// Turns a decoded 8-bit image into a canvas at (0, 0): rows are put
    /// top-down (the file stores them bottom-up) and their padding dropped.
    /// Fails with `InvalidFormat` for other depths, sides beyond `i32`, or
    /// pixel data shorter than the rows it should hold.
    pub fn from_image(image: &Image) -> (r: Result<Canvas, GraphicsError>)
        ensures
            r is Ok <==> canvas_ready(image@),
            r is Err ==> r->Err_0 == GraphicsError::InvalidFormat,
            r is Ok ==> r->Ok_0.wf() && r->Ok_0@ == (CanvasView {
                rect: Rect { x: 0, y: 0, width: image@.width as i32, height: image@.height as i32 },
                pixels: flipped_rows(
                    image@.image_data,
                    image@.width as int,
                    image@.height as int,
                    padded_stride(image@.width as int),
                ),
            }),
    {
        if image.bpp() != 8 || image.width() > i32::MAX as u32 || image.height() > i32::MAX as u32 {
            return Err(GraphicsError::InvalidFormat);
        }
        let data = image.image_data();
        let w64: u64 = image.width() as u64;
        let h64: u64 = image.height() as u64;
        let stride64: u64 = (w64 + 3) / 4 * 4;
        proof {
            let (s, h) = (stride64 as int, h64 as int);
            assert(0 <= s * h <= 0x8000_0004 * 0x7fff_ffff) by (nonlinear_arith)
                requires
                    0 <= s <= 0x8000_0004,
                    0 <= h <= 0x7fff_ffff,
            ;
        }
        if stride64 * h64 > data.len() as u64 {
            return Err(GraphicsError::InvalidFormat);
        }
        let w = w64 as usize;
        let h = h64 as usize;
        let stride = stride64 as usize;
        let ghost d = data@;
        let ghost (wi, hi, si) = (w as int, h as int, stride as int);
        proof {
            assert(wi <= si);
            assert(0 <= wi * hi <= si * hi) by (nonlinear_arith)
                requires
                    0 <= wi <= si,
                    0 <= hi,
            ;
        }
        let dlen = data.len();
        let mut pixels: Vec<u8> = Vec::new();
        let mut row: usize = 0;
        while row < h
            invariant
                d == data@,
                wi == w,
                hi == h,
                si == stride,
                w <= stride,
                stride * h <= d.len(),
                w * h <= stride * h,
                row <= h,
                dlen == d.len(),
                pixels@ == Seq::new((wi * row) as nat, |j: int| d[(hi - 1 - j / wi) * si + j % wi]),
            decreases h - row,
        {
            let mut col: usize = 0;
            while col < w
                invariant
                    d == data@,
                    wi == w,
                    hi == h,
                    si == stride,
                    w <= stride,
                    stride * h <= d.len(),
                    row < h,
                    col <= w,
                    dlen == d.len(),
                    pixels@ == Seq::new((wi * row + col) as nat, |j: int| d[(hi - 1 - j / wi) * si + j % wi]),
                decreases w - col,
            {
                proof {
                    lemma_cell_in_buffer(hi - 1 - row, col as int, si, hi);
                    lemma_cell_index(row as int, col as int, wi);
                }
                let v = data[(h - 1 - row) * stride + col];
                pixels.push(v);
                col = col + 1;
                assert(pixels@ =~= Seq::new((wi * row + col) as nat, |j: int| d[(hi - 1 - j / wi) * si + j % wi]));
            }
            proof {
                let ri = row as int;
                assert(wi * (ri + 1) == wi * ri + wi) by (nonlinear_arith);
            }
            row = row + 1;
        }
        proof {
            assert(pixels@ =~= flipped_rows(d, wi, hi, si));
        }
        let rect = Rect { x: 0, y: 0, width: w as i32, height: h as i32 };
        Ok(Canvas { rect, pixels })
    }
}

/// Shifting a block by `k` and then by `256 - k` (mod 256) gives back the
/// original pixels.
pub proof fn lemma_shift_colour_inverse(pixels: Seq<u8>, stride: int, rect: Rect, k: u8)
    ensures
        shift_pixels(shift_pixels(pixels, stride, rect, k), stride, rect, ((256 - k) % 256) as u8) == pixels,
{
    let once = shift_pixels(pixels, stride, rect, k);
    let twice = shift_pixels(once, stride, rect, ((256 - k) % 256) as u8);
    assert forall|j: int| 0 <= j < pixels.len() implies #[trigger] twice[j] == pixels[j] by {
        if in_block(j, stride, rect.x as int, rect.y as int, rect.width as int, rect.height as int) {
            let p = pixels[j] as int;
            let ki = k as int;
            assert((((p + ki) % 256) + (256 - ki) % 256) % 256 == p) by (nonlinear_arith)
                requires
                    0 <= p < 256,
                    0 <= ki < 256,
            ;
        }
    }
    assert(twice =~= pixels);
}

} // verus!
