//! Sprites: images that draw themselves onto a canvas and erase themselves
//! again by restoring the background they covered.
use vstd::prelude::*;
use vstd::arithmetic::div_mod::{lemma_fundamental_div_mod, lemma_fundamental_div_mod_converse};

use crate::canvas::{blit_fits, blit_pixels, in_block, source_index, whole, BlitOperation, Canvas, CanvasView};
use crate::error::GraphicsError;
use crate::geometry::{Point, Rect};

verus! {

/// What a sprite holds.
pub struct SpriteView {
    /// The background under the last draw, located where that draw put the image.
    pub history: CanvasView,
    pub image: CanvasView,
    pub mask: Option<CanvasView>,
    /// The index that counts as transparent when there is no mask.
    pub transparent: u8,
    /// Whether the sprite has been drawn, so that `history` is meaningful.
    pub placed: bool,
}

/// The area of `surface` that the image of `s` covers when drawn at `p`.
pub open spec fn target(s: SpriteView, p: Point) -> Rect {
    Rect { x: p.x, y: p.y, width: s.image.rect.width, height: s.image.rect.height }
}

impl SpriteView {
    pub open spec fn wf(self) -> bool {
        &&& self.image.wf()
        &&& self.history.wf()
        &&& self.history.rect.width == self.image.rect.width
        &&& self.history.rect.height == self.image.rect.height
        &&& (self.mask matches Some(m) ==> m.wf())
    }
}

/// Drawing `s` at `p` on `surface` stays inside every canvas involved.
pub open spec fn draw_fits(s: SpriteView, surface: CanvasView, p: Point) -> bool {
    &&& surface.holds(target(s, p))
    &&& (s.mask matches Some(m) ==> m.holds(whole(s.image)))
}

/// The surface's pixels after drawing `s` at `p`: through the mask (AND,
/// then the image by OR) if there is one, else keyed by the transparent index.
pub open spec fn drawn_pixels(s: SpriteView, surface: CanvasView, p: Point) -> Seq<u8> {
    let sw = surface.rect.width as int;
    let local = whole(s.image);
    match s.mask {
        Some(m) => blit_pixels(
            s.image.pixels,
            s.image.rect.width as int,
            local,
            blit_pixels(m.pixels, m.rect.width as int, local, surface.pixels, sw, p, BlitOperation::And),
            sw,
            p,
            BlitOperation::Or,
        ),
        None => blit_pixels(
            s.image.pixels,
            s.image.rect.width as int,
            local,
            surface.pixels,
            sw,
            p,
            BlitOperation::Keyed(s.transparent),
        ),
    }
}

/// The sprite after drawing at `p` on `surface`: its history holds the
/// covered background, located at `p`.
pub open spec fn drawn_sprite(s: SpriteView, surface: CanvasView, p: Point) -> SpriteView {
    SpriteView {
        history: CanvasView {
            rect: Rect { x: p.x, y: p.y, ..s.history.rect },
            pixels: blit_pixels(
                surface.pixels,
                surface.rect.width as int,
                target(s, p),
                s.history.pixels,
                s.history.rect.width as int,
                Point { x: 0, y: 0 },
                BlitOperation::Direct,
            ),
        },
        placed: true,
        ..s
    }
}

/// Where the history goes back to on `surface`.
pub open spec fn history_point(s: SpriteView) -> Point {
    Point { x: s.history.rect.x, y: s.history.rect.y }
}

/// The surface's pixels after erasing `s`: the history copied back.
pub open spec fn erased_pixels(s: SpriteView, surface: CanvasView) -> Seq<u8> {
    blit_pixels(
        s.history.pixels,
        s.history.rect.width as int,
        whole(s.history),
        surface.pixels,
        surface.rect.width as int,
        history_point(s),
        BlitOperation::Direct,
    )
}

pub open spec fn view_of(c: Option<Canvas>) -> Option<CanvasView> {
    match c {
        Some(m) => Some(m@),
        None => None,
    }
}

/// An image that can be drawn onto a canvas and erased from it again
/// without redrawing the rest of the canvas.
pub struct Sprite {
    history: Canvas,
    image: Canvas,
    mask: Option<Canvas>,
    transparent: u8,
    placed: bool,
}

impl View for Sprite {
    type V = SpriteView;

    closed spec fn view(&self) -> SpriteView {
        SpriteView {
            history: self.history@,
            image: self.image@,
            mask: view_of(self.mask),
            transparent: self.transparent,
            placed: self.placed,
        }
    }
}

impl Sprite {
    pub open spec fn wf(&self) -> bool {
        self@.wf()
    }

    /// A sprite of `image`, drawn through `mask` if one is given, else with
    /// `transparent` as the index that leaves the background showing. It has
    /// not been drawn yet.
    pub fn new(image: Canvas, mask: Option<Canvas>, transparent: u8) -> (r: Sprite)
        requires
            image.wf(),
            mask matches Some(m) ==> m.wf(),
        ensures
            r.wf(),
            r@.image == image@,
            r@.mask == view_of(mask),
            r@.transparent == transparent,
            !r@.placed,
            r@.history.rect == whole(image@),
    {
        let rect = image.rect();
        // The image's own buffer shows that a buffer of its size fits in memory.
        let _pixel_count = image.pixels().len();
        let history = Canvas::new_blank(Rect { x: 0, y: 0, width: rect.width, height: rect.height });
        Sprite { history, image, mask, transparent, placed: false }
    }

    /// Draws the sprite on `surface` with its upper-left pixel at `point`,
    /// first saving the background it covers. Fails with `OutOfBounds`,
    /// changing nothing, when the image would reach outside `surface` or the
    /// mask is smaller than the image.
    pub fn draw(&mut self, surface: &mut Canvas, point: Point) -> (r: Result<(), GraphicsError>)
        requires
            old(self).wf(),
            old(surface).wf(),
        ensures
            final(self).wf(),
            final(surface).wf(),
            r is Ok <==> draw_fits(old(self)@, old(surface)@, point),
            r is Err ==> r->Err_0 == GraphicsError::OutOfBounds && final(self)@ == old(self)@
                && final(surface)@ == old(surface)@,
            r is Ok ==> final(self)@ == drawn_sprite(old(self)@, old(surface)@, point)
                && final(surface)@ == (CanvasView {
                rect: old(surface)@.rect,
                pixels: drawn_pixels(old(self)@, old(surface)@, point),
            }),
    {
        let size = self.image.rect();
        let area = Rect { x: point.x, y: point.y, width: size.width, height: size.height };
        let bounds = surface.rect();
        if point.x < 0 || point.y < 0 || point.x as i64 + size.width as i64 > bounds.width as i64
            || point.y as i64 + size.height as i64 > bounds.height as i64 {
            return Err(GraphicsError::OutOfBounds);
        }
        let local = Rect { x: 0, y: 0, width: size.width, height: size.height };
        match &self.mask {
            Some(m) => {
                let mr = m.rect();
                if mr.width < size.width || mr.height < size.height {
                    return Err(GraphicsError::OutOfBounds);
                }
            },
            None => {},
        }
        self.history.set_location(point);
        surface.blit(area, &mut self.history, Point { x: 0, y: 0 }, BlitOperation::Direct)?;
        match &self.mask {
            Some(m) => {
                m.blit(local, surface, point, BlitOperation::And)?;
                self.image.blit(local, surface, point, BlitOperation::Or)?;
            },
            None => {
                self.image.blit(local, surface, point, BlitOperation::Keyed(self.transparent))?;
            },
        }
        self.placed = true;
        Ok(())
    }

    /// Puts back on `surface` the background saved by the last draw. Fails
    /// with `InvalidState` when the sprite has not been drawn, and with
    /// `OutOfBounds` when the saved area reaches outside `surface`; in both
    /// cases nothing is written.
    pub fn erase(&self, surface: &mut Canvas) -> (r: Result<(), GraphicsError>)
        requires
            self.wf(),
            old(surface).wf(),
        ensures
            final(surface).wf(),
            !self@.placed ==> r == Err::<(), GraphicsError>(GraphicsError::InvalidState),
            self@.placed ==> (r is Ok <==> blit_fits(self@.history, whole(self@.history), old(surface)@, history_point(self@))),
            r is Err ==> final(surface)@ == old(surface)@,
            self@.placed && r is Err ==> r->Err_0 == GraphicsError::OutOfBounds,
            r is Ok ==> final(surface)@ == (CanvasView {
                rect: old(surface)@.rect,
                pixels: erased_pixels(self@, old(surface)@),
            }),
    {
        if !self.placed {
            return Err(GraphicsError::InvalidState);
        }
        let h = self.history.rect();
        let local = Rect { x: 0, y: 0, width: h.width, height: h.height };
        self.history.blit(local, surface, Point { x: h.x, y: h.y }, BlitOperation::Direct)
    }

    pub fn width(&self) -> (r: i32)
        ensures
            r == self@.image.rect.width,
    {
        self.image.rect().width
    }

    pub fn height(&self) -> (r: i32)
        ensures
            r == self@.image.rect.height,
    {
        self.image.rect().height
    }

    pub fn image_rect(&self) -> (r: Rect)
        ensures
            r == self@.image.rect,
    {
        self.image.rect()
    }

    pub fn is_placed(&self) -> (r: bool)
        ensures
            r == self@.placed,
    {
        self.placed
    }
}

/// Drawing a sprite and erasing it right after, with nothing else writing
/// to the surface in between, leaves the surface as it was.
pub proof fn lemma_draw_then_erase_restores(s: SpriteView, surface: CanvasView, p: Point)
    requires
        s.wf(),
        surface.wf(),
        draw_fits(s, surface, p),
    ensures
        drawn_sprite(s, surface, p).placed,
        blit_fits(
            drawn_sprite(s, surface, p).history,
            whole(drawn_sprite(s, surface, p).history),
            CanvasView { rect: surface.rect, pixels: drawn_pixels(s, surface, p) },
            history_point(drawn_sprite(s, surface, p)),
        ),
        erased_pixels(
            drawn_sprite(s, surface, p),
            CanvasView { rect: surface.rect, pixels: drawn_pixels(s, surface, p) },
        ) == surface.pixels,
{
    let s2 = drawn_sprite(s, surface, p);
    let d2 = CanvasView { rect: surface.rect, pixels: drawn_pixels(s, surface, p) };
    let e = erased_pixels(s2, d2);
    let sw = surface.rect.width as int;
    let sh = surface.rect.height as int;
    let w = s.image.rect.width as int;
    let h = s.image.rect.height as int;
    let hist = s2.history.pixels;
    assert forall|j: int| 0 <= j < surface.pixels.len() implies #[trigger] e[j] == surface.pixels[j] by {
        if in_block(j, sw, p.x as int, p.y as int, w, h) {
            assert(sw > 0) by (nonlinear_arith)
                requires
                    0 <= j < sw * sh,
                    sw >= 0,
                    sh >= 0,
            ;
            let r = j / sw - p.y;
            let c = j % sw - p.x;
            let k = source_index(j, sw, w, whole(s2.history), history_point(s2));
            assert(k == r * w + c);
            assert(0 <= k < w * h) by (nonlinear_arith)
                requires
                    k == r * w + c,
                    0 <= r < h,
                    0 <= c < w,
            ;
            lemma_fundamental_div_mod_converse(k, w, r, c);
            assert(in_block(k, w, 0, 0, w, h));
            assert(source_index(k, w, sw, target(s, p), Point { x: 0, y: 0 }) == (p.y + r) * sw + p.x + c);
            lemma_fundamental_div_mod(j, sw);
            assert(sw * (j / sw) == (j / sw) * sw) by (nonlinear_arith);
            assert(hist[k] == surface.pixels[j]);
        }
    }
    assert(e =~= surface.pixels);
}

} // verus!
