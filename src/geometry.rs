//! Points and axis-aligned rectangles.
use vstd::prelude::*;

use crate::error::GraphicsError;

verus! {

/// Quotient of `a` by `b` rounded toward zero, as the machine divides.
pub open spec fn trunc_div(a: int, b: int) -> int {
    if a >= 0 {
        if b > 0 { a / b } else { -(a / -b) }
    } else {
        if b > 0 { -(-a / b) } else { -a / -b }
    }
}

pub open spec fn min_int(a: int, b: int) -> int {
    if a <= b { a } else { b }
}

pub open spec fn max_int(a: int, b: int) -> int {
    if a >= b { a } else { b }
}

fn div_toward_zero(a: i32, b: i32) -> (r: i32)
    requires
        b != 0,
        !(a == i32::MIN && b == -1),
    ensures
        r == trunc_div(a as int, b as int),
{
    if b > 0 {
        a / b
    } else {
        let q: i64 = a as i64 / -(b as i64);
        proof {
            let ai = a as int;
            let bi = b as int;
            let d = -bi;
            if ai >= 0 {
                assert(q == ai / d);
                assert(0 <= ai / d <= ai) by (nonlinear_arith)
                    requires ai >= 0, d >= 1;
            } else {
                assert(q == -(-ai / d));
                assert(0 <= -ai / d <= -ai) by (nonlinear_arith)
                    requires -ai >= 0, d >= 1;
                if d == 1 {
                    assert(-ai / d == -ai) by (nonlinear_arith)
                        requires d == 1;
                } else {
                    assert(-ai / d <= -ai / 2) by (nonlinear_arith)
                        requires -ai >= 0, d >= 2;
                }
            }
        }
        (-q) as i32
    }
}

/// A signed two-dimensional integer coordinate.
#[derive(Clone, Copy, Debug, PartialEq, Eq, Structural)]
pub struct Point {
    pub x: i32,
    pub y: i32,
}

impl Point {
    pub fn new(x: i32, y: i32) -> (r: Point)
        ensures
            r.x == x,
            r.y == y,
    {
        Point { x, y }
    }

    /// Component-wise division, rounding toward zero; maps a screen
    /// coordinate onto a coarser grid.
    pub fn div(self, rhs: Point) -> (r: Point)
        requires
            rhs.x != 0,
            rhs.y != 0,
            !(self.x == i32::MIN && rhs.x == -1),
            !(self.y == i32::MIN && rhs.y == -1),
        ensures
            r.x == trunc_div(self.x as int, rhs.x as int),
            r.y == trunc_div(self.y as int, rhs.y as int),
    {
        Point { x: div_toward_zero(self.x, rhs.x), y: div_toward_zero(self.y, rhs.y) }
    }

    /// Component-wise multiplication.
    pub fn mul(self, rhs: Point) -> (r: Point)
        requires
            i32::MIN <= self.x * rhs.x <= i32::MAX,
            i32::MIN <= self.y * rhs.y <= i32::MAX,
        ensures
            r.x == self.x * rhs.x,
            r.y == self.y * rhs.y,
    {
        Point { x: self.x * rhs.x, y: self.y * rhs.y }
    }
}

/// An axis-aligned rectangle: its upper-left corner and its size.
#[derive(Clone, Copy, Debug, PartialEq, Eq, Structural)]
pub struct Rect {
    pub x: i32,
    pub y: i32,
    pub width: i32,
    pub height: i32,
}

impl Rect {
    /// Width and height are not negative.
    pub open spec fn wf(self) -> bool {
        self.width >= 0 && self.height >= 0
    }

    /// First column past the right edge.
    pub open spec fn right(self) -> int {
        self.x + self.width
    }

    /// First row past the bottom edge.
    pub open spec fn bottom(self) -> int {
        self.y + self.height
    }

    /// `other` lies entirely inside `self`.
    pub open spec fn contains(self, other: Rect) -> bool {
        &&& self.x <= other.x
        &&& other.right() <= self.right()
        &&& self.y <= other.y
        &&& other.bottom() <= self.bottom()
    }

    /// The half-open areas of the two rectangles share a point.
    pub open spec fn overlaps(self, other: Rect) -> bool {
        &&& self.x < other.right()
        &&& other.x < self.right()
        &&& self.y < other.bottom()
        &&& other.y < self.bottom()
    }

    pub open spec fn spec_new(x: i32, y: i32, width: i32, height: i32) -> Result<Rect, GraphicsError> {
        if width < 0 || height < 0 {
            Err(GraphicsError::InvalidDimensions)
        } else {
            Ok(Rect { x, y, width, height })
        }
    }

    pub open spec fn spec_intersection(self, other: Rect) -> Option<Rect> {
        let x1 = max_int(self.x as int, other.x as int);
        let y1 = max_int(self.y as int, other.y as int);
        let x2 = min_int(self.right(), other.right());
        let y2 = min_int(self.bottom(), other.bottom());
        if x1 < x2 && y1 < y2 {
            Some(Rect { x: x1 as i32, y: y1 as i32, width: (x2 - x1) as i32, height: (y2 - y1) as i32 })
        } else {
            None
        }
    }

    /// The smallest rectangle holding both rectangles fits in `i32`.
    pub open spec fn union_fits(self, other: Rect) -> bool {
        &&& max_int(self.right(), other.right()) - min_int(self.x as int, other.x as int) <= i32::MAX
        &&& max_int(self.bottom(), other.bottom()) - min_int(self.y as int, other.y as int) <= i32::MAX
    }

    pub open spec fn spec_union(self, other: Rect) -> Rect {
        let x = min_int(self.x as int, other.x as int);
        let y = min_int(self.y as int, other.y as int);
        Rect {
            x: x as i32,
            y: y as i32,
            width: (max_int(self.right(), other.right()) - x) as i32,
            height: (max_int(self.bottom(), other.bottom()) - y) as i32,
        }
    }

    /// Makes a rectangle; fails when the width or the height is negative.
    pub fn new(x: i32, y: i32, width: i32, height: i32) -> (r: Result<Rect, GraphicsError>)
        ensures
            r == Rect::spec_new(x, y, width, height),
    {
        if width < 0 || height < 0 {
            return Err(GraphicsError::InvalidDimensions);
        }
        Ok(Rect { x, y, width, height })
    }

    /// Whether the two rectangles overlap (touching edges do not count).
    pub fn intersects(&self, other: &Rect) -> (r: bool)
        ensures
            r == self.overlaps(*other),
    {
        let a_right = self.x as i64 + self.width as i64;
        let b_right = other.x as i64 + other.width as i64;
        let a_bottom = self.y as i64 + self.height as i64;
        let b_bottom = other.y as i64 + other.height as i64;
        (self.x as i64) < b_right && a_right > other.x as i64 && (self.y as i64) < b_bottom
            && a_bottom > other.y as i64
    }

    /// The overlapping rectangle, if the two overlap.
    pub fn intersection(&self, other: &Rect) -> (r: Option<Rect>)
        ensures
            r == self.spec_intersection(*other),
    {
        let x1: i64 = if self.x >= other.x { self.x as i64 } else { other.x as i64 };
        let y1: i64 = if self.y >= other.y { self.y as i64 } else { other.y as i64 };
        let a_right = self.x as i64 + self.width as i64;
        let b_right = other.x as i64 + other.width as i64;
        let a_bottom = self.y as i64 + self.height as i64;
        let b_bottom = other.y as i64 + other.height as i64;
        let x2: i64 = if a_right <= b_right { a_right } else { b_right };
        let y2: i64 = if a_bottom <= b_bottom { a_bottom } else { b_bottom };
        if x1 < x2 && y1 < y2 {
            Some(Rect { x: x1 as i32, y: y1 as i32, width: (x2 - x1) as i32, height: (y2 - y1) as i32 })
        } else {
            None
        }
    }

    /// The smallest rectangle that holds both rectangles.
    pub fn union(&self, other: &Rect) -> (r: Rect)
        requires
            self.union_fits(*other),
        ensures
            r == self.spec_union(*other),
    {
        let x: i64 = if self.x <= other.x { self.x as i64 } else { other.x as i64 };
        let y: i64 = if self.y <= other.y { self.y as i64 } else { other.y as i64 };
        let a_right = self.x as i64 + self.width as i64;
        let b_right = other.x as i64 + other.width as i64;
        let a_bottom = self.y as i64 + self.height as i64;
        let b_bottom = other.y as i64 + other.height as i64;
        let x2: i64 = if a_right >= b_right { a_right } else { b_right };
        let y2: i64 = if a_bottom >= b_bottom { a_bottom } else { b_bottom };
        Rect { x: x as i32, y: y as i32, width: (x2 - x) as i32, height: (y2 - y) as i32 }
    }

    /// Moves the rectangle by `distance`.
    pub fn offset(&mut self, distance: Point)
        requires
            i32::MIN <= old(self).x + distance.x <= i32::MAX,
            i32::MIN <= old(self).y + distance.y <= i32::MAX,
        ensures
            final(self).x == old(self).x + distance.x,
            final(self).y == old(self).y + distance.y,
            final(self).width == old(self).width,
            final(self).height == old(self).height,
    {
        self.x = self.x + distance.x;
        self.y = self.y + distance.y;
    }

    pub fn location(&self) -> (r: Point)
        ensures
            r == (Point { x: self.x, y: self.y }),
    {
        Point::new(self.x, self.y)
    }

    pub fn upper_left(&self) -> (r: Point)
        ensures
            r == (Point { x: self.x, y: self.y }),
    {
        self.location()
    }

    pub fn upper_right(&self) -> (r: Point)
        requires
            self.wf(),
            self.right() <= i32::MAX,
        ensures
            r.x == self.right(),
            r.y == self.y,
    {
        Point::new(self.x + self.width, self.y)
    }

    pub fn lower_left(&self) -> (r: Point)
        requires
            self.wf(),
            self.bottom() <= i32::MAX,
        ensures
            r.x == self.x,
            r.y == self.bottom(),
    {
        Point::new(self.x, self.y + self.height)
    }

    pub fn lower_right(&self) -> (r: Point)
        requires
            self.wf(),
            self.right() <= i32::MAX,
            self.bottom() <= i32::MAX,
        ensures
            r.x == self.right(),
            r.y == self.bottom(),
    {
        Point::new(self.x + self.width, self.y + self.height)
    }
}

/// Any non-negative width and height make a rectangle, and its upper-left
/// corner lies above and to the left of (or on) its lower-right corner.
pub proof fn lemma_new_rect_corners_ordered(x: i32, y: i32, width: i32, height: i32)
    requires
        width >= 0,
        height >= 0,
    ensures
        Rect::spec_new(x, y, width, height) is Ok,
        ({
            let r = Rect::spec_new(x, y, width, height)->Ok_0;
            &&& r.wf()
            &&& r.x <= r.right()
            &&& r.y <= r.bottom()
        }),
{
}

/// A negative width or height is rejected with `InvalidDimensions`.
pub proof fn lemma_new_rect_rejects_negative(x: i32, y: i32, width: i32, height: i32)
    requires
        width < 0 || height < 0,
    ensures
        Rect::spec_new(x, y, width, height) == Err::<Rect, GraphicsError>(GraphicsError::InvalidDimensions),
{
}

/// Overlap and intersection do not depend on the order of the two rectangles.
pub proof fn lemma_intersection_symmetric(a: Rect, b: Rect)
    ensures
        a.overlaps(b) == b.overlaps(a),
        a.spec_intersection(b) == b.spec_intersection(a),
{
}

/// Where the intersection exists the two rectangles overlap, and it lies
/// inside both.
pub proof fn lemma_intersection_inside(a: Rect, b: Rect)
    requires
        a.wf(),
        b.wf(),
    ensures
        a.spec_intersection(b) is Some ==> {
            let r = a.spec_intersection(b)->Some_0;
            &&& a.overlaps(b)
            &&& r.wf()
            &&& a.contains(r)
            &&& b.contains(r)
        },
{
}

/// The union holds both rectangles, and every rectangle that holds both
/// holds the union: no smaller rectangle holds both.
pub proof fn lemma_union_smallest_enclosing(a: Rect, b: Rect)
    requires
        a.wf(),
        b.wf(),
        a.union_fits(b),
    ensures
        a.spec_union(b).wf(),
        a.spec_union(b).contains(a),
        a.spec_union(b).contains(b),
        forall|c: Rect| c.contains(a) && c.contains(b) ==> #[trigger] c.contains(a.spec_union(b)),
{
}

} // verus!
