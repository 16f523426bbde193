//! Integer points, sizes and rectangles with the usual constructors and
//! queries.

use core::cmp::Ordering;
use vstd::prelude::*;
use vstd::std_specs::cmp::PartialOrdSpec;

verus! {

/// The smaller of `a` and `b` under their partial order; `a` on ties.
/// The result is pinned down whenever the type's comparison obeys its
/// specification (as every integer type's does).
pub fn partial_min<T: PartialOrd>(a: T, b: T) -> (r: T)
    ensures
        T::obeys_partial_cmp_spec() ==> {
            &&& (a.partial_cmp_spec(&b) matches Some(Ordering::Less | Ordering::Equal) ==> r == a)
            &&& !(a.partial_cmp_spec(&b) matches Some(Ordering::Less | Ordering::Equal)) ==> r == b
        },
{
    if a.le(&b) {
        a
    } else {
        b
    }
}

/// The larger of `a` and `b` under their partial order; `b` on ties.
pub fn partial_max<T: PartialOrd>(a: T, b: T) -> (r: T)
    ensures
        T::obeys_partial_cmp_spec() ==> {
            &&& (b.partial_cmp_spec(&a) matches Some(Ordering::Greater | Ordering::Equal) ==> r == b)
            &&& !(b.partial_cmp_spec(&a) matches Some(Ordering::Greater | Ordering::Equal)) ==> r == a
        },
{
    if b.ge(&a) {
        b
    } else {
        a
    }
}

/// A 2-D point with integer coordinates.
#[derive(Copy, Clone, Debug, PartialEq, Eq, Structural)]
pub struct Point_ {
    pub x: i32,
    pub y: i32,
}

impl Point_ {
    pub fn new(x: i32, y: i32) -> (r: Self)
        ensures
            r == (Point_ { x, y }),
    {
        Point_ { x, y }
    }
}

/// A 2-D extent with integer width and height.
#[derive(Copy, Clone, Debug, PartialEq, Eq, Structural)]
pub struct Size_ {
    pub width: i32,
    pub height: i32,
}

impl Size_ {
    pub fn new(width: i32, height: i32) -> (r: Self)
        ensures
            r == (Size_ { width, height }),
    {
        Size_ { width, height }
    }
}

/// An axis-aligned rectangle given by its top-left corner and extent.
#[derive(Copy, Clone, Debug, PartialEq, Eq, Structural)]
pub struct Rect_ {
    pub x: i32,
    pub y: i32,
    pub width: i32,
    pub height: i32,
}

impl Rect_ {
    pub fn new(x: i32, y: i32, width: i32, height: i32) -> (r: Self)
        ensures
            r == (Rect_ { x, y, width, height }),
    {
        Rect_ { x, y, width, height }
    }

    /// The rectangle with `pt` as its top-left corner and `sz` as its
    /// extent.
    pub fn from_point_size(pt: Point_, sz: Size_) -> (r: Self)
        ensures
            r == (Rect_ { x: pt.x, y: pt.y, width: sz.width, height: sz.height }),
    {
        Rect_::new(pt.x, pt.y, sz.width, sz.height)
    }

    /// The smallest rectangle containing both `pt1` and `pt2`, whose corner
    /// coordinates are the componentwise minima and whose extent spans to
    /// the componentwise maxima.
    pub fn from_points(pt1: Point_, pt2: Point_) -> (r: Self)
        requires
            pt1.x - pt2.x <= i32::MAX,
            pt2.x - pt1.x <= i32::MAX,
            pt1.y - pt2.y <= i32::MAX,
            pt2.y - pt1.y <= i32::MAX,
        ensures
            r.x == if pt1.x <= pt2.x { pt1.x } else { pt2.x },
            r.y == if pt1.y <= pt2.y { pt1.y } else { pt2.y },
            r.width == (if pt1.x >= pt2.x { pt1.x } else { pt2.x }) - r.x,
            r.height == (if pt1.y >= pt2.y { pt1.y } else { pt2.y }) - r.y,
    {
        let x = partial_min(pt1.x, pt2.x);
        let y = partial_min(pt1.y, pt2.y);
        Rect_::new(x, y, partial_max(pt1.x, pt2.x) - x, partial_max(pt1.y, pt2.y) - y)
    }

    /// The top-left corner.
    pub fn tl(&self) -> (r: Point_)
        ensures
            r == (Point_ { x: self.x, y: self.y }),
    {
        Point_::new(self.x, self.y)
    }

    /// The bottom-right corner.
    pub fn br(&self) -> (r: Point_)
        requires
            i32::MIN <= self.x + self.width <= i32::MAX,
            i32::MIN <= self.y + self.height <= i32::MAX,
        ensures
            r.x == self.x + self.width,
            r.y == self.y + self.height,
    {
        Point_::new(self.x + self.width, self.y + self.height)
    }

    /// The extent.
    pub fn size(&self) -> (r: Size_)
        ensures
            r == (Size_ { width: self.width, height: self.height }),
    {
        Size_::new(self.width, self.height)
    }

    /// The area, `width * height`.
    pub fn area(&self) -> (r: i32)
        requires
            i32::MIN <= self.width * self.height <= i32::MAX,
        ensures
            r == self.width * self.height,
    {
        self.width * self.height
    }

    /// Whether the rectangle contains no point.
    pub fn empty(&self) -> (r: bool)
        ensures
            r == (self.width <= 0 || self.height <= 0),
    {
        self.width <= 0 || self.height <= 0
    }

    /// Whether `pt` lies inside the rectangle: at or right/below the
    /// top-left corner and strictly left/above the bottom-right corner.
    pub fn contains(&self, pt: Point_) -> (r: bool)
        requires
            i32::MIN <= self.x + self.width <= i32::MAX,
            i32::MIN <= self.y + self.height <= i32::MAX,
        ensures
            r == (self.x <= pt.x && pt.x < self.x + self.width && self.y <= pt.y && pt.y
                < self.y + self.height),
    {
        self.x <= pt.x && pt.x < self.x + self.width && self.y <= pt.y && pt.y
            < self.y + self.height
    }
}

impl core::ops::Add<Point_> for Rect_ {
    type Output = Rect_;

    /// Shifts the rectangle by the point's coordinates.
    fn add(self, rhs: Point_) -> (r: Rect_) {
        Rect_ { x: self.x + rhs.x, y: self.y + rhs.y, ..self }
    }
}

impl vstd::std_specs::ops::AddSpecImpl<Point_> for Rect_ {
    open spec fn obeys_add_spec() -> bool {
        true
    }

    open spec fn add_req(self, rhs: Point_) -> bool {
        i32::MIN <= self.x + rhs.x <= i32::MAX && i32::MIN <= self.y + rhs.y <= i32::MAX
    }

    open spec fn add_spec(self, rhs: Point_) -> Rect_ {
        Rect_ { x: (self.x + rhs.x) as i32, y: (self.y + rhs.y) as i32, ..self }
    }
}

impl core::ops::Sub<Point_> for Rect_ {
    type Output = Rect_;

    /// Shifts the rectangle back by the point's coordinates.
    fn sub(self, rhs: Point_) -> (r: Rect_) {
        Rect_ { x: self.x - rhs.x, y: self.y - rhs.y, ..self }
    }
}

impl vstd::std_specs::ops::SubSpecImpl<Point_> for Rect_ {
    open spec fn obeys_sub_spec() -> bool {
        true
    }

    open spec fn sub_req(self, rhs: Point_) -> bool {
        i32::MIN <= self.x - rhs.x <= i32::MAX && i32::MIN <= self.y - rhs.y <= i32::MAX
    }

    open spec fn sub_spec(self, rhs: Point_) -> Rect_ {
        Rect_ { x: (self.x - rhs.x) as i32, y: (self.y - rhs.y) as i32, ..self }
    }
}

impl core::ops::Add<Size_> for Rect_ {
    type Output = Rect_;

    /// Grows the rectangle's extent by the size.
    fn add(self, rhs: Size_) -> (r: Rect_) {
        Rect_ { width: self.width + rhs.width, height: self.height + rhs.height, ..self }
    }
}

impl vstd::std_specs::ops::AddSpecImpl<Size_> for Rect_ {
    open spec fn obeys_add_spec() -> bool {
        true
    }

    open spec fn add_req(self, rhs: Size_) -> bool {
        i32::MIN <= self.width + rhs.width <= i32::MAX && i32::MIN <= self.height + rhs.height
            <= i32::MAX
    }

    open spec fn add_spec(self, rhs: Size_) -> Rect_ {
        Rect_ {
            width: (self.width + rhs.width) as i32,
            height: (self.height + rhs.height) as i32,
            ..self
        }
    }
}

impl core::ops::Sub<Size_> for Rect_ {
    type Output = Rect_;

    /// Shrinks the rectangle's extent by the size.
    fn sub(self, rhs: Size_) -> (r: Rect_) {
        Rect_ { width: self.width - rhs.width, height: self.height - rhs.height, ..self }
    }
}

impl vstd::std_specs::ops::SubSpecImpl<Size_> for Rect_ {
    open spec fn obeys_sub_spec() -> bool {
        true
    }

    open spec fn sub_req(self, rhs: Size_) -> bool {
        i32::MIN <= self.width - rhs.width <= i32::MAX && i32::MIN <= self.height - rhs.height
            <= i32::MAX
    }

    open spec fn sub_spec(self, rhs: Size_) -> Rect_ {
        Rect_ {
            width: (self.width - rhs.width) as i32,
            height: (self.height - rhs.height) as i32,
            ..self
        }
    }
}

impl Default for Rect_ {
    /// The all-zero rectangle.
    fn default() -> (r: Self)
        ensures
            r == (Rect_ { x: 0, y: 0, width: 0, height: 0 }),
    {
        Rect_ { x: 0, y: 0, width: 0, height: 0 }
    }
}

} // verus!
