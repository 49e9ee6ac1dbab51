//! The rectangle value type, its operations, and the laws they obey.

use vstd::prelude::*;
use crate::measure::area;

verus! {

/// An axis-aligned rectangle whose sides are whole numbers of pixels.
///
/// Every pair of sides is a valid rectangle; nothing ties the width to the
/// height, and a side of zero gives an empty rectangle. Two rectangles are
/// equal exactly when their widths and their heights are equal.
#[derive(Debug, Clone, Copy, PartialEq, Eq, Structural)]
pub struct Rectangle {
    pub width: u32,
    pub height: u32,
}

impl Rectangle {
    /// The number of square pixels the rectangle covers.
    pub open spec fn spec_area(self) -> int {
        self.width * self.height
    }

    /// Whether `self` is strictly wider and strictly taller than `other`.
    pub open spec fn spec_can_hold(self, other: Rectangle) -> bool {
        self.width > other.width && self.height > other.height
    }

    /// A rectangle whose width and height are both `size`.
    pub fn square(size: u32) -> (r: Rectangle)
        ensures
            r.width == size,
            r.height == size,
    {
        Rectangle { width: size, height: size }
    }

    /// The area in square pixels: exactly `width * height`.
    ///
    /// The result is widened to `u64`, which holds the product of any two
    /// `u32` sides.
    pub fn area(&self) -> (a: u64)
        ensures
            a == self.spec_area(),
    {
        area(self.width, self.height)
    }

    /// Whether `other` fits completely within `self`.
    ///
    /// This compares the two sides independently and strictly. It does not
    /// compare areas, and a rectangle that matches `self` in either dimension
    /// does not fit.
    pub fn can_hold(&self, other: &Rectangle) -> (b: bool)
        ensures
            b == self.spec_can_hold(*other),
    {
        self.width > other.width && self.height > other.height
    }
}

/// The area of a borrowed rectangle; the same value as [`Rectangle::area`].
pub fn area_using_struct(rectangle: &Rectangle) -> (a: u64)
    ensures
        a == rectangle.spec_area(),
{
    rectangle.area()
}

/// No rectangle can hold itself.
pub proof fn lemma_can_hold_irreflexive(r: Rectangle)
    ensures
        !r.spec_can_hold(r),
{
}

/// Holding is not a symmetric relation: there are two rectangles of which
/// one holds the other while the other does not hold the first.
pub proof fn lemma_can_hold_not_symmetric()
    ensures
        exists|a: Rectangle, b: Rectangle| #[trigger] a.spec_can_hold(b) != b.spec_can_hold(a),
{
    let a = Rectangle { width: 2, height: 2 };
    let b = Rectangle { width: 1, height: 1 };
    assert(a.spec_can_hold(b) != b.spec_can_hold(a));
}

/// A rectangle that holds another has strictly the larger area.
pub proof fn lemma_can_hold_implies_larger_area(a: Rectangle, b: Rectangle)
    requires
        a.spec_can_hold(b),
    ensures
        a.spec_area() > b.spec_area(),
{
    assert(a.width * a.height > b.width * b.height) by (nonlinear_arith)
        requires
            a.width > b.width,
            a.height > b.height,
    ;
}

/// The converse fails: a larger area is not enough to hold a rectangle.
pub proof fn lemma_larger_area_need_not_hold()
    ensures
        exists|a: Rectangle, b: Rectangle|
            a.spec_area() > b.spec_area() && !#[trigger] a.spec_can_hold(b),
{
    let a = Rectangle { width: 1, height: 4 };
    let b = Rectangle { width: 2, height: 1 };
    assert(a.spec_area() > b.spec_area() && !a.spec_can_hold(b));
}

} // verus!
