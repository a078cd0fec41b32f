//! Axis-aligned shapes.

use crate::fixed::Fixed;
use crate::gmath::vectors::Vec2;
use vstd::prelude::*;

verus! {

/// Circle structure, with center and radius.
#[derive(Clone, Copy, Debug)]
pub struct Circle {
    pub center: Vec2<Fixed>,
    pub radius: Fixed,
}

/// Rectangle structure: a top-left corner and a size. The y axis points down.
#[derive(Clone, Copy, Debug)]
pub struct Rect {
    pub x: Fixed,
    pub y: Fixed,
    pub width: Fixed,
    pub height: Fixed,
}

impl Rect {
    /// The x value of the left edge.
    pub open spec fn left_spec(&self) -> Fixed {
        self.x
    }

    /// The x value of the right edge: `x + width`, saturated.
    pub open spec fn right_spec(&self) -> Fixed {
        self.x.add(self.width)
    }

    /// The y value of the top edge.
    pub open spec fn top_spec(&self) -> Fixed {
        self.y
    }

    /// The y value of the bottom edge: `y + height`, saturated.
    pub open spec fn bottom_spec(&self) -> Fixed {
        self.y.add(self.height)
    }

    /// The rectangle shifted by `vec`, with its size unchanged.
    pub open spec fn move_vec_spec(&self, vec: Vec2<Fixed>) -> Rect {
        Rect { x: self.x.add(vec.x), y: self.y.add(vec.y), width: self.width, height: self.height }
    }

    /// The point in the middle of the rectangle.
    pub open spec fn center_spec(&self) -> Vec2<Fixed> {
        Vec2 {
            x: self.x.add(self.width.div(Fixed::from_int(2))),
            y: self.y.add(self.height.div(Fixed::from_int(2))),
        }
    }

    /// Overlap of the two rectangles along x: negative when they are apart.
    pub open spec fn overlap_x(&self, other: &Rect) -> Fixed {
        self.right_spec().min(other.right_spec()).sub(self.left_spec().max(other.left_spec()))
    }

    /// Overlap of the two rectangles along y: negative when they are apart.
    pub open spec fn overlap_y(&self, other: &Rect) -> Fixed {
        self.bottom_spec().min(other.bottom_spec()).sub(self.top_spec().max(other.top_spec()))
    }

    /// The area that two rectangles share: the product of their overlaps
    /// along x and y, or zero when either overlap is negative.
    pub open spec fn intersect_area_spec(&self, other: &Rect) -> Fixed {
        if self.overlap_x(other).raw < 0 || self.overlap_y(other).raw < 0 {
            Fixed::zero()
        } else {
            self.overlap_x(other).mul(self.overlap_y(other))
        }
    }

    /// Creates a new rectangle.
    pub fn new(x: Fixed, y: Fixed, width: Fixed, height: Fixed) -> (r: Rect)
        ensures
            r == (Rect { x, y, width, height }),
    {
        Rect { x, y, width, height }
    }

    /// Gets the corner made of the top and the left edge, in that order:
    /// the top edge is the vector's `x`, the left edge its `y`.
    pub fn top_left(&self) -> (v: Vec2<Fixed>)
        ensures
            v == (Vec2 { x: self.top_spec(), y: self.left_spec() }),
    {
        Vec2::new(self.top(), self.left())
    }

    /// Gets the top right coordinate of the rectangle.
    pub fn top_right(&self) -> (v: Vec2<Fixed>)
        ensures
            v == (Vec2 { x: self.right_spec(), y: self.top_spec() }),
    {
        Vec2::new(self.x.add(self.width), self.y)
    }

    /// Gets the bottom left coordinate of the rectangle.
    pub fn bottom_left(&self) -> (v: Vec2<Fixed>)
        ensures
            v == (Vec2 { x: self.left_spec(), y: self.bottom_spec() }),
    {
        Vec2::new(self.x, self.y.add(self.height))
    }

    /// Gets the bottom right coordinate of the rectangle.
    pub fn bottom_right(&self) -> (v: Vec2<Fixed>)
        ensures
            v == (Vec2 { x: self.right_spec(), y: self.bottom_spec() }),
    {
        Vec2::new(self.x.add(self.width), self.y.add(self.height))
    }

    /// Gets the center of the rectangle.
    #[verifier::when_used_as_spec(center_spec)]
    pub fn center(&self) -> (v: Vec2<Fixed>)
        ensures
            v == self.center_spec(),
    {
        let two = Fixed::from_int(2);
        Vec2::new(self.x.add(self.width.div(two)), self.y.add(self.height.div(two)))
    }

    /// Gets the x value of the left of the rectangle.
    #[verifier::when_used_as_spec(left_spec)]
    pub fn left(&self) -> (r: Fixed)
        ensures
            r == self.left_spec(),
    {
        self.x
    }

    /// Gets the x value of the right of the rectangle.
    #[verifier::when_used_as_spec(right_spec)]
    pub fn right(&self) -> (r: Fixed)
        ensures
            r == self.right_spec(),
    {
        self.x.add(self.width)
    }

    /// Gets the y value of the top of the rectangle.
    #[verifier::when_used_as_spec(top_spec)]
    pub fn top(&self) -> (r: Fixed)
        ensures
            r == self.top_spec(),
    {
        self.y
    }

    /// Gets the y value of the bottom of the rectangle.
    #[verifier::when_used_as_spec(bottom_spec)]
    pub fn bottom(&self) -> (r: Fixed)
        ensures
            r == self.bottom_spec(),
    {
        self.y.add(self.height)
    }

    /// Gets the top left corner of the rectangle as a point.
    pub fn point(&self) -> (v: Vec2<Fixed>)
        ensures
            v == (Vec2 { x: self.x, y: self.y }),
    {
        Vec2::new(self.x, self.y)
    }

    /// Gets the width and the height of the rectangle.
    pub fn size(&self) -> (v: Vec2<Fixed>)
        ensures
            v == (Vec2 { x: self.width, y: self.height }),
    {
        Vec2::new(self.width, self.height)
    }

    /// Moves the rectangle using a vector.
    #[verifier::when_used_as_spec(move_vec_spec)]
    pub fn move_vec(&self, vec: Vec2<Fixed>) -> (r: Rect)
        ensures
            r == self.move_vec_spec(vec),
    {
        Rect { x: self.x.add(vec.x), y: self.y.add(vec.y), width: self.width, height: self.height }
    }

    /// Calculates the intersection area of two rectangles.
    #[verifier::when_used_as_spec(intersect_area_spec)]
    pub fn intersect_area(&self, other: &Rect) -> (r: Fixed)
        ensures
            r == self.intersect_area_spec(other),
    {
        let x_intersect = self.right().min(other.right()).sub(self.left().max(other.left()));
        let y_intersect = self.bottom().min(other.bottom()).sub(self.top().max(other.top()));
        if x_intersect.raw < 0 || y_intersect.raw < 0 {
            Fixed::zero()
        } else {
            x_intersect.mul(y_intersect)
        }
    }
}

} // verus!
