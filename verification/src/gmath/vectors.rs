//! Two-dimensional vectors.

use crate::fixed::Fixed;
use vstd::prelude::*;

verus! {

/// A 2-dimensional vector.
#[derive(Clone, Copy, Debug)]
pub struct Vec2<T> {
    pub x: T,
    pub y: T,
}

impl<T> Vec2<T> {
    /// Creates a vector from its two coordinates.
    pub fn new(x: T, y: T) -> (v: Vec2<T>)
        ensures
            v == (Vec2 { x, y }),
    {
        Vec2 { x, y }
    }
}

impl Vec2<Fixed> {
    /// The vector of length zero.
    pub open spec fn zero_spec() -> Vec2<Fixed> {
        Vec2 { x: Fixed::zero(), y: Fixed::zero() }
    }

    /// Dot product: the saturating sum of the two coordinate products.
    pub open spec fn dot_spec(&self, other: &Vec2<Fixed>) -> Fixed {
        self.x.mul(other.x).add(self.y.mul(other.y))
    }

    /// Coordinate-wise saturating sum.
    pub open spec fn add_spec(&self, rhs: &Vec2<Fixed>) -> Vec2<Fixed> {
        Vec2 { x: self.x.add(rhs.x), y: self.y.add(rhs.y) }
    }

    /// Coordinate-wise saturating difference.
    pub open spec fn sub_spec(&self, rhs: &Vec2<Fixed>) -> Vec2<Fixed> {
        Vec2 { x: self.x.sub(rhs.x), y: self.y.sub(rhs.y) }
    }

    /// Both coordinates multiplied by `scalar`.
    pub open spec fn mul_spec(&self, scalar: Fixed) -> Vec2<Fixed> {
        Vec2 { x: self.x.mul(scalar), y: self.y.mul(scalar) }
    }

    /// The squared length: the dot product of the vector with itself.
    pub open spec fn length_sqr_spec(&self) -> Fixed {
        self.dot_spec(self)
    }

    /// The length: the square root of the squared length.
    pub open spec fn length_spec(&self) -> Fixed {
        self.length_sqr_spec().sqrt()
    }

    /// Both coordinates divided by the length.
    pub open spec fn unit_spec(&self) -> Vec2<Fixed> {
        Vec2 { x: self.x.div(self.length_spec()), y: self.y.div(self.length_spec()) }
    }

    /// The vector of magnitude `mag` at the angle whose sine and cosine are given.
    pub open spec fn from_polar_spec(sin_a: Fixed, cos_a: Fixed, mag: Fixed) -> Vec2<Fixed> {
        Vec2 { x: mag.mul(cos_a), y: mag.mul(sin_a) }
    }

    /// The vector turned by the linear map with rows `(p, -q)` and `(q, p)`.
    pub open spec fn rotate_spec(&self, p: Fixed, q: Fixed) -> Vec2<Fixed> {
        Vec2 {
            x: self.x.mul(p).sub(self.y.mul(q)),
            y: self.x.mul(q).add(self.y.mul(p)),
        }
    }

    /// Creates the vector of length zero.
    #[verifier::when_used_as_spec(zero_spec)]
    pub fn zero() -> (v: Vec2<Fixed>)
        ensures
            v == Vec2::<Fixed>::zero_spec(),
    {
        Vec2 { x: Fixed::zero(), y: Fixed::zero() }
    }

    /// Creates the unit vector in the x direction.
    pub fn unit_x() -> (v: Vec2<Fixed>)
        ensures
            v == (Vec2 { x: Fixed::one(), y: Fixed::zero() }),
    {
        Vec2 { x: Fixed::one(), y: Fixed::zero() }
    }

    /// Creates the unit vector in the y direction.
    pub fn unit_y() -> (v: Vec2<Fixed>)
        ensures
            v == (Vec2 { x: Fixed::zero(), y: Fixed::one() }),
    {
        Vec2 { x: Fixed::zero(), y: Fixed::one() }
    }

    /// Calculates the dot product between this and another vector.
    #[verifier::when_used_as_spec(dot_spec)]
    pub fn dot(&self, other: &Vec2<Fixed>) -> (r: Fixed)
        ensures
            r == self.dot_spec(other),
    {
        self.x.mul(other.x).add(self.y.mul(other.y))
    }

    /// Adds two vectors together.
    #[verifier::when_used_as_spec(add_spec)]
    pub fn add(&self, rhs: &Vec2<Fixed>) -> (v: Vec2<Fixed>)
        ensures
            v == self.add_spec(rhs),
    {
        Vec2 { x: self.x.add(rhs.x), y: self.y.add(rhs.y) }
    }

    /// Subtracts one vector from another.
    #[verifier::when_used_as_spec(sub_spec)]
    pub fn sub(&self, rhs: &Vec2<Fixed>) -> (v: Vec2<Fixed>)
        ensures
            v == self.sub_spec(rhs),
    {
        Vec2 { x: self.x.sub(rhs.x), y: self.y.sub(rhs.y) }
    }

    /// Creates a vector from polar coordinates: a magnitude, and the sine and
    /// cosine of the angle.
    #[verifier::when_used_as_spec(from_polar_spec)]
    pub fn from_polar(sin_a: Fixed, cos_a: Fixed, mag: Fixed) -> (v: Vec2<Fixed>)
        ensures
            v == Vec2::<Fixed>::from_polar_spec(sin_a, cos_a, mag),
    {
        Vec2 { x: mag.mul(cos_a), y: mag.mul(sin_a) }
    }

    /// Calculates the length squared of the vector. Avoids taking a square root.
    #[verifier::when_used_as_spec(length_sqr_spec)]
    pub fn length_sqr(&self) -> (r: Fixed)
        ensures
            r == self.length_sqr_spec(),
    {
        self.dot(self)
    }

    /// Calculates the length of the vector.
    #[verifier::when_used_as_spec(length_spec)]
    pub fn length(&self) -> (r: Fixed)
        ensures
            r == self.length_spec(),
    {
        self.length_sqr().sqrt()
    }

    /// Normalises the vector: divides both coordinates by the length.
    pub fn normalize(&mut self)
        ensures
            *final(self) == old(self).unit_spec(),
    {
        let len = self.length();
        self.x = self.x.div(len);
        self.y = self.y.div(len);
    }

    /// Creates a unit vector in the direction of the vector.
    #[verifier::when_used_as_spec(unit_spec)]
    pub fn unit(&self) -> (v: Vec2<Fixed>)
        ensures
            v == self.unit_spec(),
    {
        let len = self.length();
        Vec2 { x: self.x.div(len), y: self.y.div(len) }
    }

    /// Turns the vector by the linear map with rows `(p, -q)` and `(q, p)`.
    /// With `p` the cosine and `q` the sine of an angle, this rotates by it.
    pub fn rotate(&mut self, p: Fixed, q: Fixed)
        ensures
            *final(self) == old(self).rotate_spec(p, q),
    {
        let old_x = self.x;
        let old_y = self.y;
        self.x = old_x.mul(p).sub(old_y.mul(q));
        self.y = old_x.mul(q).add(old_y.mul(p));
    }

    /// Creates a new vector equal to the vector scaled by a constant.
    #[verifier::when_used_as_spec(mul_spec)]
    pub fn mul(&self, scalar: Fixed) -> (v: Vec2<Fixed>)
        ensures
            v == self.mul_spec(scalar),
    {
        Vec2 { x: self.x.mul(scalar), y: self.y.mul(scalar) }
    }
}

} // verus!
