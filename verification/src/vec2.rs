//! The 2D coordinate value: a pair of machine scalars with elementwise
//! arithmetic, dot product, and Euclidean length (floor square root).

use vstd::prelude::*;

use crate::math::abs_i64;
use crate::math::in_i64;
use crate::math::int_sqrt;
use crate::math::isqrt;
use crate::math::lemma_is_sqrt_bound;
use crate::math::max_i64;
use crate::math::min_i64;

verus! {

/// An immutable 2D coordinate; both components are the one scalar kind of
/// the algebra.
#[derive(Clone, Copy, Debug, PartialEq, Eq, Structural)]
pub struct Vec2 {
    pub x: i64,
    pub y: i64,
}

impl Vec2 {
    pub fn new(x: i64, y: i64) -> (r: Vec2)
        ensures
            r == (Vec2 { x, y }),
    {
        Vec2 { x, y }
    }

    /// Euclidean length: the floor of the square root of `x*x + y*y`.
    /// Always nonnegative.
    pub fn length(&self) -> (r: i64)
        requires
            self.x * self.x + self.y * self.y <= i64::MAX,
        ensures
            r == isqrt(self.x * self.x + self.y * self.y),
            r >= 0,
    {
        proof {
            assert(self.x * self.x >= 0) by (nonlinear_arith);
            assert(self.y * self.y >= 0) by (nonlinear_arith);
        }
        let xx: i64 = self.x * self.x;
        let yy: i64 = self.y * self.y;
        let s: u64 = (xx + yy) as u64;
        let r: u64 = int_sqrt(s);
        proof {
            lemma_is_sqrt_bound(s as int, r as int);
        }
        r as i64
    }

    /// Elementwise maximum.
    pub fn max(&self, other: &Vec2) -> (r: Vec2)
        ensures
            r.x == vstd::math::max(self.x as int, other.x as int),
            r.y == vstd::math::max(self.y as int, other.y as int),
    {
        Vec2 { x: max_i64(self.x, other.x), y: max_i64(self.y, other.y) }
    }

    /// Elementwise minimum.
    pub fn min(&self, other: &Vec2) -> (r: Vec2)
        ensures
            r.x == vstd::math::min(self.x as int, other.x as int),
            r.y == vstd::math::min(self.y as int, other.y as int),
    {
        Vec2 { x: min_i64(self.x, other.x), y: min_i64(self.y, other.y) }
    }

    /// Elementwise absolute value.
    pub fn abs(&self) -> (r: Vec2)
        requires
            self.x > i64::MIN,
            self.y > i64::MIN,
        ensures
            r.x == vstd::math::abs(self.x as int),
            r.y == vstd::math::abs(self.y as int),
    {
        Vec2 { x: abs_i64(self.x), y: abs_i64(self.y) }
    }

    /// Elementwise sum with another vector.
    pub fn add(&self, other: &Vec2) -> (r: Vec2)
        requires
            in_i64(self.x + other.x),
            in_i64(self.y + other.y),
        ensures
            r.x == self.x + other.x,
            r.y == self.y + other.y,
    {
        Vec2 { x: self.x + other.x, y: self.y + other.y }
    }

    /// A scalar broadcast to both components, then added.
    pub fn add_scalar(&self, n: i64) -> (r: Vec2)
        requires
            in_i64(self.x + n),
            in_i64(self.y + n),
        ensures
            r.x == self.x + n,
            r.y == self.y + n,
    {
        Vec2 { x: self.x + n, y: self.y + n }
    }

    /// Flips the sign of every component.
    pub fn neg(&self) -> (r: Vec2)
        requires
            self.x > i64::MIN,
            self.y > i64::MIN,
        ensures
            r.x == -self.x,
            r.y == -self.y,
    {
        Vec2 { x: -self.x, y: -self.y }
    }

    /// Both components scaled by a scalar.
    pub fn scale(&self, n: i64) -> (r: Vec2)
        requires
            in_i64(self.x * n),
            in_i64(self.y * n),
        ensures
            r.x == self.x * n,
            r.y == self.y * n,
    {
        Vec2 { x: self.x * n, y: self.y * n }
    }

    /// Dot product: `x1*x2 + y1*y2`.
    pub fn dot(&self, other: &Vec2) -> (r: i64)
        requires
            in_i64(self.x * other.x),
            in_i64(self.y * other.y),
            in_i64(self.x * other.x + self.y * other.y),
        ensures
            r == self.x * other.x + self.y * other.y,
    {
        self.x * other.x + self.y * other.y
    }
}

} // verus!
