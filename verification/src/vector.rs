//! A 2D vector with `i64` components.
//!
//! The library uses the screen convention: `x` grows to the right (east) and
//! `y` grows downward (south), so north has a negative `y` component.

pub mod constants;

use vstd::prelude::*;

verus! {

use vstd::arithmetic::div_mod::{
    lemma_div_decreases,
    lemma_div_nonincreasing,
    lemma_div_pos_is_pos,
};

/// A 2D vector with `i64` coordinates, ordered lexicographically by `(x, y)`.
#[derive(PartialEq, Eq, Structural, PartialOrd, Ord, Clone, Copy, Hash, Debug, Default)]
pub struct Vector {
    pub x: i64,
    pub y: i64,
}

/// The vector `a + b`, component-wise over `i64` arithmetic.
pub open spec fn spec_add(a: Vector, b: Vector) -> Vector {
    Vector { x: (a.x + b.x) as i64, y: (a.y + b.y) as i64 }
}

/// The vector `a - b`, component-wise over `i64` arithmetic.
pub open spec fn spec_sub(a: Vector, b: Vector) -> Vector {
    Vector { x: (a.x - b.x) as i64, y: (a.y - b.y) as i64 }
}

/// The vector `-a`, component-wise over `i64` arithmetic.
pub open spec fn spec_neg(a: Vector) -> Vector {
    Vector { x: (-a.x) as i64, y: (-a.y) as i64 }
}

/// The vector `a * k`, component-wise over `i64` arithmetic.
pub open spec fn spec_mul(a: Vector, k: i64) -> Vector {
    Vector { x: (a.x * k) as i64, y: (a.y * k) as i64 }
}

/// `a` rotated by a quarter turn: `(x, y) -> (-y, x)`.
pub open spec fn spec_perp(a: Vector) -> Vector {
    Vector { x: (-a.y) as i64, y: a.x }
}

/// The component-wise absolute value of `a`.
pub open spec fn spec_abs(a: Vector) -> Vector {
    Vector { x: vstd::math::abs(a.x as int) as i64, y: vstd::math::abs(a.y as int) as i64 }
}

/// The dot product of `a` and `b`, as an unbounded integer.
pub open spec fn spec_dot(a: Vector, b: Vector) -> int {
    a.x * b.x + a.y * b.y
}

/// The perpendicular dot product of `a` and `b`, as an unbounded integer.
pub open spec fn spec_perp_dot(a: Vector, b: Vector) -> int {
    a.x * b.y - a.y * b.x
}

/// The manhattan distance between `a` and `b`, as an unbounded integer.
pub open spec fn spec_manhattan(a: Vector, b: Vector) -> int {
    (vstd::math::abs(a.x - b.x) + vstd::math::abs(a.y - b.y)) as int
}

/// The sign of `a`: `-1`, `0` or `1`.
pub open spec fn sign(a: int) -> int {
    if a > 0 {
        1
    } else if a < 0 {
        -1
    } else {
        0
    }
}

/// `a` truncated towards zero after division by `b`, as Rust's `/` computes it
/// on signed integers (spec-mode `/` is Euclidean instead).
pub open spec fn div_trunc(a: int, b: int) -> int
    recommends
        b != 0,
{
    if (a < 0) == (b < 0) {
        (vstd::math::abs(a) / vstd::math::abs(b)) as int
    } else {
        -((vstd::math::abs(a) / vstd::math::abs(b)) as int)
    }
}

impl Vector {
    /// Creates a new `Vector` with the given `x` and `y` coordinates.
    pub fn new(x: i64, y: i64) -> (v: Vector)
        ensures
            v == (Vector { x, y }),
    {
        Vector { x, y }
    }

    /// Returns a vector containing the absolute values of each coordinate of `self`.
    pub fn abs(self) -> (v: Vector)
        requires
            self.x != i64::MIN,
            self.y != i64::MIN,
        ensures
            v.x == vstd::math::abs(self.x as int),
            v.y == vstd::math::abs(self.y as int),
            v == spec_abs(self),
    {
        Vector {
            x: if self.x < 0 {
                -self.x
            } else {
                self.x
            },
            y: if self.y < 0 {
                -self.y
            } else {
                self.y
            },
        }
    }

    /// Returns a vector containing the signs of each coordinate of `self`.
    pub fn signum(self) -> (v: Vector)
        ensures
            v.x == sign(self.x as int),
            v.y == sign(self.y as int),
    {
        Vector {
            x: if self.x > 0 {
                1
            } else if self.x < 0 {
                -1
            } else {
                0
            },
            y: if self.y > 0 {
                1
            } else if self.y < 0 {
                -1
            } else {
                0
            },
        }
    }

    /// Computes the manhattan distance from `self` to `rhs`.
    pub fn manhattan(self, rhs: Vector) -> (d: i64)
        requires
            -i64::MAX <= self.x - rhs.x <= i64::MAX,
            -i64::MAX <= self.y - rhs.y <= i64::MAX,
            vstd::math::abs(self.x - rhs.x) + vstd::math::abs(self.y - rhs.y) <= i64::MAX,
        ensures
            d == spec_manhattan(self, rhs),
    {
        let diff = self.sub(rhs);
        let a = diff.abs();
        a.x + a.y
    }

    /// Returns a vector containing the minimum values of each coordinate of `self` and `rhs`.
    pub fn min(self, rhs: Vector) -> (v: Vector)
        ensures
            v.x == vstd::math::min(self.x as int, rhs.x as int),
            v.y == vstd::math::min(self.y as int, rhs.y as int),
    {
        Vector {
            x: if self.x <= rhs.x {
                self.x
            } else {
                rhs.x
            },
            y: if self.y <= rhs.y {
                self.y
            } else {
                rhs.y
            },
        }
    }

    /// Returns a vector containing the maximum values of each coordinate of `self` and `rhs`.
    pub fn max(self, rhs: Vector) -> (v: Vector)
        ensures
            v.x == vstd::math::max(self.x as int, rhs.x as int),
            v.y == vstd::math::max(self.y as int, rhs.y as int),
    {
        Vector {
            x: if self.x >= rhs.x {
                self.x
            } else {
                rhs.x
            },
            y: if self.y >= rhs.y {
                self.y
            } else {
                rhs.y
            },
        }
    }

    /// Returns a vector that is `self` clamped between `min` and `max`,
    /// component-wise. The bounds must be ordered on each component.
    pub fn clamp(self, min: Vector, max: Vector) -> (v: Vector)
        requires
            min.x <= max.x,
            min.y <= max.y,
        ensures
            v.x == vstd::math::min(vstd::math::max(self.x as int, min.x as int), max.x as int),
            v.y == vstd::math::min(vstd::math::max(self.y as int, min.y as int), max.y as int),
    {
        self.max(min).min(max)
    }

    /// Computes the dot product of `self` and `rhs`.
    pub fn dot(self, rhs: Vector) -> (d: i64)
        requires
            i64::MIN <= self.x * rhs.x <= i64::MAX,
            i64::MIN <= self.y * rhs.y <= i64::MAX,
            i64::MIN <= self.x * rhs.x + self.y * rhs.y <= i64::MAX,
        ensures
            d == self.x * rhs.x + self.y * rhs.y,
            d == spec_dot(self, rhs),
    {
        (self.x * rhs.x) + (self.y * rhs.y)
    }

    /// Returns `self` rotated by a quarter turn: `(x, y) -> (-y, x)`.
    pub fn perp(self) -> (v: Vector)
        requires
            self.y != i64::MIN,
        ensures
            v.x == -self.y,
            v.y == self.x,
            v == spec_perp(self),
    {
        Vector { x: -self.y, y: self.x }
    }

    /// Computes the perpendicular dot product of `self` and `rhs`.
    pub fn perp_dot(self, rhs: Vector) -> (d: i64)
        requires
            i64::MIN <= self.x * rhs.y <= i64::MAX,
            i64::MIN <= self.y * rhs.x <= i64::MAX,
            i64::MIN <= self.x * rhs.y - self.y * rhs.x <= i64::MAX,
        ensures
            d == self.x * rhs.y - self.y * rhs.x,
            d == spec_perp_dot(self, rhs),
    {
        (self.x * rhs.y) - (self.y * rhs.x)
    }

    /// Returns a vector equal to `self` with a `y` value of `0`.
    pub fn horizontal(self) -> (v: Vector)
        ensures
            v == (Vector { x: self.x, y: 0i64 }),
    {
        Vector { x: self.x, y: 0 }
    }

    /// Returns a vector equal to `self` with an `x` value of `0`.
    pub fn vertical(self) -> (v: Vector)
        ensures
            v == (Vector { x: 0i64, y: self.y }),
    {
        Vector { x: 0, y: self.y }
    }

    /// Component-wise addition.
    pub fn add(self, rhs: Vector) -> (v: Vector)
        requires
            i64::MIN <= self.x + rhs.x <= i64::MAX,
            i64::MIN <= self.y + rhs.y <= i64::MAX,
        ensures
            v.x == self.x + rhs.x,
            v.y == self.y + rhs.y,
            v == spec_add(self, rhs),
    {
        Vector { x: self.x + rhs.x, y: self.y + rhs.y }
    }

    /// In-place component-wise addition.
    pub fn add_assign(&mut self, rhs: Vector)
        requires
            i64::MIN <= old(self).x + rhs.x <= i64::MAX,
            i64::MIN <= old(self).y + rhs.y <= i64::MAX,
        ensures
            final(self).x == old(self).x + rhs.x,
            final(self).y == old(self).y + rhs.y,
    {
        self.x = self.x + rhs.x;
        self.y = self.y + rhs.y;
    }

    /// Component-wise subtraction.
    pub fn sub(self, rhs: Vector) -> (v: Vector)
        requires
            i64::MIN <= self.x - rhs.x <= i64::MAX,
            i64::MIN <= self.y - rhs.y <= i64::MAX,
        ensures
            v.x == self.x - rhs.x,
            v.y == self.y - rhs.y,
            v == spec_sub(self, rhs),
    {
        Vector { x: self.x - rhs.x, y: self.y - rhs.y }
    }

    /// In-place component-wise subtraction.
    pub fn sub_assign(&mut self, rhs: Vector)
        requires
            i64::MIN <= old(self).x - rhs.x <= i64::MAX,
            i64::MIN <= old(self).y - rhs.y <= i64::MAX,
        ensures
            final(self).x == old(self).x - rhs.x,
            final(self).y == old(self).y - rhs.y,
    {
        self.x = self.x - rhs.x;
        self.y = self.y - rhs.y;
    }

    /// Multiplication by a scalar.
    pub fn mul(self, rhs: i64) -> (v: Vector)
        requires
            i64::MIN <= self.x * rhs <= i64::MAX,
            i64::MIN <= self.y * rhs <= i64::MAX,
        ensures
            v.x == self.x * rhs,
            v.y == self.y * rhs,
            v == spec_mul(self, rhs),
    {
        Vector { x: self.x * rhs, y: self.y * rhs }
    }

    /// In-place multiplication by a scalar.
    pub fn mul_assign(&mut self, rhs: i64)
        requires
            i64::MIN <= old(self).x * rhs <= i64::MAX,
            i64::MIN <= old(self).y * rhs <= i64::MAX,
        ensures
            final(self).x == old(self).x * rhs,
            final(self).y == old(self).y * rhs,
    {
        self.x = self.x * rhs;
        self.y = self.y * rhs;
    }

    /// Component-wise division by a scalar, truncating towards zero.
    pub fn div(self, rhs: i64) -> (v: Vector)
        requires
            rhs != 0,
            !(self.x == i64::MIN && rhs == -1),
            !(self.y == i64::MIN && rhs == -1),
        ensures
            v.x == div_trunc(self.x as int, rhs as int),
            v.y == div_trunc(self.y as int, rhs as int),
    {
        Vector { x: div_i64(self.x, rhs), y: div_i64(self.y, rhs) }
    }

    /// In-place division by a scalar, truncating towards zero.
    pub fn div_assign(&mut self, rhs: i64)
        requires
            rhs != 0,
            !(old(self).x == i64::MIN && rhs == -1),
            !(old(self).y == i64::MIN && rhs == -1),
        ensures
            final(self).x == div_trunc(old(self).x as int, rhs as int),
            final(self).y == div_trunc(old(self).y as int, rhs as int),
    {
        self.x = div_i64(self.x, rhs);
        self.y = div_i64(self.y, rhs);
    }

    /// Component-wise negation.
    pub fn neg(self) -> (v: Vector)
        requires
            self.x != i64::MIN,
            self.y != i64::MIN,
        ensures
            v.x == -self.x,
            v.y == -self.y,
            v == spec_neg(self),
    {
        Vector { x: -self.x, y: -self.y }
    }
}

/// Signed division truncating towards zero, as `/` behaves on `i64` outside
/// ghost code.
fn div_i64(a: i64, b: i64) -> (q: i64)
    requires
        b != 0,
        !(a == i64::MIN && b == -1),
    ensures
        q == div_trunc(a as int, b as int),
{
    proof {
        let m = vstd::math::abs(a as int) as int;
        let n = vstd::math::abs(b as int) as int;
        lemma_div_nonincreasing(m, n);
        lemma_div_pos_is_pos(m, n);
        if a == i64::MIN && b < 0 {
            lemma_div_decreases(m, n);
        }
    }
    let wide: i128 = (a as i128).checked_div(b as i128).unwrap();
    wide as i64
}

/// Adding a vector and then subtracting it again returns the original vector:
/// `(a + b) - b == a`, whenever the sum stays in range.
pub proof fn law_add_sub_cancel(a: Vector, b: Vector)
    requires
        i64::MIN <= a.x + b.x <= i64::MAX,
        i64::MIN <= a.y + b.y <= i64::MAX,
    ensures
        spec_sub(spec_add(a, b), b) == a,
{
}

/// Negation is an involution: `-(-a) == a`.
pub proof fn law_neg_involution(a: Vector)
    requires
        a.x != i64::MIN,
        a.y != i64::MIN,
    ensures
        spec_neg(spec_neg(a)) == a,
{
}

/// Multiplying any vector by the scalar zero gives the zero vector.
pub proof fn law_mul_zero(a: Vector)
    ensures
        spec_mul(a, 0) == (Vector { x: 0i64, y: 0i64 }),
{
}

/// Four quarter turns return the original vector:
/// `a.perp().perp().perp().perp() == a`.
pub proof fn law_perp_involution(a: Vector)
    requires
        a.x != i64::MIN,
        a.y != i64::MIN,
    ensures
        spec_perp(spec_perp(spec_perp(spec_perp(a)))) == a,
{
}

/// The dot product is commutative: `a.dot(b) == b.dot(a)`.
pub proof fn law_dot_comm(a: Vector, b: Vector)
    ensures
        spec_dot(a, b) == spec_dot(b, a),
{
}

/// The perpendicular dot product is antisymmetric:
/// `a.perp_dot(b) == -b.perp_dot(a)`.
pub proof fn law_perp_dot_antisym(a: Vector, b: Vector)
    ensures
        spec_perp_dot(a, b) == -spec_perp_dot(b, a),
{
}

/// The manhattan distance from `a` to `b` is the sum of the coordinates of
/// `(a - b).abs()`, whenever the difference stays in range.
pub proof fn law_manhattan_abs(a: Vector, b: Vector)
    requires
        -i64::MAX <= a.x - b.x <= i64::MAX,
        -i64::MAX <= a.y - b.y <= i64::MAX,
    ensures
        spec_manhattan(a, b) == spec_abs(spec_sub(a, b)).x + spec_abs(spec_sub(a, b)).y,
{
}

} // verus!
