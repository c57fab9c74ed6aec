use vstd::prelude::*;

verus! {

/// A canvas position in whole pixels.
#[derive(Clone, Copy, Debug, PartialEq, Eq, Structural)]
pub struct Point(pub i32, pub i32);

/// A displacement between canvas positions, or a position scaled by a
/// whole factor.
#[derive(Clone, Copy, Debug, PartialEq, Eq, Structural)]
pub struct Vector(pub i64, pub i64);

/// Whether `v` fits in an `i64`.
pub open spec fn fits_i64(v: int) -> bool {
    i64::MIN <= v <= i64::MAX
}

impl Point {
    /// The displacement from `other` to `self`.
    pub fn minus(self, other: Point) -> (r: Vector)
        ensures
            r.0 == self.0 - other.0,
            r.1 == self.1 - other.1,
    {
        Vector(self.0 as i64 - other.0 as i64, self.1 as i64 - other.1 as i64)
    }

    /// Both coordinates multiplied by `k`.
    pub fn scaled(self, k: i32) -> (r: Vector)
        ensures
            r.0 == self.0 * k,
            r.1 == self.1 * k,
    {
        proof {
            lemma_i32_product_fits(self.0, k);
            lemma_i32_product_fits(self.1, k);
        }
        Vector(self.0 as i64 * k as i64, self.1 as i64 * k as i64)
    }
}

proof fn lemma_i32_product_fits(a: i32, b: i32)
    ensures
        fits_i64(a * b),
{
    assert(-0x4000_0000_0000_0000 <= a * b <= 0x4000_0000_0000_0000) by (nonlinear_arith)
        requires
            -0x8000_0000 <= a <= 0x7fff_ffff,
            -0x8000_0000 <= b <= 0x7fff_ffff,
    ;
}

impl Vector {
    /// Component-wise sum.
    pub fn plus(self, other: Vector) -> (r: Vector)
        requires
            fits_i64(self.0 + other.0),
            fits_i64(self.1 + other.1),
        ensures
            r.0 == self.0 + other.0,
            r.1 == self.1 + other.1,
    {
        Vector(self.0 + other.0, self.1 + other.1)
    }

    /// Component-wise difference.
    pub fn minus(self, other: Vector) -> (r: Vector)
        requires
            fits_i64(self.0 - other.0),
            fits_i64(self.1 - other.1),
        ensures
            r.0 == self.0 - other.0,
            r.1 == self.1 - other.1,
    {
        Vector(self.0 - other.0, self.1 - other.1)
    }

    /// Both components multiplied by `k`.
    pub fn scaled(self, k: i64) -> (r: Vector)
        requires
            fits_i64(self.0 * k),
            fits_i64(self.1 * k),
        ensures
            r.0 == self.0 * k,
            r.1 == self.1 * k,
    {
        Vector(self.0 * k, self.1 * k)
    }

    /// Both components with their signs flipped.
    pub fn negated(self) -> (r: Vector)
        requires
            self.0 > i64::MIN,
            self.1 > i64::MIN,
        ensures
            r.0 == -self.0,
            r.1 == -self.1,
    {
        Vector(-self.0, -self.1)
    }
}

} // verus!
