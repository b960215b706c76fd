//! Three-dimensional vectors of fixed-point scalars.

use vstd::prelude::*;
use crate::fixed::{
    ceil_sqrt, during, fixed_mul, isqrt_ceil, lemma_product_bound, lemma_trunc_div_bounds,
    magnitude, narrow, per_time, quotient, saturate, trunc_div, Scalar, SCALE,
};

verus! {

/// A vector whose components are scalars in thousandths of a unit.
#[derive(Clone, Copy, Debug, PartialEq, Eq, Structural)]
pub struct Vector3 {
    pub x: Scalar,
    pub y: Scalar,
    pub z: Scalar,
}

/// One component `v` of a vector of the length `len`, shrunk to the length
/// `max`: `v * max / len`, rounded toward zero.
pub open spec fn shrunk(v: int, max: int, len: int) -> int {
    trunc_div(v * max, len)
}

/// Shrinking every component by `max / len`, where `len` is at least the
/// vector's length, leaves a vector no longer than `max`.
pub proof fn lemma_shrunk_is_short(x: int, y: int, z: int, max: int, len: int)
    requires
        max >= 0,
        len > 0,
        x * x + y * y + z * z <= len * len,
    ensures
        shrunk(x, max, len) * shrunk(x, max, len) + shrunk(y, max, len) * shrunk(y, max, len)
            + shrunk(z, max, len) * shrunk(z, max, len) <= max * max,
        magnitude(shrunk(x, max, len)) <= max,
        magnitude(shrunk(y, max, len)) <= max,
        magnitude(shrunk(z, max, len)) <= max,
{
    let qx = shrunk(x, max, len);
    let qy = shrunk(y, max, len);
    let qz = shrunk(z, max, len);
    lemma_trunc_div_bounds(x * max, len);
    lemma_trunc_div_bounds(y * max, len);
    lemma_trunc_div_bounds(z * max, len);
    lemma_square_of_scaled(qx, x, max, len);
    lemma_square_of_scaled(qy, y, max, len);
    lemma_square_of_scaled(qz, z, max, len);
    let s = qx * qx + qy * qy + qz * qz;
    let n = x * x + y * y + z * z;
    assert(s * (len * len) <= n * (max * max)) by (nonlinear_arith)
        requires
            s == qx * qx + qy * qy + qz * qz,
            n == x * x + y * y + z * z,
            (qx * qx) * (len * len) <= (x * x) * (max * max),
            (qy * qy) * (len * len) <= (y * y) * (max * max),
            (qz * qz) * (len * len) <= (z * z) * (max * max),
    ;
    assert(s >= 0) by (nonlinear_arith)
        requires
            s == qx * qx + qy * qy + qz * qz,
    ;
    assert(s <= max * max) by (nonlinear_arith)
        requires
            s * (len * len) <= n * (max * max),
            n <= len * len,
            len > 0,
            max >= 0,
            s >= 0,
    {
        if s > max * max {
            assert(s >= max * max + 1);
            assert(s * (len * len) >= (max * max + 1) * (len * len));
            assert((max * max + 1) * (len * len) > (max * max) * (len * len));
            assert(n * (max * max) <= (len * len) * (max * max));
        }
    }
    assert(magnitude(qx) <= max && magnitude(qy) <= max && magnitude(qz) <= max)
        by (nonlinear_arith)
        requires
            qx * qx + qy * qy + qz * qz <= max * max,
            max >= 0,
    {
        if magnitude(qx) > max {
            assert(qx * qx > max * max);
        }
        if magnitude(qy) > max {
            assert(qy * qy > max * max);
        }
        if magnitude(qz) > max {
            assert(qz * qz > max * max);
        }
    }
}

/// Squaring `|q| * len <= |v * max|` on both sides.
proof fn lemma_square_of_scaled(q: int, v: int, max: int, len: int)
    by (nonlinear_arith)
    requires
        max >= 0,
        len > 0,
        magnitude(q) * len <= magnitude(v * max),
    ensures
        (q * q) * (len * len) <= (v * v) * (max * max),
{
    let a = magnitude(q) * len;
    let b = magnitude(v * max);
    assert(0 <= a <= b);
    assert(a * a <= b * b);
    assert(a * a == (q * q) * (len * len));
    assert(b * b == (v * v) * (max * max));
}

impl Vector3 {
    /// The exact dot product; its unit is a millionth.
    pub open spec fn spec_dot(self, other: Vector3) -> int {
        self.x * other.x + self.y * other.y + self.z * other.z
    }

    /// The exact squared length; its unit is a millionth.
    pub open spec fn spec_norm_squared(self) -> int {
        self.spec_dot(self)
    }

    /// The component of `self` along the unit vector `direction`.
    pub open spec fn spec_along(self, direction: Vector3) -> int {
        saturate(trunc_div(self.spec_dot(direction), SCALE as int))
    }

    /// The sum, each component saturating.
    pub open spec fn spec_plus(self, other: Vector3) -> Vector3 {
        Vector3 {
            x: saturate(self.x + other.x) as i32,
            y: saturate(self.y + other.y) as i32,
            z: saturate(self.z + other.z) as i32,
        }
    }

    /// The difference, each component saturating.
    pub open spec fn spec_minus(self, other: Vector3) -> Vector3 {
        Vector3 {
            x: saturate(self.x - other.x) as i32,
            y: saturate(self.y - other.y) as i32,
            z: saturate(self.z - other.z) as i32,
        }
    }

    /// The opposite vector, each component saturating.
    pub open spec fn spec_negated(self) -> Vector3 {
        Vector3 {
            x: saturate(-self.x) as i32,
            y: saturate(-self.y) as i32,
            z: saturate(-self.z) as i32,
        }
    }

    /// `self` multiplied by the scalar `factor`, each component rounded
    /// toward zero and saturating.
    pub open spec fn spec_scaled(self, factor: int) -> Vector3 {
        Vector3 {
            x: saturate(fixed_mul(self.x as int, factor)) as i32,
            y: saturate(fixed_mul(self.y as int, factor)) as i32,
            z: saturate(fixed_mul(self.z as int, factor)) as i32,
        }
    }

    /// The rate that changes a vector quantity by `self` over `millis`
    /// milliseconds; zero for a tick without duration.
    pub open spec fn spec_over_time(self, millis: int) -> Vector3 {
        Vector3 {
            x: saturate(per_time(self.x as int, millis)) as i32,
            y: saturate(per_time(self.y as int, millis)) as i32,
            z: saturate(per_time(self.z as int, millis)) as i32,
        }
    }

    /// The change that the rate `self` makes in `millis` milliseconds.
    pub open spec fn spec_during(self, millis: int) -> Vector3 {
        Vector3 {
            x: saturate(during(self.x as int, millis)) as i32,
            y: saturate(during(self.y as int, millis)) as i32,
            z: saturate(during(self.z as int, millis)) as i32,
        }
    }

    /// The part of `self` that is perpendicular to the unit vector `direction`.
    pub open spec fn spec_across(self, direction: Vector3) -> Vector3 {
        self.spec_minus(direction.spec_scaled(self.spec_along(direction)))
    }

    /// `self` if it is no longer than `max`, else `self` shrunk to that length.
    /// A negative `max` counts as zero.
    pub open spec fn spec_limit_length(self, max: int) -> Vector3 {
        let cap = if max < 0 { 0 } else { max };
        let len = ceil_sqrt(self.spec_norm_squared());
        if self.spec_norm_squared() <= cap * cap {
            self
        } else {
            Vector3 {
                x: shrunk(self.x as int, cap, len) as i32,
                y: shrunk(self.y as int, cap, len) as i32,
                z: shrunk(self.z as int, cap, len) as i32,
            }
        }
    }

    /// Every component is zero.
    pub open spec fn is_zero(self) -> bool {
        self.x == 0 && self.y == 0 && self.z == 0
    }

    pub fn new(x: Scalar, y: Scalar, z: Scalar) -> (v: Vector3)
        ensures
            v == (Vector3 { x, y, z }),
    {
        Vector3 { x, y, z }
    }

    pub fn zero() -> (v: Vector3)
        ensures
            v == (Vector3 { x: 0, y: 0, z: 0 }),
    {
        Vector3 { x: 0, y: 0, z: 0 }
    }

    /// The exact dot product.
    pub fn dot(&self, other: &Vector3) -> (d: i128)
        ensures
            d as int == self.spec_dot(*other),
            -0xC000_0000_0000_0000 <= d <= 0xC000_0000_0000_0000,
    {
        proof {
            lemma_product_bound(self.x as int, other.x as int, 0x8000_0000, 0x8000_0000);
            lemma_product_bound(self.y as int, other.y as int, 0x8000_0000, 0x8000_0000);
            lemma_product_bound(self.z as int, other.z as int, 0x8000_0000, 0x8000_0000);
        }
        let a: i128 = (self.x as i128) * (other.x as i128);
        let b: i128 = (self.y as i128) * (other.y as i128);
        let c: i128 = (self.z as i128) * (other.z as i128);
        a + b + c
    }

    /// The exact squared length.
    pub fn norm_squared(&self) -> (n: u64)
        ensures
            n as int == self.spec_norm_squared(),
    {
        proof {
            lemma_product_bound(self.x as int, self.x as int, 0x8000_0000, 0x8000_0000);
            lemma_product_bound(self.y as int, self.y as int, 0x8000_0000, 0x8000_0000);
            lemma_product_bound(self.z as int, self.z as int, 0x8000_0000, 0x8000_0000);
            assert(self.x * self.x >= 0 && self.y * self.y >= 0 && self.z * self.z >= 0)
                by (nonlinear_arith);
        }
        let d: i128 = self.dot(self);
        d as u64
    }

    /// The component of `self` along the unit vector `direction`.
    pub fn along(&self, direction: &Vector3) -> (c: Scalar)
        ensures
            c as int == self.spec_along(*direction),
    {
        narrow(quotient(self.dot(direction), 1000))
    }

    /// The sum, each component saturating.
    pub fn plus(&self, other: &Vector3) -> (v: Vector3)
        ensures
            v == self.spec_plus(*other),
    {
        Vector3 {
            x: narrow(self.x as i128 + other.x as i128),
            y: narrow(self.y as i128 + other.y as i128),
            z: narrow(self.z as i128 + other.z as i128),
        }
    }

    /// The difference, each component saturating.
    pub fn minus(&self, other: &Vector3) -> (v: Vector3)
        ensures
            v == self.spec_minus(*other),
    {
        Vector3 {
            x: narrow(self.x as i128 - other.x as i128),
            y: narrow(self.y as i128 - other.y as i128),
            z: narrow(self.z as i128 - other.z as i128),
        }
    }

    /// The opposite vector, each component saturating.
    pub fn negated(&self) -> (v: Vector3)
        ensures
            v == self.spec_negated(),
    {
        Vector3 {
            x: narrow(-(self.x as i128)),
            y: narrow(-(self.y as i128)),
            z: narrow(-(self.z as i128)),
        }
    }

    /// `self` multiplied by the scalar `factor`.
    pub fn scaled(&self, factor: Scalar) -> (v: Vector3)
        ensures
            v == self.spec_scaled(factor as int),
    {
        proof {
            lemma_product_bound(self.x as int, factor as int, 0x8000_0000, 0x8000_0000);
            lemma_product_bound(self.y as int, factor as int, 0x8000_0000, 0x8000_0000);
            lemma_product_bound(self.z as int, factor as int, 0x8000_0000, 0x8000_0000);
        }
        Vector3 {
            x: narrow(quotient((self.x as i128) * (factor as i128), 1000)),
            y: narrow(quotient((self.y as i128) * (factor as i128), 1000)),
            z: narrow(quotient((self.z as i128) * (factor as i128), 1000)),
        }
    }

    /// The rate that changes a vector quantity by `self` over `millis`
    /// milliseconds; zero for a tick without duration.
    pub fn over_time(&self, millis: u32) -> (v: Vector3)
        ensures
            v == self.spec_over_time(millis as int),
    {
        if millis == 0 {
            Vector3 { x: 0, y: 0, z: 0 }
        } else {
            let m: i128 = millis as i128;
            Vector3 {
                x: narrow(quotient((self.x as i128) * 1000, m)),
                y: narrow(quotient((self.y as i128) * 1000, m)),
                z: narrow(quotient((self.z as i128) * 1000, m)),
            }
        }
    }

    /// The change that the rate `self` makes in `millis` milliseconds.
    pub fn during(&self, millis: u32) -> (v: Vector3)
        ensures
            v == self.spec_during(millis as int),
    {
        proof {
            lemma_product_bound(self.x as int, millis as int, 0x8000_0000, 0x1_0000_0000);
            lemma_product_bound(self.y as int, millis as int, 0x8000_0000, 0x1_0000_0000);
            lemma_product_bound(self.z as int, millis as int, 0x8000_0000, 0x1_0000_0000);
        }
        let m: i128 = millis as i128;
        Vector3 {
            x: narrow(quotient((self.x as i128) * m, 1000)),
            y: narrow(quotient((self.y as i128) * m, 1000)),
            z: narrow(quotient((self.z as i128) * m, 1000)),
        }
    }

    /// The part of `self` that is perpendicular to the unit vector `direction`.
    pub fn across(&self, direction: &Vector3) -> (v: Vector3)
        ensures
            v == self.spec_across(*direction),
    {
        let c: Scalar = self.along(direction);
        let parallel: Vector3 = direction.scaled(c);
        self.minus(&parallel)
    }

    /// `self` if it is no longer than `max`, else `self` shrunk to that length.
    pub fn limit_length(&self, max: Scalar) -> (v: Vector3)
        ensures
            v == self.spec_limit_length(max as int),
            max >= 0 ==> v.spec_norm_squared() <= max * max,
            max < 0 ==> v.is_zero(),
    {
        let cap: i128 = if max < 0 { 0 } else { max as i128 };
        let n: u64 = self.norm_squared();
        proof {
            lemma_product_bound(cap as int, cap as int, 0x8000_0000, 0x8000_0000);
            assert(cap * cap >= 0) by (nonlinear_arith);
        }
        if n as i128 <= cap * cap {
            proof {
                if max < 0 {
                    assert(self.x * self.x >= 0 && self.y * self.y >= 0 && self.z * self.z >= 0)
                        by (nonlinear_arith);
                    assert(self.x == 0) by (nonlinear_arith)
                        requires
                            self.x * self.x <= 0,
                    ;
                    assert(self.y == 0) by (nonlinear_arith)
                        requires
                            self.y * self.y <= 0,
                    ;
                    assert(self.z == 0) by (nonlinear_arith)
                        requires
                            self.z * self.z <= 0,
                    ;
                }
            }
            *self
        } else {
            let len: u64 = isqrt_ceil(n);
            proof {
                lemma_shrunk_is_short(
                    self.x as int,
                    self.y as int,
                    self.z as int,
                    cap as int,
                    len as int,
                );
                lemma_product_bound(self.x as int, cap as int, 0x8000_0000, 0x8000_0000);
                lemma_product_bound(self.y as int, cap as int, 0x8000_0000, 0x8000_0000);
                lemma_product_bound(self.z as int, cap as int, 0x8000_0000, 0x8000_0000);
            }
            let x: i128 = quotient((self.x as i128) * cap, len as i128);
            let y: i128 = quotient((self.y as i128) * cap, len as i128);
            let z: i128 = quotient((self.z as i128) * cap, len as i128);
            Vector3 { x: x as i32, y: y as i32, z: z as i32 }
        }
    }
}

} // verus!
