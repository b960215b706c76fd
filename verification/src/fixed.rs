//! Fixed-point scalars.
//!
//! Every scalar quantity of the controller (a length, a speed, an acceleration,
//! an angle in radians, a cosine) is an `i32` that counts thousandths of its
//! unit. Intermediate results are computed exactly in wider integers and
//! rounded once, toward zero; a result that does not fit an `i32` saturates.
//! Durations are whole milliseconds in a `u32`.

use vstd::prelude::*;

verus! {

/// The raw value of one unit.
pub const SCALE: i32 = 1000;

/// A scalar in thousandths of its unit.
pub type Scalar = i32;

/// The nearest value to `x` that an `i32` can hold.
pub open spec fn saturate(x: int) -> int {
    if x < i32::MIN {
        i32::MIN as int
    } else if x > i32::MAX {
        i32::MAX as int
    } else {
        x
    }
}

/// `a / b` rounded toward zero, for a positive divisor.
pub open spec fn trunc_div(a: int, b: int) -> int {
    if a >= 0 {
        a / b
    } else {
        -((-a) / b)
    }
}

/// The raw product of two scalars, rounded toward zero.
pub open spec fn fixed_mul(a: int, b: int) -> int {
    trunc_div(a * b, SCALE as int)
}

/// The rate that changes a quantity by `x` over `millis` milliseconds,
/// rounded toward zero. No rate is asked of a tick without duration.
pub open spec fn per_time(x: int, millis: int) -> int {
    if millis <= 0 {
        0
    } else {
        trunc_div(x * 1000, millis)
    }
}

/// The change that the rate `x` makes in `millis` milliseconds, rounded
/// toward zero.
pub open spec fn during(x: int, millis: int) -> int {
    trunc_div(x * millis, 1000)
}

/// `r` is the integer square root of `n`, rounded down.
pub open spec fn is_floor_sqrt(r: int, n: int) -> bool {
    &&& 0 <= r
    &&& r * r <= n
    &&& n < (r + 1) * (r + 1)
}

/// The integer square root of `n`, rounded down (for `n >= 0`).
pub open spec fn floor_sqrt(n: int) -> int {
    choose|r: int| is_floor_sqrt(r, n)
}

/// The integer square root of `n`, rounded up (for `n >= 0`).
pub open spec fn ceil_sqrt(n: int) -> int {
    if floor_sqrt(n) * floor_sqrt(n) == n {
        floor_sqrt(n)
    } else {
        floor_sqrt(n) + 1
    }
}

/// The absolute value of an integer.
pub open spec fn magnitude(x: int) -> int {
    if x < 0 {
        -x
    } else {
        x
    }
}

/// A product is bounded by the product of the bounds of its factors.
pub proof fn lemma_product_bound(a: int, b: int, bound_a: int, bound_b: int)
    by (nonlinear_arith)
    requires
        -bound_a <= a <= bound_a,
        -bound_b <= b <= bound_b,
    ensures
        -(bound_a * bound_b) <= a * b <= bound_a * bound_b,
{
}

/// Rounding toward zero never grows a quotient: `|trunc_div(a, b)| * b <= |a|`,
/// and the quotient has the sign of `a`.
pub proof fn lemma_trunc_div_bounds(a: int, b: int)
    by (nonlinear_arith)
    requires
        b > 0,
    ensures
        magnitude(trunc_div(a, b)) * b <= magnitude(a),
        magnitude(a) < (magnitude(trunc_div(a, b)) + 1) * b,
        a >= 0 ==> trunc_div(a, b) >= 0,
        a <= 0 ==> trunc_div(a, b) <= 0,
        trunc_div(-a, b) == -trunc_div(a, b),
{
}

/// Rounding toward zero keeps the order: a larger dividend gives no
/// smaller quotient.
pub proof fn lemma_trunc_div_monotone(a: int, b: int, d: int)
    by (nonlinear_arith)
    requires
        d > 0,
        a <= b,
    ensures
        trunc_div(a, d) <= trunc_div(b, d),
{
    lemma_trunc_div_bounds(a, d);
    lemma_trunc_div_bounds(b, d);
    if a >= 0 {
        assert(a / d <= b / d);
    } else if b < 0 {
        assert((-b) / d <= (-a) / d);
    }
}

/// A rate that was made to change a quantity by `x` within a tick, applied
/// over that tick, changes the quantity by `x` up to the rounding: never by
/// more, and by less than one thousandth and the tick's share of a second
/// too little.
pub proof fn lemma_rate_applied_over_its_tick(x: int, millis: int)
    requires
        millis > 0,
    ensures
        magnitude(during(per_time(x, millis), millis)) <= magnitude(x),
        magnitude(x) * 1000 < (magnitude(during(per_time(x, millis), millis)) + 1) * 1000 + millis,
        x >= 0 ==> during(per_time(x, millis), millis) >= 0,
        x <= 0 ==> during(per_time(x, millis), millis) <= 0,
{
    let a = per_time(x, millis);
    let back = during(a, millis);
    lemma_trunc_div_bounds(x * 1000, millis);
    lemma_trunc_div_bounds(a * millis, 1000);
    assert(magnitude(x * 1000) == magnitude(x) * 1000);
    assert(magnitude(a * millis) == magnitude(a) * millis) by (nonlinear_arith)
        requires
            millis > 0,
    ;
    assert(x >= 0 ==> a * millis >= 0) by (nonlinear_arith)
        requires
            millis > 0,
            x >= 0 ==> a >= 0,
    ;
    assert(x <= 0 ==> a * millis <= 0) by (nonlinear_arith)
        requires
            millis > 0,
            x <= 0 ==> a <= 0,
    ;
    assert((magnitude(a) + 1) * millis == magnitude(a) * millis + millis) by (nonlinear_arith);
    assert((magnitude(back) + 1) * 1000 == magnitude(back) * 1000 + 1000);
}

/// At most one integer is the floor square root of `n`.
pub proof fn lemma_floor_sqrt_unique(r: int, n: int)
    requires
        is_floor_sqrt(r, n),
    ensures
        floor_sqrt(n) == r,
{
    let s = floor_sqrt(n);
    assert(is_floor_sqrt(s, n));
    assert(s == r) by (nonlinear_arith)
        requires
            is_floor_sqrt(s, n),
            is_floor_sqrt(r, n),
    {
        if s < r {
            assert((s + 1) * (s + 1) <= r * r);
        } else if r < s {
            assert((r + 1) * (r + 1) <= s * s);
        }
    }
}

/// Clamps a wide integer to the range of a scalar.
pub fn narrow(x: i128) -> (r: i32)
    ensures
        r as int == saturate(x as int),
{
    if x < -2147483648 {
        -2147483648
    } else if x > 2147483647 {
        2147483647
    } else {
        x as i32
    }
}

/// Divides by a positive divisor, rounding toward zero.
pub(crate) fn quotient(a: i128, b: i128) -> (q: i128)
    requires
        b > 0,
        a > i128::MIN,
    ensures
        q as int == trunc_div(a as int, b as int),
        magnitude(q as int) <= magnitude(a as int),
{
    proof {
        lemma_trunc_div_bounds(a as int, b as int);
        assert(magnitude(trunc_div(a as int, b as int)) <= magnitude(a as int))
            by (nonlinear_arith)
            requires
                b > 0,
                magnitude(trunc_div(a as int, b as int)) * b <= magnitude(a as int),
                magnitude(trunc_div(a as int, b as int)) >= 0,
        ;
    }
    if a >= 0 {
        a / b
    } else {
        let n: i128 = -a;
        -(n / b)
    }
}

/// The sum of two scalars, saturating.
pub fn sat_add(a: i32, b: i32) -> (r: i32)
    ensures
        r as int == saturate(a + b),
{
    narrow(a as i128 + b as i128)
}

/// The difference of two scalars, saturating.
pub fn sat_sub(a: i32, b: i32) -> (r: i32)
    ensures
        r as int == saturate(a - b),
{
    narrow(a as i128 - b as i128)
}

/// The negation of a scalar, saturating.
pub fn sat_neg(a: i32) -> (r: i32)
    ensures
        r as int == saturate(-a),
{
    narrow(-(a as i128))
}

/// The product of two scalars, rounded toward zero and saturating.
pub fn sat_mul(a: i32, b: i32) -> (r: i32)
    ensures
        r as int == saturate(fixed_mul(a as int, b as int)),
{
    proof {
        lemma_product_bound(a as int, b as int, 0x8000_0000, 0x8000_0000);
    }
    let p: i128 = (a as i128) * (b as i128);
    narrow(quotient(p, 1000))
}

/// The rate that changes a quantity by `x` over `millis` milliseconds,
/// saturating; zero for a tick without duration.
pub fn rate(x: i32, millis: u32) -> (r: i32)
    ensures
        r as int == saturate(per_time(x as int, millis as int)),
{
    if millis == 0 {
        0
    } else {
        let p: i128 = (x as i128) * 1000;
        narrow(quotient(p, millis as i128))
    }
}

/// The integer square root, rounded down.
pub fn isqrt(n: u64) -> (r: u32)
    ensures
        is_floor_sqrt(r as int, n as int),
        r as int == floor_sqrt(n as int),
{
    let mut lo: u64 = 0;
    let mut hi: u64 = 0x1_0000_0000;
    assert(n < hi * hi) by (nonlinear_arith)
        requires
            hi == 0x1_0000_0000,
            n <= u64::MAX,
    ;
    while hi - lo > 1
        invariant
            lo < hi <= 0x1_0000_0000,
            lo * lo <= n,
            n < hi * hi,
        decreases hi - lo,
    {
        let mid: u64 = lo + (hi - lo) / 2;
        assert(mid * mid <= 0xffff_ffff * 0xffff_ffff) by (nonlinear_arith)
            requires
                0 <= mid <= 0xffff_ffff,
        ;
        if mid * mid <= n {
            lo = mid;
        } else {
            hi = mid;
        }
    }
    proof {
        assert(hi == lo + 1);
        lemma_floor_sqrt_unique(lo as int, n as int);
    }
    lo as u32
}

/// The integer square root, rounded up.
pub fn isqrt_ceil(n: u64) -> (r: u64)
    ensures
        r as int == ceil_sqrt(n as int),
        n as int <= r * r,
        n > 0 ==> r > 0,
        r <= 0x1_0000_0000,
{
    let s: u32 = isqrt(n);
    let w: u64 = s as u64;
    assert(w * w <= n);
    assert(n < (w + 1) * (w + 1));
    if w * w == n {
        w
    } else {
        w + 1
    }
}

} // verus!
