//! Fixed-point scalars.
//!
//! Every coordinate, length, zoom factor and progress value of this crate is
//! an `i64` that counts thousandths: `UNIT` stands for one whole. Results
//! that leave the range of `i64` stop at its ends.

use vstd::prelude::*;

verus! {

/// The fixed-point representation of 1.
pub const UNIT: i64 = 1000;

/// The value of `i64` nearest to `x`.
pub open spec fn saturate(x: int) -> i64 {
    if x < i64::MIN {
        i64::MIN
    } else if x > i64::MAX {
        i64::MAX
    } else {
        x as i64
    }
}

/// `x` held to the interval from `lo` to `hi`.
pub open spec fn clamp(x: int, lo: int, hi: int) -> int {
    if x < lo {
        lo
    } else if x > hi {
        hi
    } else {
        x
    }
}

/// `v` times the ratio `num / den`, rounded down.
pub open spec fn scale(v: int, num: int, den: int) -> int {
    (v * num) / den
}

/// The product of two `i64` values fits in `i128` with room to spare.
pub proof fn lemma_product_bound(a: int, b: int)
    requires
        i64::MIN <= a <= i64::MAX,
        i64::MIN <= b <= i64::MAX,
    ensures
        -0x4000_0000_0000_0000_0000_0000_0000_0000 <= a * b
            <= 0x4000_0000_0000_0000_0000_0000_0000_0000,
{
    assert(-0x4000_0000_0000_0000_0000_0000_0000_0000 <= a * b
        <= 0x4000_0000_0000_0000_0000_0000_0000_0000) by (nonlinear_arith)
        requires
            -0x8000_0000_0000_0000 <= a <= 0x8000_0000_0000_0000,
            -0x8000_0000_0000_0000 <= b <= 0x8000_0000_0000_0000,
    ;
}

/// Narrows `x` to `i64`, stopping at the ends of the range.
pub fn saturate_i128(x: i128) -> (r: i64)
    ensures
        r == saturate(x as int),
{
    if x < -0x8000_0000_0000_0000 {
        i64::MIN
    } else if x > 0x7fff_ffff_ffff_ffff {
        i64::MAX
    } else {
        x as i64
    }
}

/// The sum of `a` and `b`, stopping at the ends of the range.
pub fn add_sat(a: i64, b: i64) -> (r: i64)
    ensures
        r == saturate(a + b),
{
    saturate_i128(a as i128 + b as i128)
}

/// The difference of `a` and `b`, stopping at the ends of the range.
pub fn sub_sat(a: i64, b: i64) -> (r: i64)
    ensures
        r == saturate(a - b),
{
    saturate_i128(a as i128 - b as i128)
}

/// `count` times `each`.
pub fn times(count: usize, each: i64) -> (r: i128)
    ensures
        r == count * each,
        -0x7fff_ffff_ffff_ffff_8000_0000_0000_0000 <= r <= 0x7fff_ffff_ffff_ffff_8000_0000_0000_0000,
{
    let c: i128 = count as i128;
    let e: i128 = each as i128;
    assert(-0x7fff_ffff_ffff_ffff_8000_0000_0000_0000 <= c * e
        <= 0x7fff_ffff_ffff_ffff_8000_0000_0000_0000) by (nonlinear_arith)
        requires
            0 <= c <= 0xffff_ffff_ffff_ffff,
            -0x8000_0000_0000_0000 <= e <= 0x8000_0000_0000_0000,
    ;
    c * e
}

/// The quotient of `a` by a positive `d`, rounded down.
pub fn floor_div(a: i128, d: i128) -> (q: i128)
    requires
        d > 0,
    ensures
        q == (a as int) / (d as int),
{
    if a >= 0 {
        a / d
    } else {
        let m: i128 = -(a + 1);
        proof {
            lemma_floor_of_negative(a as int, d as int);
            lemma_quotient_bound(m as int, d as int);
        }
        -1 - m / d
    }
}

/// Below zero, rounding down is rounding the distance from -1 down, and
/// stepping one further.
pub proof fn lemma_floor_of_negative(a: int, d: int)
    requires
        a < 0,
        d > 0,
    ensures
        a / d == -1 - (-(a + 1)) / d,
{
    let m = -(a + 1);
    let q = m / d;
    let r = m % d;
    assert(m == d * q + r && 0 <= r < d) by (nonlinear_arith)
        requires
            d > 0,
            q == m / d,
            r == m % d,
    ;
    let s = (d - 1) - r;
    assert(a == (-1 - q) * d + s && 0 <= s < d) by (nonlinear_arith)
        requires
            m == d * q + r,
            0 <= r < d,
            m == -(a + 1),
            s == (d - 1) - r,
    ;
    vstd::arithmetic::div_mod::lemma_fundamental_div_mod_converse(a, d, -1 - q, s);
}

/// `v` times the ratio `num / den`, rounded down, for a positive `den`.
pub fn mul_div(v: i64, num: i64, den: i64) -> (r: i128)
    requires
        den > 0,
    ensures
        r == scale(v as int, num as int, den as int),
        -0x4000_0000_0000_0000_0000_0000_0000_0000 <= r
            <= 0x4000_0000_0000_0000_0000_0000_0000_0000,
{
    proof {
        lemma_product_bound(v as int, num as int);
    }
    let p: i128 = (v as i128) * (num as i128);
    let q = floor_div(p, den as i128);
    proof {
        lemma_quotient_bound(p as int, den as int);
    }
    q
}

/// Dividing by a positive number does not move a value away from zero.
pub proof fn lemma_quotient_bound(a: int, d: int)
    requires
        d > 0,
    ensures
        a >= 0 ==> 0 <= a / d <= a,
        a < 0 ==> a <= a / d < 0,
{
    let q = a / d;
    let r = a % d;
    assert(a == d * q + r && 0 <= r < d) by (nonlinear_arith)
        requires
            d > 0,
            q == a / d,
            r == a % d,
    ;
    assert((a >= 0 ==> 0 <= q <= a) && (a < 0 ==> a <= q < 0)) by (nonlinear_arith)
        requires
            a == d * q + r,
            0 <= r < d,
            d > 0,
    ;
}

/// The value a part `t` of the way from `a` to `b`, where `UNIT` is the
/// whole way.
pub open spec fn mix(a: int, b: int, t: int) -> int {
    a + scale(b - a, t, UNIT as int)
}

/// The value a part `t` of the way from `a` to `b`.
pub fn lerp(a: i64, b: i64, t: i64) -> (r: i64)
    ensures
        r == saturate(mix(a as int, b as int, t as int)),
{
    let d: i128 = b as i128 - a as i128;
    let k: i128 = t as i128;
    assert(-0x7fff_ffff_ffff_ffff_8000_0000_0000_0000 <= d * k
        <= 0x7fff_ffff_ffff_ffff_8000_0000_0000_0000) by (nonlinear_arith)
        requires
            -0xffff_ffff_ffff_ffff <= d <= 0xffff_ffff_ffff_ffff,
            -0x8000_0000_0000_0000 <= k <= 0x8000_0000_0000_0000,
    ;
    let q = floor_div(d * k, UNIT as i128);
    proof {
        lemma_quotient_bound((d * k) as int, UNIT as int);
    }
    saturate_i128(a as i128 + q)
}

/// Scaling by `num / den` and back by `den / num` never overshoots, and falls
/// short by less than `den / num + 1`.
pub proof fn lemma_scale_there_and_back(x: int, num: int, den: int)
    requires
        num > 0,
        den > 0,
    ensures
        scale(scale(x, num, den), den, num) <= x,
        (x - scale(scale(x, num, den), den, num)) * num < den + num,
{
    let q = scale(x, num, den);
    let m = (x * num) % den;
    let back = scale(q, den, num);
    let k = (q * den) % num;
    assert(x * num == den * q + m && 0 <= m < den) by (nonlinear_arith)
        requires
            den > 0,
            q == (x * num) / den,
            m == (x * num) % den,
    ;
    assert(q * den == num * back + k && 0 <= k < num) by (nonlinear_arith)
        requires
            num > 0,
            back == (q * den) / num,
            k == (q * den) % num,
    ;
    assert((x - back) * num == m + k) by (nonlinear_arith)
        requires
            x * num == den * q + m,
            q * den == num * back + k,
    ;
    assert(back <= x) by (nonlinear_arith)
        requires
            (x - back) * num == m + k,
            0 <= m + k,
            num > 0,
    ;
}

} // verus!
