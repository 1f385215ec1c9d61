//! Exact integer helpers shared by the timing, camera and capture code:
//! truncating scaled multiplication for signed fixed-point values, range
//! clamping, and fixed-width decimal digit rendering.

use vstd::prelude::*;

verus! {

/// Magnitude of an integer.
pub open spec fn abs_int(a: int) -> int {
    if a >= 0 { a } else { -a }
}

/// `a * num / den` rounded toward zero, the semantics of all the crate's
/// fixed-point scaling.
pub open spec fn mul_div_trunc(a: int, num: int, den: int) -> int
    recommends
        den > 0,
{
    if a >= 0 { (a * num) / den } else { -((-a * num) / den) }
}

/// `v` clamped into `[-bound, bound]`.
pub open spec fn clamp_spec(v: int, bound: int) -> int {
    if v > bound { bound } else if v < -bound { -bound } else { v }
}

/// Truncating scaled multiplication on machine integers; the magnitudes are
/// widened to `u128`, so the only demand is that the result itself fits.
pub fn mul_frac(a: i64, num: u64, den: u64) -> (r: i64)
    requires
        den > 0,
        (abs_int(a as int) * num) / (den as int) <= i64::MAX,
    ensures
        r == mul_div_trunc(a as int, num as int, den as int),
{
    let mag: u128 = if a >= 0 {
        a as u128
    } else {
        ((-(a + 1)) as u128) + 1
    };
    assert(mag == abs_int(a as int));
    assert(mag * (num as u128) == abs_int(a as int) * num && mag * (num as u128) < u128::MAX) by (nonlinear_arith)
        requires
            mag == abs_int(a as int),
            0 <= mag <= u64::MAX as u128 + 1,
            num <= u64::MAX,
    ;
    let q: u128 = mag * (num as u128) / (den as u128);
    assert(q == (abs_int(a as int) * num) / (den as int));
    if a >= 0 {
        q as i64
    } else {
        proof {
            assert(mul_div_trunc(a as int, num as int, den as int) == -(q as int));
        }
        -(q as i64)
    }
}

/// `v` clamped into `[-bound, bound]`.
pub fn clamp(v: i64, bound: i64) -> (r: i64)
    requires
        bound >= 0,
    ensures
        r == clamp_spec(v as int, bound as int),
{
    if v > bound {
        bound
    } else if v < -bound {
        -bound
    } else {
        v
    }
}

/// The ASCII decimal digit of rank `p` (a power of ten) in `n`.
pub open spec fn digit_at(n: int, p: int) -> u8 {
    (48 + (n / p) % 10) as u8
}

/// The eight ASCII digits of `n` zero-padded to width eight, most
/// significant first.
pub open spec fn pad8_spec(n: int) -> Seq<u8> {
    seq![
        digit_at(n, 10_000_000),
        digit_at(n, 1_000_000),
        digit_at(n, 100_000),
        digit_at(n, 10_000),
        digit_at(n, 1_000),
        digit_at(n, 100),
        digit_at(n, 10),
        digit_at(n, 1),
    ]
}

/// Render `n` as exactly eight zero-padded ASCII decimal digits.
pub fn pad8(n: u64) -> (v: Vec<u8>)
    requires
        n < 100_000_000,
    ensures
        v@ == pad8_spec(n as int),
        v@.len() == 8,
    {
    let mut v: Vec<u8> = Vec::new();
    v.push((48 + (n / 10_000_000) % 10) as u8);
    v.push((48 + (n / 1_000_000) % 10) as u8);
    v.push((48 + (n / 100_000) % 10) as u8);
    v.push((48 + (n / 10_000) % 10) as u8);
    v.push((48 + (n / 1_000) % 10) as u8);
    v.push((48 + (n / 100) % 10) as u8);
    v.push((48 + (n / 10) % 10) as u8);
    v.push((48 + n % 10) as u8);
    proof {
        assert(v@ =~= pad8_spec(n as int));
    }
    v
}

} // verus!

