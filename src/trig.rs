use vstd::prelude::*;
use crate::fixed::{abs, div_tz};

verus! {

/// Largest angle size, in milliradians (a quarter turn), that `sine` accepts.
pub const MAX_SINE_ANGLE: i64 = 1571;

const SINE_DENOM: i128 = 5_040_000_000_000_000_000_000;

/// The Taylor polynomial of degree seven of the sine,
/// `x - x^3/6 + x^5/120 - x^7/5040`, for an angle in milliradians, in
/// thousandths.
pub open spec fn sine_polynomial(a: int) -> int {
    div_tz(
        a * 5_040_000_000_000_000_000_000 - a * a * a * 840_000_000_000_000 + a * a * a * a * a * 42_000_000 - a * a
            * a * a * a * a * a,
        5_040_000_000_000_000_000_000,
    )
}

/// Sine of an angle in milliradians, in thousandths: the polynomial, kept
/// within -1 ..= 1.
pub open spec fn sine_spec(a: int) -> int {
    let p = sine_polynomial(a);
    if p > 1000 {
        1000
    } else if p < -1000 {
        -1000
    } else {
        p
    }
}

/// Sine of an angle in milliradians, in thousandths (see `sine_spec`).
pub fn sine(angle: i64) -> (r: i64)
    requires
        abs(angle as int) <= MAX_SINE_ANGLE,
    ensures
        r == sine_spec(angle as int),
        -1000 <= r <= 1000,
{
    let a = angle as i128;
    proof {
        let a2 = a * a;
        assert(0 <= a2 <= 2_468_041) by (nonlinear_arith)
            requires
                -1571 <= a <= 1571,
                a2 == a * a,
        ;
        let a3 = a2 * a;
        assert(-3_877_292_411 <= a3 <= 3_877_292_411) by (nonlinear_arith)
            requires
                -1571 <= a <= 1571,
                0 <= a2 <= 2_468_041,
                a3 == a2 * a,
        ;
        let a4 = a3 * a;
        assert(-6_091_226_377_681 <= a4 <= 6_091_226_377_681) by (nonlinear_arith)
            requires
                -1571 <= a <= 1571,
                -3_877_292_411 <= a3 <= 3_877_292_411,
                a4 == a3 * a,
        ;
        let a5 = a4 * a;
        assert(-9_569_316_639_336_851 <= a5 <= 9_569_316_639_336_851) by (nonlinear_arith)
            requires
                -1571 <= a <= 1571,
                -6_091_226_377_681 <= a4 <= 6_091_226_377_681,
                a5 == a4 * a,
        ;
        let a6 = a5 * a;
        assert(-15_033_396_440_398_192_921 <= a6 <= 15_033_396_440_398_192_921) by (nonlinear_arith)
            requires
                -1571 <= a <= 1571,
                -9_569_316_639_336_851 <= a5 <= 9_569_316_639_336_851,
                a6 == a5 * a,
        ;
        let a7 = a6 * a;
        assert(-23_617_465_807_865_561_078_891 <= a7 <= 23_617_465_807_865_561_078_891) by (nonlinear_arith)
            requires
                -1571 <= a <= 1571,
                -15_033_396_440_398_192_921 <= a6 <= 15_033_396_440_398_192_921,
                a7 == a6 * a,
        ;
        assert(a * a * a == a3 && a * a * a * a * a == a5 && a * a * a * a * a * a * a == a7) by (nonlinear_arith)
            requires
                a2 == a * a,
                a3 == a2 * a,
                a4 == a3 * a,
                a5 == a4 * a,
                a6 == a5 * a,
                a7 == a6 * a,
        ;
    }
    let n: i128 = a * 5_040_000_000_000_000_000_000 - a * a * a * 840_000_000_000_000 + a * a * a * a * a * 42_000_000
        - a * a * a * a * a * a * a;
    let p = crate::fixed::div_toward_zero(n, SINE_DENOM);
    if p > 1000 {
        1000
    } else if p < -1000 {
        -1000
    } else {
        p as i64
    }
}

/// A full turn, in milliradians.
pub const FULL_TURN: i64 = 6283;

/// A half turn, in milliradians.
pub const HALF_TURN: i64 = 3142;

/// An angle brought into a quarter turn either side of zero with the same
/// sine: first into one turn, then reflected about a quarter turn.
pub open spec fn reduce_angle(a: int) -> int {
    let r = a % (FULL_TURN as int);
    let s = if r >= HALF_TURN { r - FULL_TURN } else { r };
    if s > MAX_SINE_ANGLE {
        HALF_TURN - s
    } else if s < -MAX_SINE_ANGLE {
        -HALF_TURN - s
    } else {
        s
    }
}

/// Sine of any angle in milliradians, in thousandths.
pub open spec fn periodic_sine_spec(a: int) -> int {
    sine_spec(reduce_angle(a))
}

/// Cosine of any angle in milliradians, in thousandths: the sine a quarter
/// turn further on.
pub open spec fn cosine_spec(a: int) -> int {
    periodic_sine_spec(a + MAX_SINE_ANGLE)
}

/// Sine of any angle in milliradians, in thousandths.
pub fn periodic_sine(angle: i64) -> (r: i64)
    requires
        abs(angle as int) <= 1_000_000_000_000_000_000,
    ensures
        r == periodic_sine_spec(angle as int),
        -1000 <= r <= 1000,
{
    let full = FULL_TURN;
    let r: i64 = if angle >= 0 {
        angle % full
    } else {
        let k = (-angle) % full;
        proof {
            let a = angle as int;
            let d = full as int;
            assert(k == (-a) % d);
            assert((-a) == d * ((-a) / d) + k) by (nonlinear_arith)
                requires
                    d > 0,
                    k == (-a) % d,
            ;
            if k == 0 {
                assert(a == d * (-((-a) / d)));
                assert(a % d == 0) by (nonlinear_arith)
                    requires
                        a == d * (-((-a) / d)),
                        d > 0,
                ;
            } else {
                assert(a == d * (-((-a) / d) - 1) + (d - k));
                assert(a % d == d - k) by (nonlinear_arith)
                    requires
                        a == d * (-((-a) / d) - 1) + (d - k),
                        0 < d - k < d,
                ;
            }
        }
        if k == 0 { 0 } else { full - k }
    };
    assert(r == (angle as int) % (FULL_TURN as int));
    let s: i64 = if r >= HALF_TURN { r - FULL_TURN } else { r };
    let t: i64 = if s > MAX_SINE_ANGLE {
        HALF_TURN - s
    } else if s < -MAX_SINE_ANGLE {
        -HALF_TURN - s
    } else {
        s
    };
    let out = sine(t);
    out
}

/// Cosine of any angle in milliradians, in thousandths.
pub fn cosine(angle: i64) -> (r: i64)
    requires
        abs(angle as int) <= 999_999_999_999_990_000,
    ensures
        r == cosine_spec(angle as int),
        -1000 <= r <= 1000,
{
    periodic_sine(angle + MAX_SINE_ANGLE)
}

} // verus!
