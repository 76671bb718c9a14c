use vstd::prelude::*;
use crate::fixed::{abs, mul_fx, lemma_div_tz_bound, SCALE};
use crate::vector::{Vec3, scale_component};
use crate::fixed::{div_tz, div_toward_zero};
use crate::exponential::{exp_milli, exp_spec};

verus! {

/// Largest wing span (100 km) that the ground-effect laws accept.
pub const MAX_SPAN: i64 = 100_000_000;

/// Height of a wing over the ground and its size, in millimetres.
#[derive(Clone, Copy, Debug, PartialEq, Eq, Structural)]
pub struct GroundEffectParams {
    pub altitude: i64,
    pub wing_span: i64,
    pub wing_chord: i64,
}

/// Lift multiplier near the ground: 1 from one span up; below, `1 / f`, the
/// reciprocal of the classic wing-in-ground-effect factor
/// `f = (16 h/b)^2 / (1 + (16 h/b)^2)`, which is `1 + (b / 16h)^2` and grows
/// without bound as the height falls. (Writing the multiplier as
/// `1 / (1 - f)` instead would give `1 + (16h/b)^2`, which falls toward 1 at
/// the ground, the opposite of ground effect.) A wing touching the ground is
/// taken to be half a millimetre above it.
pub open spec fn ground_effect_factor_spec(altitude: int, span: int) -> int {
    if altitude >= span {
        SCALE as int
    } else if altitude == 0 {
        SCALE + 4000 * span * span / 256
    } else {
        SCALE + 1000 * span * span / (256 * altitude * altitude)
    }
}

/// Lift multiplier for a wing at the given height over the ground.
pub fn calculate_ground_effect_factor(params: &GroundEffectParams) -> (r: i64)
    requires
        params.altitude >= 0,
        0 < params.wing_span <= MAX_SPAN,
    ensures
        r == ground_effect_factor_spec(params.altitude as int, params.wing_span as int),
        SCALE <= r,
        params.altitude >= params.wing_span ==> r == SCALE,
        params.altitude < params.wing_span ==> r > SCALE,
{
    let h = params.altitude;
    let b = params.wing_span;
    if h >= b {
        return SCALE;
    }
    proof {
        assert(0 <= (h as int) * (h as int) < (b as int) * (b as int) <= 10_000_000_000_000_000) by (nonlinear_arith)
            requires
                0 <= h < b <= 100_000_000,
        ;
    }
    let hh = (h as i128) * (h as i128);
    let bb = (b as i128) * (b as i128);
    proof {
        lemma_in_effect(h as int, b as int);
        assert(1000 * (b as int) * (b as int) == 1000 * bb && 4000 * (b as int) * (b as int) == 4000 * bb && 256 * (h as int)
            * (h as int) == 256 * hh) by (nonlinear_arith)
            requires
                hh == h * h,
                bb == b * b,
        ;
    }
    if h == 0 {
        SCALE + (4000 * bb / 256) as i64
    } else {
        assert(hh >= 1) by (nonlinear_arith)
            requires
                h >= 1,
                hh == h * h,
        ;
        SCALE + (1000 * bb / (256 * hh)) as i64
    }
}

/// Below one span the factor exceeds 1 and fits the fixed-point range.
proof fn lemma_in_effect(h: int, b: int)
    requires
        0 <= h < b <= MAX_SPAN,
    ensures
        SCALE < ground_effect_factor_spec(h, b) <= SCALE + 4000 * b * b / 256,
        4000 * b * b / 256 <= 160_000_000_000_000_000,
{
    let bb = b * b;
    let hh = h * h;
    assert(0 <= hh < bb <= 10_000_000_000_000_000) by (nonlinear_arith)
        requires
            0 <= h < b <= 100_000_000,
            hh == h * h,
            bb == b * b,
    ;
    assert(4000 * b * b == 4000 * bb && 1000 * b * b == 1000 * bb && 256 * h * h == 256 * hh) by (nonlinear_arith)
        requires
            hh == h * h,
            bb == b * b,
    ;
    assert(4000 * bb / 256 >= 15);
    if h > 0 {
        assert(hh >= 1) by (nonlinear_arith)
            requires
                h >= 1,
                hh == h * h,
        ;
        lemma_quotient_order(1000 * bb, 256, 256 * hh);
        assert(1000 * bb / (256 * hh) >= 3) by (nonlinear_arith)
            requires
                hh < bb,
                hh > 0,
        ;
    }
}

/// The multiplier for heights from a metre up on a wing of at most 100 m:
/// at most about 40.
pub proof fn lemma_factor_in_flight(h: int, b: int)
    requires
        1000 <= h,
        0 < b <= 100_000,
    ensures
        SCALE <= ground_effect_factor_spec(h, b) <= 40_063,
{
    if h < b {
        let bb = b * b;
        let hh = h * h;
        assert(0 < bb <= 10_000_000_000 && hh >= 1_000_000) by (nonlinear_arith)
            requires
                1000 <= h,
                0 < b <= 100_000,
                hh == h * h,
                bb == b * b,
        ;
        assert(1000 * b * b == 1000 * bb && 256 * h * h == 256 * hh) by (nonlinear_arith)
            requires
                hh == h * h,
                bb == b * b,
        ;
        assert(1000 * bb / (256 * hh) <= 39_063) by (nonlinear_arith)
            requires
                0 < bb <= 10_000_000_000,
                hh >= 1_000_000,
        ;
        lemma_in_effect(h, b);
    }
}

proof fn lemma_quotient_order(n: int, d1: int, d2: int)
    requires
        n >= 0,
        0 < d1 <= d2,
    ensures
        n / d1 >= n / d2,
        n * (d2 - d1) >= d1 * d2 ==> n / d1 > n / d2,
{
    let q1 = n / d1;
    let q2 = n / d2;
    let r1 = n % d1;
    let r2 = n % d2;
    assert(n == q1 * d1 + r1 && 0 <= r1 < d1) by (nonlinear_arith)
        requires
            d1 > 0,
            q1 == n / d1,
            r1 == n % d1,
    ;
    assert(n == q2 * d2 + r2 && 0 <= r2 < d2) by (nonlinear_arith)
        requires
            d2 > 0,
            q2 == n / d2,
            r2 == n % d2,
    ;
    assert(q1 >= q2) by (nonlinear_arith)
        requires
            n == q1 * d1 + r1,
            0 <= r1 < d1,
            n == q2 * d2 + r2,
            0 <= r2 < d2,
            0 < d1 <= d2,
            n >= 0,
    ;
    if n * (d2 - d1) >= d1 * d2 {
        assert(q1 > q2) by (nonlinear_arith)
            requires
                n == q1 * d1 + r1,
                0 <= r1 < d1,
                n == q2 * d2 + r2,
                0 <= r2 < d2,
                0 < d1 <= d2,
                n * (d2 - d1) >= d1 * d2,
        ;
    }
}

/// Ground effect only ever raises lift, and raises it more the lower the
/// wing: the factor is exactly 1 from one span up and above 1 below it; it is
/// never smaller at a lower height; it is strictly larger on the ground than
/// at any height; and it is strictly larger at the lower of two heights
/// wherever the exact factors differ by at least the resolution of a
/// thousandth (`1000 b^2 (h2^2 - h1^2) >= 256 h1^2 h2^2`).
pub proof fn ground_effect_raises_lift(h1: int, h2: int, span: int)
    requires
        0 <= h1 <= h2,
        0 < span <= MAX_SPAN,
    ensures
        h2 >= span ==> ground_effect_factor_spec(h2, span) == SCALE,
        h1 < span ==> ground_effect_factor_spec(h1, span) > SCALE,
        ground_effect_factor_spec(h1, span) >= ground_effect_factor_spec(h2, span),
        h1 == 0 && h2 > 0 ==> ground_effect_factor_spec(h1, span) > ground_effect_factor_spec(h2, span),
        0 < h1 < h2 < span && 1000 * span * span * (h2 * h2 - h1 * h1) >= 256 * h1 * h1 * h2 * h2
            ==> ground_effect_factor_spec(h1, span) > ground_effect_factor_spec(h2, span),
{
    let bb = span * span;
    let s1 = h1 * h1;
    let s2 = h2 * h2;
    assert(0 <= s1 <= s2) by (nonlinear_arith)
        requires
            0 <= h1 <= h2,
            s1 == h1 * h1,
            s2 == h2 * h2,
    ;
    assert(h1 > 0 ==> s1 >= 1) by (nonlinear_arith)
        requires
            s1 == h1 * h1,
    ;
    assert(h2 > 0 ==> s2 >= 1) by (nonlinear_arith)
        requires
            s2 == h2 * h2,
    ;
    assert(4000 * span * span == 4000 * bb && 1000 * span * span == 1000 * bb && 256 * h1 * h1 == 256 * s1 && 256 * h2
        * h2 == 256 * s2) by (nonlinear_arith)
        requires
            s1 == h1 * h1,
            s2 == h2 * h2,
            bb == span * span,
    ;
    assert(bb >= 1) by (nonlinear_arith)
        requires
            span >= 1,
            bb == span * span,
    ;
    if h1 < span {
        lemma_in_effect(h1, span);
    }
    if h2 < span {
        lemma_in_effect(h2, span);
        if h1 == 0 && h2 > 0 {
            lemma_quotient_order(1000 * bb, 256, 256 * s2);
            assert(4000 * bb / 256 > 1000 * bb / 256);
        }
        if h1 > 0 {
            lemma_quotient_order(1000 * bb, 256 * s1, 256 * s2);
            if 1000 * span * span * (h2 * h2 - h1 * h1) >= 256 * h1 * h1 * h2 * h2 {
                assert(1000 * bb * (256 * s2 - 256 * s1) >= (256 * s1) * (256 * s2)) by (nonlinear_arith)
                    requires
                        1000 * span * span * (h2 * h2 - h1 * h1) >= 256 * h1 * h1 * h2 * h2,
                        s1 == h1 * h1,
                        s2 == h2 * h2,
                        bb == span * span,
                ;
            }
        }
    }
}

/// Lift scaled by a ground-effect factor.
pub fn apply_ground_effect_to_lift(base_lift: Vec3, ground_effect_factor: i64) -> (r: Vec3)
    requires
        ground_effect_factor >= 0,
        abs(base_lift.x as int) * ground_effect_factor <= 1_000_000_000_000_000_000_000,
        abs(base_lift.y as int) * ground_effect_factor <= 1_000_000_000_000_000_000_000,
        abs(base_lift.z as int) * ground_effect_factor <= 1_000_000_000_000_000_000_000,
    ensures
        r.x == mul_fx(base_lift.x as int, ground_effect_factor as int),
        r.y == mul_fx(base_lift.y as int, ground_effect_factor as int),
        r.z == mul_fx(base_lift.z as int, ground_effect_factor as int),
        abs(r.x as int) * 1000 <= abs(base_lift.x as int) * ground_effect_factor,
        abs(r.y as int) * 1000 <= abs(base_lift.y as int) * ground_effect_factor,
        abs(r.z as int) * 1000 <= abs(base_lift.z as int) * ground_effect_factor,
        ground_effect_factor == SCALE ==> r == base_lift,
        ground_effect_factor >= SCALE ==> abs(r.x as int) >= abs(base_lift.x as int) && abs(r.y as int) >= abs(
            base_lift.y as int,
        ) && abs(r.z as int) >= abs(base_lift.z as int),
        ground_effect_factor > SCALE ==> (abs(base_lift.x as int) >= SCALE ==> abs(r.x as int) > abs(base_lift.x as int))
            && (abs(base_lift.y as int) >= SCALE ==> abs(r.y as int) > abs(base_lift.y as int)) && (abs(base_lift.z as int)
            >= SCALE ==> abs(r.z as int) > abs(base_lift.z as int)),
{
    proof {
        lemma_scaled_bound(base_lift.x as int, ground_effect_factor as int);
        lemma_scaled_bound(base_lift.y as int, ground_effect_factor as int);
        lemma_scaled_bound(base_lift.z as int, ground_effect_factor as int);
    }
    Vec3 {
        x: scale_component(base_lift.x, ground_effect_factor),
        y: scale_component(base_lift.y, ground_effect_factor),
        z: scale_component(base_lift.z, ground_effect_factor),
    }
}

proof fn lemma_scaled_bound(c: int, k: int)
    requires
        k >= 0,
        abs(c) * k <= 1_000_000_000_000_000_000_000,
    ensures
        abs(mul_fx(c, k)) * 1000 <= abs(c) * k,
        abs(mul_fx(c, k)) <= 1_000_000_000_000_000_000,
        k == SCALE ==> mul_fx(c, k) == c,
        k >= SCALE ==> abs(mul_fx(c, k)) >= abs(c),
        k > SCALE && abs(c) >= SCALE ==> abs(mul_fx(c, k)) > abs(c),
{
    let n = c * k;
    assert(abs(n) == abs(c) * k) by (nonlinear_arith)
        requires
            n == c * k,
            k >= 0,
    ;
    assert((abs(n) / 1000) * 1000 <= abs(n)) by (nonlinear_arith);
    if k >= SCALE {
        assert(abs(n) >= abs(c) * 1000) by (nonlinear_arith)
            requires
                abs(n) == abs(c) * k,
                k >= 1000,
        ;
    }
    if k > SCALE && abs(c) >= SCALE {
        assert(abs(n) >= abs(c) * 1000 + 1000) by (nonlinear_arith)
            requires
                abs(n) == abs(c) * k,
                k >= 1001,
                abs(c) >= 1000,
        ;
    }
    if k == SCALE {
        assert(n == c * 1000);
    }
}

/// Share of the induced drag left near the ground: 1 above one span, else
/// `1 - 0.48 e^(-2 h/b)`.
pub open spec fn drag_reduction_spec(altitude: int, span: int) -> int {
    if altitude > span {
        SCALE as int
    } else {
        SCALE - mul_fx(480, exp_spec(div_tz(-2000 * altitude, span)))
    }
}

/// Share of the induced drag left for a wing at the given height.
pub fn calculate_ground_effect_drag_reduction(params: &GroundEffectParams) -> (r: i64)
    requires
        params.altitude >= 0,
        0 < params.wing_span <= MAX_SPAN,
    ensures
        r == drag_reduction_spec(params.altitude as int, params.wing_span as int),
{
    let h = params.altitude;
    let b = params.wing_span;
    if h > b {
        return SCALE;
    }
    proof {
        lemma_div_tz_bound(-2000 * h, b as int, 2000);
    }
    let e = exp_milli(div_toward_zero(-2000 * (h as i128), b as i128) as i64);
    proof {
        assert(abs(480 * e) <= 275_000 * 1000) by (nonlinear_arith)
            requires
                abs(e as int) <= 275_000,
        ;
        lemma_div_tz_bound(480 * e, 1000, 275_000);
    }
    SCALE - scale_component(480, e)
}

} // verus!
