use vstd::prelude::*;
use crate::fixed::{abs, mul_fx, lemma_div_tz_bound, SCALE};
use crate::vector::scale_component;
use crate::trig::MAX_SINE_ANGLE;
use crate::lift::lift_coefficient_spec;

verus! {

/// Largest size of an angle (in milliradians) that the stall laws accept.
pub const MAX_STALL_ANGLE: i64 = 1_000_000_000;

/// Largest stall progression rate (per radian) that the stall laws accept.
pub const MAX_STALL_RATE: i64 = 1_000_000_000;

/// Parameters of the stall model. Angles are in milliradians; the drop and
/// the rate in thousandths.
#[derive(Clone, Copy, Debug, PartialEq, Eq, Structural)]
pub struct StallParams {
    pub angle_of_attack: i64,
    /// Angle of attack above which the wing stalls.
    pub critical_angle: i64,
    /// Fraction of the lift that is left when the wing is fully stalled.
    pub post_stall_drop: i64,
    /// Growth of the stall severity per radian beyond the critical angle.
    pub stall_progression_rate: i64,
}

impl StallParams {
    /// The parameters lie in the range that the stall laws accept.
    pub open spec fn wf(self) -> bool {
        &&& abs(self.angle_of_attack as int) <= MAX_STALL_ANGLE
        &&& 0 < self.critical_angle <= MAX_STALL_ANGLE
        &&& 0 <= self.post_stall_drop <= SCALE
        &&& 0 <= self.stall_progression_rate <= MAX_STALL_RATE
    }
}

impl Default for StallParams {
    /// A critical angle of 15 degrees, half the lift left after stall, full
    /// stall half a radian past the critical angle.
    fn default() -> (r: StallParams)
        ensures
            r.angle_of_attack == 0,
            r.critical_angle == 262,
            r.post_stall_drop == 500,
            r.stall_progression_rate == 2000,
    {
        StallParams { angle_of_attack: 0, critical_angle: 262, post_stall_drop: 500, stall_progression_rate: 2000 }
    }
}

pub open spec fn min(a: int, b: int) -> int {
    if a < b {
        a
    } else {
        b
    }
}

/// Severity of the stall at `angle`, from 0 at the critical angle to 1 (1000)
/// once fully stalled.
pub open spec fn stall_severity(angle: int, critical: int, rate: int) -> int {
    min(mul_fx(abs(angle) - critical, rate), SCALE as int)
}

/// Fraction of the lift that is kept at `angle`: 1 up to the critical angle,
/// then falling with the severity toward `drop`.
pub open spec fn stall_factor_spec(angle: int, critical: int, drop: int, rate: int) -> int {
    if abs(angle) <= critical {
        SCALE as int
    } else {
        SCALE - mul_fx(stall_severity(angle, critical, rate), SCALE - drop)
    }
}

/// Severity used by the drag law: the excess angle over the critical angle,
/// relative to the critical angle, at most 1.
pub open spec fn drag_stall_severity(angle: int, critical: int) -> int {
    min((abs(angle) - critical) * SCALE / critical, SCALE as int)
}

pub open spec fn stalled_drag_coefficient_spec(base_cd: int, angle: int, critical: int) -> int {
    if abs(angle) <= critical {
        base_cd
    } else {
        mul_fx(base_cd, SCALE + 3 * drag_stall_severity(angle, critical))
    }
}

proof fn lemma_severity(angle: int, critical: int, rate: int)
    requires
        abs(angle) <= MAX_STALL_ANGLE,
        0 < critical < abs(angle),
        0 <= rate <= MAX_STALL_RATE,
    ensures
        0 <= stall_severity(angle, critical, rate) <= SCALE,
        (abs(angle) - critical) * rate <= 1_000_000_000_000_000_000,
{
    let x = abs(angle) - critical;
    assert(0 <= x * rate <= 1_000_000_000_000_000_000) by (nonlinear_arith)
        requires
            0 <= x <= 1_000_000_000,
            0 <= rate <= 1_000_000_000,
    ;
    lemma_div_tz_bound(x * rate, 1000, x * rate);
}

/// Fraction of the lift that a wing keeps at the parameters' angle of attack.
pub fn calculate_stall_factor(params: &StallParams) -> (r: i64)
    requires
        params.wf(),
    ensures
        r == stall_factor_spec(
            params.angle_of_attack as int,
            params.critical_angle as int,
            params.post_stall_drop as int,
            params.stall_progression_rate as int,
        ),
        params.post_stall_drop <= r <= SCALE,
        abs(params.angle_of_attack as int) <= params.critical_angle ==> r == SCALE,
{
    let a: i64 = if params.angle_of_attack < 0 { -params.angle_of_attack } else { params.angle_of_attack };
    if a <= params.critical_angle {
        SCALE
    } else {
        proof {
            lemma_severity(params.angle_of_attack as int, params.critical_angle as int, params.stall_progression_rate as int);
        }
        let over = a - params.critical_angle;
        let raw = scale_component(over, params.stall_progression_rate);
        let severity: i64 = if raw < SCALE { raw } else { SCALE };
        let keep = SCALE - params.post_stall_drop;
        proof {
            assert(0 <= severity * keep <= 1000 * keep) by (nonlinear_arith)
                requires
                    0 <= severity <= 1000,
                    0 <= keep,
            ;
            lemma_div_tz_bound(severity * keep, 1000, keep as int);
        }
        SCALE - scale_component(severity, keep)
    }
}

/// A steeper angle beyond the critical angle never keeps more lift.
pub proof fn stall_factor_non_increasing(params: StallParams, a1: int, a2: int)
    requires
        params.wf(),
        params.critical_angle < abs(a1) <= abs(a2) <= MAX_STALL_ANGLE,
    ensures
        stall_factor_spec(a2, params.critical_angle as int, params.post_stall_drop as int, params.stall_progression_rate as int)
            <= stall_factor_spec(a1, params.critical_angle as int, params.post_stall_drop as int, params.stall_progression_rate as int),
        params.post_stall_drop <= stall_factor_spec(a2, params.critical_angle as int, params.post_stall_drop as int, params.stall_progression_rate as int),
{
    let c = params.critical_angle as int;
    let rate = params.stall_progression_rate as int;
    let keep = SCALE - params.post_stall_drop;
    lemma_severity(a1, c, rate);
    lemma_severity(a2, c, rate);
    let x1 = abs(a1) - c;
    let x2 = abs(a2) - c;
    assert(x1 * rate <= x2 * rate) by (nonlinear_arith)
        requires
            0 <= x1 <= x2,
            rate >= 0,
    ;
    assert(0 <= x1 * rate) by (nonlinear_arith)
        requires
            0 <= x1,
            rate >= 0,
    ;
    assert((x1 * rate) / 1000 <= (x2 * rate) / 1000) by (nonlinear_arith)
        requires
            0 <= x1 * rate <= x2 * rate,
    ;
    let s1 = stall_severity(a1, c, rate);
    let s2 = stall_severity(a2, c, rate);
    assert(s1 <= s2);
    assert(s1 * keep <= s2 * keep) by (nonlinear_arith)
        requires
            0 <= s1 <= s2,
            keep >= 0,
    ;
    assert(0 <= s1 * keep) by (nonlinear_arith)
        requires
            0 <= s1,
            keep >= 0,
    ;
    assert((s1 * keep) / 1000 <= (s2 * keep) / 1000) by (nonlinear_arith)
        requires
            0 <= s1 * keep <= s2 * keep,
    ;
    assert(s2 * keep <= 1000 * keep) by (nonlinear_arith)
        requires
            s2 <= 1000,
            keep >= 0,
    ;
    lemma_div_tz_bound(s2 * keep, 1000, keep);
}

/// Lift coefficient with stall: the sine law scaled by the stall factor.
pub fn calculate_lift_coefficient_with_stall(base_cl: i64, angle_of_attack: i64, stall_params: &StallParams) -> (r: i64)
    requires
        abs(angle_of_attack as int) <= MAX_SINE_ANGLE,
        abs(base_cl as int) <= 1_000_000_000,
        (StallParams { angle_of_attack, ..*stall_params }).wf(),
    ensures
        r == mul_fx(
            lift_coefficient_spec(angle_of_attack as int, base_cl as int),
            stall_factor_spec(
                angle_of_attack as int,
                stall_params.critical_angle as int,
                stall_params.post_stall_drop as int,
                stall_params.stall_progression_rate as int,
            ),
        ),
        abs(r as int) <= 2 * abs(base_cl as int),
{
    let linear = crate::lift::calculate_lift_coefficient(angle_of_attack, base_cl);
    let p = StallParams { angle_of_attack, ..*stall_params };
    let f = calculate_stall_factor(&p);
    proof {
        assert(abs(linear * f) <= 2 * abs(base_cl as int) * 1000) by (nonlinear_arith)
            requires
                abs(linear as int) <= 2 * abs(base_cl as int),
                0 <= f <= 1000,
        ;
        lemma_div_tz_bound(linear * f, 1000, 2 * abs(base_cl as int));
    }
    scale_component(linear, f)
}

/// Drag coefficient with stall: beyond the critical angle it grows with the
/// excess angle, up to four times the base.
pub fn calculate_drag_coefficient_stalled(base_cd: i64, angle_of_attack: i64, stall_params: &StallParams) -> (r: i64)
    requires
        abs(angle_of_attack as int) <= MAX_STALL_ANGLE,
        0 < stall_params.critical_angle <= MAX_STALL_ANGLE,
        abs(base_cd as int) <= 1_000_000_000,
    ensures
        r == stalled_drag_coefficient_spec(base_cd as int, angle_of_attack as int, stall_params.critical_angle as int),
        abs(r as int) <= 4 * abs(base_cd as int),
{
    let a: i64 = if angle_of_attack < 0 { -angle_of_attack } else { angle_of_attack };
    let c = stall_params.critical_angle;
    if a <= c {
        base_cd
    } else {
        proof {
            assert(0 <= (a - c) * 1000 <= 1_000_000_000_000) by (nonlinear_arith)
                requires
                    0 <= a - c <= 1_000_000_000,
            ;
            assert(((a - c) * 1000) / (c as int) >= 0) by (nonlinear_arith)
                requires
                    (a - c) * 1000 >= 0,
                    c > 0,
            ;
            assert(((a - c) * 1000) / (c as int) <= (a - c) * 1000) by (nonlinear_arith)
                requires
                    (a - c) * 1000 >= 0,
                    c > 0,
            ;
        }
        let raw = (a - c) * SCALE / c;
        let severity: i64 = if raw < SCALE { raw } else { SCALE };
        proof {
            assert(abs(base_cd * (1000 + 3 * severity)) <= 4 * abs(base_cd as int) * 1000) by (nonlinear_arith)
                requires
                    0 <= severity <= 1000,
            ;
            lemma_div_tz_bound(base_cd * (1000 + 3 * severity), 1000, 4 * abs(base_cd as int));
        }
        scale_component(base_cd, SCALE + 3 * severity)
    }
}

} // verus!
