use vstd::prelude::*;
use crate::fixed::{abs, div_tz, mul_fx, sqrt_floor, div_toward_zero, floor_sqrt, lemma_div_tz_bound,
    lemma_floor_sqrt_unique, lemma_component_le_sqrt};
use crate::vector::{Vec3, scale_component};
use crate::aero::{force_magnitude, force_magnitude_of, aero_inputs_ok, below_min_speed, is_below_min_speed};
use crate::trig::{sine, sine_spec, MAX_SINE_ANGLE};

verus! {

/// What the lift law reads of a wing in its airflow.
#[derive(Clone, Copy, Debug, PartialEq, Eq, Structural)]
pub struct LiftParams {
    pub air_density: i64,
    pub velocity: Vec3,
    pub wing_area: i64,
    pub wing_span: i64,
    pub wing_chord: i64,
    pub angle_of_attack: i64,
}

/// Squared horizontal airspeed.
pub open spec fn horizontal_len_sq(v: Vec3) -> int {
    v.x * v.x + v.z * v.z
}

/// `|v| * |v_horizontal|`, the length of `v x (up x v)` divided by `|v|`.
pub open spec fn lift_divisor(v: Vec3) -> int {
    v.len() * sqrt_floor(horizontal_len_sq(v))
}

/// One component of the lift vector, whose direction `v x (up x v)` has the
/// component `c`: perpendicular to the airflow, in the vertical plane that
/// holds it. A vertical or vanishing airflow gives no lift.
pub open spec fn lift_component(rho: int, v: Vec3, area: int, cl: int, c: int) -> int {
    if below_min_speed(v) || lift_divisor(v) == 0 {
        0
    } else {
        div_tz(force_magnitude(rho, v, area, cl) * c, lift_divisor(v))
    }
}

pub open spec fn lift_spec(r: Vec3, rho: int, v: Vec3, area: int, cl: int) -> bool {
    &&& r.x == lift_component(rho, v, area, cl, -(v.x * v.y))
    &&& r.y == lift_component(rho, v, area, cl, horizontal_len_sq(v))
    &&& r.z == lift_component(rho, v, area, cl, -(v.z * v.y))
}

/// Lift coefficient of a wing below stall: `base_cl * sin(angle)`.
pub open spec fn lift_coefficient_spec(angle: int, base_cl: int) -> int {
    mul_fx(base_cl, sine_spec(angle))
}

/// Lift coefficient below stall, rising with the sine of the angle of attack.
pub fn calculate_lift_coefficient(angle_of_attack: i64, base_cl: i64) -> (r: i64)
    requires
        abs(angle_of_attack as int) <= MAX_SINE_ANGLE,
        abs(base_cl as int) <= 1_000_000_000,
    ensures
        r == lift_coefficient_spec(angle_of_attack as int, base_cl as int),
        abs(r as int) <= 2 * abs(base_cl as int),
{
    let s = sine(angle_of_attack);
    proof {
        assert(abs(base_cl * s) <= 2 * abs(base_cl as int) * 1000) by (nonlinear_arith)
            requires
                abs(s as int) <= 1571,
        ;
        lemma_div_tz_bound(base_cl * s, 1000, 2 * abs(base_cl as int));
    }
    scale_component(base_cl, s)
}

proof fn lemma_lift_component_bound(m: int, c: int, n: int, k: int)
    requires
        n > 0,
        abs(c) <= k * n,
        k >= 0,
    ensures
        abs(div_tz(m * c, n)) <= k * abs(m),
{
    assert(abs(m * c) <= k * abs(m) * n) by (nonlinear_arith)
        requires
            abs(c) <= k * n,
            k >= 0,
    ;
    lemma_div_tz_bound(m * c, n, k * abs(m));
}

/// Lift force `cl * rho * |v|^2 / 2 * area`, perpendicular to the airflow `v`
/// in the plane that holds `v` and the vertical.
pub fn calculate_lift_force(params: &LiftParams, lift_coefficient: i64) -> (r: Vec3)
    requires
        below_min_speed(params.velocity) || aero_inputs_ok(
            params.air_density as int,
            params.velocity,
            params.wing_area as int,
            lift_coefficient as int,
        ),
    ensures
        lift_spec(r, params.air_density as int, params.velocity, params.wing_area as int, lift_coefficient as int),
        r.within(450_000_000 * abs(lift_coefficient as int)),
        below_min_speed(params.velocity) ==> r.is_zero(),
{
    let v = params.velocity;
    if is_below_min_speed(&v) {
        return Vec3::zero();
    }
    let v2 = v.length_sq();
    let m = force_magnitude_of(params.air_density, v, params.wing_area, lift_coefficient);
    let x = v.x as i128;
    let y = v.y as i128;
    let z = v.z as i128;
    proof {
        assert(0 <= x * x <= 10_000_000_000 && 0 <= z * z <= 10_000_000_000) by (nonlinear_arith)
            requires
                -100_000 <= x <= 100_000,
                -100_000 <= z <= 100_000,
        ;
    }
    let h2: i128 = x * x + z * z;
    let s = v.length();
    let h = floor_sqrt(h2 as u128);
    proof {
        lemma_floor_sqrt_unique(h2 as int, h as int);
        assert(h <= 200_000) by (nonlinear_arith)
            requires
                (h as int) * (h as int) <= h2,
                h2 <= 20_000_000_000,
                h >= 0,
        ;
        assert(v2 <= 30_000_000_000) by (nonlinear_arith)
            requires
                v2 == v.x * v.x + v.y * v.y + v.z * v.z,
                -100_000 <= v.x <= 100_000,
                -100_000 <= v.y <= 100_000,
                -100_000 <= v.z <= 100_000,
        ;
        assert(s <= 200_000) by (nonlinear_arith)
            requires
                (s as int) * (s as int) <= v2,
                v2 <= 30_000_000_000,
                s >= 0,
        ;
        assert((s as int) * (h as int) <= 40_000_000_000) by (nonlinear_arith)
            requires
                0 <= s <= 200_000,
                0 <= h <= 200_000,
        ;
        assert(h2 <= v2) by (nonlinear_arith)
            requires
                h2 == x * x + z * z,
                v2 == x * x + y * y + z * z,
        ;
    }
    let n: i128 = (s as i128) * (h as i128);
    if n == 0 {
        return Vec3::zero();
    }
    proof {
        let hh = h as int;
        let ss = s as int;
        lemma_component_le_sqrt(x as int, z * z, hh);
        lemma_component_le_sqrt(z as int, x * x, hh);
        lemma_component_le_sqrt(y as int, h2 as int, ss);
        assert(n == ss * hh);
        assert(hh >= 1 && ss >= 1) by (nonlinear_arith)
            requires
                n == ss * hh,
                n != 0,
                hh >= 0,
                ss >= 0,
        ;
        assert(abs(x * y) <= n) by (nonlinear_arith)
            requires
                abs(x as int) <= hh,
                abs(y as int) <= ss,
                n == ss * hh,
        ;
        assert(abs(z * y) <= n) by (nonlinear_arith)
            requires
                abs(z as int) <= hh,
                abs(y as int) <= ss,
                n == ss * hh,
        ;
        assert(hh <= ss) by (nonlinear_arith)
            requires
                hh * hh <= h2,
                h2 <= v2,
                v2 < (ss + 1) * (ss + 1),
                hh >= 0,
                ss >= 0,
        ;
        assert(h2 <= 3 * n) by (nonlinear_arith)
            requires
                h2 < (hh + 1) * (hh + 1),
                1 <= hh <= ss,
                n == ss * hh,
        ;
        lemma_lift_component_bound(m as int, -(x * y), n as int, 1);
        lemma_lift_component_bound(m as int, h2 as int, n as int, 3);
        lemma_lift_component_bound(m as int, -(z * y), n as int, 1);
        assert(abs(m as int) * 3 <= 450_000_000 * abs(lift_coefficient as int));
        assert(abs(m * (-(x * y))) <= 200_000_000_000_000 * 40_000_000_000) by (nonlinear_arith)
            requires
                abs(m as int) <= 150_000_000_000_000,
                abs(x * y) <= n,
                n <= 40_000_000_000,
        ;
        assert(abs(m * (-(z * y))) <= 200_000_000_000_000 * 40_000_000_000) by (nonlinear_arith)
            requires
                abs(m as int) <= 150_000_000_000_000,
                abs(z * y) <= n,
                n <= 40_000_000_000,
        ;
        assert(abs(m * h2) <= 200_000_000_000_000 * 100_000_000_000) by (nonlinear_arith)
            requires
                abs(m as int) <= 150_000_000_000_000,
                0 <= h2 <= 20_000_000_000,
        ;
        assert(n <= 40_000_000_000) by (nonlinear_arith)
            requires
                n == ss * hh,
                0 <= hh <= 200_000,
                0 <= ss <= 200_000,
        ;
    }
    let mm = m as i128;
    let lx = div_toward_zero(mm * (-(x * y)), n);
    let ly = div_toward_zero(mm * h2, n);
    let lz = div_toward_zero(mm * (-(z * y)), n);
    Vec3 { x: lx as i64, y: ly as i64, z: lz as i64 }
}

/// Aspect ratio `span^2 / area` of a wing.
pub fn calculate_aspect_ratio(wing_span: i64, wing_area: i64) -> (r: i64)
    requires
        0 <= wing_span <= 1_000_000_000,
        wing_area > 0,
    ensures
        r == wing_span * wing_span / (wing_area as int),
{
    proof {
        assert(0 <= wing_span * wing_span <= 1_000_000_000_000_000_000) by (nonlinear_arith)
            requires
                0 <= wing_span <= 1_000_000_000,
        ;
        assert(wing_span * wing_span / (wing_area as int) <= wing_span * wing_span) by (nonlinear_arith)
            requires
                wing_area > 0,
                wing_span * wing_span >= 0,
        ;
    }
    wing_span * wing_span / wing_area
}

} // verus!
