use vstd::prelude::*;
use crate::fixed::{abs, div_tz, mul_fx, div_toward_zero, lemma_div_tz_bound, SCALE};
use crate::vector::Vec3;

verus! {

/// Below this airspeed (one millimetre per second) no aerodynamic force acts.
pub const MIN_SPEED: i64 = 1;

/// Largest airspeed component (100 m/s) that the force laws accept.
pub const MAX_AIRSPEED: i64 = 100_000;

/// Largest air density (10 kg/m^3) that the force laws accept.
pub const MAX_DENSITY: i64 = 10_000;

/// Largest wing area (1000 m^2) that the force laws accept.
pub const MAX_AREA: i64 = 1_000_000;

/// Largest size of a force coefficient (1000) that the force laws accept.
pub const MAX_COEFFICIENT: i64 = 1_000_000;

/// Dynamic pressure `rho * |v|^2 / 2`, in millipascal.
pub open spec fn dynamic_pressure(rho: int, v: Vec3) -> int {
    div_tz(rho * div_tz(v.len_sq(), SCALE as int), 2 * SCALE)
}

/// Size of an aerodynamic force `coef * rho * |v|^2 / 2 * area`.
pub open spec fn force_magnitude(rho: int, v: Vec3, area: int, coef: int) -> int {
    mul_fx(mul_fx(dynamic_pressure(rho, v), area), coef)
}

/// Largest size of a drag coefficient that the drag law accepts; induced
/// drag coefficients of slender or inefficient wings reach 3.2e7.
pub const MAX_DRAG_COEFFICIENT: i64 = 40_000_000_000;

/// Density, airflow and area lie in the range that the force laws accept.
pub open spec fn airflow_ok(rho: int, v: Vec3, area: int) -> bool {
    &&& 0 <= rho <= MAX_DENSITY
    &&& v.within(MAX_AIRSPEED as int)
    &&& 0 <= area <= MAX_AREA
}

/// The inputs of a force law lie in the range that it accepts.
pub open spec fn aero_inputs_ok(rho: int, v: Vec3, area: int, coef: int) -> bool {
    &&& airflow_ok(rho, v, area)
    &&& abs(coef) <= MAX_COEFFICIENT
}

/// Below the minimum speed the airflow is exactly still.
pub proof fn lemma_below_min_speed_is_still(v: Vec3)
    ensures
        below_min_speed(v) <==> v.is_zero(),
{
    assert(v.x * v.x >= 0 && v.y * v.y >= 0 && v.z * v.z >= 0) by (nonlinear_arith);
    assert(v.x != 0 ==> v.x * v.x >= 1) by (nonlinear_arith);
    assert(v.y != 0 ==> v.y * v.y >= 1) by (nonlinear_arith);
    assert(v.z != 0 ==> v.z * v.z >= 1) by (nonlinear_arith);
}

/// Whether the airflow is below the minimum speed, that is, still.
pub fn is_below_min_speed(v: &Vec3) -> (r: bool)
    ensures
        r == below_min_speed(*v),
{
    proof {
        lemma_below_min_speed_is_still(*v);
    }
    v.x == 0 && v.y == 0 && v.z == 0
}

/// The airspeed is too small for any aerodynamic force.
pub open spec fn below_min_speed(v: Vec3) -> bool {
    v.len_sq() < MIN_SPEED * MIN_SPEED
}

/// Size of the aerodynamic force `coef * rho * |v|^2 / 2 * area`.
pub fn force_magnitude_of(rho: i64, v: Vec3, area: i64, coef: i64) -> (r: i64)
    requires
        airflow_ok(rho as int, v, area as int),
        abs(coef as int) <= MAX_DRAG_COEFFICIENT,
    ensures
        r == force_magnitude(rho as int, v, area as int, coef as int),
        abs(r as int) <= 150_000_000 * abs(coef as int),
        coef >= 0 ==> r >= 0,
{
    let v2 = v.length_sq();
    proof {
        assert(v2 <= 30_000_000_000) by (nonlinear_arith)
            requires
                v2 == v.x * v.x + v.y * v.y + v.z * v.z,
                -100_000 <= v.x <= 100_000,
                -100_000 <= v.y <= 100_000,
                -100_000 <= v.z <= 100_000,
        ;
        lemma_div_tz_bound(v2 as int, 1000, 30_000_000);
    }
    let v2s = div_toward_zero(v2, SCALE as i128);
    proof {
        assert(0 <= rho * v2s <= 300_000_000_000) by (nonlinear_arith)
            requires
                0 <= rho <= 10_000,
                0 <= v2s <= 30_000_000,
        ;
        lemma_div_tz_bound(rho * v2s, 2000, 150_000_000);
    }
    let q = div_toward_zero((rho as i128) * v2s, 2 * (SCALE as i128));
    proof {
        assert(0 <= q * area <= 150_000_000_000 * 1000) by (nonlinear_arith)
            requires
                0 <= q <= 150_000_000,
                0 <= area <= 1_000_000,
        ;
        lemma_div_tz_bound(q * area, 1000, 150_000_000_000);
    }
    let f = div_toward_zero(q * (area as i128), SCALE as i128);
    proof {
        assert(abs(f * coef) <= 150_000_000 * abs(coef as int) * 1000) by (nonlinear_arith)
            requires
                0 <= f <= 150_000_000_000,
        ;
        assert(f * coef >= 0 || coef < 0) by (nonlinear_arith)
            requires
                0 <= f,
        ;
        lemma_div_tz_bound(f * coef, 1000, 150_000_000 * abs(coef as int));
        assert(150_000_000 * abs(coef as int) <= 6_000_000_000_000_000_000);
    }
    div_toward_zero(f * (coef as i128), SCALE as i128) as i64
}

} // verus!
