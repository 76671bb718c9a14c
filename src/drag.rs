use vstd::prelude::*;
use crate::fixed::{abs, div_tz, mul_fx, div_toward_zero, lemma_div_tz_bound, lemma_component_le_sqrt};
use crate::vector::{Vec3, scale_component};
use crate::lift::{lift_component, horizontal_len_sq};
use crate::aero::{force_magnitude, force_magnitude_of, aero_inputs_ok, airflow_ok, below_min_speed,
    is_below_min_speed, MAX_DRAG_COEFFICIENT};

verus! {

/// Pi, in thousandths.
pub const PI_MILLI: i64 = 3142;

/// Smallest aspect ratio (1.0) of a simulated wing.
pub const MIN_ASPECT_RATIO: i64 = 1000;

/// Smallest span efficiency (0.1) of a simulated wing.
pub const MIN_EFFICIENCY: i64 = 100;

/// Largest aspect ratio and span efficiency for which the induced drag law
/// is used.
pub const MAX_SHAPE_FACTOR: i64 = 1_000_000_000;

/// Largest induced drag coefficient: that of the largest lift coefficient on
/// the thinnest, least efficient wing.
pub const MAX_INDUCED_COEFFICIENT: i64 = 31_900_000_000;

/// Largest size of a lift coefficient (10) for which the induced drag law is
/// used.
pub const MAX_LIFT_COEFFICIENT: i64 = 10_000;

/// What the drag laws read of a wing in its airflow.
#[derive(Clone, Copy, Debug, PartialEq, Eq, Structural)]
pub struct DragParams {
    pub air_density: i64,
    pub velocity: Vec3,
    pub wing_area: i64,
    pub drag_coefficient: i64,
    pub aspect_ratio: i64,
    pub efficiency_factor: i64,
}

/// One component of a drag force with coefficient `cd`: it opposes the
/// airflow `v`, whose component is `c`, and vanishes below the minimum speed.
pub open spec fn drag_component(rho: int, v: Vec3, area: int, cd: int, c: int) -> int {
    if below_min_speed(v) {
        0
    } else {
        div_tz(-(force_magnitude(rho, v, area, cd) * c), v.len())
    }
}

pub open spec fn drag_spec(r: Vec3, rho: int, v: Vec3, area: int, cd: int) -> bool {
    &&& r.x == drag_component(rho, v, area, cd, v.x as int)
    &&& r.y == drag_component(rho, v, area, cd, v.y as int)
    &&& r.z == drag_component(rho, v, area, cd, v.z as int)
}

/// Induced drag coefficient `cl^2 / (pi * aspect_ratio * efficiency)`.
pub open spec fn induced_drag_coefficient(cl: int, aspect_ratio: int, efficiency: int) -> int {
    cl * cl * 1_000_000 / (PI_MILLI * aspect_ratio * efficiency)
}

/// The wing's shape lies in the range for which the induced drag law is used:
/// any positive aspect ratio and efficiency.
pub open spec fn induced_inputs_ok(cl: int, aspect_ratio: int, efficiency: int) -> bool {
    &&& abs(cl) <= MAX_LIFT_COEFFICIENT
    &&& 1 <= aspect_ratio <= MAX_SHAPE_FACTOR
    &&& 1 <= efficiency <= MAX_SHAPE_FACTOR
}

/// The induced drag coefficient of any accepted wing lies in
/// `0 ..= MAX_INDUCED_COEFFICIENT`.
pub proof fn lemma_induced_coefficient_range(cl: int, aspect_ratio: int, efficiency: int)
    requires
        induced_inputs_ok(cl, aspect_ratio, efficiency),
    ensures
        0 <= induced_drag_coefficient(cl, aspect_ratio, efficiency) <= MAX_INDUCED_COEFFICIENT,
{
    assert(0 <= cl * cl <= 100_000_000) by (nonlinear_arith)
        requires
            abs(cl) <= 10_000,
    ;
    let d = PI_MILLI * aspect_ratio * efficiency;
    assert(d >= 3142) by (nonlinear_arith)
        requires
            d == PI_MILLI * aspect_ratio * efficiency,
            1 <= aspect_ratio,
            1 <= efficiency,
    ;
    assert(cl * cl * 1_000_000 / d <= 31_900_000_000) by (nonlinear_arith)
        requires
            0 <= cl * cl <= 100_000_000,
            d >= 3142,
    ;
    assert(cl * cl * 1_000_000 / d >= 0) by (nonlinear_arith)
        requires
            0 <= cl * cl,
            d > 0,
    ;
}

/// On a wing of aspect ratio at least 1 and efficiency at least 0.1 the
/// induced drag coefficient stays below 0.32.
pub proof fn lemma_induced_coefficient_bound(cl: int, aspect_ratio: int, efficiency: int)
    requires
        abs(cl) <= MAX_LIFT_COEFFICIENT,
        MIN_ASPECT_RATIO <= aspect_ratio <= MAX_SHAPE_FACTOR,
        MIN_EFFICIENCY <= efficiency <= MAX_SHAPE_FACTOR,
    ensures
        0 <= induced_drag_coefficient(cl, aspect_ratio, efficiency) <= 320_000,
{
    assert(0 <= cl * cl <= 100_000_000) by (nonlinear_arith)
        requires
            abs(cl) <= 10_000,
    ;
    let d = PI_MILLI * aspect_ratio * efficiency;
    assert(d >= 314_200_000) by (nonlinear_arith)
        requires
            d == PI_MILLI * aspect_ratio * efficiency,
            1000 <= aspect_ratio,
            100 <= efficiency,
    ;
    assert(cl * cl * 1_000_000 / d <= 320_000) by (nonlinear_arith)
        requires
            0 <= cl * cl <= 100_000_000,
            d >= 314_200_000,
    ;
    assert(cl * cl * 1_000_000 / d >= 0) by (nonlinear_arith)
        requires
            0 <= cl * cl,
            d > 0,
    ;
}

proof fn lemma_opposing_component(m: int, c: int, s: int)
    requires
        abs(c) <= s,
        s > 0,
    ensures
        abs(-(m * c)) <= abs(m) * s,
        abs(div_tz(-(m * c), s)) <= abs(m),
{
    assert(abs(-(m * c)) <= abs(m) * s) by (nonlinear_arith)
        requires
            abs(c) <= s,
    ;
    lemma_div_tz_bound(-(m * c), s, abs(m));
}

/// A drag force with coefficient `cd` for the airflow of `params`.
fn drag_force(params: &DragParams, cd: i64) -> (r: Vec3)
    requires
        below_min_speed(params.velocity) || airflow_ok(params.air_density as int, params.velocity, params.wing_area as int),
        abs(cd as int) <= MAX_DRAG_COEFFICIENT,
    ensures
        drag_spec(r, params.air_density as int, params.velocity, params.wing_area as int, cd as int),
        r.within(150_000_000 * abs(cd as int)),
{
    let v = params.velocity;
    if is_below_min_speed(&v) {
        return Vec3::zero();
    }
    let v2 = v.length_sq();
    let m = force_magnitude_of(params.air_density, v, params.wing_area, cd);
    let s = v.length();
    proof {
        let ss = s as int;
        assert(v.x * v.x >= 0 && v.y * v.y >= 0 && v.z * v.z >= 0) by (nonlinear_arith);
        lemma_component_le_sqrt(v.x as int, v.y * v.y + v.z * v.z, ss);
        lemma_component_le_sqrt(v.y as int, v.x * v.x + v.z * v.z, ss);
        lemma_component_le_sqrt(v.z as int, v.x * v.x + v.y * v.y, ss);
        assert(ss >= 1) by (nonlinear_arith)
            requires
                v2 < (ss + 1) * (ss + 1),
                v2 >= 1,
                ss >= 0,
        ;
        lemma_opposing_component(m as int, v.x as int, ss);
        lemma_opposing_component(m as int, v.y as int, ss);
        lemma_opposing_component(m as int, v.z as int, ss);
        assert(ss <= 200_000) by (nonlinear_arith)
            requires
                ss * ss <= v2,
                v2 == v.x * v.x + v.y * v.y + v.z * v.z,
                -100_000 <= v.x <= 100_000,
                -100_000 <= v.y <= 100_000,
                -100_000 <= v.z <= 100_000,
                ss >= 0,
        ;
        assert(abs(m as int) * ss <= 6_000_000_000_000_000_000 * 200_000) by (nonlinear_arith)
            requires
                abs(m as int) <= 6_000_000_000_000_000_000,
                0 <= ss <= 200_000,
        ;
    }
    let mm = m as i128;
    let sd = s as i128;
    let dx = div_toward_zero(-(mm * (v.x as i128)), sd);
    let dy = div_toward_zero(-(mm * (v.y as i128)), sd);
    let dz = div_toward_zero(-(mm * (v.z as i128)), sd);
    Vec3 { x: dx as i64, y: dy as i64, z: dz as i64 }
}

/// Parasitic drag: the wing's own drag coefficient against the airflow.
pub fn calculate_parasitic_drag(params: &DragParams) -> (r: Vec3)
    requires
        below_min_speed(params.velocity) || aero_inputs_ok(
            params.air_density as int,
            params.velocity,
            params.wing_area as int,
            params.drag_coefficient as int,
        ),
    ensures
        drag_spec(r, params.air_density as int, params.velocity, params.wing_area as int, params.drag_coefficient as int),
        r.within(150_000_000 * abs(params.drag_coefficient as int)),
        below_min_speed(params.velocity) ==> r.is_zero(),
{
    if is_below_min_speed(&params.velocity) {
        return Vec3::zero();
    }
    drag_force(params, params.drag_coefficient)
}

/// The induced drag coefficient of a wing that produces the lift coefficient
/// `cl`.
pub fn induced_drag_coefficient_of(cl: i64, aspect_ratio: i64, efficiency: i64) -> (r: i64)
    requires
        induced_inputs_ok(cl as int, aspect_ratio as int, efficiency as int),
    ensures
        r == induced_drag_coefficient(cl as int, aspect_ratio as int, efficiency as int),
        0 <= r <= MAX_INDUCED_COEFFICIENT,
{
    let c = cl as i128;
    proof {
        assert(0 <= c * c <= 100_000_000) by (nonlinear_arith)
            requires
                -10_000 <= c <= 10_000,
        ;
        assert(3142 <= (PI_MILLI as int) * aspect_ratio * efficiency <= 3_142_000_000_000_000_000_000) by (nonlinear_arith)
            requires
                1 <= aspect_ratio <= 1_000_000_000,
                1 <= efficiency <= 1_000_000_000,
        ;
    }
    let d: i128 = (PI_MILLI as i128) * (aspect_ratio as i128) * (efficiency as i128);
    proof {
        assert(c * c * 1_000_000 / (d as int) <= 31_900_000_000) by (nonlinear_arith)
            requires
                0 <= c * c <= 100_000_000,
                d >= 3142,
        ;
        assert(c * c * 1_000_000 / (d as int) >= 0) by (nonlinear_arith)
            requires
                0 <= c * c,
                d > 0,
        ;
    }
    (c * c * 1_000_000 / d) as i64
}

/// Induced drag: the drag that comes with producing the lift coefficient
/// `lift_coefficient`, `cl^2 / (pi * aspect_ratio * efficiency)`. Still air
/// gives none, whatever the wing.
pub fn calculate_induced_drag(params: &DragParams, lift_coefficient: i64) -> (r: Vec3)
    requires
        below_min_speed(params.velocity) || (airflow_ok(params.air_density as int, params.velocity, params.wing_area as int)
            && induced_inputs_ok(lift_coefficient as int, params.aspect_ratio as int, params.efficiency_factor as int)),
    ensures
        below_min_speed(params.velocity) ==> r.is_zero(),
        !below_min_speed(params.velocity) ==> drag_spec(
            r,
            params.air_density as int,
            params.velocity,
            params.wing_area as int,
            induced_drag_coefficient(lift_coefficient as int, params.aspect_ratio as int, params.efficiency_factor as int),
        ),
        !below_min_speed(params.velocity) ==> r.within(
            150_000_000 * induced_drag_coefficient(lift_coefficient as int, params.aspect_ratio as int, params.efficiency_factor as int),
        ),
{
    if is_below_min_speed(&params.velocity) {
        return Vec3::zero();
    }
    let cdi = induced_drag_coefficient_of(lift_coefficient, params.aspect_ratio, params.efficiency_factor);
    drag_force(params, cdi)
}

/// Parasitic plus induced drag. Still air gives none, whatever the wing.
pub fn calculate_total_drag(params: &DragParams, lift_coefficient: i64) -> (r: Vec3)
    requires
        below_min_speed(params.velocity) || (aero_inputs_ok(
            params.air_density as int,
            params.velocity,
            params.wing_area as int,
            params.drag_coefficient as int,
        ) && induced_inputs_ok(lift_coefficient as int, params.aspect_ratio as int, params.efficiency_factor as int)),
    ensures
        below_min_speed(params.velocity) ==> r.is_zero(),
        !below_min_speed(params.velocity) ==> ({
            let rho = params.air_density as int;
            let v = params.velocity;
            let area = params.wing_area as int;
            let cd = params.drag_coefficient as int;
            let cdi = induced_drag_coefficient(lift_coefficient as int, params.aspect_ratio as int, params.efficiency_factor as int);
            &&& r.x == drag_component(rho, v, area, cd, v.x as int) + drag_component(rho, v, area, cdi, v.x as int)
            &&& r.y == drag_component(rho, v, area, cd, v.y as int) + drag_component(rho, v, area, cdi, v.y as int)
            &&& r.z == drag_component(rho, v, area, cd, v.z as int) + drag_component(rho, v, area, cdi, v.z as int)
        }),
        !below_min_speed(params.velocity) ==> r.within(
            150_000_000 * (abs(params.drag_coefficient as int) + induced_drag_coefficient(
                lift_coefficient as int,
                params.aspect_ratio as int,
                params.efficiency_factor as int,
            )),
        ),
{
    if is_below_min_speed(&params.velocity) {
        return Vec3::zero();
    }
    proof {
        lemma_induced_coefficient_range(lift_coefficient as int, params.aspect_ratio as int, params.efficiency_factor as int);
    }
    let p = calculate_parasitic_drag(params);
    let i = calculate_induced_drag(params, lift_coefficient);
    p.add(i)
}

/// Drag coefficient that grows with the size of the angle of attack:
/// `base_cd + 0.02 * |angle|`.
pub fn calculate_drag_coefficient(angle_of_attack: i64, base_cd: i64) -> (r: i64)
    requires
        abs(angle_of_attack as int) <= 1_000_000_000,
        abs(base_cd as int) <= 1_000_000_000,
    ensures
        r == base_cd + mul_fx(20, abs(angle_of_attack as int)),
{
    let a: i64 = if angle_of_attack < 0 { -angle_of_attack } else { angle_of_attack };
    proof {
        lemma_div_tz_bound(20 * a, 1000, 20_000_000);
    }
    base_cd + scale_component(20, a)
}

/// Airflow slower than the minimum speed (0.001 m/s) produces neither lift
/// nor drag, whatever the density, area and coefficients.
pub proof fn slow_airflow_gives_no_force(rho: int, v: Vec3, area: int, cl: int, cd: int)
    requires
        below_min_speed(v),
    ensures
        lift_component(rho, v, area, cl, -(v.x * v.y)) == 0,
        lift_component(rho, v, area, cl, horizontal_len_sq(v)) == 0,
        lift_component(rho, v, area, cl, -(v.z * v.y)) == 0,
        drag_component(rho, v, area, cd, v.x as int) == 0,
        drag_component(rho, v, area, cd, v.y as int) == 0,
        drag_component(rho, v, area, cd, v.z as int) == 0,
{
}

} // verus!
