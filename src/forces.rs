use vstd::prelude::*;
use crate::fixed::{abs, div_tz, mul_fx, div_toward_zero, lemma_div_tz_bound, SCALE};
use crate::vector::{Vec3, scale_component};
use crate::aero::MAX_AIRSPEED;
use crate::lift::{LiftParams, calculate_lift_force, lift_component, horizontal_len_sq, lift_coefficient_spec};
use crate::drag::{DragParams, calculate_total_drag, drag_component, induced_drag_coefficient};
use crate::stall::{StallParams, calculate_lift_coefficient_with_stall, calculate_drag_coefficient_stalled,
    stall_factor_spec, stalled_drag_coefficient_spec, drag_stall_severity};
use crate::ground_effect::{GroundEffectParams, calculate_ground_effect_factor, apply_ground_effect_to_lift,
    ground_effect_factor_spec};
use crate::flapping::{calculate_flapping_thrust, MAX_TIME};
use crate::thrust::{ThrustParams, calculate_thrust_force};
use crate::integrator::GROUND_LEVEL;
use crate::components::{Wing, Propulsion, StallIndicator, Atmosphere, FlightBody, Forces, MAX_MASS, MIN_MASS,
    MAX_GRAVITY, MAX_WINGS};

verus! {

/// Critical angle of attack of the simulated wings (15 degrees).
pub const CRITICAL_ANGLE: i64 = 262;

/// Share of the lift a fully stalled wing keeps.
pub const POST_STALL_DROP: i64 = 500;

/// Growth of the stall severity per radian past the critical angle.
pub const STALL_PROGRESSION_RATE: i64 = 2000;

/// Largest force component that one wing contributes.
pub const MAX_WING_FORCE: i64 = 1_200_000_000_000_000;

pub open spec fn vsum(a: Vec3, b: Vec3) -> Vec3 {
    Vec3 { x: (a.x + b.x) as i64, y: (a.y + b.y) as i64, z: (a.z + b.z) as i64 }
}

pub open spec fn zero_vec() -> Vec3 {
    Vec3 { x: 0, y: 0, z: 0 }
}

/// Lift coefficient of a wing, with stall.
pub open spec fn wing_lift_coefficient(w: Wing) -> int {
    mul_fx(
        lift_coefficient_spec(w.angle_of_attack as int, w.lift_coefficient_base as int),
        stall_factor_spec(w.angle_of_attack as int, CRITICAL_ANGLE as int, POST_STALL_DROP as int, STALL_PROGRESSION_RATE as int),
    )
}

/// Lift of a wing in the airflow `air` at height `h`, with ground effect.
pub open spec fn wing_lift(w: Wing, air: Vec3, h: int, rho: int) -> Vec3 {
    let cl = wing_lift_coefficient(w);
    let ge = ground_effect_factor_spec(h, w.span as int);
    Vec3 {
        x: mul_fx(lift_component(rho, air, w.area as int, cl, -(air.x * air.y)), ge) as i64,
        y: mul_fx(lift_component(rho, air, w.area as int, cl, horizontal_len_sq(air)), ge) as i64,
        z: mul_fx(lift_component(rho, air, w.area as int, cl, -(air.z * air.y)), ge) as i64,
    }
}

/// Drag of a wing in the airflow `air`: stalled parasitic plus induced drag.
pub open spec fn wing_drag(w: Wing, air: Vec3, rho: int) -> Vec3 {
    let cd = stalled_drag_coefficient_spec(w.drag_coefficient_base as int, w.angle_of_attack as int, CRITICAL_ANGLE as int);
    let cdi = induced_drag_coefficient(wing_lift_coefficient(w), w.aspect_ratio as int, w.efficiency_factor as int);
    let a = w.area as int;
    Vec3 {
        x: (drag_component(rho, air, a, cd, air.x as int) + drag_component(rho, air, a, cdi, air.x as int)) as i64,
        y: (drag_component(rho, air, a, cd, air.y as int) + drag_component(rho, air, a, cdi, air.y as int)) as i64,
        z: (drag_component(rho, air, a, cd, air.z as int) + drag_component(rho, air, a, cdi, air.z as int)) as i64,
    }
}

/// Flapping thrust of a wing at time `t`.
pub open spec fn wing_flap(w: Wing, rho: int, t: int) -> Vec3 {
    w.flapping.thrust_at(w.area as int, rho, t)
}

pub open spec fn total_lift(wings: Seq<Wing>, air: Vec3, h: int, rho: int) -> Vec3
    decreases wings.len(),
{
    if wings.len() == 0 {
        zero_vec()
    } else {
        vsum(total_lift(wings.drop_last(), air, h, rho), wing_lift(wings.last(), air, h, rho))
    }
}

pub open spec fn total_drag(wings: Seq<Wing>, air: Vec3, rho: int) -> Vec3
    decreases wings.len(),
{
    if wings.len() == 0 {
        zero_vec()
    } else {
        vsum(total_drag(wings.drop_last(), air, rho), wing_drag(wings.last(), air, rho))
    }
}

pub open spec fn total_flap(wings: Seq<Wing>, rho: int, t: int) -> Vec3
    decreases wings.len(),
{
    if wings.len() == 0 {
        zero_vec()
    } else {
        vsum(total_flap(wings.drop_last(), rho, t), wing_flap(wings.last(), rho, t))
    }
}

/// Weight `mass * gravity`, pointing down.
pub open spec fn weight_spec(mass: int, gravity: int) -> Vec3 {
    Vec3 { x: 0, y: -mul_fx(mass, gravity) as i64, z: 0 }
}

/// The propeller's law for a flyer moving at `v`.
pub open spec fn propeller_params(p: Propulsion, rho: int, v: Vec3) -> ThrustParams {
    ThrustParams {
        thrust_power: mul_fx(p.thrust_power as int, p.throttle as int) as i64,
        thrust_direction: p.thrust_direction,
        efficiency: p.efficiency,
        propeller_diameter: p.propeller_diameter,
        air_density: rho as i64,
        velocity: v,
    }
}

pub open spec fn propeller_thrust(p: Propulsion, rho: int, v: Vec3) -> Vec3 {
    let t = propeller_params(p, rho, v);
    Vec3 {
        x: t.thrust_component(p.thrust_direction.x as int) as i64,
        y: t.thrust_component(p.thrust_direction.y as int) as i64,
        z: t.thrust_component(p.thrust_direction.z as int) as i64,
    }
}

/// Stall state reported for a wing.
pub open spec fn stall_indicator_of(w: Wing) -> StallIndicator {
    let stalled = abs(w.angle_of_attack as int) > CRITICAL_ANGLE;
    StallIndicator {
        is_stalled: stalled,
        stall_severity: if stalled { drag_stall_severity(w.angle_of_attack as int, CRITICAL_ANGLE as int) as i64 } else { 0 },
    }
}

/// Acceleration `force / mass`.
pub open spec fn acceleration_spec(total: Vec3, mass: int) -> Vec3 {
    Vec3 {
        x: div_tz(total.x * SCALE, mass) as i64,
        y: div_tz(total.y * SCALE, mass) as i64,
        z: div_tz(total.z * SCALE, mass) as i64,
    }
}

/// Weight of a flyer of `mass` grams under `gravity`.
pub fn weight_force(mass: i64, gravity: i64) -> (r: Vec3)
    requires
        0 <= mass <= MAX_MASS,
        0 <= gravity <= MAX_GRAVITY,
    ensures
        r == weight_spec(mass as int, gravity as int),
        r.within(1_000_000_000),
{
    proof {
        assert(0 <= mass * gravity <= 1_000_000_000 * 1000) by (nonlinear_arith)
            requires
                0 <= mass <= 10_000_000,
                0 <= gravity <= 100_000,
        ;
        lemma_div_tz_bound(mass * gravity, 1000, 1_000_000_000);
    }
    Vec3 { x: 0, y: -scale_component(mass, gravity), z: 0 }
}

proof fn lemma_boosted_lift(c: int, k: int)
    requires
        abs(c) <= 4_500_000_000_000,
        0 <= k <= 40_063,
    ensures
        abs(c) * k <= 1_000_000_000_000_000_000_000,
{
    assert(abs(c) * k <= 1_000_000_000_000_000_000_000) by (nonlinear_arith)
        requires
            abs(c) <= 4_500_000_000_000,
            0 <= k <= 40_063,
    ;
}

proof fn lemma_boosted_lift_result(c: int, k: int, r: int)
    requires
        abs(c) <= 4_500_000_000_000,
        0 <= k <= 40_063,
        abs(r) * 1000 <= abs(c) * k,
    ensures
        abs(r) <= MAX_WING_FORCE,
{
    assert(abs(c) * k <= 4_500_000_000_000 * 40_063) by (nonlinear_arith)
        requires
            abs(c) <= 4_500_000_000_000,
            0 <= k <= 40_063,
    ;
}

/// Lift, drag and flapping thrust of one wing.
pub fn wing_forces(w: &Wing, air: Vec3, altitude: i64, rho: i64, time: i64) -> (r: (Vec3, Vec3, Vec3))
    requires
        w.wf(),
        air.within(MAX_AIRSPEED as int),
        altitude >= GROUND_LEVEL,
        0 <= rho <= crate::aero::MAX_DENSITY,
        0 <= time <= MAX_TIME,
    ensures
        r.0 == wing_lift(*w, air, altitude as int, rho as int),
        r.1 == wing_drag(*w, air, rho as int),
        r.2 == wing_flap(*w, rho as int, time as int),
        r.0.within(MAX_WING_FORCE as int),
        r.1.within(MAX_WING_FORCE as int),
        r.2.within(MAX_WING_FORCE as int),
{
    let stall = StallParams {
        angle_of_attack: w.angle_of_attack,
        critical_angle: CRITICAL_ANGLE,
        post_stall_drop: POST_STALL_DROP,
        stall_progression_rate: STALL_PROGRESSION_RATE,
    };
    let cl = calculate_lift_coefficient_with_stall(w.lift_coefficient_base, w.angle_of_attack, &stall);
    let lp = LiftParams {
        air_density: rho,
        velocity: air,
        wing_area: w.area,
        wing_span: w.span,
        wing_chord: w.chord,
        angle_of_attack: w.angle_of_attack,
    };
    let lift0 = calculate_lift_force(&lp, cl);
    let ge = calculate_ground_effect_factor(&GroundEffectParams { altitude, wing_span: w.span, wing_chord: w.chord });
    proof {
        crate::ground_effect::lemma_factor_in_flight(altitude as int, w.span as int);
        lemma_boosted_lift(lift0.x as int, ge as int);
        lemma_boosted_lift(lift0.y as int, ge as int);
        lemma_boosted_lift(lift0.z as int, ge as int);
    }
    let lift = apply_ground_effect_to_lift(lift0, ge);
    proof {
        lemma_boosted_lift_result(lift0.x as int, ge as int, lift.x as int);
        lemma_boosted_lift_result(lift0.y as int, ge as int, lift.y as int);
        lemma_boosted_lift_result(lift0.z as int, ge as int, lift.z as int);
    }
    let cd = calculate_drag_coefficient_stalled(w.drag_coefficient_base, w.angle_of_attack, &stall);
    let dp = DragParams {
        air_density: rho,
        velocity: air,
        wing_area: w.area,
        drag_coefficient: cd,
        aspect_ratio: w.aspect_ratio,
        efficiency_factor: w.efficiency_factor,
    };
    proof {
        crate::drag::lemma_induced_coefficient_bound(cl as int, w.aspect_ratio as int, w.efficiency_factor as int);
    }
    let drag = calculate_total_drag(&dp, cl);
    let flap = calculate_flapping_thrust(&w.flapping, w.area, rho, time);
    (lift, drag, flap)
}

/// Airspeed: velocity relative to the wind.
pub open spec fn airspeed_of(v: Vec3, wind: Vec3) -> Vec3 {
    Vec3 { x: (v.x - wind.x) as i64, y: (v.y - wind.y) as i64, z: (v.z - wind.z) as i64 }
}

/// The forces of one tick on the flyer `b` in the atmosphere `atm`: weight,
/// lift and drag of every wing in the airflow, flapping and propeller
/// thrust, and their sum, all computed afresh.
pub open spec fn forces_spec(b: FlightBody, atm: Atmosphere, gravity: int, t: int) -> Forces {
    let air = airspeed_of(b.dynamics.velocity, atm.wind_velocity);
    let rho = atm.air_density as int;
    let weight = weight_spec(b.flyer.mass as int, gravity);
    let lift = total_lift(b.wings@, air, b.position.y as int, rho);
    let drag = total_drag(b.wings@, air, rho);
    let thrust = vsum(total_flap(b.wings@, rho, t), propeller_thrust(b.propulsion, rho, b.dynamics.velocity));
    Forces { lift, drag, weight, thrust, total: vsum(vsum(vsum(weight, lift), drag), thrust) }
}

/// `after` is `before` with the forces, acceleration and stall state of one
/// tick, and nothing else changed.
pub open spec fn physics_updated(before: FlightBody, after: FlightBody, atm: Atmosphere, gravity: int, t: int) -> bool {
    let f = forces_spec(before, atm, gravity, t);
    &&& after.dynamics.forces == f
    &&& after.dynamics.acceleration == acceleration_spec(f.total, before.flyer.mass as int)
    &&& after.dynamics.velocity == before.dynamics.velocity
    &&& after.dynamics.angular_velocity == before.dynamics.angular_velocity
    &&& after.stall == (if before.wings@.len() > 0 { stall_indicator_of(before.wings@.last()) } else { before.stall })
    &&& after.stabilizer == before.stabilizer
    &&& after.flyer == before.flyer
    &&& after.position == before.position
    &&& after.data == before.data
    &&& after.propulsion == before.propulsion
    &&& after.wings@ == before.wings@
}

/// Stall state of one wing.
pub fn stall_indicator(w: &Wing) -> (r: StallIndicator)
    requires
        w.wf(),
    ensures
        r == stall_indicator_of(*w),
{
    let a: i64 = if w.angle_of_attack < 0 { -w.angle_of_attack } else { w.angle_of_attack };
    if a > CRITICAL_ANGLE {
        let raw = (a - CRITICAL_ANGLE) * SCALE / CRITICAL_ANGLE;
        let severity: i64 = if raw < SCALE { raw } else { SCALE };
        StallIndicator { is_stalled: true, stall_severity: severity }
    } else {
        StallIndicator { is_stalled: false, stall_severity: 0 }
    }
}

fn add_bounded(a: Vec3, b: Vec3, n: usize) -> (r: Vec3)
    requires
        n < MAX_WINGS,
        a.within(n * MAX_WING_FORCE),
        b.within(MAX_WING_FORCE as int),
    ensures
        r == vsum(a, b),
        r.within((n + 1) * MAX_WING_FORCE),
{
    proof {
        assert(n * MAX_WING_FORCE + MAX_WING_FORCE == (n + 1) * MAX_WING_FORCE) by (nonlinear_arith);
        assert((n + 1) * MAX_WING_FORCE <= 64 * MAX_WING_FORCE) by (nonlinear_arith)
            requires
                n + 1 <= 64,
        ;
    }
    a.add(b)
}

proof fn lemma_take_last<T>(s: Seq<T>, i: int)
    requires
        0 <= i < s.len(),
    ensures
        s.take(i + 1).drop_last() == s.take(i),
        s.take(i + 1).last() == s[i],
        s.take(i + 1).len() == i + 1,
{
    assert(s.take(i + 1).drop_last() =~= s.take(i));
}

/// Lift, drag and flapping thrust summed over all wings.
pub fn sum_wing_forces(wings: &Vec<Wing>, air: Vec3, h: i64, rho: i64, time: i64) -> (r: (Vec3, Vec3, Vec3))
    requires
        wings@.len() <= MAX_WINGS,
        forall|i: int| 0 <= i < wings@.len() ==> (#[trigger] wings@[i]).wf(),
        air.within(MAX_AIRSPEED as int),
        h >= GROUND_LEVEL,
        0 <= rho <= crate::aero::MAX_DENSITY,
        0 <= time <= MAX_TIME,
    ensures
        r.0 == total_lift(wings@, air, h as int, rho as int),
        r.1 == total_drag(wings@, air, rho as int),
        r.2 == total_flap(wings@, rho as int, time as int),
        r.0.within(64 * MAX_WING_FORCE),
        r.1.within(64 * MAX_WING_FORCE),
        r.2.within(64 * MAX_WING_FORCE),
{
    let n = wings.len();
    let mut lift = Vec3::zero();
    let mut drag = Vec3::zero();
    let mut flap = Vec3::zero();
    let mut i: usize = 0;
    proof {
        assert(wings@.take(0) =~= Seq::<Wing>::empty());
    }
    while i < n
        invariant
            n == wings@.len(),
            n <= MAX_WINGS,
            forall|k: int| 0 <= k < wings@.len() ==> (#[trigger] wings@[k]).wf(),
            air.within(MAX_AIRSPEED as int),
            h >= GROUND_LEVEL,
            0 <= rho <= crate::aero::MAX_DENSITY,
            0 <= time <= MAX_TIME,
            0 <= i <= n,
            lift == total_lift(wings@.take(i as int), air, h as int, rho as int),
            drag == total_drag(wings@.take(i as int), air, rho as int),
            flap == total_flap(wings@.take(i as int), rho as int, time as int),
            lift.within(i * MAX_WING_FORCE),
            drag.within(i * MAX_WING_FORCE),
            flap.within(i * MAX_WING_FORCE),
        decreases n - i,
    {
        let w = wings[i];
        assert(w.wf());
        let (l, d, f) = wing_forces(&w, air, h, rho, time);
        proof {
            lemma_take_last(wings@, i as int);
        }
        lift = add_bounded(lift, l, i);
        drag = add_bounded(drag, d, i);
        flap = add_bounded(flap, f, i);
        i = i + 1;
    }
    proof {
        assert(wings@.take(n as int) =~= wings@);
        assert(n * MAX_WING_FORCE <= 64 * MAX_WING_FORCE) by (nonlinear_arith)
            requires
                n <= 64,
        ;
    }
    (lift, drag, flap)
}

/// Stall state of the last wing, or `current` when there is no wing.
fn last_stall(wings: &Vec<Wing>, current: StallIndicator) -> (r: StallIndicator)
    requires
        forall|i: int| 0 <= i < wings@.len() ==> (#[trigger] wings@[i]).wf(),
    ensures
        r == (if wings@.len() > 0 { stall_indicator_of(wings@.last()) } else { current }),
{
    if wings.len() > 0 {
        let w = wings[wings.len() - 1];
        assert(w.wf());
        stall_indicator(&w)
    } else {
        current
    }
}

/// Recomputes the forces on a flyer and its acceleration for one tick.
pub fn update_physics(body: &mut FlightBody, atmosphere: &Atmosphere, gravity: i64, time: i64)
    requires
        old(body).wf(),
        atmosphere.wf(),
        0 <= gravity <= MAX_GRAVITY,
        0 <= time <= MAX_TIME,
    ensures
        physics_updated(*old(body), *final(body), *atmosphere, gravity as int, time as int),
        final(body).wf(),
{
    let weight = weight_force(body.flyer.mass, gravity);
    let v = body.dynamics.velocity;
    let air = v.sub(atmosphere.wind_velocity);
    let rho = atmosphere.air_density;
    let (lift, drag, flap) = sum_wing_forces(&body.wings, air, body.position.y, rho, time);
    let stall = last_stall(&body.wings, body.stall);
    let p = body.propulsion;
    proof {
        assert(0 <= p.thrust_power * p.throttle <= 1_000_000_000 * 1000) by (nonlinear_arith)
            requires
                0 <= p.thrust_power <= 1_000_000_000,
                0 <= p.throttle <= 1000,
        ;
        lemma_div_tz_bound(p.thrust_power * p.throttle, 1000, 1_000_000_000);
    }
    let tp = ThrustParams {
        thrust_power: scale_component(p.thrust_power, p.throttle),
        thrust_direction: p.thrust_direction,
        efficiency: p.efficiency,
        propeller_diameter: p.propeller_diameter,
        air_density: rho,
        velocity: v,
    };
    let base_thrust = calculate_thrust_force(&tp);
    let thrust = flap.add(base_thrust);
    let total = weight.add(lift).add(drag).add(thrust);
    let mass = body.flyer.mass;
    proof {
        assert(total.within(250_000_000_000_000_000));
        lemma_acceleration_bound(total.x as int, mass as int);
        lemma_acceleration_bound(total.y as int, mass as int);
        lemma_acceleration_bound(total.z as int, mass as int);
    }
    let acc = Vec3 {
        x: div_toward_zero((total.x as i128) * 1000, mass as i128) as i64,
        y: div_toward_zero((total.y as i128) * 1000, mass as i128) as i64,
        z: div_toward_zero((total.z as i128) * 1000, mass as i128) as i64,
    };
    body.dynamics.forces = Forces { lift, drag, weight, thrust, total };
    body.dynamics.acceleration = acc;
    body.stall = stall;
}

proof fn lemma_acceleration_bound(f: int, mass: int)
    requires
        abs(f) <= 250_000_000_000_000_000,
        MIN_MASS <= mass,
    ensures
        abs(div_tz(f * 1000, mass)) <= 250_000_000_000_000_000,
{
    assert(abs(f * 1000) <= 250_000_000_000_000_000 * mass) by (nonlinear_arith)
        requires
            abs(f) <= 250_000_000_000_000_000,
            1000 <= mass,
    ;
    lemma_div_tz_bound(f * 1000, mass, 250_000_000_000_000_000);
}

} // verus!
