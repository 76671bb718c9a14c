use vstd::prelude::*;
use crate::fixed::{abs, mul_fx, lemma_div_tz_bound, SCALE};
use crate::vector::{Vec3, scale_component};
use crate::weather::MAX_POSITION;
use crate::components::{FlightBody, MAX_ACCELERATION};

verus! {

/// Height of the flyer's reference point when it stands on the ground.
pub const GROUND_LEVEL: i64 = 1_000;

/// Impact speeds (in mm/s) above which touching the ground is a crash, a hard
/// landing, or a landing; below the last it is a gentle touchdown.
pub const CRASH_SPEED: i64 = 20_000;
pub const HARD_LANDING_SPEED: i64 = 8_000;
pub const LANDING_SPEED: i64 = 3_000;

/// Share of the velocity kept after a hard landing, a landing and a
/// touchdown.
pub const HARD_LANDING_KEEP: i64 = 300;
pub const LANDING_KEEP: i64 = 800;
pub const TOUCHDOWN_KEEP: i64 = 950;

/// Longest time step (one second) of the integrator.
pub const MAX_STEP: i64 = 1_000;

/// What happened at the ground in one step.
#[derive(Clone, Copy, Debug, PartialEq, Eq, Structural)]
pub enum GroundContact {
    /// No contact: the flyer moved freely.
    Airborne,
    Touchdown,
    Landing,
    HardLanding,
    Crash,
}

/// Velocity after a step of `dt` at acceleration `a`.
pub open spec fn stepped_velocity(v: Vec3, a: Vec3, dt: int) -> Vec3 {
    Vec3 {
        x: (v.x + mul_fx(a.x as int, dt)) as i64,
        y: (v.y + mul_fx(a.y as int, dt)) as i64,
        z: (v.z + mul_fx(a.z as int, dt)) as i64,
    }
}

/// Displacement over a step of `dt` at velocity `v`.
pub open spec fn displacement_of(v: Vec3, dt: int) -> Vec3 {
    Vec3 { x: mul_fx(v.x as int, dt) as i64, y: mul_fx(v.y as int, dt) as i64, z: mul_fx(v.z as int, dt) as i64 }
}

/// Kind of ground contact for the impact velocity `v`, by its speed.
pub open spec fn contact_of(v: Vec3) -> GroundContact {
    if v.len_sq() > CRASH_SPEED * CRASH_SPEED {
        GroundContact::Crash
    } else if v.len_sq() > HARD_LANDING_SPEED * HARD_LANDING_SPEED {
        GroundContact::HardLanding
    } else if v.len_sq() > LANDING_SPEED * LANDING_SPEED {
        GroundContact::Landing
    } else {
        GroundContact::Touchdown
    }
}

/// Horizontal velocity kept, in the share `keep`, with the vertical part
/// removed.
pub open spec fn damped(v: Vec3, keep: int) -> Vec3 {
    Vec3 { x: mul_fx(v.x as int, keep) as i64, y: 0, z: mul_fx(v.z as int, keep) as i64 }
}

/// Velocity after a ground contact of kind `c` at impact velocity `v`.
pub open spec fn velocity_after_contact(v: Vec3, c: GroundContact) -> Vec3 {
    match c {
        GroundContact::Crash => Vec3 { x: 0, y: 0, z: 0 },
        GroundContact::HardLanding => damped(v, HARD_LANDING_KEEP as int),
        GroundContact::Landing => damped(v, LANDING_KEEP as int),
        GroundContact::Touchdown => damped(v, TOUCHDOWN_KEEP as int),
        GroundContact::Airborne => v,
    }
}

/// The state lies in the range the integrator accepts.
pub open spec fn integrable(b: FlightBody, dt: int) -> bool {
    &&& 0 <= dt <= MAX_STEP
    &&& b.position.within(MAX_POSITION as int)
    &&& b.dynamics.velocity.within(MAX_POSITION as int)
    &&& b.dynamics.acceleration.within(MAX_ACCELERATION as int)
    &&& 0 <= b.data.flight_time <= MAX_POSITION
    &&& 0 <= b.data.distance_traveled <= MAX_POSITION
}

/// The ground contact of one step. A step of some duration that ends at or
/// below ground level meets the ground, whether the flyer lands from the air
/// or is already on the ground, and the contact is classified by speed. A
/// step of no duration touches nothing.
pub open spec fn step_contact(b: FlightBody, dt: int) -> GroundContact {
    let v1 = stepped_velocity(b.dynamics.velocity, b.dynamics.acceleration, dt);
    let d = displacement_of(v1, dt);
    if dt > 0 && b.position.y + d.y <= GROUND_LEVEL {
        contact_of(v1)
    } else {
        GroundContact::Airborne
    }
}

/// `after` is `before` after one semi-implicit Euler step of `dt`: velocity
/// first, then position from the new velocity. A flyer that meets the ground
/// is put on it and its velocity is handled by the kind of contact; a crash
/// also stops its acceleration. The reported data follow the new state.
pub open spec fn step_spec(before: FlightBody, after: FlightBody, dt: int) -> bool {
    let v1 = stepped_velocity(before.dynamics.velocity, before.dynamics.acceleration, dt);
    let d = displacement_of(v1, dt);
    let p = before.position;
    let c = step_contact(before, dt);
    let pos = Vec3 {
        x: (p.x + d.x) as i64,
        y: (if c == GroundContact::Airborne { p.y + d.y } else { GROUND_LEVEL as int }) as i64,
        z: (p.z + d.z) as i64,
    };
    let vel = velocity_after_contact(v1, c);
    &&& after.position == pos
    &&& after.dynamics.velocity == vel
    &&& after.dynamics.acceleration == (if c == GroundContact::Crash { Vec3 { x: 0, y: 0, z: 0 } } else {
        before.dynamics.acceleration
    })
    &&& after.dynamics.angular_velocity == before.dynamics.angular_velocity
    &&& after.dynamics.forces == before.dynamics.forces
    &&& after.data.altitude == pos.y
    &&& after.data.airspeed == vel.len()
    &&& after.data.vertical_speed == vel.y
    &&& after.data.flight_time == before.data.flight_time + dt
    &&& after.data.distance_traveled == before.data.distance_traveled + d.len()
    &&& after.flyer == before.flyer
    &&& after.propulsion == before.propulsion
    &&& after.wings@ == before.wings@
    &&& after.stall == before.stall
    &&& after.stabilizer == before.stabilizer
}

proof fn lemma_step_bound(c: int, m: int, dt: int)
    requires
        abs(c) <= m,
        0 <= dt <= MAX_STEP,
    ensures
        abs(mul_fx(c, dt)) <= m,
{
    assert(abs(c * dt) <= m * 1000) by (nonlinear_arith)
        requires
            abs(c) <= m,
            0 <= dt <= 1000,
    ;
    lemma_div_tz_bound(c * dt, 1000, m);
}

proof fn lemma_keep_bound(c: int, keep: int)
    requires
        abs(c) <= 501_000_000_000_000_000,
        0 <= keep <= SCALE,
    ensures
        abs(mul_fx(c, keep)) <= abs(c),
{
    assert(abs(c * keep) <= abs(c) * 1000) by (nonlinear_arith)
        requires
            0 <= keep <= 1000,
    ;
    lemma_div_tz_bound(c * keep, 1000, abs(c));
}

fn damp(v: Vec3, keep: i64) -> (r: Vec3)
    requires
        v.within(501_000_000_000_000_000),
        0 <= keep <= SCALE,
    ensures
        r == damped(v, keep as int),
        r.within(501_000_000_000_000_000),
{
    proof {
        lemma_keep_bound(v.x as int, keep as int);
        lemma_keep_bound(v.z as int, keep as int);
    }
    Vec3 { x: scale_component(v.x, keep), y: 0, z: scale_component(v.z, keep) }
}

/// Advances a flyer by `dt` milliseconds and resolves contact with the
/// ground.
pub fn update_flight_dynamics(body: &mut FlightBody, dt: i64) -> (r: GroundContact)
    requires
        integrable(*old(body), dt as int),
    ensures
        step_spec(*old(body), *final(body), dt as int),
        r == step_contact(*old(body), dt as int),
        final(body).dynamics.velocity.within(501_000_000_000_000_000),
        old(body).position.y >= GROUND_LEVEL ==> final(body).position.y >= GROUND_LEVEL,
{
    let a = body.dynamics.acceleration;
    let v = body.dynamics.velocity;
    proof {
        lemma_step_bound(a.x as int, MAX_ACCELERATION as int, dt as int);
        lemma_step_bound(a.y as int, MAX_ACCELERATION as int, dt as int);
        lemma_step_bound(a.z as int, MAX_ACCELERATION as int, dt as int);
    }
    let v1 = Vec3 {
        x: v.x + scale_component(a.x, dt),
        y: v.y + scale_component(a.y, dt),
        z: v.z + scale_component(a.z, dt),
    };
    proof {
        lemma_step_bound(v1.x as int, 501_000_000_000_000_000, dt as int);
        lemma_step_bound(v1.y as int, 501_000_000_000_000_000, dt as int);
        lemma_step_bound(v1.z as int, 501_000_000_000_000_000, dt as int);
    }
    let d = Vec3 { x: scale_component(v1.x, dt), y: scale_component(v1.y, dt), z: scale_component(v1.z, dt) };
    let p = body.position;
    let mut pos = Vec3 { x: p.x + d.x, y: p.y + d.y, z: p.z + d.z };
    let mut vel = v1;
    let mut acc = a;
    let mut contact = GroundContact::Airborne;
    if dt > 0 && pos.y <= GROUND_LEVEL {
        pos.y = GROUND_LEVEL;
        let s2 = v1.length_sq();
        if s2 > (CRASH_SPEED as i128) * (CRASH_SPEED as i128) {
            vel = Vec3::zero();
            acc = Vec3::zero();
            contact = GroundContact::Crash;
        } else if s2 > (HARD_LANDING_SPEED as i128) * (HARD_LANDING_SPEED as i128) {
            vel = damp(v1, HARD_LANDING_KEEP);
            contact = GroundContact::HardLanding;
        } else if s2 > (LANDING_SPEED as i128) * (LANDING_SPEED as i128) {
            vel = damp(v1, LANDING_KEEP);
            contact = GroundContact::Landing;
        } else {
            vel = damp(v1, TOUCHDOWN_KEEP);
            contact = GroundContact::Touchdown;
        }
    }
    body.position = pos;
    body.dynamics.velocity = vel;
    body.dynamics.acceleration = acc;
    body.data.altitude = pos.y;
    body.data.airspeed = vel.length();
    body.data.vertical_speed = vel.y;
    body.data.flight_time = body.data.flight_time + dt;
    let dl = d.length();
    proof {
        assert(dl <= 900_000_000_000_000_000) by (nonlinear_arith)
            requires
                (dl as int) * (dl as int) <= d.len_sq(),
                d.len_sq() == d.x * d.x + d.y * d.y + d.z * d.z,
                -501_000_000_000_000_000 <= d.x <= 501_000_000_000_000_000,
                -501_000_000_000_000_000 <= d.y <= 501_000_000_000_000_000,
                -501_000_000_000_000_000 <= d.z <= 501_000_000_000_000_000,
                dl >= 0,
        ;
    }
    body.data.distance_traveled = body.data.distance_traveled + dl;
    contact
}

/// With no acceleration and no elapsed time a flyer stays where it is, at the
/// velocity it had, in the air and on the ground alike.
pub proof fn idle_step_keeps_state(before: FlightBody, after: FlightBody)
    requires
        before.dynamics.acceleration.is_zero(),
        step_spec(before, after, 0),
    ensures
        after.position == before.position,
        after.dynamics.velocity == before.dynamics.velocity,
        step_contact(before, 0) == GroundContact::Airborne,
{
    let v = before.dynamics.velocity;
    assert(mul_fx(v.x as int, 0) == 0 && mul_fx(v.y as int, 0) == 0 && mul_fx(v.z as int, 0) == 0);
    assert(mul_fx(0, 0) == 0);
    assert(stepped_velocity(v, before.dynamics.acceleration, 0) == v);
}

/// Velocity with which a step of `dt` meets the ground.
pub open spec fn impact_velocity(b: FlightBody, dt: int) -> Vec3 {
    stepped_velocity(b.dynamics.velocity, b.dynamics.acceleration, dt)
}

/// When a step meets the ground, the contact is classified by speed. Meeting the ground faster than the crash speed stops the flyer and its
/// acceleration; meeting it no faster than the landing speed removes the
/// vertical velocity and keeps 95% of the rest.
pub proof fn ground_contact_outcomes(before: FlightBody, after: FlightBody, dt: int)
    requires
        step_spec(before, after, dt),
        step_contact(before, dt) != GroundContact::Airborne,
    ensures
        impact_velocity(before, dt).len_sq() > CRASH_SPEED * CRASH_SPEED ==> after.dynamics.velocity.is_zero()
            && after.dynamics.acceleration.is_zero(),
        impact_velocity(before, dt).len_sq() <= LANDING_SPEED * LANDING_SPEED ==> after.dynamics.velocity == damped(
            impact_velocity(before, dt),
            TOUCHDOWN_KEEP as int,
        ),
        after.position.y == GROUND_LEVEL,
{
}

} // verus!
