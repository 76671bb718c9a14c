use vstd::prelude::*;
use crate::fixed::{abs, div_tz, mul_fx, div_toward_zero, lemma_div_tz_bound, lemma_component_le_sqrt, SCALE};
use crate::vector::{Vec3, scale_component};
use crate::weather::MAX_POSITION;
use crate::integrator::MAX_STEP;
use crate::components::FlightDynamics;

verus! {

/// Largest velocity component that the stabilizer accepts.
pub const MAX_STABILIZED_SPEED: i64 = 600_000_000_000_000_000;

/// Height (2 m) below which a descending flyer is pushed up.
pub const MIN_SAFE_ALTITUDE: i64 = 2_000;

/// Upward acceleration at the ground, in m/s^2.
pub const AVOIDANCE_ACCELERATION: i64 = 500;

/// Limits and damping that keep a flyer's motion tame: speeds in mm/s and
/// mrad/s, damping and levelling in thousandths.
#[derive(Clone, Copy, Debug, PartialEq, Eq, Structural)]
pub struct FlightStabilizer {
    pub max_velocity: i64,
    pub max_angular_velocity: i64,
    pub stability_damping: i64,
    pub auto_level_strength: i64,
}

impl FlightStabilizer {
    pub open spec fn wf(self) -> bool {
        &&& 0 <= self.max_velocity <= MAX_POSITION
        &&& 0 <= self.max_angular_velocity <= MAX_POSITION
        &&& 0 <= self.stability_damping <= SCALE
    }
}

impl Default for FlightStabilizer {
    /// At most 50 m/s and 2 rad/s, 2% damping per frame, half-strength
    /// levelling.
    fn default() -> (r: FlightStabilizer)
        ensures
            r.max_velocity == 50_000,
            r.max_angular_velocity == 2_000,
            r.stability_damping == 980,
            r.auto_level_strength == 500,
    {
        FlightStabilizer { max_velocity: 50_000, max_angular_velocity: 2_000, stability_damping: 980, auto_level_strength: 500 }
    }
}

/// `v` brought down to length `max` along its own direction when it is
/// longer.
pub open spec fn limited(v: Vec3, max: int) -> Vec3 {
    if v.len_sq() > max * max {
        Vec3 {
            x: div_tz(v.x * max, v.len()) as i64,
            y: div_tz(v.y * max, v.len()) as i64,
            z: div_tz(v.z * max, v.len()) as i64,
        }
    } else {
        v
    }
}

/// Every component of `v` scaled by `k`.
pub open spec fn scaled(v: Vec3, k: int) -> Vec3 {
    Vec3 { x: mul_fx(v.x as int, k) as i64, y: mul_fx(v.y as int, k) as i64, z: mul_fx(v.z as int, k) as i64 }
}

proof fn lemma_limit_component(c: int, max: int, len: int)
    requires
        abs(c) <= len,
        0 <= max,
        len > 0,
    ensures
        abs(div_tz(c * max, len)) <= max,
{
    assert(abs(c * max) <= max * len) by (nonlinear_arith)
        requires
            abs(c) <= len,
            0 <= max,
    ;
    lemma_div_tz_bound(c * max, len, max);
}

fn limit(v: Vec3, max: i64) -> (r: Vec3)
    requires
        v.within(MAX_STABILIZED_SPEED as int),
        0 <= max <= MAX_POSITION,
    ensures
        r == limited(v, max as int),
        r.within(MAX_STABILIZED_SPEED as int),
        r.within(max as int),
{
    let s2 = v.length_sq();
    assert(0 <= (max as int) * (max as int) <= 1_000_000_000_000_000_000_000_000_000_000) by (nonlinear_arith)
        requires
            0 <= max <= 1_000_000_000_000_000,
    ;
    if s2 > (max as i128) * (max as i128) {
        let len = v.length();
        proof {
            let l = len as int;
            assert(v.x * v.x >= 0 && v.y * v.y >= 0 && v.z * v.z >= 0) by (nonlinear_arith);
            lemma_component_le_sqrt(v.x as int, v.y * v.y + v.z * v.z, l);
            lemma_component_le_sqrt(v.y as int, v.x * v.x + v.z * v.z, l);
            lemma_component_le_sqrt(v.z as int, v.x * v.x + v.y * v.y, l);
            assert(l > 0) by (nonlinear_arith)
                requires
                    s2 < (l + 1) * (l + 1),
                    s2 > max * max,
                    max >= 0,
                    l >= 0,
            ;
            lemma_limit_component(v.x as int, max as int, l);
            lemma_limit_component(v.y as int, max as int, l);
            lemma_limit_component(v.z as int, max as int, l);
            assert(abs(v.x * max) <= 1_000_000_000_000_000_000_000_000_000_000_000) by (nonlinear_arith)
                requires
                    abs(v.x as int) <= 600_000_000_000_000_000,
                    0 <= max <= 1_000_000_000_000_000,
            ;
            assert(abs(v.y * max) <= 1_000_000_000_000_000_000_000_000_000_000_000) by (nonlinear_arith)
                requires
                    abs(v.y as int) <= 600_000_000_000_000_000,
                    0 <= max <= 1_000_000_000_000_000,
            ;
            assert(abs(v.z * max) <= 1_000_000_000_000_000_000_000_000_000_000_000) by (nonlinear_arith)
                requires
                    abs(v.z as int) <= 600_000_000_000_000_000,
                    0 <= max <= 1_000_000_000_000_000,
            ;
        }
        let m = max as i128;
        let l = len as i128;
        Vec3 {
            x: div_toward_zero((v.x as i128) * m, l) as i64,
            y: div_toward_zero((v.y as i128) * m, l) as i64,
            z: div_toward_zero((v.z as i128) * m, l) as i64,
        }
    } else {
        proof {
            let m = max as int;
            assert(v.x * v.x >= 0 && v.y * v.y >= 0 && v.z * v.z >= 0) by (nonlinear_arith);
            assert(abs(v.x as int) <= m) by (nonlinear_arith)
                requires
                    v.x * v.x <= m * m,
                    m >= 0,
            ;
            assert(abs(v.y as int) <= m) by (nonlinear_arith)
                requires
                    v.y * v.y <= m * m,
                    m >= 0,
            ;
            assert(abs(v.z as int) <= m) by (nonlinear_arith)
                requires
                    v.z * v.z <= m * m,
                    m >= 0,
            ;
        }
        v
    }
}

proof fn lemma_keep(c: int, k: int)
    requires
        abs(c) <= MAX_STABILIZED_SPEED,
        0 <= k <= SCALE,
    ensures
        abs(mul_fx(c, k)) <= abs(c),
{
    assert(abs(c * k) <= abs(c) * 1000) by (nonlinear_arith)
        requires
            0 <= k <= 1000,
    ;
    lemma_div_tz_bound(c * k, 1000, abs(c));
}

fn damp_all(v: Vec3, k: i64) -> (r: Vec3)
    requires
        v.within(MAX_STABILIZED_SPEED as int),
        0 <= k <= SCALE,
    ensures
        r == scaled(v, k as int),
        abs(r.x as int) <= abs(v.x as int),
        abs(r.y as int) <= abs(v.y as int),
        abs(r.z as int) <= abs(v.z as int),
{
    proof {
        lemma_keep(v.x as int, k as int);
        lemma_keep(v.y as int, k as int);
        lemma_keep(v.z as int, k as int);
    }
    v.scale(k)
}

/// Keeps a flyer's linear and angular speed under the stabilizer's limits
/// and damps both.
pub fn apply_flight_stabilization(dynamics: &mut FlightDynamics, stabilizer: &FlightStabilizer)
    requires
        old(dynamics).velocity.within(MAX_STABILIZED_SPEED as int),
        old(dynamics).angular_velocity.within(MAX_STABILIZED_SPEED as int),
        stabilizer.wf(),
    ensures
        final(dynamics).velocity.within(stabilizer.max_velocity as int),
        final(dynamics).angular_velocity.within(stabilizer.max_angular_velocity as int),
        final(dynamics).velocity == scaled(
            limited(old(dynamics).velocity, stabilizer.max_velocity as int),
            stabilizer.stability_damping as int,
        ),
        final(dynamics).angular_velocity == scaled(
            limited(old(dynamics).angular_velocity, stabilizer.max_angular_velocity as int),
            stabilizer.stability_damping as int,
        ),
        final(dynamics).acceleration == old(dynamics).acceleration,
        final(dynamics).forces == old(dynamics).forces,
{
    let v = limit(dynamics.velocity, stabilizer.max_velocity);
    let w = limit(dynamics.angular_velocity, stabilizer.max_angular_velocity);
    dynamics.velocity = damp_all(v, stabilizer.stability_damping);
    dynamics.angular_velocity = damp_all(w, stabilizer.stability_damping);
}

/// Upward push of a descending flyer near the ground: it grows linearly from
/// nothing at the safe altitude to full strength at the ground.
pub open spec fn avoidance_push(altitude: int, dt: int) -> int {
    mul_fx((MIN_SAFE_ALTITUDE - altitude) * SCALE / (MIN_SAFE_ALTITUDE as int) * AVOIDANCE_ACCELERATION, dt)
}

/// Vertical velocity after ground avoidance.
pub open spec fn avoided_vertical_speed(vy: int, altitude: int, dt: int) -> int {
    if altitude < MIN_SAFE_ALTITUDE && vy < 0 {
        let pushed = vy + avoidance_push(altitude, dt);
        if pushed < -SCALE {
            mul_fx(pushed, 800)
        } else {
            pushed
        }
    } else {
        vy
    }
}

/// Pushes a flyer that descends below the safe altitude upward, and slows a
/// descent that is still fast.
pub fn add_ground_avoidance(dynamics: &mut FlightDynamics, altitude: i64, dt: i64)
    requires
        0 <= altitude,
        abs(old(dynamics).velocity.y as int) <= MAX_STABILIZED_SPEED,
        0 <= dt <= MAX_STEP,
    ensures
        abs(final(dynamics).velocity.y as int) <= abs(old(dynamics).velocity.y as int) + 500_000_000,
        final(dynamics).velocity.y == avoided_vertical_speed(old(dynamics).velocity.y as int, altitude as int, dt as int),
        final(dynamics).velocity.x == old(dynamics).velocity.x,
        final(dynamics).velocity.z == old(dynamics).velocity.z,
        final(dynamics).acceleration == old(dynamics).acceleration,
        final(dynamics).angular_velocity == old(dynamics).angular_velocity,
        final(dynamics).forces == old(dynamics).forces,
{
    let vy = dynamics.velocity.y;
    if altitude < MIN_SAFE_ALTITUDE && vy < 0 {
        let strength = (MIN_SAFE_ALTITUDE - altitude) * SCALE / MIN_SAFE_ALTITUDE;
        proof {
            assert(0 <= strength <= 1000) by (nonlinear_arith)
                requires
                    strength == (2000 - altitude) * 1000 / 2000,
                    0 <= altitude < 2000,
            ;
            assert(0 <= strength * 500 * dt <= 500_000_000 * 1000) by (nonlinear_arith)
                requires
                    0 <= strength <= 1000,
                    0 <= dt <= 1000,
            ;
            lemma_div_tz_bound(strength * 500 * dt, 1000, 500_000_000);
        }
        let pushed = vy + scale_component(strength * AVOIDANCE_ACCELERATION, dt);
        let out = if pushed < -SCALE {
            proof {
                lemma_keep(pushed as int, 800);
            }
            scale_component(pushed, 800)
        } else {
            pushed
        };
        dynamics.velocity.y = out;
    }
}

} // verus!
