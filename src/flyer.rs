use vstd::prelude::*;
use crate::fixed::SCALE;
use crate::vector::Vec3;
use crate::flapping::FlappingWing;
use crate::stabilization::FlightStabilizer;
use crate::components::{Flyer, Propulsion, Wing, Forces, FlightDynamics, FlightData, StallIndicator, FlightBody};

verus! {

/// Height (5 m) at which a flyer starts and is put back on reset.
pub const SPAWN_HEIGHT: i64 = 5_000;

/// Angle of attack (0.1 rad) of the wings at start and after reset.
pub const SPAWN_ANGLE_OF_ATTACK: i64 = 100;

/// Longest frame (about 30 million years, in milliseconds) over which the
/// controls are applied; any longer one would overflow the throttle.
pub const MAX_CONTROL_STEP: i64 = 1_000_000_000_000_000_000;

/// Control range of the angle of attack, in milliradians.
pub const MAX_CONTROL_ANGLE: i64 = 350;
pub const MIN_CONTROL_ANGLE: i64 = -150;

/// Change of the throttle, in thousandths per millisecond of held control
/// (2 per second up, 1 per second down). The angle of attack changes by one
/// milliradian per millisecond (1 rad/s).
pub const THROTTLE_UP_RATE: i64 = 2;
pub const THROTTLE_DOWN_RATE: i64 = 1;

pub open spec fn spawn_position() -> Vec3 {
    Vec3 { x: 0, y: SPAWN_HEIGHT as i64, z: 0 }
}

pub open spec fn zero3() -> Vec3 {
    Vec3 { x: 0, y: 0, z: 0 }
}

/// The motion of a flyer at rest: no velocity, acceleration or force.
pub open spec fn rest_dynamics() -> FlightDynamics {
    FlightDynamics {
        velocity: zero3(),
        acceleration: zero3(),
        angular_velocity: zero3(),
        forces: Forces { lift: zero3(), drag: zero3(), weight: zero3(), thrust: zero3(), total: zero3() },
    }
}

/// The reported data of a flyer that has just started.
pub open spec fn start_data() -> FlightData {
    FlightData { altitude: SPAWN_HEIGHT as i64, airspeed: 0, vertical_speed: 0, flight_time: 0, distance_traveled: 0 }
}

/// One of the two wings a flyer starts with: 5 m span, 1 m chord.
pub open spec fn spawn_wing() -> Wing {
    Wing {
        span: 5_000,
        chord: 1_000,
        area: 5_000,
        aspect_ratio: 5_000,
        angle_of_attack: SPAWN_ANGLE_OF_ATTACK as i64,
        lift_coefficient_base: 1_200,
        drag_coefficient_base: 30,
        efficiency_factor: 850,
        flapping: FlappingWing {
            frequency: 2000,
            amplitude: 785,
            phase_offset: 0,
            power_stroke_ratio: 300,
            twist_amplitude: 349,
            is_active: false,
        },
    }
}

/// A freshly spawned flyer: 80 kg at 5 m, at rest, two wings, throttle off,
/// a 500 W propeller pointing forward and slightly up.
pub open spec fn is_spawn_state(b: FlightBody) -> bool {
    &&& b.flyer == Flyer { mass: 80_000 }
    &&& b.position == spawn_position()
    &&& b.dynamics == rest_dynamics()
    &&& b.data == start_data()
    &&& b.propulsion == Propulsion {
        thrust_power: 500_000,
        thrust_direction: Vec3 { x: 0, y: 447, z: 894 },
        efficiency: 850,
        propeller_diameter: 1_200,
        throttle: 0,
    }
    &&& b.wings@ == seq![spawn_wing(), spawn_wing()]
    &&& b.stall == StallIndicator { is_stalled: false, stall_severity: 0 }
    &&& b.stabilizer == FlightStabilizer {
        max_velocity: 50_000,
        max_angular_velocity: 2_000,
        stability_damping: 980,
        auto_level_strength: 500,
    }
}

/// `after` is `before` put back to its starting state: at the spawn point, at
/// rest, with fresh data, throttle off and every wing at the starting angle.
/// Mass, propeller, wing shapes and stall state stay.
pub open spec fn reset_spec(before: FlightBody, after: FlightBody) -> bool {
    &&& after.position == spawn_position()
    &&& after.dynamics == rest_dynamics()
    &&& after.data == start_data()
    &&& after.propulsion == Propulsion { throttle: 0, ..before.propulsion }
    &&& after.wings@.len() == before.wings@.len()
    &&& forall|i: int| 0 <= i < before.wings@.len() ==> #[trigger] after.wings@[i] == Wing {
        angle_of_attack: SPAWN_ANGLE_OF_ATTACK as i64,
        ..before.wings@[i]
    }
    &&& after.flyer == before.flyer
    &&& after.stall == before.stall
    &&& after.stabilizer == before.stabilizer
}

fn spawn_wing_value() -> (r: Wing)
    ensures
        r == spawn_wing(),
{
    Wing {
        span: 5_000,
        chord: 1_000,
        area: 5_000,
        aspect_ratio: 5_000,
        angle_of_attack: SPAWN_ANGLE_OF_ATTACK,
        lift_coefficient_base: 1_200,
        drag_coefficient_base: 30,
        efficiency_factor: 850,
        flapping: FlappingWing::default(),
    }
}

fn rest() -> (r: FlightDynamics)
    ensures
        r == rest_dynamics(),
{
    FlightDynamics {
        velocity: Vec3::zero(),
        acceleration: Vec3::zero(),
        angular_velocity: Vec3::zero(),
        forces: Forces::default(),
    }
}

fn start() -> (r: FlightData)
    ensures
        r == start_data(),
{
    FlightData { altitude: SPAWN_HEIGHT, airspeed: 0, vertical_speed: 0, flight_time: 0, distance_traveled: 0 }
}

/// A new flyer in its starting state.
pub fn spawn_flyer() -> (r: FlightBody)
    ensures
        is_spawn_state(r),
        r.wf(),
{
    let mut wings: Vec<Wing> = Vec::new();
    wings.push(spawn_wing_value());
    wings.push(spawn_wing_value());
    assert(wings@ =~= seq![spawn_wing(), spawn_wing()]);
    FlightBody {
        flyer: Flyer { mass: 80_000 },
        position: Vec3::new(0, SPAWN_HEIGHT, 0),
        dynamics: rest(),
        data: start(),
        propulsion: Propulsion {
            thrust_power: 500_000,
            thrust_direction: Vec3::new(0, 447, 894),
            efficiency: 850,
            propeller_diameter: 1_200,
            throttle: 0,
        },
        wings,
        stall: StallIndicator { is_stalled: false, stall_severity: 0 },
        stabilizer: FlightStabilizer::default(),
    }
}

/// Puts a flyer back into its starting state, in place.
pub fn reset_flyer(body: &mut FlightBody)
    ensures
        reset_spec(*old(body), *final(body)),
        old(body).wf() ==> final(body).wf(),
{
    body.position = Vec3::new(0, SPAWN_HEIGHT, 0);
    body.dynamics = rest();
    body.data = start();
    body.propulsion.throttle = 0;
    let n = body.wings.len();
    let mut i: usize = 0;
    while i < n
        invariant
            n == body.wings@.len(),
            n == old(body).wings@.len(),
            0 <= i <= n,
            body.position == spawn_position(),
            body.dynamics == rest_dynamics(),
            body.data == start_data(),
            body.propulsion == (Propulsion { throttle: 0, ..old(body).propulsion }),
            body.flyer == old(body).flyer,
            body.stall == old(body).stall,
            body.stabilizer == old(body).stabilizer,
            forall|k: int| 0 <= k < i ==> #[trigger] body.wings@[k] == (Wing {
                angle_of_attack: SPAWN_ANGLE_OF_ATTACK as i64,
                ..old(body).wings@[k]
            }),
            forall|k: int| i <= k < n ==> #[trigger] body.wings@[k] == old(body).wings@[k],
        decreases n - i,
    {
        let mut w = body.wings[i];
        w.angle_of_attack = SPAWN_ANGLE_OF_ATTACK;
        body.wings.set(i, w);
        i = i + 1;
    }
    proof {
        if old(body).wf() {
            assert forall|k: int| 0 <= k < body.wings@.len() implies (#[trigger] body.wings@[k]).wf() by {
                assert(old(body).wings@[k].wf());
            }
        }
    }
}

/// Resetting a flyer brings back exactly the velocity, position, forces and
/// reported data it was spawned with.
pub proof fn reset_restores_spawn_state(spawned: FlightBody, before: FlightBody, after: FlightBody)
    requires
        is_spawn_state(spawned),
        reset_spec(before, after),
    ensures
        after.position == spawned.position,
        after.dynamics.velocity == spawned.dynamics.velocity,
        after.dynamics.acceleration == spawned.dynamics.acceleration,
        after.dynamics.forces == spawned.dynamics.forces,
        after.data == spawned.data,
        after.propulsion.throttle == spawned.propulsion.throttle,
        forall|i: int| 0 <= i < after.wings@.len() ==> #[trigger] after.wings@[i].angle_of_attack
            == spawned.wings@[0].angle_of_attack,
{
    assert forall|i: int| 0 <= i < after.wings@.len() implies #[trigger] after.wings@[i].angle_of_attack
        == spawned.wings@[0].angle_of_attack by {
        assert(after.wings@[i] == Wing { angle_of_attack: SPAWN_ANGLE_OF_ATTACK as i64, ..before.wings@[i] });
    }
}

/// Discrete controls read before a tick.
#[derive(Clone, Copy, Debug, PartialEq, Eq, Structural)]
pub struct Controls {
    pub toggle_running: bool,
    pub pitch_up: bool,
    pub pitch_down: bool,
    pub throttle_up: bool,
    pub reset: bool,
    pub toggle_flapping: bool,
}

pub open spec fn min(a: int, b: int) -> int {
    if a < b { a } else { b }
}

pub open spec fn max(a: int, b: int) -> int {
    if a > b { a } else { b }
}

/// Angle of attack after the pitch controls were held for `dt`.
pub open spec fn pitched_angle(aoa: int, c: Controls, dt: int) -> int {
    let up = if c.pitch_up { min(aoa + dt, MAX_CONTROL_ANGLE as int) } else { aoa };
    if c.pitch_down { max(up - dt, MIN_CONTROL_ANGLE as int) } else { up }
}

/// Throttle after `dt`: it rises while held and falls back otherwise.
pub open spec fn next_throttle(throttle: int, c: Controls, dt: int) -> int {
    if c.throttle_up {
        min(throttle + THROTTLE_UP_RATE * dt, SCALE as int)
    } else {
        max(throttle - THROTTLE_DOWN_RATE * dt, 0)
    }
}

/// A wing after the controls of one frame.
pub open spec fn controlled_wing(w: Wing, c: Controls, dt: int) -> Wing {
    Wing {
        angle_of_attack: pitched_angle(w.angle_of_attack as int, c, dt) as i64,
        flapping: FlappingWing { is_active: w.flapping.is_active != c.toggle_flapping, ..w.flapping },
        ..w
    }
}

/// `after` is `before` after the controls of one frame lasting `dt`.
pub open spec fn controls_spec(before: FlightBody, after: FlightBody, c: Controls, dt: int) -> bool {
    &&& after.propulsion == Propulsion { throttle: next_throttle(before.propulsion.throttle as int, c, dt) as i64, ..before.propulsion }
    &&& after.wings@.len() == before.wings@.len()
    &&& forall|i: int| 0 <= i < before.wings@.len() ==> #[trigger] after.wings@[i] == controlled_wing(before.wings@[i], c, dt)
    &&& after.flyer == before.flyer
    &&& after.position == before.position
    &&& after.dynamics == before.dynamics
    &&& after.data == before.data
    &&& after.stall == before.stall
    &&& after.stabilizer == before.stabilizer
}

fn control_wing(w: Wing, c: &Controls, dt: i64) -> (r: Wing)
    requires
        w.wf(),
        0 <= dt <= MAX_CONTROL_STEP,
    ensures
        r == controlled_wing(w, *c, dt as int),
        r.wf(),
{
    let mut a = w.angle_of_attack;
    if c.pitch_up {
        a = if a + dt < MAX_CONTROL_ANGLE { a + dt } else { MAX_CONTROL_ANGLE };
    }
    if c.pitch_down {
        a = if a - dt > MIN_CONTROL_ANGLE { a - dt } else { MIN_CONTROL_ANGLE };
    }
    let mut f = w.flapping;
    f.is_active = f.is_active != c.toggle_flapping;
    Wing { angle_of_attack: a, flapping: f, ..w }
}

/// Applies the controls of one frame lasting `dt` milliseconds to a flyer:
/// pitch every wing within the control range, move the throttle, toggle
/// flapping.
pub fn apply_controls(body: &mut FlightBody, controls: &Controls, dt: i64)
    requires
        old(body).wf(),
        0 <= dt <= MAX_CONTROL_STEP,
    ensures
        controls_spec(*old(body), *final(body), *controls, dt as int),
        final(body).wf(),
{
    let t = body.propulsion.throttle;
    let nt: i64 = if controls.throttle_up {
        if t + THROTTLE_UP_RATE * dt < SCALE { t + THROTTLE_UP_RATE * dt } else { SCALE }
    } else {
        if t - THROTTLE_DOWN_RATE * dt > 0 { t - THROTTLE_DOWN_RATE * dt } else { 0 }
    };
    body.propulsion.throttle = nt;
    let n = body.wings.len();
    let mut i: usize = 0;
    while i < n
        invariant
            n == body.wings@.len(),
            n == old(body).wings@.len(),
            0 <= i <= n,
            0 <= dt <= MAX_CONTROL_STEP,
            old(body).wf(),
            body.propulsion == (Propulsion { throttle: nt, ..old(body).propulsion }),
            nt == next_throttle(old(body).propulsion.throttle as int, *controls, dt as int),
            body.flyer == old(body).flyer,
            body.position == old(body).position,
            body.dynamics == old(body).dynamics,
            body.data == old(body).data,
            body.stall == old(body).stall,
            body.stabilizer == old(body).stabilizer,
            forall|k: int| 0 <= k < i ==> #[trigger] body.wings@[k] == controlled_wing(old(body).wings@[k], *controls, dt as int),
            forall|k: int| i <= k < n ==> #[trigger] body.wings@[k] == old(body).wings@[k],
            forall|k: int| 0 <= k < n ==> (#[trigger] body.wings@[k]).wf(),
        decreases n - i,
    {
        let w = body.wings[i];
        assert(old(body).wings@[i as int].wf());
        let w2 = control_wing(w, controls, dt);
        body.wings.set(i, w2);
        i = i + 1;
    }
}

/// `after` is `before` with every wing's flapping switched on or off.
pub open spec fn flapping_toggled(before: FlightBody, after: FlightBody) -> bool {
    &&& after.wings@.len() == before.wings@.len()
    &&& forall|i: int| 0 <= i < before.wings@.len() ==> #[trigger] after.wings@[i] == Wing {
        flapping: FlappingWing { is_active: !before.wings@[i].flapping.is_active, ..before.wings@[i].flapping },
        ..before.wings@[i]
    }
    &&& after.flyer == before.flyer
    &&& after.position == before.position
    &&& after.dynamics == before.dynamics
    &&& after.data == before.data
    &&& after.propulsion == before.propulsion
    &&& after.stall == before.stall
    &&& after.stabilizer == before.stabilizer
}

/// Switches the flapping of every wing of a flyer on or off.
pub fn toggle_flapping(body: &mut FlightBody)
    ensures
        flapping_toggled(*old(body), *final(body)),
        old(body).wf() ==> final(body).wf(),
{
    let n = body.wings.len();
    let mut i: usize = 0;
    while i < n
        invariant
            n == body.wings@.len(),
            n == old(body).wings@.len(),
            0 <= i <= n,
            body.flyer == old(body).flyer,
            body.position == old(body).position,
            body.dynamics == old(body).dynamics,
            body.data == old(body).data,
            body.propulsion == old(body).propulsion,
            body.stall == old(body).stall,
            body.stabilizer == old(body).stabilizer,
            forall|k: int| 0 <= k < i ==> #[trigger] body.wings@[k] == (Wing {
                flapping: FlappingWing { is_active: !old(body).wings@[k].flapping.is_active, ..old(body).wings@[k].flapping },
                ..old(body).wings@[k]
            }),
            forall|k: int| i <= k < n ==> #[trigger] body.wings@[k] == old(body).wings@[k],
        decreases n - i,
    {
        let mut w = body.wings[i];
        w.flapping.is_active = !w.flapping.is_active;
        body.wings.set(i, w);
        i = i + 1;
    }
    proof {
        if old(body).wf() {
            assert forall|k: int| 0 <= k < body.wings@.len() implies (#[trigger] body.wings@[k]).wf() by {
                assert(old(body).wings@[k].wf());
            }
        }
    }
}

} // verus!
