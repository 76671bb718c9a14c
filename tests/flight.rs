use human_flight::vector::Vec3;
use human_flight::components::{Atmosphere, FlightBody, Forces, StallIndicator};
use human_flight::forces::{weight_force, update_physics, stall_indicator};
use human_flight::integrator::{update_flight_dynamics, GroundContact};
use human_flight::flyer::{spawn_flyer, reset_flyer, apply_controls, Controls};
use human_flight::flapping::{FlappingWing, StrokePhase, WingPose, WingJointType, calculate_flapping_thrust, flapping_pose};
use human_flight::stabilization::{FlightStabilizer, apply_flight_stabilization, add_ground_avoidance};

fn no_controls() -> Controls {
    Controls {
        toggle_running: false,
        pitch_up: false,
        pitch_down: false,
        throttle_up: false,
        reset: false,
        toggle_flapping: false,
    }
}

fn just_above_ground(velocity: Vec3, acceleration: Vec3) -> FlightBody {
    let mut b = spawn_flyer();
    b.position = Vec3::new(0, 1001, 0);
    b.dynamics.velocity = velocity;
    b.dynamics.acceleration = acceleration;
    b
}

#[test]
fn weight_of_eighty_kilograms() {
    assert_eq!(weight_force(80_000, 9_810), Vec3::new(0, -784_800, 0));
}

#[test]
fn idle_step_keeps_position_and_velocity() {
    let mut b = spawn_flyer();
    b.dynamics.velocity = Vec3::new(3_000, -1_000, 250);
    let before = b.clone();
    let c = update_flight_dynamics(&mut b, 0);
    assert_eq!(c, GroundContact::Airborne);
    assert_eq!(b.position, before.position);
    assert_eq!(b.dynamics.velocity, before.dynamics.velocity);
}

#[test]
fn semi_implicit_euler_step() {
    let mut b = spawn_flyer();
    b.dynamics.velocity = Vec3::new(1_000, 0, 0);
    b.dynamics.acceleration = Vec3::new(0, -10_000, 2_000);
    let c = update_flight_dynamics(&mut b, 100);
    assert_eq!(c, GroundContact::Airborne);
    // Velocity first: (1, -1, 0.2) m/s; then position with the new velocity.
    assert_eq!(b.dynamics.velocity, Vec3::new(1_000, -1_000, 200));
    assert_eq!(b.position, Vec3::new(100, 4_900, 20));
    assert_eq!(b.data.altitude, 4_900);
    assert_eq!(b.data.vertical_speed, -1_000);
    assert_eq!(b.data.airspeed, 1_428);
    assert_eq!(b.data.flight_time, 100);
    assert_eq!(b.data.distance_traveled, 142);
}

#[test]
fn crash_stops_the_flyer() {
    let mut b = just_above_ground(Vec3::new(0, -25_000, 0), Vec3::new(0, -9_810, 0));
    let c = update_flight_dynamics(&mut b, 10);
    assert_eq!(c, GroundContact::Crash);
    assert_eq!(b.dynamics.velocity, Vec3::new(0, 0, 0));
    assert_eq!(b.dynamics.acceleration, Vec3::new(0, 0, 0));
    assert_eq!(b.position.y, 1000);
}

#[test]
fn gentle_touchdown_damps_mildly() {
    // 1 m/s impact.
    let mut b = just_above_ground(Vec3::new(600, -800, 0), Vec3::new(0, 0, 0));
    let c = update_flight_dynamics(&mut b, 10);
    assert_eq!(c, GroundContact::Touchdown);
    assert_eq!(b.dynamics.velocity, Vec3::new(570, 0, 0));
    assert_eq!(b.position, Vec3::new(6, 1000, 0));
}

#[test]
fn landing_and_hard_landing() {
    let mut b = just_above_ground(Vec3::new(3_000, -4_000, 0), Vec3::new(0, 0, 0));
    assert_eq!(update_flight_dynamics(&mut b, 10), GroundContact::Landing);
    assert_eq!(b.dynamics.velocity, Vec3::new(2_400, 0, 0));
    let mut h = just_above_ground(Vec3::new(6_000, -8_000, 0), Vec3::new(0, 0, 0));
    assert_eq!(update_flight_dynamics(&mut h, 10), GroundContact::HardLanding);
    assert_eq!(h.dynamics.velocity, Vec3::new(1_800, 0, 0));
}

#[test]
fn idle_step_on_the_ground_changes_nothing() {
    let mut b = spawn_flyer();
    b.position = Vec3::new(0, 1000, 0);
    b.dynamics.velocity = Vec3::new(1_000, 0, 0);
    b.dynamics.acceleration = Vec3::new(0, 0, 0);
    let c = update_flight_dynamics(&mut b, 0);
    assert_eq!(c, GroundContact::Airborne);
    assert_eq!(b.position, Vec3::new(0, 1000, 0));
    assert_eq!(b.dynamics.velocity, Vec3::new(1_000, 0, 0));
}

#[test]
fn flyer_on_the_ground_rolls() {
    let mut b = spawn_flyer();
    b.position = Vec3::new(0, 1000, 0);
    b.dynamics.velocity = Vec3::new(1_000, 0, 0);
    b.dynamics.acceleration = Vec3::new(0, -9_810, 0);
    let c = update_flight_dynamics(&mut b, 16);
    assert_eq!(c, GroundContact::Touchdown);
    assert_eq!(b.position, Vec3::new(16, 1000, 0));
    assert_eq!(b.dynamics.velocity, Vec3::new(950, 0, 0));
}

#[test]
fn falling_below_ground_is_put_on_it() {
    let mut b = spawn_flyer();
    b.position = Vec3::new(0, 1_050, 0);
    b.dynamics.velocity = Vec3::new(0, -1_000, 0);
    let c = update_flight_dynamics(&mut b, 100);
    assert_eq!(c, GroundContact::Touchdown);
    assert_eq!(b.position, Vec3::new(0, 1_000, 0));
    assert_eq!(b.data.altitude, 1_000);
}

#[test]
fn reset_restores_spawn_state() {
    let spawned = spawn_flyer();
    let mut b = spawn_flyer();
    let atm = Atmosphere { air_density: 1225, wind_velocity: Vec3::new(5000, 0, 2000), turbulence_intensity: 100, temperature: 15_000 };
    let controls = Controls { pitch_up: true, throttle_up: true, ..no_controls() };
    apply_controls(&mut b, &controls, 16);
    update_physics(&mut b, &atm, 9_810, 16);
    update_flight_dynamics(&mut b, 16);
    assert_ne!(b.position, spawned.position);
    reset_flyer(&mut b);
    assert_eq!(b.position, spawned.position);
    assert_eq!(b.dynamics.velocity, spawned.dynamics.velocity);
    assert_eq!(b.dynamics.acceleration, spawned.dynamics.acceleration);
    assert_eq!(b.dynamics.forces, spawned.dynamics.forces);
    assert_eq!(b.data, spawned.data);
    assert_eq!(b.propulsion, spawned.propulsion);
    assert_eq!(b.wings, spawned.wings);
}

#[test]
fn forces_are_recomputed_each_tick() {
    let mut b = spawn_flyer();
    let atm = Atmosphere { air_density: 1225, wind_velocity: Vec3::new(0, 0, 0), turbulence_intensity: 0, temperature: 15_000 };
    update_physics(&mut b, &atm, 9_810, 0);
    let first = b.dynamics.forces;
    update_physics(&mut b, &atm, 9_810, 0);
    assert_eq!(b.dynamics.forces, first);
    // At rest in still air only weight acts.
    assert_eq!(first.weight, Vec3::new(0, -784_800, 0));
    assert_eq!(first.lift, Vec3::new(0, 0, 0));
    assert_eq!(first.drag, Vec3::new(0, 0, 0));
    assert_eq!(first.thrust, Vec3::new(0, 0, 0));
    assert_eq!(first.total, Vec3::new(0, -784_800, 0));
    assert_eq!(b.dynamics.acceleration, Vec3::new(0, -9_810, 0));
}

#[test]
fn wind_makes_lift_and_drag() {
    let mut b = spawn_flyer();
    let atm = Atmosphere { air_density: 1225, wind_velocity: Vec3::new(-10_000, 0, 0), turbulence_intensity: 0, temperature: 15_000 };
    update_physics(&mut b, &atm, 9_810, 0);
    let f = b.dynamics.forces;
    assert!(f.lift.y > 0);
    assert_eq!(f.lift.x, 0);
    assert!(f.drag.x < 0);
    assert_eq!(
        f.total,
        Vec3::new(
            f.weight.x + f.lift.x + f.drag.x + f.thrust.x,
            f.weight.y + f.lift.y + f.drag.y + f.thrust.y,
            f.weight.z + f.lift.z + f.drag.z + f.thrust.z,
        )
    );
}

#[test]
fn throttle_adds_propeller_thrust() {
    let mut b = spawn_flyer();
    b.propulsion.throttle = 1000;
    let atm = Atmosphere { air_density: 1225, wind_velocity: Vec3::new(0, 0, 0), turbulence_intensity: 0, temperature: 15_000 };
    update_physics(&mut b, &atm, 9_810, 0);
    assert_eq!(b.dynamics.forces.thrust, Vec3::new(0, 189_975, 379_950));
}

#[test]
fn stall_indicator_of_steep_wing() {
    let mut w = spawn_flyer().wings[0];
    assert_eq!(stall_indicator(&w), StallIndicator { is_stalled: false, stall_severity: 0 });
    w.angle_of_attack = 393;
    assert_eq!(stall_indicator(&w), StallIndicator { is_stalled: true, stall_severity: 500 });
}

#[test]
fn controls_move_wings_and_throttle() {
    let mut b = spawn_flyer();
    apply_controls(&mut b, &Controls { pitch_up: true, throttle_up: true, ..no_controls() }, 16);
    assert_eq!(b.wings[0].angle_of_attack, 116);
    assert_eq!(b.propulsion.throttle, 32);
    apply_controls(&mut b, &no_controls(), 16);
    assert_eq!(b.propulsion.throttle, 16);
    for _ in 0..100 {
        apply_controls(&mut b, &Controls { pitch_up: true, ..no_controls() }, 16);
    }
    assert_eq!(b.wings[1].angle_of_attack, 350);
    for _ in 0..100 {
        apply_controls(&mut b, &Controls { pitch_down: true, ..no_controls() }, 16);
    }
    assert_eq!(b.wings[0].angle_of_attack, -150);
    assert_eq!(b.propulsion.throttle, 0);
    apply_controls(&mut b, &Controls { toggle_flapping: true, ..no_controls() }, 16);
    assert!(b.wings[0].flapping.is_active && b.wings[1].flapping.is_active);
}

#[test]
fn flapping_cycle_and_thrust() {
    let idle = FlappingWing::default();
    assert_eq!(calculate_flapping_thrust(&idle, 5000, 1225, 0), Vec3::new(0, 0, 0));
    let w = FlappingWing { is_active: true, ..idle };
    assert_eq!(w.stroke_phase(0), StrokePhase::PowerStroke);
    assert_eq!(w.stroke_phase(100), StrokePhase::PowerStroke);
    assert_eq!(w.stroke_phase(200), StrokePhase::RecoveryStroke);
    assert_eq!(w.stroke_phase(500), StrokePhase::PowerStroke);
    assert_eq!(w.cycle_position_at(600), 200);
    assert_eq!(calculate_flapping_thrust(&w, 5000, 1225, 0), Vec3::new(166_527, 71_368, 0));
    assert_eq!(calculate_flapping_thrust(&w, 5000, 1225, 200), Vec3::new(0, 0, 0));
}

#[test]
fn stabilizer_limits_and_damps() {
    let mut b = spawn_flyer();
    b.dynamics.velocity = Vec3::new(60_000, 0, 0);
    b.dynamics.angular_velocity = Vec3::new(0, 1_000, 0);
    apply_flight_stabilization(&mut b.dynamics, &FlightStabilizer::default());
    assert_eq!(b.dynamics.velocity, Vec3::new(49_000, 0, 0));
    assert_eq!(b.dynamics.angular_velocity, Vec3::new(0, 980, 0));
}

#[test]
fn ground_avoidance_pushes_up() {
    let mut b = spawn_flyer();
    b.dynamics.velocity = Vec3::new(100, -500, 0);
    add_ground_avoidance(&mut b.dynamics, 1_000, 100);
    assert_eq!(b.dynamics.velocity, Vec3::new(100, 24_500, 0));
    let mut high = spawn_flyer();
    high.dynamics.velocity = Vec3::new(0, -500, 0);
    add_ground_avoidance(&mut high.dynamics, 3_000, 100);
    assert_eq!(high.dynamics.velocity, Vec3::new(0, -500, 0));
    let mut fast = spawn_flyer();
    fast.dynamics.velocity = Vec3::new(0, -50_000, 0);
    add_ground_avoidance(&mut fast.dynamics, 1_500, 10);
    // Pushed up by 1.25 m/s, then slowed to 80%.
    assert_eq!(fast.dynamics.velocity.y, -39_000);
}

#[test]
fn default_forces_are_zero() {
    let f = Forces::default();
    assert_eq!(f.total, Vec3::new(0, 0, 0));
    assert_eq!(f.lift, Vec3::new(0, 0, 0));
}

#[test]
fn flapping_pose_through_the_cycle() {
    let idle = FlappingWing::default();
    assert_eq!(flapping_pose(&idle, 0), None);
    let w = FlappingWing { is_active: true, ..idle };
    assert_eq!(
        flapping_pose(&w, 0),
        Some(WingPose { flap_angle: -785, twist_angle: 349, shoulder_angle: -235, elbow_angle: 0, wrist_angle: 174 })
    );
    let pose = flapping_pose(&w, 150).unwrap();
    assert_eq!(pose.joint_angle(WingJointType::Elbow), -500);
    assert_eq!(pose.joint_angle(WingJointType::Wrist), -87);
    assert_eq!(pose.joint_angle(WingJointType::Shoulder), 235);
    assert_eq!(
        flapping_pose(&w, 150),
        Some(WingPose { flap_angle: 785, twist_angle: -174, shoulder_angle: 235, elbow_angle: -500, wrist_angle: -87 })
    );
}

#[test]
fn fast_flyer_on_the_ground_crashes() {
    let mut b = spawn_flyer();
    b.position = Vec3::new(0, 1000, 0);
    b.dynamics.velocity = Vec3::new(25_000, 0, 0);
    b.dynamics.acceleration = Vec3::new(0, -9_810, 0);
    assert_eq!(update_flight_dynamics(&mut b, 16), GroundContact::Crash);
    assert_eq!(b.dynamics.velocity, Vec3::new(0, 0, 0));
}
