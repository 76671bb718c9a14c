use human_flight::vector::Vec3;
use human_flight::trig::{sine, cosine, periodic_sine};
use human_flight::lift::{LiftParams, calculate_lift_force, calculate_lift_coefficient, calculate_aspect_ratio};
use human_flight::drag::{
    DragParams, calculate_parasitic_drag, calculate_induced_drag, calculate_total_drag, calculate_drag_coefficient,
    induced_drag_coefficient_of,
};
use human_flight::stall::{
    StallParams, calculate_stall_factor, calculate_lift_coefficient_with_stall, calculate_drag_coefficient_stalled,
};
use human_flight::ground_effect::{
    GroundEffectParams, calculate_ground_effect_factor, apply_ground_effect_to_lift, calculate_ground_effect_drag_reduction,
};
use human_flight::exponential::exp_milli;
use human_flight::thrust::{ThrustParams, calculate_thrust_force, calculate_advance_ratio, calculate_propeller_efficiency};

fn lift_params(v: Vec3) -> LiftParams {
    LiftParams { air_density: 1225, velocity: v, wing_area: 5000, wing_span: 5000, wing_chord: 1000, angle_of_attack: 100 }
}

fn drag_params(v: Vec3) -> DragParams {
    DragParams {
        air_density: 1225,
        velocity: v,
        wing_area: 5000,
        drag_coefficient: 30,
        aspect_ratio: 5000,
        efficiency_factor: 850,
    }
}

#[test]
fn sine_matches_known_angles() {
    assert_eq!(sine(0), 0);
    assert_eq!(sine(524), 500);
    assert_eq!(sine(-524), -500);
    assert_eq!(sine(100), 99);
    assert_eq!(periodic_sine(524 + 6283), 500);
    assert_eq!(sine(1571), 999);
    assert_eq!(cosine(0), 999);
    for a in -1571..=1571 {
        assert!((-1000..=1000).contains(&sine(a)));
    }
}

#[test]
fn no_force_below_minimum_speed() {
    let still = Vec3::new(0, 0, 0);
    assert_eq!(calculate_lift_force(&lift_params(still), 1000), Vec3::new(0, 0, 0));
    assert_eq!(calculate_parasitic_drag(&drag_params(still)), Vec3::new(0, 0, 0));
    assert_eq!(calculate_induced_drag(&drag_params(still), 1000), Vec3::new(0, 0, 0));
    assert_eq!(calculate_total_drag(&drag_params(still), 1000), Vec3::new(0, 0, 0));
}

#[test]
fn lift_of_level_airflow_points_up() {
    // 10 m/s through sea-level air over 5 m^2 at CL 1: 0.5 * 1.225 * 100 * 5 = 306.25 N.
    let lift = calculate_lift_force(&lift_params(Vec3::new(10_000, 0, 0)), 1000);
    assert_eq!(lift, Vec3::new(0, 306_250, 0));
}

#[test]
fn lift_is_perpendicular_to_sloped_airflow() {
    let lift = calculate_lift_force(&lift_params(Vec3::new(10_000, -2_000, 0)), 1000);
    assert_eq!(lift, Vec3::new(62_463, 312_316, 0));
}

#[test]
fn vertical_airflow_gives_no_lift() {
    let lift = calculate_lift_force(&lift_params(Vec3::new(0, -5_000, 0)), 1000);
    assert_eq!(lift, Vec3::new(0, 0, 0));
}

#[test]
fn parasitic_drag_opposes_airflow() {
    // 61.25 Pa * 5 m^2 * 0.03 = 9.1875 N.
    let drag = calculate_parasitic_drag(&drag_params(Vec3::new(10_000, 0, 0)));
    assert_eq!(drag, Vec3::new(-9_187, 0, 0));
    let sloped = calculate_parasitic_drag(&drag_params(Vec3::new(10_000, -2_000, 0)));
    assert_eq!(sloped, Vec3::new(-9_369, 1_873, 0));
}

#[test]
fn induced_drag_coefficient_formula() {
    // 1 / (pi * 5 * 0.85) = 0.0749
    assert_eq!(induced_drag_coefficient_of(1000, 5000, 850), 74);
    assert_eq!(induced_drag_coefficient_of(0, 5000, 850), 0);
    let induced = calculate_induced_drag(&drag_params(Vec3::new(10_000, 0, 0)), 1000);
    // 306.25 N * 0.074
    assert_eq!(induced, Vec3::new(-22_662, 0, 0));
    // Any positive aspect ratio and efficiency is accepted.
    assert_eq!(induced_drag_coefficient_of(1000, 1, 1), 318_268_618);
    let total = calculate_total_drag(&drag_params(Vec3::new(10_000, 0, 0)), 1000);
    assert_eq!(total, Vec3::new(-9_187 - 22_662, 0, 0));
}

#[test]
fn coefficient_formulas() {
    assert_eq!(calculate_lift_coefficient(100, 1200), 118);
    assert_eq!(calculate_lift_coefficient(0, 1200), 0);
    assert_eq!(calculate_aspect_ratio(5000, 5000), 5000);
    assert_eq!(calculate_aspect_ratio(10_000, 5000), 20_000);
    assert_eq!(calculate_drag_coefficient(100, 30), 32);
    assert_eq!(calculate_drag_coefficient(-100, 30), 32);
}

#[test]
fn stall_factor_is_one_up_to_critical_angle() {
    let p = StallParams::default();
    for a in [0, 100, -100, 261, 262, -262] {
        assert_eq!(calculate_stall_factor(&StallParams { angle_of_attack: a, ..p }), 1000);
    }
}

#[test]
fn stall_factor_falls_to_post_stall_floor() {
    let p = StallParams::default();
    assert_eq!(calculate_stall_factor(&StallParams { angle_of_attack: 512, ..p }), 750);
    assert_eq!(calculate_stall_factor(&StallParams { angle_of_attack: -512, ..p }), 750);
    assert_eq!(calculate_stall_factor(&StallParams { angle_of_attack: 1000, ..p }), 500);
    assert_eq!(calculate_stall_factor(&StallParams { angle_of_attack: 1500, ..p }), 500);
    let mut last = 1000;
    for a in 263..1571 {
        let f = calculate_stall_factor(&StallParams { angle_of_attack: a, ..p });
        assert!(f <= last);
        assert!(f >= p.post_stall_drop);
        last = f;
    }
}

#[test]
fn stalled_coefficients() {
    let p = StallParams::default();
    assert_eq!(calculate_lift_coefficient_with_stall(1200, 100, &p), 118);
    assert_eq!(calculate_drag_coefficient_stalled(30, 100, &p), 30);
    // 131 mrad past 262 mrad: severity 0.5, drag x 2.5.
    assert_eq!(calculate_drag_coefficient_stalled(30, 393, &p), 75);
    assert_eq!(calculate_drag_coefficient_stalled(30, 1500, &p), 120);
}

#[test]
fn ground_effect_factor_values() {
    let at = |h: i64| calculate_ground_effect_factor(&GroundEffectParams { altitude: h, wing_span: 5000, wing_chord: 1000 });
    assert_eq!(at(6000), 1000);
    assert_eq!(at(5001), 1000);
    assert_eq!(at(5000), 1000);
    assert_eq!(at(4999), 1003);
    assert_eq!(at(1000), 1_097);
    assert_eq!(at(100), 10_765);
    assert_eq!(at(20), 245_140);
    assert_eq!(at(19), 271_515);
    assert_eq!(at(1), 97_657_250);
    assert_eq!(at(0), 390_626_000);
    for h in 0..100 {
        assert!(at(h) > at(h + 1));
    }
    let mut last = at(0);
    for h in 1..5000 {
        let f = at(h);
        assert!(f > 1000);
        assert!(f <= last);
        last = f;
    }
}

#[test]
fn ground_effect_scales_lift() {
    let lift = apply_ground_effect_to_lift(Vec3::new(100, 306_250, -40), 11_240);
    assert_eq!(lift, Vec3::new(1_124, 3_442_250, -449));
}

#[test]
fn propeller_thrust_at_rest_and_at_speed() {
    let params = ThrustParams {
        thrust_power: 500_000,
        thrust_direction: Vec3::new(0, 447, 894),
        efficiency: 850,
        propeller_diameter: 1200,
        air_density: 1225,
        velocity: Vec3::new(0, 0, 0),
    };
    assert_eq!(calculate_thrust_force(&params), Vec3::new(0, 189_975, 379_950));
    // 20 m/s along z: v . d = 17.88, loss 0.357.
    let moving = ThrustParams { velocity: Vec3::new(0, 0, 20_000), ..params };
    assert_eq!(calculate_thrust_force(&moving), Vec3::new(0, 122_153, 244_307));
    // Far past the propeller's speed the loss stops at 0.8.
    let fast = ThrustParams { velocity: Vec3::new(0, 0, 90_000), ..params };
    assert_eq!(calculate_thrust_force(&fast), Vec3::new(0, 37_995, 75_990));
}

#[test]
fn advance_ratio_values() {
    assert_eq!(calculate_advance_ratio(10_000, 3_000_000, 1200), 166);
    assert_eq!(calculate_advance_ratio(10_000, 0, 1200), 0);
    assert_eq!(calculate_advance_ratio(10_000, 3_000_000, 0), 0);
}

#[test]
fn exponential_values() {
    assert_eq!(exp_milli(0), 1000);
    assert_eq!(exp_milli(1000), 2718);
    assert_eq!(exp_milli(-1000), 367);
    assert_eq!(exp_milli(2000), 7389);
    assert_eq!(exp_milli(4000), 54_598);
    assert_eq!(exp_milli(-4000), 18);
}

#[test]
fn propeller_efficiency_bell() {
    assert_eq!(calculate_propeller_efficiency(800), 850);
    assert_eq!(calculate_propeller_efficiency(500), 709);
    assert_eq!(calculate_propeller_efficiency(0), 236);
    assert_eq!(calculate_propeller_efficiency(2001), 0);
    assert_eq!(calculate_propeller_efficiency(-1), 0);
}

#[test]
fn ground_effect_drag_reduction_values() {
    let at = |h: i64| calculate_ground_effect_drag_reduction(&GroundEffectParams { altitude: h, wing_span: 5000, wing_chord: 1000 });
    assert_eq!(at(0), 520);
    assert_eq!(at(2500), 824);
    assert_eq!(at(5000), 936);
    assert_eq!(at(6000), 1000);
}

#[test]
fn still_air_gives_no_drag_for_any_wing() {
    let still = DragParams {
        air_density: -5,
        velocity: Vec3::new(0, 0, 0),
        wing_area: -1,
        drag_coefficient: i64::MAX,
        aspect_ratio: 0,
        efficiency_factor: 0,
    };
    assert_eq!(calculate_induced_drag(&still, i64::MAX), Vec3::new(0, 0, 0));
    assert_eq!(calculate_total_drag(&still, i64::MIN), Vec3::new(0, 0, 0));
    assert_eq!(calculate_parasitic_drag(&still), Vec3::new(0, 0, 0));
    let lp = LiftParams { air_density: -5, velocity: Vec3::new(0, 0, 0), wing_area: -1, wing_span: 0, wing_chord: 0, angle_of_attack: 0 };
    assert_eq!(calculate_lift_force(&lp, i64::MAX), Vec3::new(0, 0, 0));
}

#[test]
fn ground_effect_factor_one_keeps_lift() {
    let base = Vec3::new(7, -306_250, 40);
    assert_eq!(apply_ground_effect_to_lift(base, 1000), base);
}
