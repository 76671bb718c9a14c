use human_flight::vector::Vec3;
use human_flight::weather::{
    WeatherParams, GustDraw, wind_from_draw, draw_gust, calculate_wind_with_turbulence, calculate_density_altitude,
    apply_wind_to_velocity, calculate_air_density,
};
use human_flight::simulation::{Simulation, TickError};
use human_flight::flyer::{spawn_flyer, Controls};
use human_flight::integrator::GroundContact;

fn no_controls() -> Controls {
    Controls {
        toggle_running: false,
        pitch_up: false,
        pitch_down: false,
        throttle_up: false,
        reset: false,
        toggle_flapping: false,
    }
}

fn running() -> Simulation {
    let mut sim = Simulation::new(WeatherParams::default());
    sim.handle_input(&Controls { toggle_running: true, ..no_controls() }, 16).unwrap();
    assert!(sim.params.is_running);
    sim
}

#[test]
fn wind_without_gust() {
    let w = WeatherParams::default();
    let calm = GustDraw { chance: 999, x: 0, y: 0, z: 0 };
    // At the origin and time zero the x and z waves are at zero and the y
    // wave at its crest: 10 * 0.1 * 0.999 m/s.
    assert_eq!(wind_from_draw(&w, Vec3::new(0, 0, 0), 0, &calm), Vec3::new(5000, 990, 2000));
}

#[test]
fn wind_with_gust() {
    let w = WeatherParams::default();
    let gust = GustDraw { chance: 0, x: 500, y: -250, z: -1000 };
    assert_eq!(wind_from_draw(&w, Vec3::new(0, 0, 0), 0, &gust), Vec3::new(6000, 490, 0));
}

#[test]
fn random_gusts_stay_in_range() {
    let w = WeatherParams { gust_frequency: 500, ..WeatherParams::default() };
    let mut chances = Vec::new();
    for _ in 0..200 {
        let g = draw_gust(&w);
        assert!(0 <= g.chance && g.chance < 1000);
        assert!(-1000 <= g.x && g.x < 1000 && -500 <= g.y && g.y < 500 && -1000 <= g.z && g.z < 1000);
        chances.push(g.chance);
        let wind = calculate_wind_with_turbulence(&w, Vec3::new(0, 0, 0), 0);
        assert!(3000 <= wind.x && wind.x <= 7000);
        assert!(-10 <= wind.y && wind.y <= 1990);
        assert!(0 <= wind.z && wind.z <= 4000);
    }
    chances.sort();
    chances.dedup();
    assert!(chances.len() > 1);
}

#[test]
fn density_altitude_values() {
    assert_eq!(calculate_density_altitude(0, 15_000), 0);
    assert_eq!(calculate_density_altitude(1_000_000, 15_000), 1_073_656);
}

#[test]
fn airspeed_subtracts_wind() {
    assert_eq!(apply_wind_to_velocity(Vec3::new(10_000, 0, 0), Vec3::new(5000, 0, 2000)), Vec3::new(5000, 0, -2000));
}

#[test]
fn paused_simulation_does_not_change() {
    let mut sim = Simulation::new(WeatherParams::default());
    let before = sim.clone();
    let r = sim.step_with_wind(16, 16, Vec3::new(5000, 0, 0), 1225);
    assert_eq!(r, Ok(Vec::new()));
    assert_eq!(sim.bodies[0].position, before.bodies[0].position);
    assert_eq!(sim.atmosphere, before.atmosphere);
    let r2 = sim.tick(16, 16);
    assert_eq!(r2, Ok(Vec::new()));
    assert_eq!(sim.bodies[0].dynamics, before.bodies[0].dynamics);
}

#[test]
fn running_simulation_falls_under_weight() {
    let mut sim = running();
    let r = sim.step_with_wind(100, 0, Vec3::new(0, 0, 0), 1225).unwrap();
    assert_eq!(r, vec![GroundContact::Airborne]);
    let b = &sim.bodies[0];
    assert_eq!(b.dynamics.acceleration, Vec3::new(0, -9_810, 0));
    // Forces first, then one semi-implicit Euler step of 0.1 s.
    // The stabilizer then damps the velocity by 2%.
    assert_eq!(b.dynamics.velocity, Vec3::new(0, -961, 0));
    assert_eq!(b.position, Vec3::new(0, 4_902, 0));
    assert_eq!(sim.atmosphere.air_density, 1225);
}

#[test]
fn falling_flyer_is_caught_near_the_ground() {
    let mut sim = running();
    for frame in 0..200 {
        let r = sim.step_with_wind(16, frame * 16, Vec3::new(0, 0, 0), 1225).unwrap();
        assert_ne!(r[0], GroundContact::Crash);
        assert!(sim.bodies[0].position.y >= 1000);
    }
    assert!(sim.bodies[0].position.y < 5000);
}

#[test]
fn out_of_range_tick_is_refused() {
    let mut sim = running();
    let before = sim.clone();
    assert_eq!(sim.step_with_wind(16, 0, Vec3::new(100_000, 0, 0), 1225), Err(TickError::OutOfRange));
    assert_eq!(sim.step_with_wind(5_000, 0, Vec3::new(0, 0, 0), 1225), Err(TickError::OutOfRange));
    assert_eq!(sim.step_with_wind(16, 0, Vec3::new(0, 0, 0), -1), Err(TickError::OutOfRange));
    assert_eq!(sim.bodies[0].position, before.bodies[0].position);
    assert_eq!(sim.atmosphere, before.atmosphere);
}

#[test]
fn simulation_speed_scales_the_step() {
    let mut sim = running();
    sim.params.simulation_speed = 2000;
    sim.step_with_wind(50, 0, Vec3::new(0, 0, 0), 1225).unwrap();
    assert_eq!(sim.bodies[0].data.flight_time, 100);
}

#[test]
fn reset_pauses_and_restores() {
    let mut sim = running();
    for frame in 0..20 {
        sim.tick(16, frame * 16).unwrap();
    }
    sim.handle_input(&Controls { reset: true, throttle_up: true, ..no_controls() }, 16).unwrap();
    assert!(!sim.params.is_running);
    let spawned = spawn_flyer();
    let b = &sim.bodies[0];
    assert_eq!(b.position, spawned.position);
    assert_eq!(b.dynamics, spawned.dynamics);
    assert_eq!(b.data, spawned.data);
    assert_eq!(b.propulsion.throttle, 0);
}

#[test]
fn input_with_bad_frame_time_is_refused() {
    let mut sim = Simulation::new(WeatherParams::default());
    assert_eq!(sim.handle_input(&Controls { toggle_running: true, ..no_controls() }, -1), Err(TickError::OutOfRange));
    assert!(!sim.params.is_running);
}

#[test]
fn air_density_from_weather() {
    // 15 degrees, standard pressure, 50% humidity: 1.220 kg/m^3.
    assert_eq!(calculate_air_density(15_000, 101_325_000, 500), 1220);
    assert_eq!(calculate_air_density(0, 101_325_000, 0), 1292);
    assert_eq!(calculate_air_density(30_000, 101_325_000, 1000), 1145);
    assert_eq!(calculate_air_density(-40_000, 101_325_000, 0), 1513);
}

#[test]
fn tick_takes_density_from_weather() {
    let mut sim = running();
    sim.tick(16, 0).unwrap();
    assert_eq!(sim.atmosphere.air_density, 1220);
    let w = sim.atmosphere.wind_velocity;
    assert!(3000 <= w.x && w.x <= 7000);
}

#[test]
fn tick_with_weather_out_of_range_is_refused() {
    let mut sim = running();
    sim.weather.temperature = 90_000;
    assert_eq!(sim.tick(16, 0), Err(TickError::OutOfRange));
    assert_eq!(sim.tick(16, -5), Err(TickError::OutOfRange));
}

#[test]
fn reset_restores_flyers_out_of_range() {
    let mut sim = running();
    sim.bodies[0].dynamics.velocity = Vec3::new(70_000, 0, 0);
    sim.bodies[0].position = Vec3::new(3, 2_000, 4);
    assert_eq!(sim.step_with_wind(16, 0, Vec3::new(0, 0, 0), 1225), Err(TickError::OutOfRange));
    assert_eq!(sim.handle_input(&Controls { pitch_up: true, ..no_controls() }, 16), Err(TickError::OutOfRange));
    sim.handle_input(&Controls { reset: true, ..no_controls() }, -1).unwrap();
    let spawned = spawn_flyer();
    assert_eq!(sim.bodies[0].position, spawned.position);
    assert_eq!(sim.bodies[0].dynamics, spawned.dynamics);
    assert!(!sim.params.is_running);
    let once = sim.clone();
    sim.handle_input(&Controls { reset: true, ..no_controls() }, 16).unwrap();
    assert_eq!(sim.bodies[0].position, once.bodies[0].position);
    assert_eq!(sim.bodies[0].dynamics, once.bodies[0].dynamics);
    assert_eq!(sim.bodies[0].data, once.bodies[0].data);
}

#[test]
fn stabilizer_keeps_a_dive_in_range() {
    let mut sim = running();
    sim.bodies[0].position = Vec3::new(0, 1_000_000, 0);
    for frame in 0..2000 {
        let r = sim.step_with_wind(16, frame * 16, Vec3::new(0, 0, 0), 1225);
        assert!(r.is_ok());
    }
    let v = sim.bodies[0].dynamics.velocity;
    assert!(v.y.abs() <= 50_000);
}

#[test]
fn long_frames_still_apply_the_controls() {
    let mut sim = Simulation::new(WeatherParams::default());
    sim.handle_input(&Controls { pitch_up: true, throttle_up: true, ..no_controls() }, 2_000).unwrap();
    assert_eq!(sim.bodies[0].wings[0].angle_of_attack, 350);
    assert_eq!(sim.bodies[0].propulsion.throttle, 1000);
    sim.handle_input(&Controls { pitch_down: true, ..no_controls() }, 2_000).unwrap();
    assert_eq!(sim.bodies[0].wings[1].angle_of_attack, -150);
    assert_eq!(sim.bodies[0].propulsion.throttle, 0);
}

#[test]
fn weather_with_too_much_wind_is_refused() {
    let mut sim = running();
    sim.weather.base_wind = Vec3::new(39_000, 0, 0);
    assert!(!sim.weather.in_range());
    assert_eq!(sim.tick(16, 0), Err(TickError::OutOfRange));
    sim.weather = WeatherParams::default();
    assert!(sim.weather.in_range());
    for frame in 0..50 {
        assert!(sim.tick(16, frame * 16).is_ok());
    }
}

#[test]
fn reported_data_follow_the_final_velocity() {
    let mut sim = running();
    sim.step_with_wind(100, 0, Vec3::new(0, 0, 0), 1225).unwrap();
    let b = &sim.bodies[0];
    assert_eq!(b.data.vertical_speed, b.dynamics.velocity.y);
    assert_eq!(b.data.airspeed, 961);
}
