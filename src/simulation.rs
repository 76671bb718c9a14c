use vstd::prelude::*;
use crate::fixed::{abs, mul_fx, lemma_div_tz_bound, SCALE};
use crate::vector::{Vec3, scale_component};
use crate::aero::{MAX_AREA, MAX_DENSITY};
use crate::drag::{MIN_ASPECT_RATIO, MIN_EFFICIENCY};
use crate::trig::{FULL_TURN, MAX_SINE_ANGLE};
use crate::flapping::{MAX_FLAP_FREQUENCY, MAX_TIME};
use crate::thrust::MAX_THRUST_POWER;
use crate::weather::{WeatherParams, MAX_POSITION, calculate_wind_with_turbulence, calculate_air_density,
    air_density_spec, wind_spec, GustDraw};
use crate::components::{MAX_WING_SPAN, FlightData, Wing, FlightBody, Atmosphere, SimulationParams, MAX_WINGS, MIN_MASS, MAX_MASS,
    MAX_BODY_SPEED, MAX_ACCELERATION, MAX_WIND, MAX_GRAVITY, MAX_BASE_LIFT, MAX_BASE_DRAG};
use crate::forces::{update_physics, physics_updated};
use crate::stabilization::{apply_flight_stabilization, add_ground_avoidance, avoided_vertical_speed, limited, scaled};
use crate::integrator::{GROUND_LEVEL, update_flight_dynamics, step_spec, step_contact, GroundContact, MAX_STEP};
use crate::flyer::{MAX_CONTROL_STEP, Controls, is_spawn_state, apply_controls, reset_flyer, toggle_flapping, controls_spec, reset_spec, flapping_toggled};

verus! {

/// Largest frame time and simulation-speed multiplier the tick accepts.
pub const MAX_FRAME_INPUT: i64 = 1_000_000_000;

/// Why a tick or a frame of controls was refused.
#[derive(Clone, Copy, Debug, PartialEq, Eq, Structural)]
pub enum TickError {
    /// Some input or some flyer's state lies outside the range the model
    /// computes; nothing was changed.
    OutOfRange,
}

/// Everything that is simulated: the settings, the weather, the one shared
/// atmosphere and the flyers.
#[derive(Clone, Debug)]
pub struct Simulation {
    pub params: SimulationParams,
    pub weather: WeatherParams,
    pub atmosphere: Atmosphere,
    pub bodies: Vec<FlightBody>,
}

impl Vec3 {
    /// Whether every component lies in `-m ..= m`.
    pub fn is_within(&self, m: i64) -> (r: bool)
        requires
            m >= 0,
        ensures
            r == self.within(m as int),
    {
        -m <= self.x && self.x <= m && -m <= self.y && self.y <= m && -m <= self.z && self.z <= m
    }
}

impl Wing {
    /// Whether the wing lies in the range the simulation accepts.
    pub fn in_range(&self) -> (r: bool)
        ensures
            r == self.wf(),
    {
        let f = &self.flapping;
        0 < self.span && self.span <= MAX_WING_SPAN && 0 <= self.area && self.area <= MAX_AREA
            && MIN_ASPECT_RATIO <= self.aspect_ratio && self.aspect_ratio <= 1_000_000_000
            && MIN_EFFICIENCY <= self.efficiency_factor && self.efficiency_factor <= SCALE
            && -MAX_SINE_ANGLE <= self.angle_of_attack && self.angle_of_attack <= MAX_SINE_ANGLE
            && -MAX_BASE_LIFT <= self.lift_coefficient_base && self.lift_coefficient_base <= MAX_BASE_LIFT
            && -MAX_BASE_DRAG <= self.drag_coefficient_base && self.drag_coefficient_base <= MAX_BASE_DRAG
            && 0 <= f.frequency && f.frequency <= MAX_FLAP_FREQUENCY && 0 <= f.amplitude && f.amplitude <= MAX_SINE_ANGLE
            && 0 <= f.phase_offset && f.phase_offset <= FULL_TURN && 0 <= f.power_stroke_ratio
            && f.power_stroke_ratio <= SCALE
    }
}

impl FlightBody {
    /// Whether the flyer lies in the range the simulation accepts.
    pub fn in_range(&self) -> (r: bool)
        ensures
            r == self.wf(),
    {
        let p = &self.propulsion;
        let basic = MIN_MASS <= self.flyer.mass && self.flyer.mass <= MAX_MASS
            && self.position.is_within(MAX_POSITION) && self.position.y >= GROUND_LEVEL
            && self.dynamics.velocity.is_within(MAX_BODY_SPEED)
            && self.dynamics.acceleration.is_within(MAX_ACCELERATION)
            && self.dynamics.angular_velocity.is_within(MAX_POSITION) && 0 <= self.stabilizer.max_velocity
            && self.stabilizer.max_velocity <= MAX_BODY_SPEED && 0 <= self.stabilizer.max_angular_velocity
            && self.stabilizer.max_angular_velocity <= MAX_POSITION && 0 <= self.stabilizer.stability_damping
            && self.stabilizer.stability_damping <= SCALE
            && 0 <= p.thrust_power && p.thrust_power <= MAX_THRUST_POWER && p.thrust_direction.is_within(SCALE)
            && 0 <= p.efficiency && p.efficiency <= SCALE && 0 <= p.throttle && p.throttle <= SCALE
            && self.wings.len() <= MAX_WINGS
            && 0 <= self.data.flight_time && self.data.flight_time <= MAX_POSITION
            && 0 <= self.data.distance_traveled && self.data.distance_traveled <= MAX_POSITION;
        if !basic {
            return false;
        }
        let n = self.wings.len();
        let mut i: usize = 0;
        while i < n
            invariant
                n == self.wings@.len(),
                0 <= i <= n,
                forall|k: int| 0 <= k < i ==> (#[trigger] self.wings@[k]).wf(),
            decreases n - i,
        {
            if !self.wings[i].in_range() {
                return false;
            }
            i = i + 1;
        }
        true
    }
}

/// Whether every flyer lies in the range the simulation accepts.
fn all_in_range(bodies: &Vec<FlightBody>) -> (r: bool)
    ensures
        r == (forall|i: int| 0 <= i < bodies@.len() ==> (#[trigger] bodies@[i]).wf()),
{
    let n = bodies.len();
    let mut i: usize = 0;
    while i < n
        invariant
            n == bodies@.len(),
            0 <= i <= n,
            forall|k: int| 0 <= k < i ==> (#[trigger] bodies@[k]).wf(),
        decreases n - i,
    {
        if !bodies[i].in_range() {
            return false;
        }
        i = i + 1;
    }
    true
}

/// Time step of a frame: the frame time scaled by the simulation speed.
pub open spec fn frame_step(params: SimulationParams, frame_dt: int) -> int {
    mul_fx(frame_dt, params.simulation_speed as int)
}

/// The inputs of a tick and every flyer lie in the range the model computes.
pub open spec fn tick_inputs_ok(s: Simulation, frame_dt: int, elapsed: int, wind: Vec3, rho: int) -> bool {
    &&& 0 <= rho <= MAX_DENSITY
    &&& wind.within(MAX_WIND as int)
    &&& 0 <= s.params.gravity <= MAX_GRAVITY
    &&& 0 <= elapsed <= MAX_TIME
    &&& abs(frame_dt) <= MAX_FRAME_INPUT
    &&& abs(s.params.simulation_speed as int) <= MAX_FRAME_INPUT
    &&& 0 <= frame_step(s.params, frame_dt) <= MAX_STEP
    &&& forall|i: int| 0 <= i < s.bodies@.len() ==> (#[trigger] s.bodies@[i]).wf()
}

/// `after` is `before` with ground avoidance applied over `dt`: only the
/// vertical velocity changes.
pub open spec fn avoided(before: FlightBody, after: FlightBody, dt: int) -> bool {
    &&& after.dynamics.velocity == Vec3 {
        y: avoided_vertical_speed(before.dynamics.velocity.y as int, before.position.y as int, dt) as i64,
        ..before.dynamics.velocity
    }
    &&& after.dynamics.angular_velocity == before.dynamics.angular_velocity
    &&& after.dynamics.acceleration == before.dynamics.acceleration
    &&& after.dynamics.forces == before.dynamics.forces
    &&& after.position == before.position
    &&& after.data == before.data
    &&& after.flyer == before.flyer
    &&& after.propulsion == before.propulsion
    &&& after.wings@ == before.wings@
    &&& after.stall == before.stall
    &&& after.stabilizer == before.stabilizer
}

/// `after` is `before` with its motion passed through its stabilizer (speed
/// and spin limited, then damped), and the reported airspeed and vertical
/// speed taken from the resulting velocity.
pub open spec fn stabilized(before: FlightBody, after: FlightBody) -> bool {
    let s = before.stabilizer;
    &&& after.dynamics.velocity == scaled(limited(before.dynamics.velocity, s.max_velocity as int), s.stability_damping as int)
    &&& after.dynamics.angular_velocity == scaled(
        limited(before.dynamics.angular_velocity, s.max_angular_velocity as int),
        s.stability_damping as int,
    )
    &&& after.dynamics.acceleration == before.dynamics.acceleration
    &&& after.dynamics.forces == before.dynamics.forces
    &&& after.position == before.position
    &&& after.data == FlightData {
        airspeed: after.dynamics.velocity.len() as i64,
        vertical_speed: after.dynamics.velocity.y,
        ..before.data
    }
    &&& after.flyer == before.flyer
    &&& after.propulsion == before.propulsion
    &&& after.wings@ == before.wings@
    &&& after.stall == before.stall
    &&& after.stabilizer == before.stabilizer
}

/// `after` is `before` advanced by one tick: forces from the atmosphere
/// `atm`, one integration step of `dt` with ground contact `c`, ground
/// avoidance over `dt`, then the flyer's stabilizer.
pub open spec fn body_ticked(before: FlightBody, after: FlightBody, atm: Atmosphere, gravity: int, t: int, dt: int, c: GroundContact) -> bool {
    exists|m1: FlightBody, m2: FlightBody, m3: FlightBody| #[trigger] physics_updated(before, m1, atm, gravity, t)
        && #[trigger] step_spec(m1, m2, dt) && c == step_contact(m1, dt) && #[trigger] avoided(m2, m3, dt) && stabilized(
        m3,
        after,
    )
}

pub open spec fn same_simulation(a: Simulation, b: Simulation) -> bool {
    &&& a.params == b.params
    &&& a.weather == b.weather
    &&& a.atmosphere == b.atmosphere
    &&& a.bodies@ == b.bodies@
}

/// One tick with the given wind and air density. A paused simulation does
/// not change. Otherwise the atmosphere takes the new wind and density, and
/// every flyer gets its forces recomputed and is advanced by the frame time
/// scaled by the simulation speed; the result lists each flyer's ground
/// contact.
pub open spec fn tick_spec(
    before: Simulation,
    after: Simulation,
    frame_dt: int,
    elapsed: int,
    wind: Vec3,
    rho: int,
    r: Result<Vec<GroundContact>, TickError>,
) -> bool {
    if !before.params.is_running {
        same_simulation(before, after) && r.is_ok() && r.unwrap()@.len() == 0
    } else if !tick_inputs_ok(before, frame_dt, elapsed, wind, rho) {
        same_simulation(before, after) && r == Err::<Vec<GroundContact>, TickError>(TickError::OutOfRange)
    } else {
        let atm = Atmosphere { air_density: rho as i64, wind_velocity: wind, ..before.atmosphere };
        &&& after.params == before.params
        &&& after.weather == before.weather
        &&& after.atmosphere == atm
        &&& after.bodies@.len() == before.bodies@.len()
        &&& r.is_ok()
        &&& r.unwrap()@.len() == before.bodies@.len()
        &&& forall|i: int| 0 <= i < before.bodies@.len() ==> (#[trigger] after.bodies@[i]).dynamics.velocity.within(
            MAX_BODY_SPEED as int,
        )
        &&& forall|i: int| 0 <= i < before.bodies@.len() ==> #[trigger] body_ticked(
            before.bodies@[i],
            after.bodies@[i],
            atm,
            before.params.gravity as int,
            elapsed,
            frame_step(before.params, frame_dt),
            r.unwrap()@[i],
        )
    }
}

/// `after` is `before` put back to its start by a reset frame, with the
/// flapping switched first if the frame asks for it.
pub open spec fn body_after_reset(before: FlightBody, after: FlightBody, toggle: bool) -> bool {
    if toggle {
        exists|m: FlightBody| #[trigger] flapping_toggled(before, m) && reset_spec(m, after)
    } else {
        reset_spec(before, after)
    }
}

/// One frame of controls lasting `dt`. A reset pauses the simulation and puts
/// every flyer back to its start, whatever its state. Otherwise the running
/// flag toggles if asked and every flyer takes the pitch, throttle and
/// flapping controls, provided the frame time and every flyer lie in the
/// accepted range; if not, nothing changes.
pub open spec fn input_spec(before: Simulation, after: Simulation, c: Controls, dt: int, r: Result<(), TickError>) -> bool {
    if c.reset {
        &&& r == Ok::<(), TickError>(())
        &&& after.params == SimulationParams { is_running: false, ..before.params }
        &&& after.weather == before.weather
        &&& after.atmosphere == before.atmosphere
        &&& after.bodies@.len() == before.bodies@.len()
        &&& forall|i: int| 0 <= i < before.bodies@.len() ==> #[trigger] body_after_reset(before.bodies@[i], after.bodies@[i], c.toggle_flapping)
    } else if !(0 <= dt <= MAX_CONTROL_STEP && forall|i: int| 0 <= i < before.bodies@.len() ==> (#[trigger] before.bodies@[i]).wf()) {
        same_simulation(before, after) && r == Err::<(), TickError>(TickError::OutOfRange)
    } else {
        &&& r == Ok::<(), TickError>(())
        &&& after.params == SimulationParams { is_running: before.params.is_running != c.toggle_running, ..before.params }
        &&& after.weather == before.weather
        &&& after.atmosphere == before.atmosphere
        &&& after.bodies@.len() == before.bodies@.len()
        &&& forall|i: int| 0 <= i < before.bodies@.len() ==> #[trigger] controls_spec(before.bodies@[i], after.bodies@[i], c, dt)
    }
}

impl Simulation {
    /// A paused simulation of one freshly spawned flyer in sea-level air with a
    /// light breeze.
    pub fn new(weather: WeatherParams) -> (r: Simulation)
        ensures
            !r.params.is_running,
            r.weather == weather,
            r.bodies@.len() == 1,
            crate::flyer::is_spawn_state(r.bodies@[0]),
            r.params.gravity == 9810,
            r.params.simulation_speed == SCALE,
            r.atmosphere == (Atmosphere {
                air_density: 1225,
                wind_velocity: Vec3 { x: 5000, y: 0, z: 2000 },
                turbulence_intensity: 100,
                temperature: 15_000,
            }),
    {
        let mut bodies: Vec<FlightBody> = Vec::new();
        bodies.push(crate::flyer::spawn_flyer());
        Simulation {
            params: SimulationParams::default(),
            weather,
            atmosphere: Atmosphere {
                air_density: 1225,
                wind_velocity: Vec3::new(5000, 0, 2000),
                turbulence_intensity: 100,
                temperature: 15_000,
            },
            bodies,
        }
    }

    /// One tick with the given wind and air density (see `tick_spec`).
    pub fn step_with_wind(&mut self, frame_dt: i64, elapsed: i64, wind: Vec3, air_density: i64) -> (r: Result<
        Vec<GroundContact>,
        TickError,
    >)
        ensures
            tick_spec(*old(self), *final(self), frame_dt as int, elapsed as int, wind, air_density as int, r),
    {
        if !self.params.is_running {
            return Ok(Vec::new());
        }
        let speed = self.params.simulation_speed;
        let frame_ok = -MAX_FRAME_INPUT <= frame_dt && frame_dt <= MAX_FRAME_INPUT && -MAX_FRAME_INPUT <= speed
            && speed <= MAX_FRAME_INPUT;
        if !frame_ok {
            return Err(TickError::OutOfRange);
        }
        proof {
            assert(abs(frame_dt * speed) <= 1_000_000_000_000_000_000) by (nonlinear_arith)
                requires
                    abs(frame_dt as int) <= 1_000_000_000,
                    abs(speed as int) <= 1_000_000_000,
            ;
            lemma_div_tz_bound(frame_dt * speed, 1000, 1_000_000_000_000_000);
        }
        let dt = scale_component(frame_dt, speed);
        let inputs_ok = 0 <= air_density && air_density <= MAX_DENSITY && wind.is_within(MAX_WIND) && 0
            <= self.params.gravity && self.params.gravity <= MAX_GRAVITY && 0 <= elapsed && elapsed <= MAX_TIME && 0
            <= dt && dt <= MAX_STEP;
        if !inputs_ok || !all_in_range(&self.bodies) {
            return Err(TickError::OutOfRange);
        }
        self.atmosphere.air_density = air_density;
        self.atmosphere.wind_velocity = wind;
        let atm = self.atmosphere;
        let g = self.params.gravity;
        let n = self.bodies.len();
        let mut contacts: Vec<GroundContact> = Vec::new();
        let mut i: usize = 0;
        while i < n
            invariant
                n == self.bodies@.len(),
                n == old(self).bodies@.len(),
                0 <= i <= n,
                contacts@.len() == i,
                atm == self.atmosphere,
                atm.wf(),
                atm == (Atmosphere { air_density: air_density, wind_velocity: wind, ..old(self).atmosphere }),
                self.params == old(self).params,
                self.weather == old(self).weather,
                g == old(self).params.gravity,
                0 <= g <= MAX_GRAVITY,
                0 <= elapsed <= MAX_TIME,
                0 <= dt <= MAX_STEP,
                dt == frame_step(old(self).params, frame_dt as int),
                forall|k: int| 0 <= k < i ==> #[trigger] body_ticked(
                    old(self).bodies@[k],
                    self.bodies@[k],
                    atm,
                    g as int,
                    elapsed as int,
                    dt as int,
                    contacts@[k],
                ),
                forall|k: int| i <= k < n ==> #[trigger] self.bodies@[k] == old(self).bodies@[k],
                forall|k: int| 0 <= k < n ==> (#[trigger] old(self).bodies@[k]).wf(),
                forall|k: int| 0 <= k < i ==> (#[trigger] self.bodies@[k]).dynamics.velocity.within(MAX_BODY_SPEED as int),
            decreases n - i,
        {
            let mut b = self.bodies.remove(i);
            let ghost b0 = b;
            assert(b0 == old(self).bodies@[i as int]);
            update_physics(&mut b, &atm, g, elapsed);
            let ghost mid = b;
            let c = update_flight_dynamics(&mut b, dt);
            let ghost moved = b;
            let height = b.position.y;
            add_ground_avoidance(&mut b.dynamics, height, dt);
            let ghost pushed = b;
            let st = b.stabilizer;
            apply_flight_stabilization(&mut b.dynamics, &st);
            let speed = b.dynamics.velocity.length();
            b.data.airspeed = speed;
            b.data.vertical_speed = b.dynamics.velocity.y;
            assert(physics_updated(b0, mid, atm, g as int, elapsed as int));
            assert(step_spec(mid, moved, dt as int));
            assert(avoided(moved, pushed, dt as int));
            assert(stabilized(pushed, b));
            assert(body_ticked(b0, b, atm, g as int, elapsed as int, dt as int, c));
            assert(b.dynamics.velocity.within(MAX_BODY_SPEED as int));
            let ghost prev = self.bodies@;
            self.bodies.insert(i, b);
            contacts.push(c);
            assert forall|k: int| 0 <= k < i + 1 implies #[trigger] body_ticked(
                old(self).bodies@[k],
                self.bodies@[k],
                atm,
                g as int,
                elapsed as int,
                dt as int,
                contacts@[k],
            ) by {
                if k < i {
                    assert(self.bodies@[k] == prev[k]);
                }
            }
            assert forall|k: int| 0 <= k < i + 1 implies (#[trigger] self.bodies@[k]).dynamics.velocity.within(
                MAX_BODY_SPEED as int,
            ) by {
                if k < i {
                    assert(self.bodies@[k] == prev[k]);
                }
            }
            assert forall|k: int| i + 1 <= k < n implies #[trigger] self.bodies@[k] == old(self).bodies@[k] by {
                assert(self.bodies@[k] == prev[k - 1]);
            }
            i = i + 1;
        }
        Ok(contacts)
    }

    /// Applies one frame of controls lasting `dt` milliseconds (see
    /// `input_spec`).
    pub fn handle_input(&mut self, controls: &Controls, dt: i64) -> (r: Result<(), TickError>)
        ensures
            input_spec(*old(self), *final(self), *controls, dt as int, r),
    {
        if controls.reset {
            self.reset_all(controls.toggle_flapping);
            return Ok(());
        }
        if dt < 0 || dt > MAX_CONTROL_STEP || !all_in_range(&self.bodies) {
            return Err(TickError::OutOfRange);
        }
        if controls.toggle_running {
            self.params.is_running = !self.params.is_running;
        }
        let n = self.bodies.len();
        let mut i: usize = 0;
        while i < n
            invariant
                n == self.bodies@.len(),
                n == old(self).bodies@.len(),
                0 <= i <= n,
                0 <= dt <= MAX_CONTROL_STEP,
                !controls.reset,
                self.params == (SimulationParams {
                    is_running: old(self).params.is_running != controls.toggle_running,
                    ..old(self).params
                }),
                self.weather == old(self).weather,
                self.atmosphere == old(self).atmosphere,
                forall|k: int| 0 <= k < i ==> #[trigger] controls_spec(old(self).bodies@[k], self.bodies@[k], *controls, dt as int),
                forall|k: int| i <= k < n ==> #[trigger] self.bodies@[k] == old(self).bodies@[k],
                forall|k: int| 0 <= k < n ==> (#[trigger] old(self).bodies@[k]).wf(),
            decreases n - i,
        {
            let mut b = self.bodies.remove(i);
            assert(b == old(self).bodies@[i as int]);
            apply_controls(&mut b, controls, dt);
            let ghost prev = self.bodies@;
            self.bodies.insert(i, b);
            assert forall|k: int| 0 <= k < i + 1 implies #[trigger] controls_spec(
                old(self).bodies@[k],
                self.bodies@[k],
                *controls,
                dt as int,
            ) by {
                if k < i {
                    assert(self.bodies@[k] == prev[k]);
                }
            }
            assert forall|k: int| i + 1 <= k < n implies #[trigger] self.bodies@[k] == old(self).bodies@[k] by {
                assert(self.bodies@[k] == prev[k - 1]);
            }
            i = i + 1;
        }
        Ok(())
    }

    /// Pauses the simulation and puts every flyer back to its start, after
    /// switching its flapping if `toggle` is set.
    fn reset_all(&mut self, toggle: bool)
        ensures
            final(self).params == (SimulationParams { is_running: false, ..old(self).params }),
            final(self).weather == old(self).weather,
            final(self).atmosphere == old(self).atmosphere,
            final(self).bodies@.len() == old(self).bodies@.len(),
            forall|i: int| 0 <= i < old(self).bodies@.len() ==> #[trigger] body_after_reset(
                old(self).bodies@[i],
                final(self).bodies@[i],
                toggle,
            ),
    {
        self.params.is_running = false;
        let n = self.bodies.len();
        let mut i: usize = 0;
        while i < n
            invariant
                n == self.bodies@.len(),
                n == old(self).bodies@.len(),
                0 <= i <= n,
                self.params == (SimulationParams { is_running: false, ..old(self).params }),
                self.weather == old(self).weather,
                self.atmosphere == old(self).atmosphere,
                forall|k: int| 0 <= k < i ==> #[trigger] body_after_reset(old(self).bodies@[k], self.bodies@[k], toggle),
                forall|k: int| i <= k < n ==> #[trigger] self.bodies@[k] == old(self).bodies@[k],
            decreases n - i,
        {
            let mut b = self.bodies.remove(i);
            let ghost b0 = b;
            assert(b0 == old(self).bodies@[i as int]);
            if toggle {
                toggle_flapping(&mut b);
                let ghost m = b;
                reset_flyer(&mut b);
                assert(flapping_toggled(b0, m) && reset_spec(m, b));
            } else {
                reset_flyer(&mut b);
            }
            assert(body_after_reset(b0, b, toggle));
            let ghost prev = self.bodies@;
            self.bodies.insert(i, b);
            assert forall|k: int| 0 <= k < i + 1 implies #[trigger] body_after_reset(old(self).bodies@[k], self.bodies@[k], toggle) by {
                if k < i {
                    assert(self.bodies@[k] == prev[k]);
                }
            }
            assert forall|k: int| i + 1 <= k < n implies #[trigger] self.bodies@[k] == old(self).bodies@[k] by {
                assert(self.bodies@[k] == prev[k - 1]);
            }
            i = i + 1;
        }
    }

    /// One tick: the air density follows from the weather's temperature,
    /// pressure and humidity, the wind is drawn from the weather model at the
    /// origin with a random gust, then the simulation steps as
    /// `step_with_wind` does. A paused simulation does not change. Weather or
    /// a time outside the accepted range, or a density outside the range the
    /// force laws accept, is refused before anything is drawn; any wind that
    /// accepted weather gives lies in the accepted range.
    pub fn tick(&mut self, frame_dt: i64, elapsed: i64) -> (r: Result<Vec<GroundContact>, TickError>)
        ensures
            !old(self).params.is_running ==> same_simulation(*old(self), *final(self)) && r.is_ok() && r.unwrap()@.len() == 0,
            old(self).params.is_running && !(old(self).weather.wf() && 0 <= elapsed <= MAX_TIME) ==> same_simulation(
                *old(self),
                *final(self),
            ) && r == Err::<Vec<GroundContact>, TickError>(TickError::OutOfRange),
            old(self).params.is_running && old(self).weather.wf() && 0 <= elapsed <= MAX_TIME && !(0 <= air_density_spec(
                old(self).weather.temperature as int,
                old(self).weather.pressure as int,
                old(self).weather.humidity as int,
            ) <= MAX_DENSITY) ==> same_simulation(*old(self), *final(self)) && r == Err::<Vec<GroundContact>, TickError>(
                TickError::OutOfRange,
            ),
            old(self).params.is_running && old(self).weather.wf() && 0 <= elapsed <= MAX_TIME && 0 <= air_density_spec(
                old(self).weather.temperature as int,
                old(self).weather.pressure as int,
                old(self).weather.humidity as int,
            ) <= MAX_DENSITY ==> exists|wind: Vec3, g: GustDraw|
                g.wf() && #[trigger] wind_spec(wind, old(self).weather, Vec3 { x: 0, y: 0, z: 0 }, elapsed as int, g)
                    && wind.within(MAX_WIND as int) && tick_spec(
                    *old(self),
                    *final(self),
                    frame_dt as int,
                    elapsed as int,
                    wind,
                    air_density_spec(
                        old(self).weather.temperature as int,
                        old(self).weather.pressure as int,
                        old(self).weather.humidity as int,
                    ),
                    r,
                ),
    {
        if !self.params.is_running {
            return Ok(Vec::new());
        }
        if !self.weather.in_range() || elapsed < 0 || elapsed > MAX_TIME {
            return Err(TickError::OutOfRange);
        }
        let density = calculate_air_density(self.weather.temperature, self.weather.pressure, self.weather.humidity);
        if density < 0 || density > MAX_DENSITY {
            return Err(TickError::OutOfRange);
        }
        let wind = calculate_wind_with_turbulence(&self.weather, Vec3::zero(), elapsed);
        self.step_with_wind(frame_dt, elapsed, wind, density)
    }
}

/// A reset frame brings every flyer, whatever state it was in, back to the
/// position, motion, forces and reported data it was spawned with, with the
/// throttle off and the simulation paused.
pub proof fn reset_frame_restores_spawn_state(
    before: Simulation,
    after: Simulation,
    c: Controls,
    dt: int,
    r: Result<(), TickError>,
    spawned: FlightBody,
)
    requires
        input_spec(before, after, c, dt, r),
        c.reset,
        is_spawn_state(spawned),
    ensures
        r.is_ok(),
        !after.params.is_running,
        after.bodies@.len() == before.bodies@.len(),
        forall|i: int| 0 <= i < after.bodies@.len() ==> (#[trigger] after.bodies@[i]).position == spawned.position
            && after.bodies@[i].dynamics == spawned.dynamics && after.bodies@[i].data == spawned.data
            && after.bodies@[i].propulsion.throttle == spawned.propulsion.throttle,
{
    assert forall|i: int| 0 <= i < after.bodies@.len() implies (#[trigger] after.bodies@[i]).position == spawned.position
        && after.bodies@[i].dynamics == spawned.dynamics && after.bodies@[i].data == spawned.data
        && after.bodies@[i].propulsion.throttle == spawned.propulsion.throttle by {
        assert(body_after_reset(before.bodies@[i], after.bodies@[i], c.toggle_flapping));
        if c.toggle_flapping {
            let m = choose|m: FlightBody| #[trigger] flapping_toggled(before.bodies@[i], m) && reset_spec(m, after.bodies@[i]);
            assert(reset_spec(m, after.bodies@[i]));
        }
    }
}

} // verus!
