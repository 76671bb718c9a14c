use vstd::prelude::*;
use crate::fixed::{abs, SCALE};
use crate::vector::Vec3;
use crate::aero::{MAX_AREA, MAX_DENSITY};
use crate::drag::{MIN_ASPECT_RATIO, MIN_EFFICIENCY};
use crate::integrator::GROUND_LEVEL;
use crate::trig::MAX_SINE_ANGLE;
use crate::flapping::FlappingWing;
use crate::thrust::MAX_THRUST_POWER;
use crate::weather::MAX_POSITION;
use crate::stabilization::FlightStabilizer;

verus! {

/// Largest size of a wing's base lift coefficient (5) that the simulation
/// accepts.
pub const MAX_BASE_LIFT: i64 = 5_000;

/// Largest size of a wing's base drag coefficient (10) that the simulation
/// accepts.
pub const MAX_BASE_DRAG: i64 = 10_000;

/// Largest span (100 m) of a simulated wing.
pub const MAX_WING_SPAN: i64 = 100_000;

/// Largest number of wings on one flyer.
pub const MAX_WINGS: usize = 64;

/// Smallest and largest mass (1 kg, 10 t) of a flyer.
pub const MIN_MASS: i64 = 1_000;
pub const MAX_MASS: i64 = 10_000_000;

/// Largest velocity component (60 m/s) of a flyer for which forces are
/// computed.
pub const MAX_BODY_SPEED: i64 = 60_000;

/// Largest wind component (40 m/s) for which forces are computed.
pub const MAX_WIND: i64 = 40_000;

/// Largest acceleration component a flyer can hold.
pub const MAX_ACCELERATION: i64 = 500_000_000_000_000_000;

/// Largest gravity (100 m/s^2) that the simulation accepts.
pub const MAX_GRAVITY: i64 = 100_000;

/// Mass of a flyer, in grams.
#[derive(Clone, Copy, Debug, PartialEq, Eq, Structural)]
pub struct Flyer {
    pub mass: i64,
}

/// A propeller: power, unit direction (thousandths), efficiency and
/// throttle (thousandths), diameter in millimetres.
#[derive(Clone, Copy, Debug, PartialEq, Eq, Structural)]
pub struct Propulsion {
    pub thrust_power: i64,
    pub thrust_direction: Vec3,
    pub efficiency: i64,
    pub propeller_diameter: i64,
    pub throttle: i64,
}

impl Propulsion {
    pub open spec fn wf(self) -> bool {
        &&& 0 <= self.thrust_power <= MAX_THRUST_POWER
        &&& self.thrust_direction.within(SCALE as int)
        &&& 0 <= self.efficiency <= SCALE
        &&& 0 <= self.throttle <= SCALE
    }
}

/// A wing attached to a flyer, with its flapping motion.
#[derive(Clone, Copy, Debug, PartialEq, Eq, Structural)]
pub struct Wing {
    pub span: i64,
    pub chord: i64,
    pub area: i64,
    pub aspect_ratio: i64,
    pub angle_of_attack: i64,
    pub lift_coefficient_base: i64,
    pub drag_coefficient_base: i64,
    pub efficiency_factor: i64,
    pub flapping: FlappingWing,
}

impl Wing {
    pub open spec fn wf(self) -> bool {
        &&& 0 < self.span <= MAX_WING_SPAN
        &&& 0 <= self.area <= MAX_AREA
        &&& MIN_ASPECT_RATIO <= self.aspect_ratio <= 1_000_000_000
        &&& MIN_EFFICIENCY <= self.efficiency_factor <= SCALE
        &&& abs(self.angle_of_attack as int) <= MAX_SINE_ANGLE
        &&& abs(self.lift_coefficient_base as int) <= MAX_BASE_LIFT
        &&& abs(self.drag_coefficient_base as int) <= MAX_BASE_DRAG
        &&& self.flapping.wf()
    }
}

/// The forces on a flyer in the last tick, in millinewtons.
#[derive(Clone, Copy, Debug, PartialEq, Eq, Structural)]
pub struct Forces {
    pub lift: Vec3,
    pub drag: Vec3,
    pub weight: Vec3,
    pub thrust: Vec3,
    pub total: Vec3,
}

impl Forces {
    pub open spec fn is_zero(self) -> bool {
        self.lift.is_zero() && self.drag.is_zero() && self.weight.is_zero() && self.thrust.is_zero()
            && self.total.is_zero()
    }
}

impl Default for Forces {
    fn default() -> (r: Forces)
        ensures
            r.is_zero(),
    {
        Forces { lift: Vec3::zero(), drag: Vec3::zero(), weight: Vec3::zero(), thrust: Vec3::zero(), total: Vec3::zero() }
    }
}

/// Motion of a flyer.
#[derive(Clone, Copy, Debug, PartialEq, Eq, Structural)]
pub struct FlightDynamics {
    pub velocity: Vec3,
    pub acceleration: Vec3,
    pub angular_velocity: Vec3,
    pub forces: Forces,
}

/// What is reported of a flyer after each tick.
#[derive(Clone, Copy, Debug, PartialEq, Eq, Structural)]
pub struct FlightData {
    pub altitude: i64,
    pub airspeed: i64,
    pub vertical_speed: i64,
    pub flight_time: i64,
    pub distance_traveled: i64,
}

/// The air around the flyers: density in g/m^3, wind in mm/s, temperature in
/// millidegrees Celsius.
#[derive(Clone, Copy, Debug, PartialEq, Eq, Structural)]
pub struct Atmosphere {
    pub air_density: i64,
    pub wind_velocity: Vec3,
    pub turbulence_intensity: i64,
    pub temperature: i64,
}

impl Atmosphere {
    pub open spec fn wf(self) -> bool {
        &&& 0 <= self.air_density <= MAX_DENSITY
        &&& self.wind_velocity.within(MAX_WIND as int)
    }
}

/// Whether the flyer's wing is stalled, and how badly (thousandths).
#[derive(Clone, Copy, Debug, PartialEq, Eq, Structural)]
pub struct StallIndicator {
    pub is_stalled: bool,
    pub stall_severity: i64,
}

/// Settings of the whole simulation.
#[derive(Clone, Copy, Debug, PartialEq, Eq, Structural)]
pub struct SimulationParams {
    pub gravity: i64,
    pub air_density: i64,
    pub wind_velocity: Vec3,
    /// Multiplier of the frame time, in thousandths.
    pub simulation_speed: i64,
    pub is_running: bool,
}

impl Default for SimulationParams {
    /// Earth's gravity, sea-level air, no wind, real time, paused.
    fn default() -> (r: SimulationParams)
        ensures
            r.gravity == 9810,
            r.air_density == 1225,
            r.wind_velocity.is_zero(),
            r.simulation_speed == SCALE,
            !r.is_running,
    {
        SimulationParams { gravity: 9810, air_density: 1225, wind_velocity: Vec3::zero(), simulation_speed: SCALE, is_running: false }
    }
}

/// One simulated flyer: its body, propulsion, wings and reported state.
#[derive(Clone, Debug)]
pub struct FlightBody {
    pub flyer: Flyer,
    pub position: Vec3,
    pub dynamics: FlightDynamics,
    pub data: FlightData,
    pub propulsion: Propulsion,
    pub wings: Vec<Wing>,
    pub stall: StallIndicator,
    pub stabilizer: FlightStabilizer,
}

impl FlightBody {
    /// The state lies in the range for which forces and motion are computed.
    pub open spec fn wf(&self) -> bool {
        &&& MIN_MASS <= self.flyer.mass <= MAX_MASS
        &&& self.position.within(MAX_POSITION as int)
        &&& self.position.y >= GROUND_LEVEL
        &&& self.dynamics.velocity.within(MAX_BODY_SPEED as int)
        &&& self.dynamics.acceleration.within(MAX_ACCELERATION as int)
        &&& self.dynamics.angular_velocity.within(MAX_POSITION as int)
        &&& self.stabilizer.wf()
        &&& self.stabilizer.max_velocity <= MAX_BODY_SPEED
        &&& self.propulsion.wf()
        &&& self.wings@.len() <= MAX_WINGS
        &&& forall|i: int| 0 <= i < self.wings@.len() ==> (#[trigger] self.wings@[i]).wf()
        &&& 0 <= self.data.flight_time <= MAX_POSITION
        &&& 0 <= self.data.distance_traveled <= MAX_POSITION
    }
}

} // verus!
