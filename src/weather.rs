use vstd::prelude::*;
use rand::Rng;
use crate::fixed::{abs, div_tz, mul_fx, lemma_div_tz_bound, SCALE};
use crate::vector::{Vec3, scale_component};
use crate::trig::{periodic_sine, periodic_sine_spec, cosine, cosine_spec};
use crate::flapping::MAX_TIME;
use crate::components::MAX_WIND;
use crate::exponential::{exp_milli, exp_spec};

verus! {

/// Largest position component (a billion kilometres) that the wind model
/// accepts.
pub const MAX_POSITION: i64 = 1_000_000_000_000_000;

/// Largest base wind component, turbulence intensity and gust strength that
/// the wind model accepts.
pub const MAX_WEATHER_SPEED: i64 = 1_000_000_000;

/// Weather that drives the atmosphere: wind in millimetres per second, the
/// turbulence intensity and the chance of a gust in each tick in
/// thousandths, temperature in millidegrees Celsius, pressure in
/// millipascal, relative humidity in thousandths.
#[derive(Clone, Copy, Debug, PartialEq, Eq, Structural)]
pub struct WeatherParams {
    pub base_wind: Vec3,
    pub turbulence_intensity: i64,
    pub gust_frequency: i64,
    pub gust_strength: i64,
    pub temperature: i64,
    pub pressure: i64,
    pub humidity: i64,
}

impl WeatherParams {
    pub open spec fn wf(self) -> bool {
        &&& self.base_wind.within(MAX_WEATHER_SPEED as int)
        &&& 0 <= self.turbulence_intensity <= MAX_WEATHER_SPEED
        &&& 0 <= self.gust_frequency <= SCALE
        &&& 0 <= self.gust_strength <= MAX_WEATHER_SPEED
        &&& air_inputs_ok(self.temperature as int, self.pressure as int, self.humidity as int)
        &&& abs(self.base_wind.x as int) + 10 * self.turbulence_intensity + self.gust_strength <= MAX_WIND
        &&& abs(self.base_wind.y as int) + 10 * self.turbulence_intensity + self.gust_strength <= MAX_WIND
        &&& abs(self.base_wind.z as int) + 10 * self.turbulence_intensity + self.gust_strength <= MAX_WIND
    }
}

impl WeatherParams {
    /// Whether the weather lies in the range the model accepts.
    pub fn in_range(&self) -> (r: bool)
        ensures
            r == self.wf(),
    {
        let w = &self.base_wind;
        let basic = -MAX_WEATHER_SPEED <= w.x && w.x <= MAX_WEATHER_SPEED && -MAX_WEATHER_SPEED <= w.y && w.y
            <= MAX_WEATHER_SPEED && -MAX_WEATHER_SPEED <= w.z && w.z <= MAX_WEATHER_SPEED && 0 <= self.turbulence_intensity
            && self.turbulence_intensity <= MAX_WEATHER_SPEED && 0 <= self.gust_frequency && self.gust_frequency <= SCALE
            && 0 <= self.gust_strength && self.gust_strength <= MAX_WEATHER_SPEED && MIN_TEMPERATURE <= self.temperature
            && self.temperature <= MAX_TEMPERATURE && 0 <= self.pressure && self.pressure <= MAX_PRESSURE && 0
            <= self.humidity && self.humidity <= SCALE;
        if !basic {
            return false;
        }
        let spread = 10 * self.turbulence_intensity + self.gust_strength;
        let ax: i64 = if w.x < 0 { -w.x } else { w.x };
        let ay: i64 = if w.y < 0 { -w.y } else { w.y };
        let az: i64 = if w.z < 0 { -w.z } else { w.z };
        ax + spread <= MAX_WIND && ay + spread <= MAX_WIND && az + spread <= MAX_WIND
    }
}

/// Coldest and warmest air (-40 to 60 degrees Celsius) for which the density
/// law is used.
pub const MIN_TEMPERATURE: i64 = -40_000;
pub const MAX_TEMPERATURE: i64 = 60_000;

/// Largest pressure (1 MPa) for which the density law is used.
pub const MAX_PRESSURE: i64 = 1_000_000_000;

pub open spec fn air_inputs_ok(temperature: int, pressure: int, humidity: int) -> bool {
    &&& MIN_TEMPERATURE <= temperature <= MAX_TEMPERATURE
    &&& 0 <= pressure <= MAX_PRESSURE
    &&& 0 <= humidity <= SCALE
}

/// Saturation pressure of water vapour, in millipascal:
/// `611 Pa * e^(17.502 T / (240.97 + T))`.
pub open spec fn saturation_pressure(temperature: int) -> int {
    611 * exp_spec(div_tz(17_502 * temperature, 240_970 + temperature))
}

/// Air density in g/m^3: the partial pressures of dry air and water vapour,
/// each over its gas constant (287.05 and 461.495 J/(kg K)) and the absolute
/// temperature.
pub open spec fn air_density_spec(temperature: int, pressure: int, humidity: int) -> int {
    let vapor = mul_fx(humidity, saturation_pressure(temperature));
    let dry = pressure - vapor;
    let kelvin = temperature + 273_150;
    div_tz(100_000 * dry, 28_705 * kelvin) + div_tz(1_000_000 * vapor, 461_495 * kelvin)
}

/// Air density, in g/m^3, from temperature (millidegrees Celsius), pressure
/// (millipascal) and relative humidity (thousandths).
pub fn calculate_air_density(temperature: i64, pressure: i64, humidity: i64) -> (r: i64)
    requires
        air_inputs_ok(temperature as int, pressure as int, humidity as int),
    ensures
        r == air_density_spec(temperature as int, pressure as int, humidity as int),
{
    let t = temperature;
    proof {
        assert(abs(17_502 * t) <= 4000 * (240_970 + t)) by (nonlinear_arith)
            requires
                -40_000 <= t <= 60_000,
        ;
        lemma_div_tz_bound(17_502 * t, 240_970 + t, 4000);
    }
    let exponent = crate::fixed::div_toward_zero(17_502 * (t as i128), 240_970 + (t as i128));
    let e = exp_milli(exponent as i64);
    let saturation = 611 * e;
    proof {
        assert(abs(humidity * saturation) <= 168_025_000 * 1000) by (nonlinear_arith)
            requires
                0 <= humidity <= 1000,
                abs(saturation as int) <= 611 * 275_000,
        ;
        lemma_div_tz_bound(humidity * saturation, 1000, 168_025_000);
    }
    let vapor = scale_component(humidity, saturation);
    let dry = pressure - vapor;
    let kelvin = t + 273_150;
    proof {
        assert(abs(100_000 * dry) <= 120_000_000_000_000 * (28_705 * kelvin)) by (nonlinear_arith)
            requires
                kelvin >= 233_150,
                abs(dry as int) <= 1_200_000_000,
        ;
        assert(abs(1_000_000 * vapor) <= 200_000_000_000_000 * (461_495 * kelvin)) by (nonlinear_arith)
            requires
                kelvin >= 233_150,
                abs(vapor as int) <= 200_000_000,
        ;
        lemma_div_tz_bound(100_000 * dry, 28_705 * kelvin, 120_000_000_000_000);
        lemma_div_tz_bound(1_000_000 * vapor, 461_495 * kelvin, 200_000_000_000_000);
    }
    let d = crate::fixed::div_toward_zero(100_000 * (dry as i128), 28_705 * (kelvin as i128));
    let w = crate::fixed::div_toward_zero(1_000_000 * (vapor as i128), 461_495 * (kelvin as i128));
    (d + w) as i64
}

impl Default for WeatherParams {
    /// A light breeze (5, 0, 2) m/s, mild turbulence, an occasional 2 m/s gust,
    /// 15 degrees, standard pressure, 50% humidity.
    fn default() -> (r: WeatherParams)
        ensures
            r.base_wind == (Vec3 { x: 5000, y: 0, z: 2000 }),
            r.turbulence_intensity == 100,
            r.gust_frequency == 100,
            r.gust_strength == 2000,
            r.temperature == 15_000,
            r.pressure == 101_325_000,
            r.humidity == 500,
    {
        WeatherParams {
            base_wind: Vec3 { x: 5000, y: 0, z: 2000 },
            turbulence_intensity: 100,
            gust_frequency: 100,
            gust_strength: 2000,
            temperature: 15_000,
            pressure: 101_325_000,
            humidity: 500,
        }
    }
}

/// The random numbers behind one gust: `chance` decides whether a gust blows,
/// the others give its direction (in thousandths of the gust strength).
#[derive(Clone, Copy, Debug, PartialEq, Eq, Structural)]
pub struct GustDraw {
    pub chance: i64,
    pub x: i64,
    pub y: i64,
    pub z: i64,
}

impl GustDraw {
    /// The draws lie in their ranges: `0 <= chance < 1000`, horizontal
    /// components in `-1000..1000`, the vertical one in `-500..500`.
    pub open spec fn wf(self) -> bool {
        &&& 0 <= self.chance < SCALE
        &&& -SCALE <= self.x < SCALE
        &&& -500 <= self.y < 500
        &&& -SCALE <= self.z < SCALE
    }
}

/// Turbulence in one direction: `10 * intensity * wave`, where `wave` is the
/// sine or cosine of the position and time.
pub open spec fn turbulence_component(wave: int, intensity: int) -> int {
    mul_fx(mul_fx(wave, intensity), 10_000)
}

/// Phase of the turbulence wave in one direction: `pos * k + t * w`, with the
/// factors `k` and `w` in thousandths.
pub open spec fn wave_phase(pos: int, k: int, t: int, w: int) -> int {
    mul_fx(pos, k) + mul_fx(t, w)
}

/// Gust in one direction for a draw `d`, if the chance draw lets a gust blow.
pub open spec fn gust_component(weather: WeatherParams, draw: GustDraw, d: int) -> int {
    if draw.chance < weather.gust_frequency {
        mul_fx(d, weather.gust_strength as int)
    } else {
        0
    }
}

/// Wind at `pos` and time `t` for the gust draw `g`: the base wind, plus
/// sinusoidal turbulence, plus the gust.
pub open spec fn wind_spec(r: Vec3, weather: WeatherParams, pos: Vec3, t: int, g: GustDraw) -> bool {
    let i = weather.turbulence_intensity as int;
    &&& r.x == weather.base_wind.x + turbulence_component(periodic_sine_spec(wave_phase(pos.x as int, 100, t, 500)), i)
        + gust_component(weather, g, g.x as int)
    &&& r.y == weather.base_wind.y + turbulence_component(cosine_spec(wave_phase(pos.y as int, 150, t, 700)), i)
        + gust_component(weather, g, g.y as int)
    &&& r.z == weather.base_wind.z + turbulence_component(periodic_sine_spec(wave_phase(pos.z as int, 120, t, 600)), i)
        + gust_component(weather, g, g.z as int)
}

/// The wind departs from the base wind by at most ten times the turbulence
/// intensity plus the gust strength (half of it vertically).
pub open spec fn wind_within_gust_bounds(r: Vec3, weather: WeatherParams) -> bool {
    let i = weather.turbulence_intensity as int;
    let s = weather.gust_strength as int;
    &&& abs(r.x - weather.base_wind.x) <= 10 * i + s
    &&& 2 * abs(r.y - weather.base_wind.y) <= 20 * i + s
    &&& abs(r.z - weather.base_wind.z) <= 10 * i + s
}

/// Relies on rand::thread_rng and rand::Rng::gen_range: a number drawn from
/// `low..high`, which panics only on an empty range.
#[verifier::external_body]
fn random_in_range(low: i64, high: i64) -> (r: i64)
    requires
        low < high,
    ensures
        low <= r < high,
{
    rand::thread_rng().gen_range(low..high)
}

fn wave_phase_of(pos: i64, k: i64, t: i64, w: i64) -> (r: i64)
    requires
        abs(pos as int) <= MAX_POSITION,
        0 <= k <= 1000,
        0 <= t <= MAX_TIME,
        0 <= w <= 1000,
    ensures
        r == wave_phase(pos as int, k as int, t as int, w as int),
        abs(r as int) <= 2 * MAX_POSITION,
{
    proof {
        assert(abs(pos * k) <= MAX_POSITION * 1000) by (nonlinear_arith)
            requires
                abs(pos as int) <= 1_000_000_000_000_000,
                0 <= k <= 1000,
        ;
        lemma_div_tz_bound(pos * k, 1000, MAX_POSITION as int);
        assert(abs(t * w) <= MAX_POSITION * 1000) by (nonlinear_arith)
            requires
                0 <= t <= 1_000_000_000_000,
                0 <= w <= 1000,
        ;
        lemma_div_tz_bound(t * w, 1000, MAX_POSITION as int);
    }
    scale_component(pos, k) + scale_component(t, w)
}

fn turbulence_of(wave: i64, intensity: i64) -> (r: i64)
    requires
        -1000 <= wave <= 1000,
        0 <= intensity <= MAX_WEATHER_SPEED,
    ensures
        r == turbulence_component(wave as int, intensity as int),
        abs(r as int) <= 10 * intensity,
{
    proof {
        assert(abs(wave * intensity) <= intensity * 1000) by (nonlinear_arith)
            requires
                -1000 <= wave <= 1000,
                0 <= intensity,
        ;
        lemma_div_tz_bound(wave * intensity, 1000, intensity as int);
        let m = mul_fx(wave as int, intensity as int);
        assert(abs(m * 10_000) <= 10 * intensity * 1000) by (nonlinear_arith)
            requires
                abs(m) <= intensity,
        ;
        lemma_div_tz_bound(m * 10_000, 1000, 10 * intensity);
    }
    scale_component(scale_component(wave, intensity), 10_000)
}

fn gust_of(weather: &WeatherParams, draw: &GustDraw, d: i64) -> (r: i64)
    requires
        weather.wf(),
        draw.wf(),
        abs(d as int) <= SCALE,
    ensures
        r == gust_component(*weather, *draw, d as int),
        abs(r as int) <= MAX_WEATHER_SPEED,
        abs(r as int) * 1000 <= abs(d as int) * weather.gust_strength,
{
    if draw.chance < weather.gust_frequency {
        proof {
            assert(abs(d * weather.gust_strength) <= MAX_WEATHER_SPEED * 1000) by (nonlinear_arith)
                requires
                    abs(d as int) <= 1000,
                    0 <= weather.gust_strength <= 1_000_000_000,
            ;
            lemma_div_tz_bound(d * weather.gust_strength, 1000, MAX_WEATHER_SPEED as int);
            let n = d * weather.gust_strength;
            assert(abs(n) == abs(d as int) * weather.gust_strength) by (nonlinear_arith)
                requires
                    n == d * weather.gust_strength,
                    weather.gust_strength >= 0,
            ;
            assert(abs(div_tz(n, 1000)) * 1000 <= abs(n)) by (nonlinear_arith)
                requires
                    n >= 0 ==> div_tz(n, 1000) == n / 1000,
                    n < 0 ==> div_tz(n, 1000) == -((-n) / 1000),
            ;
        }
        scale_component(d, weather.gust_strength)
    } else {
        0
    }
}

/// Wind at `position` and `time` for the given gust draw.
pub fn wind_from_draw(weather: &WeatherParams, position: Vec3, time: i64, draw: &GustDraw) -> (r: Vec3)
    requires
        weather.wf(),
        draw.wf(),
        position.within(MAX_POSITION as int),
        0 <= time <= MAX_TIME,
    ensures
        wind_spec(r, *weather, position, time as int, *draw),
        r.within(22 * MAX_WEATHER_SPEED),
        wind_within_gust_bounds(r, *weather),
{
    let i = weather.turbulence_intensity;
    let tx = turbulence_of(periodic_sine(wave_phase_of(position.x, 100, time, 500)), i);
    let ty = turbulence_of(cosine(wave_phase_of(position.y, 150, time, 700)), i);
    let tz = turbulence_of(periodic_sine(wave_phase_of(position.z, 120, time, 600)), i);
    let gx = gust_of(weather, draw, draw.x);
    let gy = gust_of(weather, draw, draw.y);
    let gz = gust_of(weather, draw, draw.z);
    proof {
        let st = weather.gust_strength as int;
        assert(abs(gx as int) <= st) by (nonlinear_arith)
            requires
                abs(gx as int) * 1000 <= abs(draw.x as int) * st,
                abs(draw.x as int) <= 1000,
                st >= 0,
        ;
        assert(2 * abs(gy as int) <= st) by (nonlinear_arith)
            requires
                abs(gy as int) * 1000 <= abs(draw.y as int) * st,
                abs(draw.y as int) <= 500,
                st >= 0,
        ;
        assert(abs(gz as int) <= st) by (nonlinear_arith)
            requires
                abs(gz as int) * 1000 <= abs(draw.z as int) * st,
                abs(draw.z as int) <= 1000,
                st >= 0,
        ;
    }
    Vec3 { x: weather.base_wind.x + tx + gx, y: weather.base_wind.y + ty + gy, z: weather.base_wind.z + tz + gz }
}

/// Draws the random numbers of one gust; the direction is drawn only when a
/// gust blows.
pub fn draw_gust(weather: &WeatherParams) -> (r: GustDraw)
    requires
        weather.wf(),
    ensures
        r.wf(),
        r.chance >= weather.gust_frequency ==> r.x == 0 && r.y == 0 && r.z == 0,
{
    let chance = random_in_range(0, SCALE);
    if chance < weather.gust_frequency {
        let x = random_in_range(-SCALE, SCALE);
        let y = random_in_range(-500, 500);
        let z = random_in_range(-SCALE, SCALE);
        GustDraw { chance, x, y, z }
    } else {
        GustDraw { chance, x: 0, y: 0, z: 0 }
    }
}

/// Wind at `position` and `time`, with a gust drawn at random.
pub fn calculate_wind_with_turbulence(weather: &WeatherParams, position: Vec3, time: i64) -> (r: Vec3)
    requires
        weather.wf(),
        position.within(MAX_POSITION as int),
        0 <= time <= MAX_TIME,
    ensures
        exists|g: GustDraw| g.wf() && wind_spec(r, *weather, position, time as int, g),
        r.within(22 * MAX_WEATHER_SPEED),
        wind_within_gust_bounds(r, *weather),
        r.within(MAX_WIND as int),
{
    let g = draw_gust(weather);
    wind_from_draw(weather, position, time, &g)
}

/// Density altitude: the pressure altitude corrected by 37.2 m for each
/// degree above the standard temperature `15 - 0.00198 * altitude`.
pub fn calculate_density_altitude(pressure_altitude: i64, temperature: i64) -> (r: i64)
    requires
        abs(pressure_altitude as int) <= 1_000_000_000_000,
        abs(temperature as int) <= 1_000_000_000,
    ensures
        r == pressure_altitude + div_tz(37_200 * (temperature - (15_000 - div_tz(pressure_altitude * 198, 100_000))), 1000),
{
    proof {
        lemma_div_tz_bound(pressure_altitude * 198, 100_000, 2_000_000_000);
        let st = 15_000 - div_tz(pressure_altitude * 198, 100_000);
        lemma_div_tz_bound(37_200 * (temperature - st), 1000, 200_000_000_000);
    }
    let standard = 15_000 - (crate::fixed::div_toward_zero((pressure_altitude as i128) * 198, 100_000) as i64);
    let correction = crate::fixed::div_toward_zero(37_200 * ((temperature - standard) as i128), 1000) as i64;
    pressure_altitude + correction
}

/// Airspeed: the flyer's velocity relative to the moving air.
pub fn apply_wind_to_velocity(aircraft_velocity: Vec3, wind_velocity: Vec3) -> (r: Vec3)
    requires
        aircraft_velocity.within(MAX_POSITION as int),
        wind_velocity.within(MAX_POSITION as int),
    ensures
        r.x == aircraft_velocity.x - wind_velocity.x,
        r.y == aircraft_velocity.y - wind_velocity.y,
        r.z == aircraft_velocity.z - wind_velocity.z,
{
    aircraft_velocity.sub(wind_velocity)
}

} // verus!
