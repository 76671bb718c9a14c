use vstd::prelude::*;
use crate::fixed::{abs, div_tz, mul_fx, lemma_div_tz_bound, SCALE};
use crate::vector::{Vec3, scale_component};
use crate::trig::{cosine, cosine_spec, FULL_TURN, MAX_SINE_ANGLE};
use crate::aero::{force_magnitude, force_magnitude_of, MAX_DENSITY, MAX_AREA};

verus! {

/// Largest flapping frequency (6 Hz) that the flapping law accepts.
pub const MAX_FLAP_FREQUENCY: i64 = 6_000;

/// Largest time (in milliseconds, about 30 years) that the flapping law
/// accepts.
pub const MAX_TIME: i64 = 1_000_000_000_000;

/// Thrust coefficient of a power stroke.
pub const FLAP_THRUST_COEFFICIENT: i64 = 800;

/// Flapping motion of a wing: frequency in millihertz, angles in
/// milliradians, the power-stroke share of a cycle in thousandths.
#[derive(Clone, Copy, Debug, PartialEq, Eq, Structural)]
pub struct FlappingWing {
    pub frequency: i64,
    pub amplitude: i64,
    pub phase_offset: i64,
    pub power_stroke_ratio: i64,
    pub twist_amplitude: i64,
    pub is_active: bool,
}

/// The two halves of a flapping cycle.
#[derive(Clone, Copy, Debug, PartialEq, Eq, Structural)]
pub enum StrokePhase {
    PowerStroke,
    RecoveryStroke,
}

impl FlappingWing {
    /// The parameters lie in the range that the flapping law accepts.
    pub open spec fn wf(self) -> bool {
        &&& 0 <= self.frequency <= MAX_FLAP_FREQUENCY
        &&& 0 <= self.amplitude <= MAX_SINE_ANGLE
        &&& 0 <= self.phase_offset <= FULL_TURN
        &&& 0 <= self.power_stroke_ratio <= SCALE
    }

    /// Cycles flapped by time `t`, in thousandths of a cycle.
    pub open spec fn phase_cycles(self, t: int) -> int {
        mul_fx(t, self.frequency as int) + self.phase_offset * SCALE / (FULL_TURN as int)
    }

    /// Position within the current cycle, in thousandths of a cycle.
    pub open spec fn cycle_position(self, t: int) -> int {
        self.phase_cycles(t) % (SCALE as int)
    }

    /// The stroke under way at time `t`: the power stroke fills the first
    /// `power_stroke_ratio` of each cycle.
    pub open spec fn phase_at(self, t: int) -> StrokePhase {
        if self.cycle_position(t) < self.power_stroke_ratio {
            StrokePhase::PowerStroke
        } else {
            StrokePhase::RecoveryStroke
        }
    }

    /// Flapping speed of the wing at time `t`: `amplitude * 2 pi f * cos(phase)`.
    pub open spec fn flap_speed(self, t: int) -> int {
        let angle = div_tz(self.cycle_position(t) * FULL_TURN, SCALE as int);
        mul_fx(mul_fx(mul_fx(self.amplitude as int, self.frequency as int), FULL_TURN as int), cosine_spec(angle))
    }

    /// Thrust of the wing at time `t`.
    pub open spec fn thrust_at(self, area: int, rho: int, t: int) -> Vec3 {
        if !self.is_active || self.phase_at(t) == StrokePhase::RecoveryStroke {
            Vec3 { x: 0, y: 0, z: 0 }
        } else {
            let m = force_magnitude(rho, Vec3 { x: self.flap_speed(t) as i64, y: 0, z: 0 }, area, FLAP_THRUST_COEFFICIENT as int);
            Vec3 { x: mul_fx(m, 700) as i64, y: mul_fx(m, 300) as i64, z: 0 }
        }
    }

    /// Position within the current cycle at time `t`.
    pub fn cycle_position_at(&self, time: i64) -> (r: i64)
        requires
            self.wf(),
            0 <= time <= MAX_TIME,
        ensures
            r == self.cycle_position(time as int),
            0 <= r < SCALE,
    {
        proof {
            assert(0 <= time * self.frequency <= 6_000_000_000_000_000) by (nonlinear_arith)
                requires
                    0 <= time <= 1_000_000_000_000,
                    0 <= self.frequency <= 6000,
            ;
            lemma_div_tz_bound(time * self.frequency, 1000, 6_000_000_000_000_000);
            assert(0 <= self.phase_offset * 1000 / 6283 <= 1000) by (nonlinear_arith)
                requires
                    0 <= self.phase_offset <= 6283,
            ;
        }
        let cycles = scale_component(time, self.frequency) + self.phase_offset * SCALE / FULL_TURN;
        cycles % SCALE
    }

    /// The stroke under way at time `t`.
    pub fn stroke_phase(&self, time: i64) -> (r: StrokePhase)
        requires
            self.wf(),
            0 <= time <= MAX_TIME,
        ensures
            r == self.phase_at(time as int),
    {
        if self.cycle_position_at(time) < self.power_stroke_ratio {
            StrokePhase::PowerStroke
        } else {
            StrokePhase::RecoveryStroke
        }
    }
}

impl Default for FlappingWing {
    /// Two beats a second through 45 degrees, a power stroke of 30% of the
    /// cycle, 20 degrees of twist; not flapping.
    fn default() -> (r: FlappingWing)
        ensures
            r.frequency == 2000,
            r.amplitude == 785,
            r.phase_offset == 0,
            r.power_stroke_ratio == 300,
            r.twist_amplitude == 349,
            !r.is_active,
    {
        FlappingWing {
            frequency: 2000,
            amplitude: 785,
            phase_offset: 0,
            power_stroke_ratio: 300,
            twist_amplitude: 349,
            is_active: false,
        }
    }
}

/// Thrust of a flapping wing: during the power stroke, a force
/// `0.8 * rho * speed^2 / 2 * area` from the flapping speed, pointing mostly
/// forward and partly up; nothing during the recovery stroke or when the wing
/// does not flap.
pub fn calculate_flapping_thrust(flapping: &FlappingWing, wing_area: i64, air_density: i64, time: i64) -> (r: Vec3)
    requires
        flapping.wf(),
        0 <= wing_area <= MAX_AREA,
        0 <= air_density <= MAX_DENSITY,
        0 <= time <= MAX_TIME,
    ensures
        r == flapping.thrust_at(wing_area as int, air_density as int, time as int),
        r.within(150_000_000_000),
        0 <= r.x && 0 <= r.y && r.z == 0,
{
    if !flapping.is_active {
        return Vec3::zero();
    }
    let pos = flapping.cycle_position_at(time);
    if pos >= flapping.power_stroke_ratio {
        return Vec3::zero();
    }
    proof {
        assert(0 <= pos * 6283 <= 6_283_000) by (nonlinear_arith)
            requires
                0 <= pos < 1000,
        ;
        lemma_div_tz_bound(pos * 6283, 1000, 6283);
    }
    let angle = scale_component(pos, FULL_TURN);
    let c = cosine(angle);
    let a = flapping.amplitude;
    let f = flapping.frequency;
    proof {
        assert(0 <= a * f <= 9_426 * 1000) by (nonlinear_arith)
            requires
                0 <= a <= 1571,
                0 <= f <= 6000,
        ;
        lemma_div_tz_bound(a * f, 1000, 9_426);
    }
    let af = scale_component(a, f);
    proof {
        assert(0 <= af * 6283 <= 59_224 * 1000) by (nonlinear_arith)
            requires
                0 <= af <= 9_426,
        ;
        lemma_div_tz_bound(af * 6283, 1000, 59_224);
    }
    let w = scale_component(af, FULL_TURN);
    proof {
        assert(abs(w * c) <= 93_041 * 1000) by (nonlinear_arith)
            requires
                0 <= w <= 59_224,
                abs(c as int) <= 1571,
        ;
        lemma_div_tz_bound(w * c, 1000, 93_041);
    }
    let speed = scale_component(w, c);
    let v = Vec3 { x: speed, y: 0, z: 0 };
    let m = force_magnitude_of(air_density, v, wing_area, FLAP_THRUST_COEFFICIENT);
    proof {
        assert(0 <= m * 700 <= 150_000_000_000 * 1000) by (nonlinear_arith)
            requires
                0 <= m <= 120_000_000_000,
        ;
        assert(0 <= m * 300 <= 150_000_000_000 * 1000) by (nonlinear_arith)
            requires
                0 <= m <= 120_000_000_000,
        ;
        lemma_div_tz_bound(m * 700, 1000, 150_000_000_000);
        lemma_div_tz_bound(m * 300, 1000, 150_000_000_000);
    }
    Vec3 { x: scale_component(m, 700), y: scale_component(m, 300), z: 0 }
}

/// Pose of a flapping wing's joints at one instant, in milliradians.
#[derive(Clone, Copy, Debug, PartialEq, Eq, Structural)]
pub struct WingPose {
    pub flap_angle: i64,
    pub twist_angle: i64,
    pub shoulder_angle: i64,
    pub elbow_angle: i64,
    pub wrist_angle: i64,
}

/// The joints of a flapping wing.
#[derive(Clone, Copy, Debug, PartialEq, Eq, Structural)]
pub enum WingJointType {
    Shoulder,
    Elbow,
    Wrist,
}

impl WingPose {
    /// Angle of one joint in this pose.
    pub fn joint_angle(&self, joint: WingJointType) -> (r: i64)
        ensures
            joint == WingJointType::Shoulder ==> r == self.shoulder_angle,
            joint == WingJointType::Elbow ==> r == self.elbow_angle,
            joint == WingJointType::Wrist ==> r == self.wrist_angle,
    {
        match joint {
            WingJointType::Shoulder => self.shoulder_angle,
            WingJointType::Elbow => self.elbow_angle,
            WingJointType::Wrist => self.wrist_angle,
        }
    }
}

/// Progress through the current stroke, from 0 to 1 (thousandths).
pub open spec fn stroke_progress(w: FlappingWing, t: int) -> int {
    let u = w.cycle_position(t);
    let r = w.power_stroke_ratio as int;
    if u < r {
        u * SCALE / r
    } else {
        (u - r) * SCALE / (SCALE - r)
    }
}

/// Stroke position from -1 to 1 (thousandths): rising through the power
/// stroke, falling back through the recovery stroke.
pub open spec fn stroke_level(w: FlappingWing, t: int) -> int {
    let p = stroke_progress(w, t);
    if w.phase_at(t) == StrokePhase::PowerStroke {
        2 * p - SCALE
    } else {
        SCALE - 2 * p
    }
}

/// The pose of the wing at time `t`: the flap follows the stroke level; the
/// wing twists forward in the power stroke and half as much back in the
/// recovery stroke; shoulder, elbow and wrist follow.
pub open spec fn pose_at(w: FlappingWing, t: int) -> WingPose {
    let level = stroke_level(w, t);
    let p = stroke_progress(w, t);
    let power = w.phase_at(t) == StrokePhase::PowerStroke;
    let flap = mul_fx(level, w.amplitude as int);
    let twist = mul_fx(mul_fx(abs(level), w.twist_amplitude as int), if power { SCALE as int } else { -500 });
    WingPose {
        flap_angle: flap as i64,
        twist_angle: twist as i64,
        shoulder_angle: mul_fx(flap, 300) as i64,
        elbow_angle: (if power { -mul_fx(p, 500) } else { -500 + mul_fx(p, 500) }) as i64,
        wrist_angle: mul_fx(twist, 500) as i64,
    }
}

/// Pose of a flapping wing at time `t`; none when the wing does not flap.
pub fn flapping_pose(flapping: &FlappingWing, time: i64) -> (r: Option<WingPose>)
    requires
        flapping.wf(),
        0 <= flapping.twist_amplitude <= MAX_SINE_ANGLE,
        0 <= time <= MAX_TIME,
    ensures
        !flapping.is_active ==> r.is_none(),
        flapping.is_active ==> r == Some(pose_at(*flapping, time as int)),
{
    if !flapping.is_active {
        return None;
    }
    let u = flapping.cycle_position_at(time);
    let r = flapping.power_stroke_ratio;
    let power = u < r;
    proof {
        if power {
            assert(0 <= u * 1000 / (r as int) <= 1000) by (nonlinear_arith)
                requires
                    0 <= u < r,
            ;
        } else {
            assert(0 <= (u - r) * 1000 / (1000 - r as int) <= 1000) by (nonlinear_arith)
                requires
                    0 <= r <= u < 1000,
            ;
        }
    }
    let progress: i64 = if power { u * SCALE / r } else { (u - r) * SCALE / (SCALE - r) };
    let level: i64 = if power { 2 * progress - SCALE } else { SCALE - 2 * progress };
    let mag: i64 = if level < 0 { -level } else { level };
    proof {
        lemma_fraction_of(level as int, flapping.amplitude as int, MAX_SINE_ANGLE as int);
        lemma_fraction_of(mag as int, flapping.twist_amplitude as int, MAX_SINE_ANGLE as int);
        lemma_fraction_of(progress as int, 500, 1000);
    }
    let flap = scale_component(level, flapping.amplitude);
    let tw = scale_component(mag, flapping.twist_amplitude);
    proof {
        lemma_fraction_of(if power { 1000 } else { -500 }, tw as int, MAX_SINE_ANGLE as int);
    }
    let twist = scale_component(tw, if power { SCALE } else { -500 });
    proof {
        lemma_fraction_of(300, flap as int, MAX_SINE_ANGLE as int);
        lemma_fraction_of(500, twist as int, MAX_SINE_ANGLE as int);
    }
    let half = scale_component(progress, 500);
    Some(WingPose {
        flap_angle: flap,
        twist_angle: twist,
        shoulder_angle: scale_component(flap, 300),
        elbow_angle: if power { -half } else { -500 + half },
        wrist_angle: scale_component(twist, 500),
    })
}

/// A fraction of at most one of a value is no larger than the value.
proof fn lemma_fraction_of(f: int, b: int, m: int)
    requires
        abs(f) <= SCALE,
        abs(b) <= m,
    ensures
        abs(mul_fx(f, b)) <= m,
        abs(mul_fx(b, f)) <= m,
{
    assert(abs(f * b) <= m * 1000) by (nonlinear_arith)
        requires
            abs(f) <= 1000,
            abs(b) <= m,
    ;
    assert(b * f == f * b) by (nonlinear_arith);
    lemma_div_tz_bound(f * b, 1000, m);
}

} // verus!
