use vstd::prelude::*;
use crate::fixed::{abs, div_tz, mul_fx, div_toward_zero, lemma_div_tz_bound, SCALE};
use crate::vector::{Vec3, scale_component};
use crate::exponential::{exp_milli, exp_spec};

verus! {

/// Largest propulsion power (a million in thousandths) that the thrust law
/// accepts.
pub const MAX_THRUST_POWER: i64 = 1_000_000_000;

/// Largest velocity component (1000 km/s) that the thrust law accepts.
pub const MAX_THRUST_VELOCITY: i64 = 1_000_000_000;

/// Largest share (0.8) of the thrust that airspeed can take away.
pub const MAX_THRUST_LOSS: i64 = 800;

/// What the propulsion law reads: power, a unit direction, efficiency and the
/// flyer's velocity.
#[derive(Clone, Copy, Debug, PartialEq, Eq, Structural)]
pub struct ThrustParams {
    pub thrust_power: i64,
    pub thrust_direction: Vec3,
    pub efficiency: i64,
    pub propeller_diameter: i64,
    pub air_density: i64,
    pub velocity: Vec3,
}

impl ThrustParams {
    pub open spec fn wf(self) -> bool {
        &&& 0 <= self.thrust_power <= MAX_THRUST_POWER
        &&& self.thrust_direction.within(SCALE as int)
        &&& 0 <= self.efficiency <= SCALE
        &&& self.velocity.within(MAX_THRUST_VELOCITY as int)
    }

    /// Share of the static thrust lost to speed along the thrust direction:
    /// `clamp(v . d / 50, 0, 0.8)`.
    pub open spec fn speed_loss(self) -> int {
        let v = self.velocity;
        let d = self.thrust_direction;
        let r = div_tz(v.x * d.x + v.y * d.y + v.z * d.z, 50_000);
        if r < 0 {
            0
        } else if r > MAX_THRUST_LOSS {
            MAX_THRUST_LOSS as int
        } else {
            r
        }
    }

    /// Thrust along the direction's component `c`.
    pub open spec fn thrust_component(self, c: int) -> int {
        mul_fx(mul_fx(c, mul_fx(self.thrust_power as int, self.efficiency as int)), SCALE - self.speed_loss())
    }
}

/// Propeller thrust: power times efficiency along the thrust direction, less
/// the share lost to speed along that direction.
pub fn calculate_thrust_force(params: &ThrustParams) -> (r: Vec3)
    requires
        params.wf(),
    ensures
        r.x == params.thrust_component(params.thrust_direction.x as int),
        r.y == params.thrust_component(params.thrust_direction.y as int),
        r.z == params.thrust_component(params.thrust_direction.z as int),
        r.within(MAX_THRUST_POWER as int),
{
    proof {
        assert(0 <= params.thrust_power * params.efficiency <= 1_000_000_000 * 1000) by (nonlinear_arith)
            requires
                0 <= params.thrust_power <= 1_000_000_000,
                0 <= params.efficiency <= 1000,
        ;
        lemma_div_tz_bound(params.thrust_power * params.efficiency, 1000, 1_000_000_000);
    }
    let static_thrust = scale_component(params.thrust_power, params.efficiency);
    let vd = params.velocity.dot(params.thrust_direction);
    let raw = div_toward_zero(vd, 50_000);
    let loss: i64 = if raw < 0 {
        0
    } else if raw > MAX_THRUST_LOSS as i128 {
        MAX_THRUST_LOSS
    } else {
        raw as i64
    };
    let keep = SCALE - loss;
    let d = params.thrust_direction;
    proof {
        lemma_thrust_component(d.x as int, static_thrust as int, keep as int);
        lemma_thrust_component(d.y as int, static_thrust as int, keep as int);
        lemma_thrust_component(d.z as int, static_thrust as int, keep as int);
    }
    Vec3 {
        x: scale_component(scale_component(d.x, static_thrust), keep),
        y: scale_component(scale_component(d.y, static_thrust), keep),
        z: scale_component(scale_component(d.z, static_thrust), keep),
    }
}

proof fn lemma_thrust_component(c: int, s: int, keep: int)
    requires
        abs(c) <= 1000,
        0 <= s <= 1_000_000_000,
        0 <= keep <= 1000,
    ensures
        abs(mul_fx(c, s)) <= 1_000_000_000,
        abs(mul_fx(mul_fx(c, s), keep)) <= 1_000_000_000,
{
    assert(abs(c * s) <= 1_000_000_000 * 1000) by (nonlinear_arith)
        requires
            abs(c) <= 1000,
            0 <= s <= 1_000_000_000,
    ;
    lemma_div_tz_bound(c * s, 1000, 1_000_000_000);
    let m = mul_fx(c, s);
    assert(abs(m * keep) <= 1_000_000_000 * 1000) by (nonlinear_arith)
        requires
            abs(m) <= 1_000_000_000,
            0 <= keep <= 1000,
    ;
    lemma_div_tz_bound(m * keep, 1000, 1_000_000_000);
}

/// Advance ratio `v / (n D)` of a propeller turning at `rpm`; zero when the
/// propeller does not turn or has no size.
pub fn calculate_advance_ratio(velocity: i64, rpm: i64, diameter: i64) -> (r: i64)
    requires
        abs(velocity as int) <= 1_000_000_000,
        rpm <= 1_000_000_000,
        diameter <= 1_000_000_000,
    ensures
        rpm <= 0 || diameter <= 0 ==> r == 0,
        rpm > 0 && diameter > 0 ==> r == div_tz(60_000_000 * velocity, rpm * diameter),
{
    if rpm <= 0 || diameter <= 0 {
        0
    } else {
        proof {
            assert(0 < rpm * diameter <= 1_000_000_000_000_000_000) by (nonlinear_arith)
                requires
                    0 < rpm <= 1_000_000_000,
                    0 < diameter <= 1_000_000_000,
            ;
            lemma_div_tz_bound(60_000_000 * velocity, rpm * diameter, 60_000_000_000_000_000);
        }
        div_toward_zero(60_000_000 * (velocity as i128), (rpm as i128) * (diameter as i128)) as i64
    }
}

/// Propeller efficiency at an advance ratio (thousandths): a bell
/// `0.85 * e^(-(J - 0.8)^2 / (2 * 0.5^2))` around 0.8, zero outside 0 to 2.
pub open spec fn propeller_efficiency_spec(j: int) -> int {
    if j < 0 || j > 2000 {
        0
    } else {
        mul_fx(exp_spec(div_tz(-(2 * (j - 800) * (j - 800)), 1000)), 850)
    }
}

/// Efficiency of a propeller at the advance ratio `advance_ratio`.
pub fn calculate_propeller_efficiency(advance_ratio: i64) -> (r: i64)
    ensures
        r == propeller_efficiency_spec(advance_ratio as int),
{
    if advance_ratio < 0 || advance_ratio > 2000 {
        return 0;
    }
    let d = advance_ratio - 800;
    proof {
        assert(0 <= 2 * d * d <= 2_880_000) by (nonlinear_arith)
            requires
                -800 <= d <= 1200,
        ;
        lemma_div_tz_bound(-(2 * d * d), 1000, 2880);
    }
    let e = exp_milli(div_toward_zero(-(2 * (d as i128) * (d as i128)), 1000) as i64);
    proof {
        assert(abs(e * 850) <= 275_000 * 1000) by (nonlinear_arith)
            requires
                abs(e as int) <= 275_000,
        ;
        lemma_div_tz_bound(e * 850, 1000, 275_000);
    }
    scale_component(e, 850)
}

} // verus!
