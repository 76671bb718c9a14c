//! Fixed-point flight dynamics for a human-powered flyer: aerodynamic force
//! laws (lift, drag, stall, ground effect, propeller and flapping thrust), an
//! environment model (air density, wind with turbulence and gusts), a force
//! accumulator and a semi-implicit Euler integrator with ground-contact
//! handling, driven by a pause-gated simulation context.
//!
//! Every physical quantity is an integer count of thousandths of its SI unit
//! (millimetres, millimetres per second, millinewtons, grams, milliradians,
//! milliseconds, ...). Products are rescaled by truncation toward zero. Sine
//! and the exponential are evaluated by Taylor polynomials (`trig`,
//! `exponential`); square roots are integer square roots.

pub mod fixed;
pub mod vector;
pub mod trig;
pub mod exponential;
pub mod aero;
pub mod lift;
pub mod drag;
pub mod stall;
pub mod ground_effect;
pub mod flapping;
pub mod thrust;
pub mod weather;
pub mod components;
pub mod forces;
pub mod integrator;
pub mod flyer;
pub mod simulation;
pub mod stabilization;
