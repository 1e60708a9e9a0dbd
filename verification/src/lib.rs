//! Fixed-point campfire flicker for PWM-driven LEDs.
//!
//! The crate holds the numeric core of a flame effect: a xorshift generator,
//! a per-tick brightness simulator working in Q8 fixed point, a quadratic
//! brightness table, and the arithmetic that turns a clock frequency into a
//! PWM period. Everything here is integer-only and free of allocation.

pub mod config;
pub mod driver;
pub mod flicker;
pub mod lut;
pub mod pwm;
pub mod rng;
pub mod signal;
pub mod trajectory;
