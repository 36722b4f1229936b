//! Open-loop PWM actuator control: a command router that turns normalized
//! joystick axis values into actuator commands, a servo driver that holds a
//! pulse width, and a DC motor driver that ramps a duty cycle and selects
//! direction lines.
//!
//! Axis values are carried in promille (parts per thousand): an integer in
//! `[-1000, 1000]` standing for the normalized range `[-1.0, 1.0]`. Duty
//! cycles are promille of the PWM period. All timing decisions are computed
//! here; the process edges (gamepad polling, GPIO line writes, sleeps) live
//! outside the library and only carry the values it produces.

use vstd::prelude::*;

pub mod motor;
pub mod router;
pub mod servo;

verus! {

/// Shortest servo pulse, in microseconds (full deflection one way).
pub const PULSE_MIN_US: u64 = 1200;

/// Neutral servo pulse, in microseconds (centered stick).
pub const PULSE_NEUTRAL_US: u64 = 1500;

/// Longest servo pulse, in microseconds (full deflection the other way).
pub const PULSE_MAX_US: u64 = 1800;

/// Servo PWM period, in microseconds (50 Hz).
pub const SERVO_PERIOD_US: u64 = 20000;

/// Motor PWM period, in milliseconds.
pub const MOTOR_PERIOD_MS: u64 = 10;

/// Throttle magnitudes below this promille threshold command an idle motor.
pub const DEADZONE_PROMILLE: u16 = 100;

/// Largest change of the motor duty, in promille, per control cycle.
pub const RAMP_STEP: u16 = 10;

/// Largest promille magnitude: an axis value of 1.0, or a full duty cycle.
pub const PROMILLE_FULL: u16 = 1000;

} // verus!
