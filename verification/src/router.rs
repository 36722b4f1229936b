//! Command router: classifies axis events into steering and throttle streams
//! and maps each to its actuator command.

use vstd::prelude::*;

verus! {

use crate::motor::{Direction, MotorCommand};
use crate::servo::ServoCommand;
use crate::{DEADZONE_PROMILLE, PULSE_MAX_US, PULSE_MIN_US, PULSE_NEUTRAL_US};

/// The two logical axes this system listens to.
#[derive(Clone, Copy, PartialEq, Eq, Structural, Debug)]
pub enum Axis {
    Steering,
    Throttle,
}

/// One axis change, with its value in promille of full deflection.
#[derive(Clone, Copy, PartialEq, Eq, Structural, Debug)]
pub struct AxisEvent {
    pub axis: Axis,
    pub value_promille: i32,
}

/// True of an axis value that stands for a normalized reading in `[-1.0, 1.0]`.
pub open spec fn valid_axis_value(v: int) -> bool {
    -1000 <= v <= 1000
}

/// The pulse width commanded for a steering value: a linear map taking
/// -1000 to `PULSE_MIN_US` and 1000 to `PULSE_MAX_US`.
pub open spec fn pulse_width_for(v: int) -> int {
    PULSE_MIN_US + (v + 1000) * (PULSE_MAX_US - PULSE_MIN_US) / 2000
}

/// The magnitude of an axis value.
pub open spec fn magnitude_of(v: int) -> int {
    if v >= 0 {
        v
    } else {
        -v
    }
}

/// The duty commanded for a throttle value: its magnitude in promille,
/// with magnitudes inside the deadzone suppressed to zero.
pub open spec fn throttle_target_for(v: int) -> int {
    if magnitude_of(v) < DEADZONE_PROMILLE {
        0
    } else {
        magnitude_of(v)
    }
}

/// The linear steering map always lands inside `[PULSE_MIN_US, PULSE_MAX_US]`,
/// and a centered stick lands exactly on the neutral pulse.
pub proof fn lemma_pulse_width_in_range(v: int)
    requires
        valid_axis_value(v),
    ensures
        PULSE_MIN_US <= pulse_width_for(v) <= PULSE_MAX_US,
        v == -1000 ==> pulse_width_for(v) == PULSE_MIN_US,
        v == 0 ==> pulse_width_for(v) == PULSE_NEUTRAL_US,
        v == 1000 ==> pulse_width_for(v) == PULSE_MAX_US,
{
}

/// Maps a steering value to its pulse width in microseconds.
pub fn steering_pulse_width_us(value_promille: i32) -> (r: u64)
    requires
        valid_axis_value(value_promille as int),
    ensures
        r == pulse_width_for(value_promille as int),
        PULSE_MIN_US <= r <= PULSE_MAX_US,
{
    let shifted: u64 = (value_promille + 1000) as u64;
    let span: u64 = PULSE_MAX_US - PULSE_MIN_US;
    PULSE_MIN_US + shifted * span / 2000
}

/// The direction commanded for a throttle value: forward for positive
/// values, backward otherwise.
pub open spec fn direction_for(v: int) -> Direction {
    if v > 0 {
        Direction::Forward
    } else {
        Direction::Backward
    }
}

/// Maps a throttle value to a motor command: the duty target is the value's
/// magnitude with the deadzone suppressed to zero, the direction follows
/// the value's sign.
pub fn throttle_command(value_promille: i32) -> (c: MotorCommand)
    requires
        valid_axis_value(value_promille as int),
    ensures
        c.target_duty_promille == throttle_target_for(value_promille as int),
        c.direction == direction_for(value_promille as int),
        c.wf(),
{
    let magnitude: i32 = if value_promille >= 0 {
        value_promille
    } else {
        -value_promille
    };
    let target_duty_promille: u16 = if magnitude < DEADZONE_PROMILLE as i32 {
        0
    } else {
        magnitude as u16
    };
    let direction = if value_promille > 0 {
        Direction::Forward
    } else {
        Direction::Backward
    };
    MotorCommand { target_duty_promille, direction }
}

/// The command produced for one axis event, on its actuator's stream.
#[derive(Clone, Copy, PartialEq, Eq, Structural, Debug)]
pub enum RoutedCommand {
    Servo(ServoCommand),
    Motor(MotorCommand),
}

/// Classifies one axis event and maps it to its actuator command: steering
/// events become servo commands, throttle events become motor commands.
pub fn route_event(event: AxisEvent) -> (r: RoutedCommand)
    requires
        valid_axis_value(event.value_promille as int),
    ensures
        event.axis == Axis::Steering ==> (r matches RoutedCommand::Servo(c)
            && c.pulse_width_us == pulse_width_for(event.value_promille as int) && c.wf()),
        event.axis == Axis::Throttle ==> (r matches RoutedCommand::Motor(c)
            && c.target_duty_promille == throttle_target_for(event.value_promille as int)
            && c.direction == direction_for(event.value_promille as int) && c.wf()),
{
    match event.axis {
        Axis::Steering => {
            let pulse = steering_pulse_width_us(event.value_promille);
            RoutedCommand::Servo(ServoCommand::new(pulse))
        },
        Axis::Throttle => RoutedCommand::Motor(throttle_command(event.value_promille)),
    }
}

} // verus!
