//! Servo driver logic: holds the current pulse width, takes the latest
//! pending command each cycle, and plans the HIGH/LOW timing of one PWM
//! period. No smoothing is applied: a new command takes effect on the very
//! next edge.

use vstd::prelude::*;

verus! {

use crate::{PULSE_MAX_US, PULSE_MIN_US, PULSE_NEUTRAL_US, SERVO_PERIOD_US};

/// A commanded servo pulse width, clamped to `[PULSE_MIN_US, PULSE_MAX_US]`
/// at construction.
#[derive(Clone, Copy, PartialEq, Eq, Structural, Debug)]
pub struct ServoCommand {
    pub pulse_width_us: u64,
}

/// The given pulse width forced into `[PULSE_MIN_US, PULSE_MAX_US]`.
pub open spec fn clamped_pulse(us: int) -> int {
    if us < PULSE_MIN_US {
        PULSE_MIN_US as int
    } else if us > PULSE_MAX_US {
        PULSE_MAX_US as int
    } else {
        us
    }
}

impl ServoCommand {
    /// The pulse width lies inside the servo's legal band.
    pub open spec fn wf(self) -> bool {
        PULSE_MIN_US <= self.pulse_width_us <= PULSE_MAX_US
    }

    /// Builds a command, clamping the pulse width into the legal band.
    pub fn new(pulse_width_us: u64) -> (c: ServoCommand)
        ensures
            c.pulse_width_us == clamped_pulse(pulse_width_us as int),
            c.wf(),
    {
        let clamped: u64 = if pulse_width_us < PULSE_MIN_US {
            PULSE_MIN_US
        } else if pulse_width_us > PULSE_MAX_US {
            PULSE_MAX_US
        } else {
            pulse_width_us
        };
        ServoCommand { pulse_width_us: clamped }
    }
}

/// The pulse width after one drain: the latest pending command wins, and an
/// empty backlog keeps the previous width.
pub open spec fn next_pulse_width(prev: int, pending: Seq<ServoCommand>) -> int {
    if pending.len() == 0 {
        prev
    } else {
        pending.last().pulse_width_us as int
    }
}

/// Only the most recently enqueued command matters: two backlogs with the
/// same last command drive the servo to the same pulse width, whatever the
/// earlier entries were.
pub proof fn lemma_latest_wins_servo(prev: int, p1: Seq<ServoCommand>, p2: Seq<ServoCommand>)
    requires
        p1.len() > 0,
        p2.len() > 0,
        p1.last() == p2.last(),
    ensures
        next_pulse_width(prev, p1) == next_pulse_width(prev, p2),
{
}

/// Timing plan for one servo PWM period: hold HIGH for `time_on_us`, then
/// LOW for `time_off_us`.
#[derive(Clone, Copy, PartialEq, Eq, Structural, Debug)]
pub struct ServoCyclePlan {
    pub time_on_us: u64,
    pub time_off_us: u64,
}

/// State owned by the servo driver: the pulse width it is currently emitting.
#[derive(Clone, Copy, PartialEq, Eq, Structural, Debug)]
pub struct ServoState {
    pub current_pulse_width_us: u64,
}

impl ServoState {
    /// The emitted pulse width lies inside the servo's legal band.
    pub open spec fn wf(self) -> bool {
        PULSE_MIN_US <= self.current_pulse_width_us <= PULSE_MAX_US
    }

    /// The driver starts at the neutral pulse, before any command arrives.
    pub fn new() -> (s: ServoState)
        ensures
            s.current_pulse_width_us == PULSE_NEUTRAL_US,
            s.wf(),
    {
        ServoState { current_pulse_width_us: PULSE_NEUTRAL_US }
    }

    /// One control cycle: drain the pending backlog keeping only the latest
    /// command, then plan the HIGH/LOW split of the next PWM period.
    pub fn cycle(&mut self, pending: &Vec<ServoCommand>) -> (plan: ServoCyclePlan)
        requires
            old(self).wf(),
            forall|i: int| 0 <= i < pending@.len() ==> pending@[i].wf(),
        ensures
            final(self).current_pulse_width_us == next_pulse_width(
                old(self).current_pulse_width_us as int,
                pending@,
            ),
            final(self).wf(),
            plan.time_on_us == final(self).current_pulse_width_us,
            plan.time_off_us == SERVO_PERIOD_US - final(self).current_pulse_width_us,
            plan.time_on_us + plan.time_off_us == SERVO_PERIOD_US,
    {
        if pending.len() > 0 {
            let last: ServoCommand = pending[pending.len() - 1];
            self.current_pulse_width_us = last.pulse_width_us;
        }
        ServoCyclePlan {
            time_on_us: self.current_pulse_width_us,
            time_off_us: SERVO_PERIOD_US - self.current_pulse_width_us,
        }
    }
}

} // verus!
