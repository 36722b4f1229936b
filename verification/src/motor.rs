//! Motor driver logic: holds current and target duty with a direction, takes
//! the latest pending command each cycle, moves the duty toward the target by
//! at most `RAMP_STEP` per cycle (with an instantaneous hard stop when the
//! target is zero), and plans the direction-line levels and HIGH/LOW timing
//! of one PWM period.

use vstd::prelude::*;

verus! {

use crate::{MOTOR_PERIOD_MS, PROMILLE_FULL, RAMP_STEP};

/// Which way the drive motor turns; selects which direction line is pulsed.
#[derive(Clone, Copy, PartialEq, Eq, Structural, Debug)]
pub enum Direction {
    Forward,
    Backward,
}

/// A commanded motor setting: the duty to ramp toward, and the direction.
#[derive(Clone, Copy, PartialEq, Eq, Structural, Debug)]
pub struct MotorCommand {
    pub target_duty_promille: u16,
    pub direction: Direction,
}

impl MotorCommand {
    /// The target duty is a promille value.
    pub open spec fn wf(self) -> bool {
        self.target_duty_promille <= PROMILLE_FULL
    }
}

/// State owned by the motor driver.
#[derive(Clone, Copy, PartialEq, Eq, Structural, Debug)]
pub struct MotorState {
    pub current_duty_promille: u16,
    pub target_duty_promille: u16,
    pub direction: Direction,
}

/// Where the driver stands between commands: idle at zero duty, ramping
/// while the duty moves toward the target, holding once it has arrived.
#[derive(Clone, Copy, PartialEq, Eq, Structural, Debug)]
pub enum MotorPhase {
    Idle,
    Ramping,
    Holding,
}

/// The phase a motor state is in: `Idle` at zero duty and zero target,
/// `Holding` when the duty has reached a nonzero target, `Ramping` while
/// the duty still differs from the target.
pub open spec fn phase_of(s: MotorState) -> MotorPhase {
    if s.current_duty_promille == s.target_duty_promille {
        if s.current_duty_promille == 0 {
            MotorPhase::Idle
        } else {
            MotorPhase::Holding
        }
    } else {
        MotorPhase::Ramping
    }
}

/// The duty after one ramp step toward the target: move by at most
/// `RAMP_STEP`, never overshooting; a zero target stops instantly.
pub open spec fn ramped_duty(cur: int, tgt: int) -> int {
    if tgt == 0 {
        0
    } else if cur < tgt {
        if cur + RAMP_STEP < tgt {
            cur + RAMP_STEP
        } else {
            tgt
        }
    } else if cur > tgt {
        if cur - RAMP_STEP > tgt {
            cur - RAMP_STEP
        } else {
            tgt
        }
    } else {
        cur
    }
}

/// Ramping moves the duty by at most `RAMP_STEP` per cycle whenever the
/// target is nonzero; a zero target drops the duty to zero in a single
/// cycle, whatever its prior value.
pub proof fn lemma_duty_change_bounded(s: MotorState, pending: Seq<MotorCommand>)
    requires
        s.wf(),
        forall|i: int| 0 <= i < pending.len() ==> pending[i].wf(),
    ensures
        cycle_spec(s, pending).target_duty_promille != 0 ==> cycle_spec(
            s,
            pending,
        ).current_duty_promille <= s.current_duty_promille + RAMP_STEP,
        cycle_spec(s, pending).target_duty_promille != 0 ==> s.current_duty_promille <= cycle_spec(
            s,
            pending,
        ).current_duty_promille + RAMP_STEP,
        cycle_spec(s, pending).target_duty_promille == 0 ==> cycle_spec(
            s,
            pending,
        ).current_duty_promille == 0,
{
}

/// Once no new target arrives, the gap between current and target duty
/// shrinks on every ramp step until it reaches zero: the duty converges to
/// the target and then stays there.
pub proof fn lemma_ramp_converges(cur: int, tgt: int)
    requires
        0 <= cur <= PROMILLE_FULL,
        0 <= tgt <= PROMILLE_FULL,
    ensures
        cur < tgt ==> tgt - ramped_duty(cur, tgt) < tgt - cur,
        cur > tgt ==> ramped_duty(cur, tgt) - tgt < cur - tgt,
        cur == tgt ==> ramped_duty(cur, tgt) == tgt,
        0 <= ramped_duty(cur, tgt) <= PROMILLE_FULL,
        tgt <= cur ==> ramped_duty(cur, tgt) <= cur,
        cur <= tgt ==> cur <= ramped_duty(cur, tgt) || tgt == 0,
{
}

/// The two direction lines are never both HIGH: exactly one is HIGH when
/// the duty is positive, and both are LOW when the duty is zero.
pub proof fn lemma_direction_lines_exclusive(s: MotorState)
    ensures
        !(forward_line_high(s) && backward_line_high(s)),
        s.current_duty_promille > 0 ==> forward_line_high(s) != backward_line_high(s),
        s.current_duty_promille == 0 ==> !forward_line_high(s) && !backward_line_high(s),
{
}

/// Only the most recently enqueued command matters: two backlogs with the
/// same last command drive the motor to the same state, whatever the
/// earlier entries were.
pub proof fn lemma_latest_wins_motor(s: MotorState, p1: Seq<MotorCommand>, p2: Seq<MotorCommand>)
    requires
        p1.len() > 0,
        p2.len() > 0,
        p1.last() == p2.last(),
    ensures
        cycle_spec(s, p1) == cycle_spec(s, p2),
{
}

/// The state after adopting the latest pending command: target and direction
/// come from the backlog's last entry, the current duty is untouched; an
/// empty backlog changes nothing.
pub open spec fn with_latest_command(s: MotorState, pending: Seq<MotorCommand>) -> MotorState {
    if pending.len() == 0 {
        s
    } else {
        MotorState {
            current_duty_promille: s.current_duty_promille,
            target_duty_promille: pending.last().target_duty_promille,
            direction: pending.last().direction,
        }
    }
}

/// The state after one full control cycle: adopt the latest command, then
/// apply one ramp step toward the (possibly new) target.
pub open spec fn cycle_spec(s: MotorState, pending: Seq<MotorCommand>) -> MotorState {
    let adopted = with_latest_command(s, pending);
    MotorState {
        current_duty_promille: ramped_duty(
            adopted.current_duty_promille as int,
            adopted.target_duty_promille as int,
        ) as u16,
        target_duty_promille: adopted.target_duty_promille,
        direction: adopted.direction,
    }
}

/// Whether the forward direction line is HIGH during the pulse phase.
pub open spec fn forward_line_high(s: MotorState) -> bool {
    s.current_duty_promille > 0 && s.direction == Direction::Forward
}

/// Whether the backward direction line is HIGH during the pulse phase.
pub open spec fn backward_line_high(s: MotorState) -> bool {
    s.current_duty_promille > 0 && s.direction == Direction::Backward
}

/// Timing and level plan for one motor PWM period: hold the stated levels
/// for `time_on_ms`, then both lines LOW for `time_off_ms`.
#[derive(Clone, Copy, PartialEq, Eq, Structural, Debug)]
pub struct MotorCyclePlan {
    pub forward_high: bool,
    pub backward_high: bool,
    pub time_on_ms: u64,
    pub time_off_ms: u64,
}

impl MotorState {
    /// Both duties are promille values.
    pub open spec fn wf(self) -> bool {
        self.current_duty_promille <= PROMILLE_FULL && self.target_duty_promille <= PROMILLE_FULL
    }

    /// The driver starts idle: zero duty, zero target, forward.
    pub fn new() -> (s: MotorState)
        ensures
            s.current_duty_promille == 0,
            s.target_duty_promille == 0,
            s.direction == Direction::Forward,
            s.wf(),
    {
        MotorState {
            current_duty_promille: 0,
            target_duty_promille: 0,
            direction: Direction::Forward,
        }
    }

    /// One control cycle: drain the pending backlog keeping only the latest
    /// command, apply one ramp step toward the target, and plan the
    /// direction-line levels and HIGH/LOW split of the next PWM period.
    ///
    /// The plan never drives both direction lines HIGH; exactly one is HIGH
    /// when the duty is positive, and both are LOW at zero duty.
    pub fn cycle(&mut self, pending: &Vec<MotorCommand>) -> (plan: MotorCyclePlan)
        requires
            old(self).wf(),
            forall|i: int| 0 <= i < pending@.len() ==> pending@[i].wf(),
        ensures
            *final(self) == cycle_spec(*old(self), pending@),
            final(self).wf(),
            plan.forward_high == forward_line_high(*final(self)),
            plan.backward_high == backward_line_high(*final(self)),
            !(plan.forward_high && plan.backward_high),
            final(self).current_duty_promille > 0 ==> plan.forward_high != plan.backward_high,
            final(self).current_duty_promille == 0 ==> !plan.forward_high && !plan.backward_high,
            plan.time_on_ms == final(self).current_duty_promille * MOTOR_PERIOD_MS / 1000,
            plan.time_off_ms == MOTOR_PERIOD_MS - plan.time_on_ms,
            plan.time_on_ms + plan.time_off_ms == MOTOR_PERIOD_MS,
            final(self).current_duty_promille == 0 ==> plan.time_on_ms == 0,
    {
        if pending.len() > 0 {
            let last: MotorCommand = pending[pending.len() - 1];
            self.target_duty_promille = last.target_duty_promille;
            self.direction = last.direction;
        }
        self.ramp();
        let forward_high = self.current_duty_promille > 0 && self.direction == Direction::Forward;
        let backward_high = self.current_duty_promille > 0 && self.direction
            == Direction::Backward;
        let time_on_ms: u64 = self.current_duty_promille as u64 * MOTOR_PERIOD_MS / 1000;
        MotorCyclePlan {
            forward_high,
            backward_high,
            time_on_ms,
            time_off_ms: MOTOR_PERIOD_MS - time_on_ms,
        }
    }

    /// Where this state stands: idle, ramping toward the target, or holding
    /// it.
    pub fn phase(&self) -> (p: MotorPhase)
        ensures
            p == phase_of(*self),
    {
        if self.current_duty_promille == self.target_duty_promille {
            if self.current_duty_promille == 0 {
                MotorPhase::Idle
            } else {
                MotorPhase::Holding
            }
        } else {
            MotorPhase::Ramping
        }
    }

    /// One ramp step of the current duty toward the target. A zero target
    /// takes effect instantly (hard stop); any other target is approached by
    /// at most `RAMP_STEP` per call, without overshooting.
    pub fn ramp(&mut self)
        requires
            old(self).wf(),
        ensures
            final(self).current_duty_promille == ramped_duty(
                old(self).current_duty_promille as int,
                old(self).target_duty_promille as int,
            ),
            final(self).target_duty_promille == old(self).target_duty_promille,
            final(self).direction == old(self).direction,
            final(self).wf(),
    {
        if self.target_duty_promille == 0 {
            self.current_duty_promille = 0;
        } else if self.current_duty_promille < self.target_duty_promille {
            let stepped: u16 = self.current_duty_promille + RAMP_STEP;
            self.current_duty_promille = if stepped < self.target_duty_promille {
                stepped
            } else {
                self.target_duty_promille
            };
        } else if self.current_duty_promille > self.target_duty_promille {
            let gap: u16 = self.current_duty_promille - self.target_duty_promille;
            self.current_duty_promille = if gap > RAMP_STEP {
                self.current_duty_promille - RAMP_STEP
            } else {
                self.target_duty_promille
            };
        }
    }
}

} // verus!
