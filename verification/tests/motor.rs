use pwm_control::motor::{Direction, MotorCommand, MotorPhase, MotorState};
use pwm_control::{MOTOR_PERIOD_MS, RAMP_STEP};

#[test]
fn motor_starts_idle_forward() {
    let s = MotorState::new();
    assert_eq!(s.current_duty_promille, 0);
    assert_eq!(s.target_duty_promille, 0);
    assert_eq!(s.direction, Direction::Forward);
}

#[test]
fn motor_ramps_to_target_in_fifty_cycles() {
    // target 500 with a step of 10 per cycle: duty rises monotonically by 10
    // and reaches the target after exactly 50 cycles
    assert_eq!(RAMP_STEP, 10);
    let mut s = MotorState::new();
    let command = vec![MotorCommand { target_duty_promille: 500, direction: Direction::Forward }];
    let empty: Vec<MotorCommand> = Vec::new();
    let mut cycles: u32 = 0;
    let mut previous: u16 = s.current_duty_promille;
    while s.current_duty_promille < 500 {
        if cycles == 0 {
            s.cycle(&command);
        } else {
            s.cycle(&empty);
        }
        cycles += 1;
        assert_eq!(s.current_duty_promille, previous + 10);
        previous = s.current_duty_promille;
    }
    assert_eq!(cycles, 50);
    assert_eq!(s.current_duty_promille, 500);

    // once at the target the duty holds
    s.cycle(&empty);
    assert_eq!(s.current_duty_promille, 500);
}

#[test]
fn motor_ramp_never_overshoots() {
    let mut s = MotorState::new();
    s.cycle(&vec![MotorCommand { target_duty_promille: 15, direction: Direction::Forward }]);
    assert_eq!(s.current_duty_promille, 10);
    s.cycle(&Vec::new());
    assert_eq!(s.current_duty_promille, 15);
    s.cycle(&Vec::new());
    assert_eq!(s.current_duty_promille, 15);
}

#[test]
fn motor_ramps_down_between_nonzero_targets() {
    let mut s = MotorState {
        current_duty_promille: 500,
        target_duty_promille: 500,
        direction: Direction::Forward,
    };
    s.cycle(&vec![MotorCommand { target_duty_promille: 475, direction: Direction::Forward }]);
    assert_eq!(s.current_duty_promille, 490);
    s.cycle(&Vec::new());
    assert_eq!(s.current_duty_promille, 480);
    s.cycle(&Vec::new());
    assert_eq!(s.current_duty_promille, 475);
    s.cycle(&Vec::new());
    assert_eq!(s.current_duty_promille, 475);
}

#[test]
fn motor_zero_target_stops_instantly() {
    let mut s = MotorState {
        current_duty_promille: 700,
        target_duty_promille: 700,
        direction: Direction::Backward,
    };
    let plan = s.cycle(&vec![MotorCommand { target_duty_promille: 0, direction: Direction::Backward }]);
    assert_eq!(s.current_duty_promille, 0);
    assert!(!plan.forward_high);
    assert!(!plan.backward_high);
    assert_eq!(plan.time_on_ms, 0);
    assert_eq!(plan.time_off_ms, MOTOR_PERIOD_MS);
}

#[test]
fn motor_duty_change_bounded_by_ramp_step() {
    let mut s = MotorState {
        current_duty_promille: 200,
        target_duty_promille: 200,
        direction: Direction::Forward,
    };
    let before = s.current_duty_promille;
    s.cycle(&vec![MotorCommand { target_duty_promille: 1000, direction: Direction::Forward }]);
    assert!(s.current_duty_promille - before <= RAMP_STEP);
    let before = s.current_duty_promille;
    s.cycle(&vec![MotorCommand { target_duty_promille: 150, direction: Direction::Forward }]);
    assert!(before - s.current_duty_promille <= RAMP_STEP);
}

#[test]
fn motor_direction_lines_exclusive() {
    let mut forward = MotorState {
        current_duty_promille: 300,
        target_duty_promille: 300,
        direction: Direction::Forward,
    };
    let plan = forward.cycle(&Vec::new());
    assert!(plan.forward_high);
    assert!(!plan.backward_high);

    let mut backward = MotorState {
        current_duty_promille: 300,
        target_duty_promille: 300,
        direction: Direction::Backward,
    };
    let plan = backward.cycle(&Vec::new());
    assert!(!plan.forward_high);
    assert!(plan.backward_high);

    let mut idle = MotorState::new();
    let plan = idle.cycle(&Vec::new());
    assert!(!plan.forward_high);
    assert!(!plan.backward_high);
}

#[test]
fn motor_latest_command_wins() {
    let mut s = MotorState::new();
    let backlog = vec![
        MotorCommand { target_duty_promille: 900, direction: Direction::Backward },
        MotorCommand { target_duty_promille: 300, direction: Direction::Backward },
        MotorCommand { target_duty_promille: 500, direction: Direction::Forward },
    ];
    s.cycle(&backlog);
    assert_eq!(s.target_duty_promille, 500);
    assert_eq!(s.direction, Direction::Forward);
    assert_eq!(s.current_duty_promille, 10);

    // the discarded entries have no observable effect: a backlog holding only
    // the last command leads to the identical state
    let mut s2 = MotorState::new();
    s2.cycle(&vec![MotorCommand { target_duty_promille: 500, direction: Direction::Forward }]);
    assert_eq!(s2, s);
}

#[test]
fn motor_pwm_times_follow_duty() {
    // time on is duty promille of the period
    let mut quarter = MotorState {
        current_duty_promille: 250,
        target_duty_promille: 250,
        direction: Direction::Forward,
    };
    let plan = quarter.cycle(&Vec::new());
    assert_eq!(plan.time_on_ms, 250 * MOTOR_PERIOD_MS / 1000);
    assert_eq!(plan.time_on_ms + plan.time_off_ms, MOTOR_PERIOD_MS);

    let mut full = MotorState {
        current_duty_promille: 1000,
        target_duty_promille: 1000,
        direction: Direction::Forward,
    };
    let plan = full.cycle(&Vec::new());
    assert_eq!(plan.time_on_ms, MOTOR_PERIOD_MS);
    assert_eq!(plan.time_off_ms, 0);
}

#[test]
fn motor_phase_walks_idle_ramping_holding() {
    let mut s = MotorState::new();
    assert_eq!(s.phase(), MotorPhase::Idle);
    s.cycle(&vec![MotorCommand { target_duty_promille: 30, direction: Direction::Forward }]);
    assert_eq!(s.phase(), MotorPhase::Ramping);
    s.cycle(&Vec::new());
    s.cycle(&Vec::new());
    assert_eq!(s.current_duty_promille, 30);
    assert_eq!(s.phase(), MotorPhase::Holding);
    // a target differing from the current duty re-enters ramping
    s.cycle(&vec![MotorCommand { target_duty_promille: 60, direction: Direction::Forward }]);
    assert_eq!(s.phase(), MotorPhase::Ramping);
    // a zero target stops instantly: straight back to idle
    s.cycle(&vec![MotorCommand { target_duty_promille: 0, direction: Direction::Forward }]);
    assert_eq!(s.phase(), MotorPhase::Idle);
}

#[test]
fn motor_deadzone_throttle_keeps_motor_idle() {
    // a throttle nudge inside the deadzone commands a zero target: the motor
    // stays idle, both lines LOW, no pulse
    let command = pwm_control::router::throttle_command(50);
    assert_eq!(command.target_duty_promille, 0);
    let mut s = MotorState::new();
    let plan = s.cycle(&vec![command]);
    assert_eq!(s.current_duty_promille, 0);
    assert!(!plan.forward_high);
    assert!(!plan.backward_high);
    assert_eq!(plan.time_on_ms, 0);
    assert_eq!(plan.time_off_ms, MOTOR_PERIOD_MS);
}
