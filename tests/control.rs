use unbar_rs::system::{pd_duty, DEFAULT_TARGET_TILT};
use unbar_rs::task::{control_cycle, motor_fault_severity};
use unbar_rs::{CycleAction, MotorCommand, MotorFault, Severity, System};

#[test]
fn first_step_of_concrete_example_is_inside_deadband() {
    // target (0, -0.1, 1.0), input (0, 0, 1.0): tilt 0, first step 10 ms after start
    let mut s = System::new(0);
    let cmd = s.step(0, 10_000);
    assert_eq!(cmd, MotorCommand { left: 0, right: 0 });
    let st = s.get_state();
    assert_eq!(st.time, 10_000);
    assert_eq!(st.error, -16_612);
    assert_eq!(st.error_diff, -1_385);
}

#[test]
fn tilt_error_drives_wheels_in_opposite_directions() {
    let mut s = System::with_tuning(0, 0, 30_000);
    let expected = [7i8, 14, 19, 24, 27];
    for (i, e) in expected.iter().enumerate() {
        let cmd = s.step(200_000, 10_000 * (i as u64 + 1));
        assert_eq!(cmd, MotorCommand { left: *e, right: -*e });
    }
    assert_eq!(s.get_state().error, -119_625);
    assert_eq!(s.get_state().error_diff, -8_180);
}

#[test]
fn opposite_error_negates_both_duties() {
    let mut a = System::with_tuning(0, 0, 30_000);
    let mut b = System::with_tuning(0, 0, 30_000);
    for i in 1..=5u64 {
        let ca = a.step(200_000, 10_000 * i);
        let cb = b.step(-200_000, 10_000 * i);
        assert_eq!(ca.left, -cb.left);
        assert_eq!(ca.right, -cb.right);
        assert_eq!(ca.left, -ca.right);
    }
}

#[test]
fn zero_derivative_time_is_pure_proportional() {
    let mut s = System::with_tuning(0, 0, 0);
    assert_eq!(s.step(200_000, 10_000), MotorCommand { left: 6, right: -6 });
    assert_eq!(s.step(200_000, 20_000), MotorCommand { left: 11, right: -11 });
    assert_eq!(s.step(200_000, 30_000), MotorCommand { left: 16, right: -16 });
}

#[test]
fn exact_target_keeps_motors_still() {
    let mut s = System::new(0);
    for i in 1..=50u64 {
        let cmd = s.step(DEFAULT_TARGET_TILT, 10_000 * i);
        assert_eq!(cmd, MotorCommand { left: 0, right: 0 });
        assert_eq!(s.get_state().error, 0);
        assert_eq!(s.get_state().error_diff, 0);
    }
}

#[test]
fn repeated_timestamp_skips_derivative_term() {
    let mut s = System::with_tuning(0, 0, 30_000);
    s.step(200_000, 10_000);
    let st = s.get_state();
    // no time passed: the filters keep their values and only Kp * e is used
    let cmd = s.step(-500_000, 10_000);
    assert_eq!(s.get_state().error, st.error);
    assert_eq!(cmd.right, pd_duty(st.error, st.error_diff, 0, 30_000));
    assert_eq!(cmd.right, -6);
}

#[test]
fn deadband_threshold() {
    assert_eq!(pd_duty(26_179, 0, 0, 0), 0);
    assert_eq!(pd_duty(26_180, 0, 0, 0), 5);
    assert_eq!(pd_duty(-26_180, 0, 0, 0), -5);
    assert_eq!(pd_duty(-26_179, 0, 0, 0), 0);
}

#[test]
fn duty_truncates_towards_zero() {
    assert_eq!(pd_duty(-100_000, 0, 0, 0), -19);
    assert_eq!(pd_duty(100_000, 0, 0, 0), 19);
}

#[test]
fn duty_saturates() {
    assert_eq!(pd_duty(1_000_000, 0, 0, 0), 127);
    assert_eq!(pd_duty(-1_000_000, 0, 0, 0), -127);
    assert_eq!(pd_duty(0, 1_000_000_000, 1, 30_000), 127);
}

#[test]
fn derivative_term_uses_interval() {
    // Kp * (e + Td * de / dt) * 100 with e = 0, de = 10_000 urad, Td = 30 ms, dt = 10 ms
    assert_eq!(pd_duty(0, 10_000, 10_000, 30_000), 5);
    assert_eq!(pd_duty(0, 10_000, 20_000, 30_000), 0);
}

#[test]
fn sensor_failures_skip_motor_commands() {
    let mut s = System::new(0);
    s.step(0, 10_000);
    let before = s.get_state();
    let mut drives = 0;
    for i in 2..=6u64 {
        match control_cycle(&mut s, None, 10_000 * i) {
            CycleAction::Drive(_) => drives += 1,
            CycleAction::Skip => {}
        }
        assert_eq!(s.get_state(), before);
    }
    assert_eq!(drives, 0);
    // the task goes on: the next good sample is used
    let after = control_cycle(&mut s, Some(0), 70_000);
    assert!(matches!(after, CycleAction::Drive(_)));
    assert_eq!(s.get_state().time, 70_000);
}

#[test]
fn good_sample_drives_with_step_result() {
    let mut a = System::with_tuning(0, 0, 30_000);
    let mut b = System::with_tuning(0, 0, 30_000);
    let act = control_cycle(&mut a, Some(200_000), 10_000);
    let cmd = b.step(200_000, 10_000);
    assert_eq!(act, CycleAction::Drive(cmd));
    assert_eq!(a.get_state(), b.get_state());
}

#[test]
fn motor_fault_severities() {
    assert_eq!(motor_fault_severity(MotorFault::InvalidDuty), Severity::Warning);
    assert_eq!(motor_fault_severity(MotorFault::Other), Severity::Error);
}

#[test]
fn state_snapshot_matches_accessor() {
    let mut s = System::with_tuning(0, 0, 30_000);
    s.step(200_000, 10_000);
    let st = unbar_rs::SystemState::from(&s);
    assert_eq!(st, s.get_state());
    assert_eq!(st.error, -33_334);
    assert_eq!(st.error_diff, -2_778);
}
