use unbar_rs::hw::{is_stop, motor_drive, motor_stop};
use unbar_rs::{HardwareBuildError, HardwareBuilder, MotorDrive};

type Builder = HardwareBuilder<u8, u16, &'static str, u32>;

fn full() -> Builder {
    Builder::builder()
        .left_motor(1, 2, 10)
        .right_motor(3, 4, 11)
        .imu("i2c0", 5)
        .delay(99)
}

#[test]
fn build_with_every_part() {
    let parts = full().build().ok().unwrap();
    assert_eq!((parts.left_motor.dir1, parts.left_motor.dir2, parts.left_motor.pwm_ch), (1, 2, 10));
    assert_eq!((parts.right_motor.dir1, parts.right_motor.dir2, parts.right_motor.pwm_ch), (3, 4, 11));
    assert_eq!(parts.i2c, "i2c0");
    assert_eq!(parts.imu_reset, 5);
    assert_eq!(parts.delay, 99);
}

#[test]
fn empty_builder_misses_left_motor_first() {
    assert_eq!(Builder::builder().build().err(), Some(HardwareBuildError::MissingLeftMotorDir1));
}

#[test]
fn each_missing_part_is_named() {
    let mut b = full();
    b.delay = None;
    assert_eq!(b.build().err(), Some(HardwareBuildError::MissingDelay));
    let mut b = full();
    b.imu_reset = None;
    assert_eq!(b.build().err(), Some(HardwareBuildError::MissingImuReset));
    let mut b = full();
    b.i2c = None;
    assert_eq!(b.build().err(), Some(HardwareBuildError::MissingI2c));
    let mut b = full();
    b.right_motor_pwm_ch = None;
    assert_eq!(b.build().err(), Some(HardwareBuildError::MissingRightMotorPwmCh));
    let mut b = full();
    b.right_motor_dir2 = None;
    assert_eq!(b.build().err(), Some(HardwareBuildError::MissingRightMotorDir2));
    let mut b = full();
    b.right_motor_dir1 = None;
    assert_eq!(b.build().err(), Some(HardwareBuildError::MissingRightMotorDir1));
    let mut b = full();
    b.left_motor_pwm_ch = None;
    assert_eq!(b.build().err(), Some(HardwareBuildError::MissingLeftMotorPwmCh));
    let mut b = full();
    b.left_motor_dir2 = None;
    assert_eq!(b.build().err(), Some(HardwareBuildError::MissingLeftMotorDir2));
}

#[test]
fn missing_imu_and_delay_reports_imu() {
    let b = Builder::builder().left_motor(1, 2, 10).right_motor(3, 4, 11);
    assert_eq!(b.build().err(), Some(HardwareBuildError::MissingI2c));
}

#[test]
fn motor_drive_levels() {
    assert_eq!(motor_drive(0), MotorDrive { dir1_high: true, dir2_high: true, duty_pct: 0 });
    assert_eq!(motor_drive(42), MotorDrive { dir1_high: true, dir2_high: false, duty_pct: 42 });
    assert_eq!(motor_drive(-42), MotorDrive { dir1_high: false, dir2_high: true, duty_pct: 42 });
    assert_eq!(motor_drive(i16::MIN).duty_pct, 32_768);
}

#[test]
fn stopped_motor() {
    let d = motor_stop();
    assert_eq!(d, MotorDrive { dir1_high: false, dir2_high: false, duty_pct: 0 });
    assert!(is_stop(d.dir1_high, d.dir2_high));
    assert!(!is_stop(true, false));
    assert!(!is_stop(true, true));
}
