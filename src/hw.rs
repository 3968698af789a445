//! Assembly checks for the vehicle's hardware and the pin levels that drive a motor.
//!
//! The builder is generic over the part types (output pins, PWM channels, the
//! IMU bus, the delay provider), so the checks hold whatever parts are used.
use vstd::prelude::*;

verus! {

/// A part the hardware builder was never given.
#[derive(Debug, PartialEq, Eq, Structural)]
pub enum HardwareBuildError {
    MissingLeftMotorDir1,
    MissingLeftMotorDir2,
    MissingLeftMotorPwmCh,
    MissingRightMotorDir1,
    MissingRightMotorDir2,
    MissingRightMotorPwmCh,
    MissingI2c,
    MissingImuReset,
    MissingDelay,
}

/// The parts of one motor: two direction pins and a PWM channel.
pub struct MotorParts<O, P> {
    pub dir1: O,
    pub dir2: O,
    pub pwm_ch: P,
}

/// Every part the vehicle needs, each present.
pub struct HardwareParts<O, P, B, D> {
    pub left_motor: MotorParts<O, P>,
    pub right_motor: MotorParts<O, P>,
    pub i2c: B,
    pub imu_reset: O,
    pub delay: D,
}

/// Collects the vehicle's parts one group at a time.
pub struct HardwareBuilder<O, P, B, D> {
    pub left_motor_dir1: Option<O>,
    pub left_motor_dir2: Option<O>,
    pub left_motor_pwm_ch: Option<P>,
    pub right_motor_dir1: Option<O>,
    pub right_motor_dir2: Option<O>,
    pub right_motor_pwm_ch: Option<P>,
    pub i2c: Option<B>,
    pub imu_reset: Option<O>,
    pub delay: Option<D>,
}

impl<O, P, B, D> HardwareBuilder<O, P, B, D> {
    /// The first part, in declaration order, that has not been given.
    pub open spec fn first_missing(self) -> Option<HardwareBuildError> {
        if self.left_motor_dir1 is None {
            Some(HardwareBuildError::MissingLeftMotorDir1)
        } else if self.left_motor_dir2 is None {
            Some(HardwareBuildError::MissingLeftMotorDir2)
        } else if self.left_motor_pwm_ch is None {
            Some(HardwareBuildError::MissingLeftMotorPwmCh)
        } else if self.right_motor_dir1 is None {
            Some(HardwareBuildError::MissingRightMotorDir1)
        } else if self.right_motor_dir2 is None {
            Some(HardwareBuildError::MissingRightMotorDir2)
        } else if self.right_motor_pwm_ch is None {
            Some(HardwareBuildError::MissingRightMotorPwmCh)
        } else if self.i2c is None {
            Some(HardwareBuildError::MissingI2c)
        } else if self.imu_reset is None {
            Some(HardwareBuildError::MissingImuReset)
        } else if self.delay is None {
            Some(HardwareBuildError::MissingDelay)
        } else {
            None
        }
    }

    /// A builder holding no part.
    pub fn builder() -> (r: HardwareBuilder<O, P, B, D>)
        ensures
            r.left_motor_dir1 is None,
            r.left_motor_dir2 is None,
            r.left_motor_pwm_ch is None,
            r.right_motor_dir1 is None,
            r.right_motor_dir2 is None,
            r.right_motor_pwm_ch is None,
            r.i2c is None,
            r.imu_reset is None,
            r.delay is None,
    {
        HardwareBuilder {
            left_motor_dir1: None,
            left_motor_dir2: None,
            left_motor_pwm_ch: None,
            right_motor_dir1: None,
            right_motor_dir2: None,
            right_motor_pwm_ch: None,
            i2c: None,
            imu_reset: None,
            delay: None,
        }
    }

    /// Gives the left motor's parts.
    pub fn left_motor(self, dir1: O, dir2: O, pwm_ch: P) -> (r: HardwareBuilder<O, P, B, D>)
        ensures
            r == (HardwareBuilder {
                left_motor_dir1: Some(dir1),
                left_motor_dir2: Some(dir2),
                left_motor_pwm_ch: Some(pwm_ch),
                ..self
            }),
    {
        HardwareBuilder {
            left_motor_dir1: Some(dir1),
            left_motor_dir2: Some(dir2),
            left_motor_pwm_ch: Some(pwm_ch),
            ..self
        }
    }

    /// Gives the right motor's parts.
    pub fn right_motor(self, dir1: O, dir2: O, pwm_ch: P) -> (r: HardwareBuilder<O, P, B, D>)
        ensures
            r == (HardwareBuilder {
                right_motor_dir1: Some(dir1),
                right_motor_dir2: Some(dir2),
                right_motor_pwm_ch: Some(pwm_ch),
                ..self
            }),
    {
        HardwareBuilder {
            right_motor_dir1: Some(dir1),
            right_motor_dir2: Some(dir2),
            right_motor_pwm_ch: Some(pwm_ch),
            ..self
        }
    }

    /// Gives the IMU's bus and reset pin.
    pub fn imu(self, i2c: B, reset: O) -> (r: HardwareBuilder<O, P, B, D>)
        ensures
            r == (HardwareBuilder { i2c: Some(i2c), imu_reset: Some(reset), ..self }),
    {
        HardwareBuilder { i2c: Some(i2c), imu_reset: Some(reset), ..self }
    }

    /// Gives the delay provider.
    pub fn delay(self, delay: D) -> (r: HardwareBuilder<O, P, B, D>)
        ensures
            r == (HardwareBuilder { delay: Some(delay), ..self }),
    {
        HardwareBuilder { delay: Some(delay), ..self }
    }

    /// Takes every part out of the builder, or names the first one missing.
    pub fn build(self) -> (r: Result<HardwareParts<O, P, B, D>, HardwareBuildError>)
        ensures
            r is Err <==> self.first_missing() is Some,
            r is Err ==> r->Err_0 == self.first_missing()->Some_0,
            r is Ok ==> (r->Ok_0 == HardwareParts {
                left_motor: MotorParts {
                    dir1: self.left_motor_dir1->Some_0,
                    dir2: self.left_motor_dir2->Some_0,
                    pwm_ch: self.left_motor_pwm_ch->Some_0,
                },
                right_motor: MotorParts {
                    dir1: self.right_motor_dir1->Some_0,
                    dir2: self.right_motor_dir2->Some_0,
                    pwm_ch: self.right_motor_pwm_ch->Some_0,
                },
                i2c: self.i2c->Some_0,
                imu_reset: self.imu_reset->Some_0,
                delay: self.delay->Some_0,
            }),
    {
        let HardwareBuilder {
            left_motor_dir1,
            left_motor_dir2,
            left_motor_pwm_ch,
            right_motor_dir1,
            right_motor_dir2,
            right_motor_pwm_ch,
            i2c,
            imu_reset,
            delay,
        } = self;
        let left_dir1 = match left_motor_dir1 {
            Some(v) => v,
            None => return Err(HardwareBuildError::MissingLeftMotorDir1),
        };
        let left_dir2 = match left_motor_dir2 {
            Some(v) => v,
            None => return Err(HardwareBuildError::MissingLeftMotorDir2),
        };
        let left_pwm = match left_motor_pwm_ch {
            Some(v) => v,
            None => return Err(HardwareBuildError::MissingLeftMotorPwmCh),
        };
        let right_dir1 = match right_motor_dir1 {
            Some(v) => v,
            None => return Err(HardwareBuildError::MissingRightMotorDir1),
        };
        let right_dir2 = match right_motor_dir2 {
            Some(v) => v,
            None => return Err(HardwareBuildError::MissingRightMotorDir2),
        };
        let right_pwm = match right_motor_pwm_ch {
            Some(v) => v,
            None => return Err(HardwareBuildError::MissingRightMotorPwmCh),
        };
        let bus = match i2c {
            Some(v) => v,
            None => return Err(HardwareBuildError::MissingI2c),
        };
        let reset = match imu_reset {
            Some(v) => v,
            None => return Err(HardwareBuildError::MissingImuReset),
        };
        let delay = match delay {
            Some(v) => v,
            None => return Err(HardwareBuildError::MissingDelay),
        };
        Ok(HardwareParts {
            left_motor: MotorParts { dir1: left_dir1, dir2: left_dir2, pwm_ch: left_pwm },
            right_motor: MotorParts { dir1: right_dir1, dir2: right_dir2, pwm_ch: right_pwm },
            i2c: bus,
            imu_reset: reset,
            delay,
        })
    }
}

/// Pin levels and PWM duty for one motor.
#[derive(Debug, Clone, Copy, PartialEq, Eq, Structural)]
pub struct MotorDrive {
    pub dir1_high: bool,
    pub dir2_high: bool,
    pub duty_pct: u16,
}

/// How a signed speed drives a motor: zero brakes with both direction pins
/// high, a positive speed raises `dir1` only, a negative one `dir2` only, and
/// the duty is the speed's magnitude.
pub fn motor_drive(speed: i16) -> (r: MotorDrive)
    ensures
        speed == 0 ==> r.dir1_high && r.dir2_high,
        speed > 0 ==> r.dir1_high && !r.dir2_high,
        speed < 0 ==> !r.dir1_high && r.dir2_high,
        r.duty_pct as int == if speed >= 0 {
            speed as int
        } else {
            -speed
        },
{
    let duty_pct: u16 = if speed >= 0 {
        speed as u16
    } else {
        (-(speed as i32)) as u16
    };
    if speed == 0 {
        MotorDrive { dir1_high: true, dir2_high: true, duty_pct }
    } else if speed > 0 {
        MotorDrive { dir1_high: true, dir2_high: false, duty_pct }
    } else {
        MotorDrive { dir1_high: false, dir2_high: true, duty_pct }
    }
}

/// Pin levels of a stopped, coasting motor: both direction pins low, zero duty.
pub fn motor_stop() -> (r: MotorDrive)
    ensures
        !r.dir1_high && !r.dir2_high && r.duty_pct == 0,
{
    MotorDrive { dir1_high: false, dir2_high: false, duty_pct: 0 }
}

/// Whether pin levels describe a stopped motor: both direction pins low.
pub fn is_stop(dir1_high: bool, dir2_high: bool) -> (r: bool)
    ensures
        r == (!dir1_high && !dir2_high),
{
    !dir1_high && !dir2_high
}

} // verus!
