//! The attitude controller: tilt error, two filter stages, PD law, duty mapping
//! and deadband, in fixed point.
//!
//! Angles are microradians, times are microseconds. The tilt handed to
//! [`System::step`] is the angle `atan2(y, z)` of the measured acceleration.
use vstd::prelude::*;
use crate::filter::{
    LowPassFilter, FilterModel, blend, elapsed, between, lemma_blend_approaches, lemma_blend_negation,
    lemma_filter_converges, blend_n, distance,
};

verus! {

/// Time constant of the error filter, 0.06 s.
pub const ERROR_TIME_CONST: u64 = 60_000;

/// Time constant of the error-derivative filter, 0.12 s.
pub const ERROR_DIFF_TIME_CONST: u64 = 120_000;

/// Proportional gain `6 / pi` in millionths: an error of 30 degrees gives full scale.
pub const KP_MICRO: u64 = 1_909_859;

/// Default derivative time `Td`, 0.03 s; `Kd = Td * Kp`.
pub const DEFAULT_DERIVATIVE_TIME: u32 = 30_000;

/// Default target tilt `atan2(-0.1, 1.0)`, biased off vertical against a
/// mechanical offset.
pub const DEFAULT_TARGET_TILT: i32 = -99_669;

/// Duty units per unit of control output.
pub const DUTY_SCALE: u64 = 100;

/// Duties whose magnitude is below this are forced to zero.
pub const DEADBAND: i8 = 5;

/// Largest duty magnitude a command carries.
pub const DUTY_LIMIT: i8 = 127;

/// Bound on the filtered error that the controller keeps.
pub const ERROR_BOUND: i64 = 0x1_0000_0000;

/// Bound on the filtered error derivative that the controller keeps.
pub const ERROR_DIFF_BOUND: i64 = 0x2_0000_0000;

/// Numerator of the unrounded duty `100 * (Kp * e + Kd * de / dt)`, over
/// [`duty_den`]; without elapsed time the derivative term is left out.
pub open spec fn duty_num(error: int, error_diff: int, dt: int, derivative_time: int) -> int {
    if dt > 0 {
        KP_MICRO * DUTY_SCALE * (error * dt + derivative_time * error_diff)
    } else {
        KP_MICRO * DUTY_SCALE * error
    }
}

/// Denominator of the unrounded duty: micro for the gain, micro for the angle
/// and, with the derivative term, the interval.
pub open spec fn duty_den(dt: int) -> int {
    if dt > 0 {
        1_000_000int * 1_000_000 * dt
    } else {
        1_000_000int * 1_000_000
    }
}

/// `n / d` truncated towards zero, for `d > 0`.
pub open spec fn trunc_div(n: int, d: int) -> int {
    if n >= 0 {
        n / d
    } else {
        -((-n) / d)
    }
}

pub open spec fn saturate(x: int) -> int {
    if x > DUTY_LIMIT {
        DUTY_LIMIT as int
    } else if x < -DUTY_LIMIT {
        -DUTY_LIMIT
    } else {
        x
    }
}

pub open spec fn deadband(x: int) -> int {
    if -DEADBAND < x < DEADBAND {
        0
    } else {
        x
    }
}

/// The duty for an unrounded value `num / den`: truncated, saturated, deadbanded.
pub open spec fn output_duty(num: int, den: int) -> int {
    deadband(saturate(trunc_div(num, den)))
}

/// The right-hand duty for a filtered error and derivative; the left one is its negation.
pub open spec fn pd_duty_spec(error: int, error_diff: int, dt: int, derivative_time: int) -> int {
    output_duty(duty_num(error, error_diff, dt, derivative_time), duty_den(dt))
}

/// Deadband: an unrounded duty of magnitude below five gives zero; one of
/// magnitude five or more, within the duty limit, gives its value truncated towards zero.
pub proof fn lemma_deadband(num: int, den: int)
    requires
        den > 0,
    ensures
        -DEADBAND * den < num < DEADBAND * den ==> output_duty(num, den) == 0,
        (num >= DEADBAND * den || num <= -DEADBAND * den) && -DUTY_LIMIT <= trunc_div(num, den)
            <= DUTY_LIMIT ==> output_duty(num, den) == trunc_div(num, den),
{
    let a = if num >= 0 {
        num
    } else {
        -num
    };
    if a < 5 * den {
        assert(a / den < 5) by {
            vstd::arithmetic::div_mod::lemma_div_multiples_vanish(5, den);
            vstd::arithmetic::div_mod::lemma_div_is_ordered(a, 5 * den - 1, den);
            vstd::arithmetic::div_mod::lemma_fundamental_div_mod(a, den);
            vstd::arithmetic::div_mod::lemma_fundamental_div_mod(5 * den - 1, den);
            assert((5 * den - 1) / den < 5) by (nonlinear_arith)
                requires
                    den > 0,
                    5 * den - 1 == den * ((5 * den - 1) / den) + (5 * den - 1) % den,
                    (5 * den - 1) % den >= 0,
            ;
        }
        assert(a / den >= 0) by {
            vstd::arithmetic::div_mod::lemma_div_pos_is_pos(a, den);
        }
    } else {
        assert(a / den >= 5) by {
            vstd::arithmetic::div_mod::lemma_div_is_ordered(5 * den, a, den);
            vstd::arithmetic::div_mod::lemma_div_multiples_vanish(5, den);
        }
    }
}

/// Sign symmetry: negating the filtered error and its derivative negates the duty.
pub proof fn lemma_duty_sign_symmetry(error: int, error_diff: int, dt: int, derivative_time: int)
    requires
        dt >= 0,
    ensures
        pd_duty_spec(-error, -error_diff, dt, derivative_time) == -pd_duty_spec(
            error,
            error_diff,
            dt,
            derivative_time,
        ),
{
    let n = duty_num(error, error_diff, dt, derivative_time);
    let d = duty_den(dt);
    let g = KP_MICRO * DUTY_SCALE;
    if dt > 0 {
        assert(g * (-error * dt + derivative_time * -error_diff) == -(g * (error * dt
            + derivative_time * error_diff))) by (nonlinear_arith);
    } else {
        assert(g * -error == -(g * error)) by (nonlinear_arith);
    }
    assert(d > 0) by (nonlinear_arith)
        requires
            d == duty_den(dt),
            dt >= 0,
    ;
    if n > 0 {
        assert(n / d >= 0) by {
            vstd::arithmetic::div_mod::lemma_div_pos_is_pos(n, d);
        }
    } else if n == 0 {
        assert(0int / d == 0) by {
            vstd::arithmetic::div_mod::lemma_div_of0(d);
        }
    }
}

/// What a controller holds: the time of its last step, its two filters, and its tuning.
pub struct SystemModel {
    pub time: int,
    pub error: FilterModel,
    pub error_diff: FilterModel,
    pub target_tilt: int,
    pub derivative_time: int,
}

impl SystemModel {
    /// The error filter's input: target tilt minus measured tilt.
    pub open spec fn raw_error(self, tilt: int) -> int {
        self.target_tilt - tilt
    }

    /// The controller after one step on `tilt` at `now`.
    pub open spec fn stepped(self, tilt: int, now: int) -> SystemModel {
        let e = blend(
            self.error.value,
            self.raw_error(tilt),
            elapsed(self.error.time, now),
            ERROR_TIME_CONST as int,
        );
        let de = blend(
            self.error_diff.value,
            e - self.error.value,
            elapsed(self.error_diff.time, now),
            ERROR_DIFF_TIME_CONST as int,
        );
        SystemModel {
            time: now,
            error: FilterModel { value: e, time: now },
            error_diff: FilterModel { value: de, time: now },
            target_tilt: self.target_tilt,
            derivative_time: self.derivative_time,
        }
    }

    /// The right-hand duty of one step on `tilt` at `now`; the left-hand duty is its negation.
    pub open spec fn right_duty(self, tilt: int, now: int) -> int {
        let next = self.stepped(tilt, now);
        pd_duty_spec(
            next.error.value,
            next.error_diff.value,
            elapsed(self.time, now),
            self.derivative_time,
        )
    }

    /// The same controller with its filtered values and target tilt negated.
    pub open spec fn mirrored(self) -> SystemModel {
        SystemModel {
            error: FilterModel { value: -self.error.value, time: self.error.time },
            error_diff: FilterModel { value: -self.error_diff.value, time: self.error_diff.time },
            target_tilt: -self.target_tilt,
            ..self
        }
    }

    /// Both filters have come to rest at zero.
    pub open spec fn settled(self) -> bool {
        self.error.value == 0 && self.error_diff.value == 0
    }
}

/// Zero-error stability: a settled controller that measures exactly its
/// target tilt commands zero on both sides and stays settled.
pub proof fn lemma_zero_error_stability(m: SystemModel, tilt: int, now: int)
    requires
        m.settled(),
        tilt == m.target_tilt,
    ensures
        m.right_duty(tilt, now) == 0,
        m.stepped(tilt, now).settled(),
{
    let dt = elapsed(m.time, now);
    lemma_blend_approaches(0, 0, elapsed(m.error.time, now), ERROR_TIME_CONST as int);
    lemma_blend_approaches(0, 0, elapsed(m.error_diff.time, now), ERROR_DIFF_TIME_CONST as int);
    let g = KP_MICRO * DUTY_SCALE;
    assert(g * (0 * dt + m.derivative_time * 0) == 0) by (nonlinear_arith);
    assert(g * 0 == 0) by (nonlinear_arith);
    assert(duty_den(dt) > 0) by (nonlinear_arith)
        requires
            dt >= 0,
    ;
    assert(0int / duty_den(dt) == 0) by {
        vstd::arithmetic::div_mod::lemma_div_of0(duty_den(dt));
    }
}

/// Sign symmetry of a whole step: mirroring the controller and the measured
/// tilt, which negates the angle error, mirrors the next state and negates both
/// duties, so the left duty of one equals the negated right duty of the other.
pub proof fn lemma_step_sign_symmetry(m: SystemModel, tilt: int, now: int)
    ensures
        m.mirrored().stepped(-tilt, now) == m.stepped(tilt, now).mirrored(),
        m.mirrored().right_duty(-tilt, now) == -m.right_duty(tilt, now),
{
    let next = m.stepped(tilt, now);
    lemma_blend_negation(
        m.error.value,
        m.raw_error(tilt),
        elapsed(m.error.time, now),
        ERROR_TIME_CONST as int,
    );
    lemma_blend_negation(
        m.error_diff.value,
        next.error.value - m.error.value,
        elapsed(m.error_diff.time, now),
        ERROR_DIFF_TIME_CONST as int,
    );
    lemma_duty_sign_symmetry(
        next.error.value,
        next.error_diff.value,
        elapsed(m.time, now),
        m.derivative_time,
    );
}

/// With the target tilt measured on every cycle and a fixed interval, the
/// filtered error never overshoots zero and reaches it once as many cycles
/// have passed as its initial magnitude.
pub proof fn lemma_error_settles(error: int, dt: int, n: nat)
    requires
        dt > 0,
    ensures
        between(blend_n(error, 0, dt, ERROR_TIME_CONST as int, n), error, 0),
        n >= distance(error, 0) ==> blend_n(error, 0, dt, ERROR_TIME_CONST as int, n) == 0,
{
    lemma_filter_converges(error, 0, dt, ERROR_TIME_CONST as int, n);
}

/// One motor command: signed duties for the left and right wheels.
#[derive(Debug, Clone, Copy, PartialEq, Eq, Structural)]
pub struct MotorCommand {
    pub left: i8,
    pub right: i8,
}

/// A snapshot of the controller for telemetry.
#[derive(Debug, Clone, Copy, PartialEq, Eq, Structural)]
pub struct SystemState {
    pub time: u64,
    pub error: i64,
    pub error_diff: i64,
}

/// The PD attitude controller with its two filter stages.
#[derive(Debug)]
pub struct System {
    time: u64,
    error: LowPassFilter,
    error_diff: LowPassFilter,
    target_tilt: i32,
    derivative_time: u32,
}

impl View for System {
    type V = SystemModel;

    closed spec fn view(&self) -> SystemModel {
        SystemModel {
            time: self.time as int,
            error: self.error@,
            error_diff: self.error_diff@,
            target_tilt: self.target_tilt as int,
            derivative_time: self.derivative_time as int,
        }
    }
}

/// The duty for a filtered error and derivative over an interval `dt`
/// (no derivative term when `dt` is zero), for the right-hand wheel.
pub fn pd_duty(error: i64, error_diff: i64, dt: u64, derivative_time: u32) -> (r: i8)
    requires
        -ERROR_BOUND <= error <= ERROR_BOUND,
        -ERROR_DIFF_BOUND <= error_diff <= ERROR_DIFF_BOUND,
    ensures
        r as int == pd_duty_spec(error as int, error_diff as int, dt as int, derivative_time as int),
{
    let gain: i128 = (KP_MICRO * DUTY_SCALE) as i128;
    let e = error as i128;
    let de = error_diff as i128;
    let dti = dt as i128;
    let td = derivative_time as i128;
    let num: i128;
    let den: i128;
    if dt > 0 {
        proof {
            assert(-0x1_0000_0000 * 0xffff_ffff_ffff_ffff <= e * dti <= 0x1_0000_0000
                * 0xffff_ffff_ffff_ffff) by (nonlinear_arith)
                requires
                    -0x1_0000_0000 <= e <= 0x1_0000_0000,
                    0 <= dti <= 0xffff_ffff_ffff_ffff,
            ;
            assert(-0xffff_ffff * 0x2_0000_0000 <= td * de <= 0xffff_ffff * 0x2_0000_0000)
                by (nonlinear_arith)
                requires
                    -0x2_0000_0000 <= de <= 0x2_0000_0000,
                    0 <= td <= 0xffff_ffff,
            ;
            let s = e * dti + td * de;
            assert(-190_985_900 * 0x2_0000_0000_0000_0000_0000_0000 <= gain * s <= 190_985_900
                * 0x2_0000_0000_0000_0000_0000_0000) by (nonlinear_arith)
                requires
                    gain == 190_985_900,
                    -0x2_0000_0000_0000_0000_0000_0000 <= s <= 0x2_0000_0000_0000_0000_0000_0000,
            ;
        }
        num = gain * (e * dti + td * de);
        den = 1_000_000_000_000i128 * dti;
    } else {
        num = gain * e;
        den = 1_000_000_000_000i128;
    }
    assert(num == duty_num(error as int, error_diff as int, dt as int, derivative_time as int));
    assert(den == duty_den(dt as int));
    assert(den > 0);
    let mag: i128 = if num >= 0 {
        num / den
    } else {
        (-num) / den
    };
    proof {
        if num >= 0 {
            vstd::arithmetic::div_mod::lemma_div_pos_is_pos(num as int, den as int);
        } else {
            vstd::arithmetic::div_mod::lemma_div_pos_is_pos(-num as int, den as int);
        }
    }
    let limited: i128 = if mag > DUTY_LIMIT as i128 {
        DUTY_LIMIT as i128
    } else {
        mag
    };
    let kept: i8 = if limited < DEADBAND as i128 {
        0
    } else {
        limited as i8
    };
    if num >= 0 {
        kept
    } else {
        -kept
    }
}

impl System {
    #[verifier::type_invariant]
    spec fn inv(self) -> bool {
        &&& -ERROR_BOUND <= self.error@.value <= ERROR_BOUND
        &&& -ERROR_DIFF_BOUND <= self.error_diff@.value <= ERROR_DIFF_BOUND
    }

    /// A controller with the default target tilt and derivative time, created at `now`.
    pub fn new(now: u64) -> (r: System)
        ensures
            r@ == (SystemModel {
                time: now as int,
                error: FilterModel { value: 0, time: 0 },
                error_diff: FilterModel { value: 0, time: 0 },
                target_tilt: DEFAULT_TARGET_TILT as int,
                derivative_time: DEFAULT_DERIVATIVE_TIME as int,
            }),
    {
        System::with_tuning(now, DEFAULT_TARGET_TILT, DEFAULT_DERIVATIVE_TIME)
    }

    /// A controller with the given target tilt and derivative time (zero turns
    /// the derivative term off), created at `now`.
    pub fn with_tuning(now: u64, target_tilt: i32, derivative_time: u32) -> (r: System)
        ensures
            r@ == (SystemModel {
                time: now as int,
                error: FilterModel { value: 0, time: 0 },
                error_diff: FilterModel { value: 0, time: 0 },
                target_tilt: target_tilt as int,
                derivative_time: derivative_time as int,
            }),
    {
        System {
            time: now,
            error: LowPassFilter::new(0),
            error_diff: LowPassFilter::new(0),
            target_tilt,
            derivative_time,
        }
    }

    /// One control step on a measured tilt at time `now`.
    pub fn step(&mut self, tilt: i32, now: u64) -> (r: MotorCommand)
        ensures
            final(self)@ == old(self)@.stepped(tilt as int, now as int),
            r.right as int == old(self)@.right_duty(tilt as int, now as int),
            r.left as int == -old(self)@.right_duty(tilt as int, now as int),
    {
        proof {
            use_type_invariant(&*self);
        }
        let dt: u64 = if now >= self.time {
            now - self.time
        } else {
            0
        };
        let raw: i64 = self.target_tilt as i64 - tilt as i64;
        let mut error = self.error;
        let mut error_diff = self.error_diff;
        let e_prev = error.get_current();
        let e = error.filter(raw, now, ERROR_TIME_CONST);
        proof {
            lemma_blend_approaches(
                e_prev as int,
                raw as int,
                elapsed(self.error@.time, now as int),
                ERROR_TIME_CONST as int,
            );
        }
        let d_prev = error_diff.get_current();
        let de = error_diff.filter(e - e_prev, now, ERROR_DIFF_TIME_CONST);
        proof {
            lemma_blend_approaches(
                d_prev as int,
                (e - e_prev) as int,
                elapsed(self.error_diff@.time, now as int),
                ERROR_DIFF_TIME_CONST as int,
            );
        }
        let right = pd_duty(e, de, dt, self.derivative_time);
        *self = System {
            time: now,
            error,
            error_diff,
            target_tilt: self.target_tilt,
            derivative_time: self.derivative_time,
        };
        MotorCommand { left: -right, right }
    }

    /// The last step's time and filtered error and derivative.
    pub fn get_state(&self) -> (r: SystemState)
        ensures
            r.time as int == self@.time,
            r.error as int == self@.error.value,
            r.error_diff as int == self@.error_diff.value,
    {
        SystemState {
            time: self.time,
            error: self.error.get_current(),
            error_diff: self.error_diff.get_current(),
        }
    }
}

impl<'a> From<&'a System> for SystemState {
    fn from(system: &'a System) -> (r: SystemState)
        ensures
            r.time as int == system@.time,
            r.error as int == system@.error.value,
            r.error_diff as int == system@.error_diff.value,
    {
        system.get_state()
    }
}

impl<'a> vstd::std_specs::convert::FromSpecImpl<&'a System> for SystemState {
    open spec fn obeys_from_spec() -> bool {
        true
    }

    closed spec fn from_spec(system: &'a System) -> SystemState {
        SystemState {
            time: system.time,
            error: system.error@.value as i64,
            error_diff: system.error_diff@.value as i64,
        }
    }
}

} // verus!
