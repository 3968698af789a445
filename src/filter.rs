//! Single-pole low-pass filter over irregular sample intervals, in fixed point.
//!
//! Values are signed integers in the caller's unit (the controller uses
//! microradians); times and time constants are microseconds.
use vstd::prelude::*;

verus! {

/// `a / b` rounded up, for `a >= 0` and `b > 0`.
pub open spec fn ceil_div(a: int, b: int) -> int {
    (a + b - 1) / b
}

/// Time that passed from `last` to `now`; a clock that went backwards counts as no time.
pub open spec fn elapsed(last: int, now: int) -> int {
    if now >= last {
        now - last
    } else {
        0
    }
}

/// The effective time constant: never shorter than the interval itself, so
/// that the blend weight `dt / t` stays within `[0, 1]`.
pub open spec fn effective_time_const(dt: int, time_const: int) -> int {
    if time_const > dt {
        time_const
    } else {
        dt
    }
}

/// One blend step: `(1 - dt/t) * value + (dt/t) * input` with `t = max(time_const, dt)`,
/// rounded towards `input`. With no elapsed time the value is kept.
pub open spec fn blend(value: int, input: int, dt: int, time_const: int) -> int {
    if dt <= 0 {
        value
    } else {
        let t = effective_time_const(dt, time_const);
        if input >= value {
            value + ceil_div((input - value) * dt, t)
        } else {
            value - ceil_div((value - input) * dt, t)
        }
    }
}

/// The value after `n` blend steps towards a constant `input`, each `dt` long.
pub open spec fn blend_n(value: int, input: int, dt: int, time_const: int, n: nat) -> int
    decreases n,
{
    if n == 0 {
        value
    } else {
        blend(blend_n(value, input, dt, time_const, (n - 1) as nat), input, dt, time_const)
    }
}

/// Whether `x` lies between `a` and `b`, both included, in either order.
pub open spec fn between(x: int, a: int, b: int) -> bool {
    (a <= x <= b) || (b <= x <= a)
}

/// The distance between two integers.
pub open spec fn distance(a: int, b: int) -> int {
    if a >= b {
        a - b
    } else {
        b - a
    }
}

/// The rounded-up share `ceil(d * dt / t)` of a gap `d` lies in `[1, d]` for a
/// positive gap, and is the whole gap when `dt == t`.
proof fn lemma_ceil_share(d: int, dt: int, t: int)
    requires
        d >= 0,
        0 < dt <= t,
    ensures
        0 <= ceil_div(d * dt, t) <= d,
        d > 0 ==> ceil_div(d * dt, t) >= 1,
        dt == t ==> ceil_div(d * dt, t) == d,
{
    let n = d * dt + t - 1;
    let q = n / t;
    assert(n == t * q + n % t && 0 <= n % t < t) by {
        vstd::arithmetic::div_mod::lemma_fundamental_div_mod(n, t);
    }
    assert(d * dt <= d * t) by (nonlinear_arith)
        requires
            d >= 0,
            dt <= t,
    ;
    assert(d * dt >= 0) by (nonlinear_arith)
        requires
            d >= 0,
            dt > 0,
    ;
    assert(q >= 0) by (nonlinear_arith)
        requires
            n >= 0,
            t > 0,
            n == t * q + n % t,
            n % t < t,
    ;
    assert(q <= d) by (nonlinear_arith)
        requires
            n <= d * t + t - 1,
            n == t * q + n % t,
            0 <= n % t,
            t > 0,
    ;
    if d > 0 {
        assert(d * dt >= dt) by (nonlinear_arith)
            requires
                d >= 1,
                dt > 0,
        ;
        assert(q >= 1) by (nonlinear_arith)
            requires
                n >= t,
                n == t * q + n % t,
                n % t < t,
                t > 0,
        ;
    }
    if dt == t {
        assert(q >= d) by (nonlinear_arith)
            requires
                n == d * t + t - 1,
                n == t * q + n % t,
                n % t < t,
                t > 0,
        ;
    }
}

/// One step moves the value towards the input without passing it, strictly
/// closer whenever time passed and the two differ; at `dt == time_const` it lands on the input.
pub proof fn lemma_blend_approaches(value: int, input: int, dt: int, time_const: int)
    ensures
        between(blend(value, input, dt, time_const), value, input),
        distance(blend(value, input, dt, time_const), input) <= distance(value, input),
        dt > 0 && value != input ==> distance(blend(value, input, dt, time_const), input)
            < distance(value, input),
        dt > 0 && dt == time_const ==> blend(value, input, dt, time_const) == input,
{
    if dt > 0 {
        let t = effective_time_const(dt, time_const);
        if input >= value {
            lemma_ceil_share(input - value, dt, t);
        } else {
            lemma_ceil_share(value - input, dt, t);
        }
    }
}

/// Convergence: with a constant input and a fixed positive interval, the
/// filtered value never overshoots the input, never moves away from it, and
/// reaches it after at most as many steps as the initial gap.
pub proof fn lemma_filter_converges(value: int, input: int, dt: int, time_const: int, n: nat)
    requires
        dt > 0,
    ensures
        between(blend_n(value, input, dt, time_const, n), value, input),
        distance(blend_n(value, input, dt, time_const, n + 1), input) <= distance(
            blend_n(value, input, dt, time_const, n),
            input,
        ),
        distance(blend_n(value, input, dt, time_const, n), input) <= if distance(value, input)
            >= n {
            distance(value, input) - n
        } else {
            0
        },
        n >= distance(value, input) ==> blend_n(value, input, dt, time_const, n) == input,
    decreases n,
{
    let cur = blend_n(value, input, dt, time_const, n);
    lemma_blend_approaches(cur, input, dt, time_const);
    if n > 0 {
        lemma_filter_converges(value, input, dt, time_const, (n - 1) as nat);
        let prev = blend_n(value, input, dt, time_const, (n - 1) as nat);
        lemma_blend_approaches(prev, input, dt, time_const);
    }
}

/// Step response at a sampling interval equal to the time constant: the blend
/// weight is one, so from any start every filtered value of a constant input is
/// that input, the exponential response `1 - (1 - dt/t)^n` with `dt/t == 1`.
pub proof fn lemma_step_response_at_time_const(value: int, input: int, time_const: int, n: nat)
    requires
        time_const > 0,
        n >= 1,
    ensures
        blend_n(value, input, time_const, time_const, n) == input,
{
    let prev = blend_n(value, input, time_const, time_const, (n - 1) as nat);
    lemma_blend_approaches(prev, input, time_const, time_const);
}

/// Mirror symmetry: negating the value and the input negates the blended value.
pub proof fn lemma_blend_negation(value: int, input: int, dt: int, time_const: int)
    ensures
        blend(-value, -input, dt, time_const) == -blend(value, input, dt, time_const),
{
    if dt > 0 && value == input {
        lemma_ceil_share(0, dt, effective_time_const(dt, time_const));
    }
}

/// Time-invariance: the filter depends on the interval only, so moving the
/// last sample time and the new sample time by the same amount changes nothing.
pub proof fn lemma_filter_time_shift(
    value: int,
    input: int,
    last: int,
    now: int,
    shift: int,
    time_const: int,
)
    ensures
        blend(value, input, elapsed(last + shift, now + shift), time_const) == blend(
            value,
            input,
            elapsed(last, now),
            time_const,
        ),
{
}

/// What a filter holds: its current value and the time of its last sample.
pub struct FilterModel {
    pub value: int,
    pub time: int,
}

/// A single-pole exponential filter whose blend weight follows the time elapsed
/// between samples.
#[derive(Debug, Clone, Copy)]
pub struct LowPassFilter {
    value: i64,
    time: u64,
}

impl View for LowPassFilter {
    type V = FilterModel;

    closed spec fn view(&self) -> FilterModel {
        FilterModel { value: self.value as int, time: self.time as int }
    }
}

impl LowPassFilter {
    /// A filter holding `initial_value`, last sampled at time zero.
    pub fn new(initial_value: i64) -> (r: LowPassFilter)
        ensures
            r@ == (FilterModel { value: initial_value as int, time: 0 }),
    {
        LowPassFilter { value: initial_value, time: 0 }
    }

    /// Blends `input`, sampled at `time`, into the value and returns the new value.
    pub fn filter(&mut self, input: i64, time: u64, time_const: u64) -> (r: i64)
        ensures
            r == blend(old(self)@.value, input as int, elapsed(old(self)@.time, time as int), time_const as int),
            final(self)@ == (FilterModel { value: r as int, time: time as int }),
    {
        let dt: u64 = if time >= self.time {
            time - self.time
        } else {
            0
        };
        if dt > 0 {
            let t: u64 = if time_const > dt {
                time_const
            } else {
                dt
            };
            let up = input >= self.value;
            let gap: u128 = if up {
                (input as i128 - self.value as i128) as u128
            } else {
                (self.value as i128 - input as i128) as u128
            };
            proof {
                lemma_ceil_share(gap as int, dt as int, t as int);
                assert(gap * dt <= 0xffff_ffff_ffff_ffff * 0xffff_ffff_ffff_ffffu128) by (nonlinear_arith)
                    requires
                        gap <= 0xffff_ffff_ffff_ffffu128,
                        dt <= 0xffff_ffff_ffff_ffffu64,
                ;
            }
            let share: u128 = (gap * (dt as u128) + (t as u128 - 1)) / (t as u128);
            self.value = if up {
                (self.value as i128 + share as i128) as i64
            } else {
                (self.value as i128 - share as i128) as i64
            };
        }
        self.time = time;
        self.value
    }

    /// The last blended value.
    pub fn get_current(&self) -> (r: i64)
        ensures
            r as int == self@.value,
    {
        self.value
    }
}

impl Default for LowPassFilter {
    fn default() -> (r: LowPassFilter)
        ensures
            r@ == (FilterModel { value: 0, time: 0 }),
    {
        LowPassFilter::new(0)
    }
}

} // verus!
