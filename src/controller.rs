//! The balance control law, steering mix, power limits and fall detection.
use vstd::prelude::*;
use crate::fixed::{clamp, fits_i64, trunc_div, trunc_div_i128};

verus! {

/// Gains are given in thousandths.
pub const GAIN_SCALE: i64 = 1000;

/// Common denominator of the terms of the control law: the gain scale times the
/// angle scale.
pub const POWER_DENOMINATOR: i128 = 1_000_000_000_000_000;

/// Largest magnitude of power a motor accepts.
pub const POWER_LIMIT: i32 = 100;

/// How long power may stay out of range before the robot counts as fallen, in microseconds.
pub const FALL_TIME_US: u64 = 1_000_000;

/// Divisor of the steering error (a fixed proportional gain of minus one quarter).
pub const STEER_DIVISOR: i128 = 4;

/// Gains of the control law, each in thousandths.
#[derive(Clone, Copy, Debug, PartialEq, Eq, Structural)]
pub struct Gains {
    pub gyro_speed: i32,
    pub gyro_angle: i32,
    pub position: i32,
    pub drive: i32,
    pub speed: i32,
}

impl Default for Gains {
    /// The tuned gains: 1.15, 15.0, 0.07, -0.02 and 0.1.
    fn default() -> (r: Gains)
        ensures
            r == (Gains { gyro_speed: 1150, gyro_angle: 15000, position: 70, drive: -20i32, speed: 100 }),
    {
        Gains { gyro_speed: 1150, gyro_angle: 15000, position: 70, drive: -20, speed: 100 }
    }
}

/// Controller state carried from one iteration to the next.
#[derive(Clone, Copy, Debug, PartialEq, Eq, Structural)]
pub struct ControlState {
    /// Last time power was within the motor range, microseconds since start.
    pub ok_time_us: u64,
    /// Target of the right-minus-left encoder difference.
    pub motor_diff_target: i64,
}

/// What the estimators and the operator give the controller for one iteration.
#[derive(Clone, Copy, Debug, PartialEq, Eq, Structural)]
pub struct BalanceInput {
    /// Microseconds since the loop started.
    pub now_us: u64,
    /// Position integral, in millionths of an encoder count.
    pub motor_pos: i64,
    /// Drive bias, encoder counts per second.
    pub drive: i32,
    /// Length of the iteration, in microseconds.
    pub interval_us: u32,
    /// Corrected gyro rate, in millionths of a sensor unit.
    pub gyro_speed: i64,
    /// Tilt, in millionths of a sensor unit times microseconds.
    pub gyro_angle: i64,
    /// Wheel speed, in millionths of an encoder count per second.
    pub motor_speed: i64,
    /// Right encoder count less left.
    pub motor_diff: i64,
    /// Steering bias, encoder counts of difference per second.
    pub steer: i32,
}

/// Result of one controller iteration.
#[derive(Clone, Copy, Debug, PartialEq, Eq, Structural)]
pub struct BalanceStep {
    /// False when the robot has fallen: both motors are to stop.
    pub keep: bool,
    pub state: ControlState,
    /// Position integral moved by the drive bias over the interval.
    pub motor_pos: i64,
    /// Power to write to the left motor, within `[-100, 100]`.
    pub left_power: i32,
    /// Power to write to the right motor, within `[-100, 100]`.
    pub right_power: i32,
}

/// Numerator of the control law over `POWER_DENOMINATOR`. The wheel ratio is one
/// and drops out.
pub open spec fn power_numerator(g: Gains, gyro_speed: int, gyro_angle: int, motor_pos: int, drive: int, motor_speed: int) -> int {
    g.gyro_speed * gyro_speed * 1_000_000
        + g.gyro_angle * gyro_angle
        + g.position * motor_pos * 1_000_000
        + g.drive * drive * 1_000_000_000_000
        + g.speed * motor_speed * 1_000_000
}

/// Power before steering: the control law rounded toward zero and limited to `i32`.
pub open spec fn power_of(g: Gains, gyro_speed: int, gyro_angle: int, motor_pos: int, drive: int, motor_speed: int) -> int {
    clamp(
        trunc_div(power_numerator(g, gyro_speed, gyro_angle, motor_pos, drive, motor_speed), POWER_DENOMINATOR as int),
        i32::MIN as int,
        i32::MAX as int,
    )
}

pub open spec fn limit_power(p: int) -> int {
    clamp(p, -POWER_LIMIT, POWER_LIMIT as int)
}

pub open spec fn out_of_range(p: int) -> bool {
    p < -POWER_LIMIT || p > POWER_LIMIT
}

pub open spec fn next_diff_target(target: int, steer: int, interval_us: int) -> int {
    target + trunc_div(steer * interval_us, 1_000_000)
}

/// What one controller iteration yields.
pub open spec fn balance_of(g: Gains, st: ControlState, inp: BalanceInput) -> BalanceStep {
    let power = power_of(g, inp.gyro_speed as int, inp.gyro_angle as int, inp.motor_pos as int, inp.drive as int, inp.motor_speed as int);
    let pos = inp.motor_pos - inp.drive * inp.interval_us;
    if out_of_range(power) && inp.now_us - st.ok_time_us >= FALL_TIME_US {
        BalanceStep { keep: false, state: st, motor_pos: pos as i64, left_power: 0, right_power: 0 }
    } else {
        let target = next_diff_target(st.motor_diff_target as int, inp.steer as int, inp.interval_us as int);
        let steer_power = -trunc_div(target - inp.motor_diff, STEER_DIVISOR as int);
        BalanceStep {
            keep: true,
            state: ControlState {
                ok_time_us: if out_of_range(power) { st.ok_time_us } else { inp.now_us },
                motor_diff_target: target as i64,
            },
            motor_pos: pos as i64,
            left_power: limit_power(power + steer_power) as i32,
            right_power: limit_power(power - steer_power) as i32,
        }
    }
}

/// Limits a power command to what a motor accepts: a value above the range becomes
/// exactly the upper bound, one below it exactly the lower bound.
pub fn clamp_power(p: i128) -> (r: i32)
    ensures
        r == limit_power(p as int),
        p > 100 ==> r == 100,
        p < -100 ==> r == -100,
        -100 <= p <= 100 ==> r == p,
{
    if p > POWER_LIMIT as i128 {
        POWER_LIMIT
    } else if p < -(POWER_LIMIT as i128) {
        -POWER_LIMIT
    } else {
        p as i32
    }
}

proof fn lemma_term_bound(gain: i32, v: i64, k: int)
    requires
        0 < k <= 1_048_576,
    ensures
        -0x4_0000_0000_0000_0000_0000_0000_0000 <= gain * v * k <= 0x4_0000_0000_0000_0000_0000_0000_0000,
{
    let a = gain as int;
    let b = v as int;
    assert(-0x4000_0000_0000_0000_0000_0000 <= a * b <= 0x4000_0000_0000_0000_0000_0000) by (nonlinear_arith)
        requires
            -0x8000_0000 <= a <= 0x8000_0000,
            -0x8000_0000_0000_0000 <= b <= 0x8000_0000_0000_0000,
    ;
    assert(-0x4000_0000_0000_0000_0000_0000 * k <= a * b * k <= 0x4000_0000_0000_0000_0000_0000 * k) by (nonlinear_arith)
        requires
            -0x4000_0000_0000_0000_0000_0000 <= a * b <= 0x4000_0000_0000_0000_0000_0000,
            k > 0,
    ;
}

/// The control law on one set of estimates: power before steering.
pub fn power(g: &Gains, gyro_speed: i64, gyro_angle: i64, motor_pos: i64, drive: i32, motor_speed: i64) -> (r: i32)
    ensures
        r == power_of(*g, gyro_speed as int, gyro_angle as int, motor_pos as int, drive as int, motor_speed as int),
{
    proof {
        lemma_term_bound(g.gyro_speed, gyro_speed, 1_000_000);
        lemma_term_bound(g.gyro_angle, gyro_angle, 1);
        lemma_term_bound(g.position, motor_pos, 1_000_000);
        lemma_term_bound(g.speed, motor_speed, 1_000_000);
        let dd = g.drive as int * drive as int;
        assert(-0x4000_0000_0000_0000 <= dd <= 0x4000_0000_0000_0000) by (nonlinear_arith)
            requires
                dd == g.drive as int * drive as int,
                -0x8000_0000 <= g.drive <= 0x8000_0000,
                -0x8000_0000 <= drive <= 0x8000_0000,
        ;
        assert(g.gyro_angle as int * gyro_angle as int * 1 == g.gyro_angle as int * gyro_angle as int);
    }
    let t1: i128 = g.gyro_speed as i128 * gyro_speed as i128 * 1_000_000;
    let t2: i128 = g.gyro_angle as i128 * gyro_angle as i128;
    let t3: i128 = g.position as i128 * motor_pos as i128 * 1_000_000;
    let t4: i128 = g.drive as i128 * drive as i128 * 1_000_000_000_000;
    let t5: i128 = g.speed as i128 * motor_speed as i128 * 1_000_000;
    let num: i128 = t1 + t2 + t3 + t4 + t5;
    let q: i128 = trunc_div_i128(num, POWER_DENOMINATOR);
    if q < i32::MIN as i128 {
        i32::MIN
    } else if q > i32::MAX as i128 {
        i32::MAX
    } else {
        q as i32
    }
}

/// One controller iteration: computes power from the estimates, declares a fall when
/// power has been out of the motor range for `FALL_TIME_US` since it was last in
/// range, and otherwise mixes in steering and limits both motor commands.
pub fn keep_balance(g: &Gains, st: &ControlState, inp: &BalanceInput) -> (r: BalanceStep)
    requires
        st.ok_time_us <= inp.now_us,
        fits_i64(inp.motor_pos - inp.drive * inp.interval_us),
        fits_i64(next_diff_target(st.motor_diff_target as int, inp.steer as int, inp.interval_us as int)),
    ensures
        r == balance_of(*g, *st, *inp),
        -100 <= r.left_power <= 100,
        -100 <= r.right_power <= 100,
{
    let p: i32 = power(g, inp.gyro_speed, inp.gyro_angle, inp.motor_pos, inp.drive, inp.motor_speed);
    proof {
        let a = inp.drive as int;
        let b = inp.interval_us as int;
        assert(-0x8000_0000 * 0x1_0000_0000 <= a * b <= 0x8000_0000 * 0x1_0000_0000) by (nonlinear_arith)
            requires
                -0x8000_0000 <= a <= 0x8000_0000,
                0 <= b <= 0x1_0000_0000,
        ;
    }
    let pos: i64 = (inp.motor_pos as i128 - inp.drive as i128 * inp.interval_us as i128) as i64;
    let out: bool = p < -POWER_LIMIT || p > POWER_LIMIT;
    if out && inp.now_us - st.ok_time_us >= FALL_TIME_US {
        return BalanceStep { keep: false, state: *st, motor_pos: pos, left_power: 0, right_power: 0 };
    }
    let moved: i128 = trunc_div_i128(inp.steer as i128 * inp.interval_us as i128, 1_000_000);
    let target: i64 = (st.motor_diff_target as i128 + moved) as i64;
    let steer_power: i128 = -trunc_div_i128(target as i128 - inp.motor_diff as i128, STEER_DIVISOR);
    let left: i32 = clamp_power(p as i128 + steer_power);
    let right: i32 = clamp_power(p as i128 - steer_power);
    let ok_time: u64 = if out { st.ok_time_us } else { inp.now_us };
    BalanceStep {
        keep: true,
        state: ControlState { ok_time_us: ok_time, motor_diff_target: target },
        motor_pos: pos,
        left_power: left,
        right_power: right,
    }
}

} // verus!
