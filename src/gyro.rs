//! Sensor fusion: a slowly adapting bias estimate, the bias-corrected rate, and
//! its Euler integral, the tilt angle.
use vstd::prelude::*;
use crate::fixed::{floor_div, floor_div_i128, fits_i64, RATE_SCALE};

verus! {

/// The bias estimate moves by `1 / OFFSET_SMOOTHING` of the gap to each new sample.
pub const OFFSET_SMOOTHING: i64 = 2000;

/// Tilt at the first iteration: minus a quarter of a sensor unit, in angle units
/// (`RATE_SCALE` units times microseconds).
pub const INIT_GYRO_ANGLE: i64 = -250_000_000_000;

/// Largest bias magnitude a sample of `i32` can lead to, in fixed point.
pub const OFFSET_LIMIT: i64 = 2_147_483_648_000_000;

/// Gyro estimates after one iteration.
#[derive(Clone, Copy, Debug, PartialEq, Eq, Structural)]
pub struct GyroState {
    /// Bias estimate, `RATE_SCALE` units per sensor unit.
    pub offset: i64,
    /// Bias-corrected rate, `RATE_SCALE` units per sensor unit.
    pub speed: i64,
    /// Integrated tilt, in rate units times microseconds.
    pub angle: i64,
}

pub open spec fn offset_in_range(offset: int) -> bool {
    -OFFSET_LIMIT <= offset <= OFFSET_LIMIT
}

/// Exponential moving average of the bias with weight `1 / OFFSET_SMOOTHING` on the sample.
pub open spec fn next_offset(sample: i32, offset: int) -> int {
    floor_div(sample * RATE_SCALE + (OFFSET_SMOOTHING - 1) * offset, OFFSET_SMOOTHING as int)
}

pub open spec fn corrected_rate(sample: i32, offset: int) -> int {
    sample * RATE_SCALE - next_offset(sample, offset)
}

/// Estimates after one sample, or `None` when the angle leaves the range of `i64`.
pub open spec fn gyro_step(offset: int, angle: int, interval_us: u32, sample: i32) -> Option<GyroState> {
    let o = next_offset(sample, offset);
    let s = corrected_rate(sample, offset);
    let a = angle + s * interval_us;
    if fits_i64(a) {
        Some(GyroState { offset: o as i64, speed: s as i64, angle: a as i64 })
    } else {
        None
    }
}

proof fn lemma_offset_between(sample: i32, offset: int)
    requires
        offset_in_range(offset),
    ensures
        offset_in_range(next_offset(sample, offset)),
        -2 * OFFSET_LIMIT <= corrected_rate(sample, offset) <= 2 * OFFSET_LIMIT,
{
    let a = sample * RATE_SCALE;
    let x = a + (OFFSET_SMOOTHING - 1) * offset;
    let lo = if a < offset { a } else { offset };
    let hi = if a < offset { offset } else { a };
    assert(x == a + 1999 * offset);
    if a < offset {
        assert(2000 * a <= x <= 2000 * offset);
    } else {
        assert(2000 * offset <= x <= 2000 * a);
    }
    vstd::arithmetic::div_mod::lemma_div_is_ordered(2000 * lo, x, 2000);
    vstd::arithmetic::div_mod::lemma_div_is_ordered(x, 2000 * hi, 2000);
    vstd::arithmetic::div_mod::lemma_div_multiples_vanish(lo, 2000);
    vstd::arithmetic::div_mod::lemma_div_multiples_vanish(hi, 2000);
}

/// Folds one fresh gyro sample into the estimates: the bias moves toward the
/// sample, the rate is the sample less the new bias, and the angle grows by the
/// rate times the interval. `None` when the angle would leave the range of `i64`.
pub fn update_gyro_data(gyro_offset: i64, gyro_angle: i64, interval_us: u32, sample: i32) -> (r: Option<GyroState>)
    requires
        offset_in_range(gyro_offset as int),
    ensures
        r == gyro_step(gyro_offset as int, gyro_angle as int, interval_us, sample),
        r matches Some(g) ==> offset_in_range(g.offset as int),
{
    proof {
        lemma_offset_between(sample, gyro_offset as int);
    }
    let scaled: i128 = sample as i128 * RATE_SCALE as i128;
    let mixed: i128 = scaled + (OFFSET_SMOOTHING - 1) as i128 * gyro_offset as i128;
    let offset: i128 = floor_div_i128(mixed, OFFSET_SMOOTHING as i128);
    let speed: i128 = scaled - offset;
    proof {
        let sp = speed as int;
        let dt = interval_us as int;
        assert(-2 * OFFSET_LIMIT * 4294967296 <= sp * dt <= 2 * OFFSET_LIMIT * 4294967296) by (nonlinear_arith)
            requires
                -2 * OFFSET_LIMIT <= sp <= 2 * OFFSET_LIMIT,
                0 <= dt <= 4294967296,
        ;
    }
    let angle: i128 = gyro_angle as i128 + speed * interval_us as i128;
    if angle < i64::MIN as i128 || angle > i64::MAX as i128 {
        None
    } else {
        Some(GyroState { offset: offset as i64, speed: speed as i64, angle: angle as i64 })
    }
}

/// Two updates in a row integrate the two corrected rates: the final angle is the
/// starting angle plus each rate times its own interval.
pub proof fn lemma_two_steps_integrate(
    offset0: i64,
    angle0: i64,
    dt1: u32,
    sample1: i32,
    dt2: u32,
    sample2: i32,
)
    requires
        offset_in_range(offset0 as int),
        gyro_step(offset0 as int, angle0 as int, dt1, sample1) is Some,
        gyro_step(
            gyro_step(offset0 as int, angle0 as int, dt1, sample1).unwrap().offset as int,
            gyro_step(offset0 as int, angle0 as int, dt1, sample1).unwrap().angle as int,
            dt2,
            sample2,
        ) is Some,
    ensures
        ({
            let g1 = gyro_step(offset0 as int, angle0 as int, dt1, sample1).unwrap();
            let g2 = gyro_step(g1.offset as int, g1.angle as int, dt2, sample2).unwrap();
            g2.angle == angle0 + g1.speed * dt1 + g2.speed * dt2
        }),
{
    lemma_offset_between(sample1, offset0 as int);
    let g1 = gyro_step(offset0 as int, angle0 as int, dt1, sample1).unwrap();
    lemma_offset_between(sample2, g1.offset as int);
}

} // verus!
