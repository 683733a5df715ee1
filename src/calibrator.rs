//! Gyro calibration: estimate the zero-rate bias from samples taken at rest.
use vstd::prelude::*;
use crate::fixed::{floor_div, floor_div_i128, RATE_SCALE};

verus! {

/// Number of samples one calibration attempt takes.
pub const CALIBRATION_SAMPLES: usize = 200;

/// Pause between two calibration samples, in milliseconds.
pub const CALIBRATION_SAMPLE_GAP_MS: u64 = 4;

/// Spread (max - min) below which the sensor counts as motionless.
pub const NOISE_THRESHOLD: i64 = 2;

/// Which spread of the samples an attempt accepts.
#[derive(Clone, Copy, Debug, PartialEq, Eq, Structural)]
pub enum AcceptanceRule {
    /// Succeed only when the spread reaches the noise threshold (the device's
    /// observed behaviour: a motionless sensor fails).
    MotionRequired,
    /// Succeed only when the spread stays below the noise threshold.
    StillnessRequired,
}

/// Outcome of one calibration attempt. On failure the offset is zero.
#[derive(Clone, Copy, Debug, PartialEq, Eq, Structural)]
pub struct CalibrationResult {
    pub success: bool,
    /// Estimated bias, in `RATE_SCALE` units per sensor unit.
    pub gyro_offset: i64,
}

pub open spec fn seq_sum(s: Seq<i32>) -> int
    decreases s.len(),
{
    if s.len() == 0 {
        0
    } else {
        seq_sum(s.drop_last()) + s.last()
    }
}

pub open spec fn seq_min(s: Seq<i32>) -> int
    decreases s.len(),
{
    if s.len() <= 1 {
        if s.len() == 0 { 0 } else { s[0] as int }
    } else {
        let m = seq_min(s.drop_last());
        if (s.last() as int) < m { s.last() as int } else { m }
    }
}

pub open spec fn seq_max(s: Seq<i32>) -> int
    decreases s.len(),
{
    if s.len() <= 1 {
        if s.len() == 0 { 0 } else { s[0] as int }
    } else {
        let m = seq_max(s.drop_last());
        if (s.last() as int) > m { s.last() as int } else { m }
    }
}

/// Spread of a non-empty run of samples.
pub open spec fn spread(s: Seq<i32>) -> int {
    seq_max(s) - seq_min(s)
}

/// Whether `rule` accepts samples of the given spread.
pub open spec fn accepts(range: int, rule: AcceptanceRule) -> bool {
    match rule {
        AcceptanceRule::MotionRequired => range >= NOISE_THRESHOLD,
        AcceptanceRule::StillnessRequired => range < NOISE_THRESHOLD,
    }
}

/// Mean of the samples in fixed point, rounded down.
pub open spec fn mean_offset(s: Seq<i32>) -> int {
    floor_div(seq_sum(s) * RATE_SCALE, s.len() as int)
}

/// What one attempt on the samples `s` yields.
pub open spec fn calibration_of(s: Seq<i32>, rule: AcceptanceRule) -> CalibrationResult {
    if s.len() > 0 && accepts(spread(s), rule) {
        CalibrationResult { success: true, gyro_offset: mean_offset(s) as i64 }
    } else {
        CalibrationResult { success: false, gyro_offset: 0 }
    }
}

/// The acceptance predicate on a spread.
pub fn is_stable(range: i64, rule: AcceptanceRule) -> (r: bool)
    ensures
        r == accepts(range as int, rule),
{
    match rule {
        AcceptanceRule::MotionRequired => range >= NOISE_THRESHOLD,
        AcceptanceRule::StillnessRequired => range < NOISE_THRESHOLD,
    }
}

proof fn lemma_sum_bounds(s: Seq<i32>)
    requires
        s.len() > 0,
    ensures
        s.len() * seq_min(s) <= seq_sum(s) <= s.len() * seq_max(s),
        seq_min(s) <= seq_max(s),
        i32::MIN <= seq_min(s),
        seq_max(s) <= i32::MAX,
    decreases s.len(),
{
    if s.len() == 1 {
        assert(s.drop_last().len() == 0);
        assert(seq_sum(s.drop_last()) == 0);
    } else {
        let t = s.drop_last();
        lemma_sum_bounds(t);
        let n = t.len() as int;
        let mn = seq_min(s);
        let mx = seq_max(s);
        assert(n * mn <= n * seq_min(t)) by (nonlinear_arith)
            requires
                mn <= seq_min(t),
                n > 0,
        ;
        assert(n * seq_max(t) <= n * mx) by (nonlinear_arith)
            requires
                seq_max(t) <= mx,
                n > 0,
        ;
        assert((n + 1) * mn == n * mn + mn) by (nonlinear_arith);
        assert((n + 1) * mx == n * mx + mx) by (nonlinear_arith);
    }
}

/// The rounded-down mean lies between the smallest and largest sample.
proof fn lemma_mean_bounds(s: Seq<i32>)
    requires
        s.len() > 0,
    ensures
        seq_min(s) * RATE_SCALE <= mean_offset(s) <= seq_max(s) * RATE_SCALE,
{
    lemma_sum_bounds(s);
    let n = s.len() as int;
    let sum = seq_sum(s) * RATE_SCALE;
    let lo = seq_min(s) * RATE_SCALE;
    let hi = seq_max(s) * RATE_SCALE;
    assert(n * lo <= sum <= n * hi) by (nonlinear_arith)
        requires
            n * seq_min(s) <= seq_sum(s) <= n * seq_max(s),
            sum == seq_sum(s) * RATE_SCALE,
            lo == seq_min(s) * RATE_SCALE,
            hi == seq_max(s) * RATE_SCALE,
            RATE_SCALE > 0,
    ;
    vstd::arithmetic::div_mod::lemma_div_is_ordered(n * lo, sum, n);
    vstd::arithmetic::div_mod::lemma_div_is_ordered(sum, n * hi, n);
    vstd::arithmetic::div_mod::lemma_div_multiples_vanish(lo, n);
    vstd::arithmetic::div_mod::lemma_div_multiples_vanish(hi, n);
}

/// One calibration attempt over the samples read at rest: it succeeds when `rule`
/// accepts their spread, and then reports their mean as the bias.
pub fn calibrate_gyro_sensor(samples: &Vec<i32>, rule: AcceptanceRule) -> (r: CalibrationResult)
    ensures
        r == calibration_of(samples@, rule),
{
    let n: usize = samples.len();
    if n == 0 {
        return CalibrationResult { success: false, gyro_offset: 0 };
    }
    let mut sum: i128 = samples[0] as i128;
    let mut mn: i32 = samples[0];
    let mut mx: i32 = samples[0];
    let mut i: usize = 1;
    proof {
        let t1 = samples@.take(1);
        assert(t1.drop_last() =~= Seq::<i32>::empty());
        assert(t1.last() == samples@[0]);
        assert(seq_sum(t1.drop_last()) == 0);
    }
    while i < n
        invariant
            n == samples@.len(),
            1 <= i <= n,
            sum == seq_sum(samples@.take(i as int)),
            mn == seq_min(samples@.take(i as int)),
            mx == seq_max(samples@.take(i as int)),
            -(i as int) * 2147483648 <= sum <= (i as int) * 2147483648,
        decreases n - i,
    {
        let g: i32 = samples[i];
        proof {
            assert(samples@.take(i as int + 1).drop_last() =~= samples@.take(i as int));
        }
        sum = sum + g as i128;
        if mx < g {
            mx = g;
        }
        if g < mn {
            mn = g;
        }
        i = i + 1;
    }
    proof {
        assert(samples@.take(n as int) =~= samples@);
        lemma_mean_bounds(samples@);
        lemma_sum_bounds(samples@);
    }
    let range: i64 = mx as i64 - mn as i64;
    if is_stable(range, rule) {
        let offset: i128 = floor_div_i128(sum * (RATE_SCALE as i128), n as i128);
        CalibrationResult { success: true, gyro_offset: offset as i64 }
    } else {
        CalibrationResult { success: false, gyro_offset: 0 }
    }
}

/// A run of samples whose spread reaches the noise threshold is accepted under the
/// motion-required rule, with the rounded-down sample mean as the bias.
pub proof fn lemma_noisy_samples_calibrate(s: Seq<i32>)
    requires
        s.len() > 0,
        spread(s) >= NOISE_THRESHOLD,
    ensures
        calibration_of(s, AcceptanceRule::MotionRequired).success,
        calibration_of(s, AcceptanceRule::MotionRequired).gyro_offset == mean_offset(s),
{
    lemma_mean_bounds(s);
    lemma_sum_bounds(s);
}

} // verus!
