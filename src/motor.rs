//! Motion estimation from the two wheel encoders: position integral, wheel
//! difference, and a speed averaged over the last four encoder deltas.
use vstd::prelude::*;
use crate::fixed::{clamp, floor_div, floor_div_i128, fits_i64, saturate_i64, RATE_SCALE};

verus! {

/// Motor estimates after one iteration.
#[derive(Clone, Copy, Debug, PartialEq, Eq)]
pub struct MotorState {
    /// Position integral, in `RATE_SCALE` units per encoder count.
    pub pos: i64,
    /// Sum of both encoder counts at the last reading.
    pub prev_sum: i64,
    /// Ring of the last four changes of the encoder sum, slot `loop_count % 4`.
    pub deltas: [i64; 4],
    /// Right count less left count.
    pub diff: i64,
    /// Averaged speed, in `RATE_SCALE` units per encoder count per second.
    pub speed: i64,
}

pub open spec fn sum_bound() -> int {
    4294967296
}

impl MotorState {
    /// The encoder sum comes from two `i32` counts and each delta from two such sums.
    pub open spec fn wf(&self) -> bool {
        &&& -sum_bound() <= self.prev_sum <= sum_bound()
        &&& forall|i: int| 0 <= i < 4 ==> -2 * sum_bound() <= #[trigger] self.deltas@[i] <= 2 * sum_bound()
    }
}

/// Speed from a ring of four deltas: their mean over the interval, in fixed point,
/// rounded down and limited to `i64`.
pub open spec fn ring_speed(d: Seq<i64>, interval_us: u32) -> int {
    clamp(
        floor_div((d[0] + d[1] + d[2] + d[3]) * 250_000_000_000, interval_us as int),
        i64::MIN as int,
        i64::MAX as int,
    )
}

/// Speed of an encoder sum that changes by `d` every interval.
pub open spec fn steady_speed(d: int, interval_us: u32) -> int {
    clamp(floor_div(d * 1_000_000_000_000, interval_us as int), i64::MIN as int, i64::MAX as int)
}

pub open spec fn initial_motor(interval_us: u32, left: i32, right: i32) -> MotorState {
    let sum = left + right;
    let d = seq![0i64, sum as i64, 0i64, 0i64];
    MotorState {
        pos: (sum * RATE_SCALE) as i64,
        prev_sum: sum as i64,
        deltas: [0i64, sum as i64, 0i64, 0i64],
        diff: (right - left) as i64,
        speed: ring_speed(d, interval_us) as i64,
    }
}

/// State after one reading, or `None` when the position leaves the range of `i64`.
pub open spec fn motor_step(prev: MotorState, loop_count: u32, interval_us: u32, left: i32, right: i32) -> Option<MotorState> {
    let sum = left + right;
    let d = prev.deltas@.update((loop_count % 4) as int, (sum - prev.prev_sum) as i64);
    let pos = prev.pos + sum * RATE_SCALE;
    if fits_i64(pos) {
        Some(MotorState {
            pos: pos as i64,
            prev_sum: sum as i64,
            deltas: vstd::array::spec_array_update(prev.deltas, (loop_count % 4) as int, (sum - prev.prev_sum) as i64),
            diff: (right - left) as i64,
            speed: ring_speed(d, interval_us) as i64,
        })
    } else {
        None
    }
}

fn speed_of_ring(d: &[i64; 4], interval_us: u32) -> (r: i64)
    requires
        interval_us > 0,
        forall|i: int| 0 <= i < 4 ==> -2 * sum_bound() <= #[trigger] d@[i] <= 2 * sum_bound(),
    ensures
        r == ring_speed(d@, interval_us),
{
    let total: i128 = d[0] as i128 + d[1] as i128 + d[2] as i128 + d[3] as i128;
    let q: i128 = floor_div_i128(total * 250_000_000_000, interval_us as i128);
    saturate_i64(q)
}

/// First motor reading: the position starts at the encoder sum, and the sum seeds
/// slot 1 of the ring so that the first speed is a partial average.
pub fn init_motor_data(interval_us: u32, left: i32, right: i32) -> (r: MotorState)
    requires
        interval_us > 0,
    ensures
        r == initial_motor(interval_us, left, right),
        r.deltas@ == seq![0i64, (left + right) as i64, 0i64, 0i64],
        r.wf(),
{
    let sum: i64 = left as i64 + right as i64;
    let deltas: [i64; 4] = [0, sum, 0, 0];
    proof {
        assert(deltas@ =~= seq![0i64, sum, 0i64, 0i64]);
    }
    let speed: i64 = speed_of_ring(&deltas, interval_us);
    MotorState {
        pos: sum * RATE_SCALE,
        prev_sum: sum,
        deltas,
        diff: right as i64 - left as i64,
        speed,
    }
}

/// Folds one encoder reading into the estimates: the delta of the encoder sum goes
/// to ring slot `loop_count % 4`, the position grows by the sum, and the speed is
/// the ring's mean over the interval. `None` when the position would leave `i64`.
pub fn update_motor_data(prev: &MotorState, loop_count: u32, interval_us: u32, left: i32, right: i32) -> (r: Option<MotorState>)
    requires
        interval_us > 0,
        prev.wf(),
    ensures
        r == motor_step(*prev, loop_count, interval_us, left, right),
        r matches Some(m) ==> m.wf() && m.deltas@ == prev.deltas@.update((loop_count % 4) as int, (m.prev_sum - prev.prev_sum) as i64),
{
    let sum: i64 = left as i64 + right as i64;
    let delta: i64 = sum - prev.prev_sum;
    let idx: usize = (loop_count % 4) as usize;
    let mut deltas: [i64; 4] = prev.deltas;
    deltas[idx] = delta;
    let pos: i128 = prev.pos as i128 + sum as i128 * RATE_SCALE as i128;
    if pos < i64::MIN as i128 || pos > i64::MAX as i128 {
        return None;
    }
    proof {
        assert(deltas@ == prev.deltas@.update((loop_count % 4) as int, delta));
        assert forall|i: int| 0 <= i < 4 implies -2 * sum_bound() <= #[trigger] deltas@[i] <= 2 * sum_bound() by {
            if i != loop_count % 4 {
                assert(deltas@[i] == prev.deltas@[i]);
            }
        }
    }
    let speed: i64 = speed_of_ring(&deltas, interval_us);
    let r = MotorState { pos: pos as i64, prev_sum: sum, deltas, diff: right as i64 - left as i64, speed };
    proof {
        let u = vstd::array::spec_array_update(prev.deltas, (loop_count % 4) as int, delta);
        assert(r.deltas@ =~= u@);
        assert(r.deltas == u);
    }
    Some(r)
}

/// Once the encoder sum has risen by the same `d` over four consecutive updates,
/// the ring holds only `d` and the speed is exactly `d` per interval.
pub proof fn lemma_steady_delta_speed(
    s0: MotorState,
    k: u32,
    interval_us: u32,
    d: int,
    readings: Seq<(i32, i32)>,
    states: Seq<MotorState>,
)
    requires
        k + 3 <= u32::MAX,
        readings.len() == 4,
        states.len() == 4,
        forall|i: int| 0 <= i < 4 ==> (#[trigger] readings[i]).0 + readings[i].1 == s0.prev_sum + (i + 1) * d,
        motor_step(s0, k, interval_us, readings[0].0, readings[0].1) == Some(states[0]),
        forall|i: int| 1 <= i < 4 ==> motor_step(states[i - 1], (k + i) as u32, interval_us, readings[i].0, readings[i].1)
            == Some(#[trigger] states[i]),
    ensures
        states[3].speed == steady_speed(d, interval_us),
{
    let r = readings;
    let st = states;
    assert(motor_step(st[0], (k + 1) as u32, interval_us, r[1].0, r[1].1) == Some(st[1]));
    assert(motor_step(st[1], (k + 2) as u32, interval_us, r[2].0, r[2].1) == Some(st[2]));
    assert(motor_step(st[2], (k + 3) as u32, interval_us, r[3].0, r[3].1) == Some(st[3]));
    assert(r[0].0 + r[0].1 == s0.prev_sum + d);
    assert(r[1].0 + r[1].1 == s0.prev_sum + 2 * d);
    assert(r[2].0 + r[2].1 == s0.prev_sum + 3 * d);
    assert(r[3].0 + r[3].1 == s0.prev_sum + 4 * d);
    let d0 = st[0].deltas@;
    let d1 = st[1].deltas@;
    let d2 = st[2].deltas@;
    let d3 = st[3].deltas@;
    assert(d0 == s0.deltas@.update(k as int % 4, d as i64));
    assert(d1 == d0.update((k as int + 1) % 4, d as i64));
    assert(d2 == d1.update((k as int + 2) % 4, d as i64));
    assert(d3 == d2.update((k as int + 3) % 4, d as i64));
    assert(d3 =~= seq![d as i64, d as i64, d as i64, d as i64]);
    assert((d3[0] + d3[1] + d3[2] + d3[3]) * 250_000_000_000 == d * 1_000_000_000_000);
}

} // verus!
