//! The loop driver's decisions: the phases Idle, Calibrating, Balancing and Fallen,
//! what each event leads to, and the timing of iterations.
use vstd::prelude::*;
use crate::calibrator::CalibrationResult;
use crate::fixed::{clamp, trunc_div, trunc_div_i128};
use std::time::Instant;

verus! {

/// Calibration attempts before startup is abandoned.
pub const MAX_CALIBRATION_ATTEMPTS: u32 = 10;

/// Pause between two iterations, in milliseconds.
pub const WAIT_TIME_MS: u64 = 5;

/// Interval assumed for the first iteration, in microseconds.
pub const INIT_INTERVAL_US: u32 = 14_000;

#[derive(Clone, Copy, Debug, PartialEq, Eq, Structural)]
pub enum Phase {
    Idle,
    Calibrating { failures: u32 },
    Balancing,
    Fallen,
}

#[derive(Clone, Copy, Debug, PartialEq, Eq, Structural)]
pub enum LogLevel {
    Notice,
    Info,
    Warning,
    Error,
}

/// What the surrounding loop reports back.
#[derive(Clone, Copy, Debug, PartialEq, Eq, Structural)]
pub enum Event {
    /// The loop is asked to begin.
    Start,
    /// A calibration attempt finished.
    Calibrated(CalibrationResult),
    /// A controller iteration finished; `true` while the robot is still upright.
    Balanced(bool),
}

/// What the surrounding loop is to do next.
#[derive(Clone, Copy, Debug, PartialEq, Eq, Structural)]
pub enum Command {
    Nothing,
    /// Reset both encoders and the gyro, then calibrate.
    ResetAndCalibrate,
    /// Calibrate again.
    Calibrate,
    /// Light the indicator and enter the control loop; the adopted bias in thousandths
    /// of a sensor unit is logged.
    StartBalancing { offset_milli: i64 },
    /// Wait `WAIT_TIME_MS` and run the next iteration.
    Continue,
    /// Stop both motors and show the fault colour.
    StopMotors,
    /// Give up startup.
    Abort,
}

#[derive(Clone, Copy, Debug, PartialEq, Eq, Structural)]
pub struct Transition {
    pub phase: Phase,
    pub command: Command,
    pub log: Option<LogLevel>,
}

pub open spec fn next_of(phase: Phase, event: Event) -> Transition {
    match (phase, event) {
        (Phase::Idle, Event::Start) => Transition {
            phase: Phase::Calibrating { failures: 0 },
            command: Command::ResetAndCalibrate,
            log: Some(LogLevel::Notice),
        },
        (Phase::Calibrating { failures }, Event::Calibrated(res)) => {
            if res.success {
                Transition {
                    phase: Phase::Balancing,
                    command: Command::StartBalancing { offset_milli: trunc_div(res.gyro_offset as int, 1000) as i64 },
                    log: Some(LogLevel::Info),
                }
            } else if failures + 1 < MAX_CALIBRATION_ATTEMPTS {
                Transition {
                    phase: Phase::Calibrating { failures: (failures + 1) as u32 },
                    command: Command::Calibrate,
                    log: Some(LogLevel::Warning),
                }
            } else {
                Transition { phase: Phase::Fallen, command: Command::Abort, log: Some(LogLevel::Error) }
            }
        },
        (Phase::Balancing, Event::Balanced(keep)) => {
            if keep {
                Transition { phase: Phase::Balancing, command: Command::Continue, log: None }
            } else {
                Transition { phase: Phase::Fallen, command: Command::StopMotors, log: Some(LogLevel::Notice) }
            }
        },
        _ => Transition { phase, command: Command::Nothing, log: None },
    }
}

/// The transitions that a run of events leads through, one per event.
pub open spec fn run(phase: Phase, events: Seq<Event>) -> Seq<Transition>
    decreases events.len(),
{
    if events.len() == 0 {
        Seq::empty()
    } else {
        let t = next_of(phase, events[0]);
        seq![t] + run(t.phase, events.drop_first())
    }
}

/// How many transitions of `trace` log at `level`.
pub open spec fn count_logs(trace: Seq<Transition>, level: LogLevel) -> nat
    decreases trace.len(),
{
    if trace.len() == 0 {
        0
    } else {
        count_logs(trace.drop_first(), level) + if trace[0].log == Some(level) { 1nat } else { 0nat }
    }
}

pub open spec fn is_failed_calibration(e: Event) -> bool {
    e matches Event::Calibrated(res) && !res.success
}

/// The driver's decision on one event in one phase.
pub fn next_transition(phase: Phase, event: Event) -> (r: Transition)
    ensures
        r == next_of(phase, event),
{
    match (phase, event) {
        (Phase::Idle, Event::Start) => Transition {
            phase: Phase::Calibrating { failures: 0 },
            command: Command::ResetAndCalibrate,
            log: Some(LogLevel::Notice),
        },
        (Phase::Calibrating { failures }, Event::Calibrated(res)) => {
            if res.success {
                let milli: i128 = trunc_div_i128(res.gyro_offset as i128, 1000);
                Transition {
                    phase: Phase::Balancing,
                    command: Command::StartBalancing { offset_milli: milli as i64 },
                    log: Some(LogLevel::Info),
                }
            } else if failures < MAX_CALIBRATION_ATTEMPTS - 1 {
                Transition {
                    phase: Phase::Calibrating { failures: failures + 1 },
                    command: Command::Calibrate,
                    log: Some(LogLevel::Warning),
                }
            } else {
                Transition { phase: Phase::Fallen, command: Command::Abort, log: Some(LogLevel::Error) }
            }
        },
        (Phase::Balancing, Event::Balanced(keep)) => {
            if keep {
                Transition { phase: Phase::Balancing, command: Command::Continue, log: None }
            } else {
                Transition { phase: Phase::Fallen, command: Command::StopMotors, log: Some(LogLevel::Notice) }
            }
        },
        _ => Transition { phase, command: Command::Nothing, log: None },
    }
}

proof fn lemma_failures_from(failures: u32, events: Seq<Event>)
    requires
        failures < MAX_CALIBRATION_ATTEMPTS,
        events.len() == MAX_CALIBRATION_ATTEMPTS - failures,
        forall|i: int| 0 <= i < events.len() ==> is_failed_calibration(#[trigger] events[i]),
    ensures
        ({
            let t = run(Phase::Calibrating { failures }, events);
            &&& t.len() == events.len()
            &&& t.last().phase == Phase::Fallen
            &&& t.last().command == Command::Abort
            &&& count_logs(t, LogLevel::Warning) == MAX_CALIBRATION_ATTEMPTS - 1 - failures
            &&& count_logs(t, LogLevel::Error) == 1
            &&& forall|i: int| 0 <= i < t.len() ==> (#[trigger] t[i]).phase != Phase::Balancing
        }),
    decreases MAX_CALIBRATION_ATTEMPTS - failures,
{
    let t = run(Phase::Calibrating { failures }, events);
    let first = next_of(Phase::Calibrating { failures }, events[0]);
    assert(is_failed_calibration(events[0]));
    let rest = events.drop_first();
    if failures + 1 < MAX_CALIBRATION_ATTEMPTS {
        lemma_failures_from((failures + 1) as u32, rest);
        let tr = run(first.phase, rest);
        assert(t == seq![first] + tr);
        assert(t.drop_first() =~= tr);
        assert(t.last() == tr.last());
        assert(first.log == Some(LogLevel::Warning));
        assert(count_logs(t, LogLevel::Warning) == count_logs(tr, LogLevel::Warning) + 1);
        assert(count_logs(t, LogLevel::Error) == count_logs(tr, LogLevel::Error));
        assert forall|i: int| 0 <= i < t.len() implies (#[trigger] t[i]).phase != Phase::Balancing by {
            if i > 0 {
                assert(t[i] == tr[i - 1]);
            }
        }
    } else {
        assert(rest.len() == 0);
        assert(run(first.phase, rest) == Seq::<Transition>::empty());
        assert(t =~= seq![first]);
        assert(t.drop_first() =~= Seq::<Transition>::empty());
        assert(count_logs(t, LogLevel::Warning) == count_logs(t.drop_first(), LogLevel::Warning) + 0);
        assert(count_logs(t, LogLevel::Error) == count_logs(t.drop_first(), LogLevel::Error) + 1);
    }
}

/// A start followed by as many failed calibrations as there are attempts logs one
/// warning per retry, one error at the end, and ends in the fallen phase with the
/// startup abandoned, never having entered the balancing phase.
pub proof fn lemma_calibration_gives_up(events: Seq<Event>)
    requires
        events.len() == MAX_CALIBRATION_ATTEMPTS + 1,
        events[0] == Event::Start,
        forall|i: int| 1 <= i < events.len() ==> is_failed_calibration(#[trigger] events[i]),
    ensures
        ({
            let t = run(Phase::Idle, events);
            &&& t.len() == events.len()
            &&& t.last().phase == Phase::Fallen
            &&& t.last().command == Command::Abort
            &&& count_logs(t, LogLevel::Warning) == MAX_CALIBRATION_ATTEMPTS - 1
            &&& count_logs(t, LogLevel::Error) == 1
            &&& forall|i: int| 0 <= i < t.len() ==> (#[trigger] t[i]).phase != Phase::Balancing
        }),
{
    let rest = events.drop_first();
    assert forall|i: int| 0 <= i < rest.len() implies is_failed_calibration(#[trigger] rest[i]) by {
        assert(rest[i] == events[i + 1]);
    }
    lemma_failures_from(0, rest);
    let t = run(Phase::Idle, events);
    let first = next_of(Phase::Idle, events[0]);
    let tr = run(first.phase, rest);
    assert(t.drop_first() =~= tr);
    assert(t.last() == tr.last());
    assert(count_logs(t, LogLevel::Warning) == count_logs(tr, LogLevel::Warning));
    assert(count_logs(t, LogLevel::Error) == count_logs(tr, LogLevel::Error));
    assert forall|i: int| 0 <= i < t.len() implies (#[trigger] t[i]).phase != Phase::Balancing by {
        if i > 0 {
            assert(t[i] == tr[i - 1]);
        }
    }
}

/// Mean length of an iteration: the time since the loop started over the number of
/// iterations, in microseconds, kept at least one and within `u32`.
pub open spec fn interval_of(elapsed_us: u64, loop_count: u32) -> int {
    clamp(elapsed_us as int / loop_count as int, 1, u32::MAX as int)
}

/// The iteration interval from the time elapsed since the loop started.
pub fn update_interval_time(elapsed_us: u64, loop_count: u32) -> (r: u32)
    requires
        loop_count > 0,
    ensures
        r == interval_of(elapsed_us, loop_count),
{
    let q: u64 = elapsed_us / loop_count as u64;
    if q < 1 {
        1
    } else if q > u32::MAX as u64 {
        u32::MAX
    } else {
        q as u32
    }
}

#[verifier::external_type_specification]
#[verifier::external_body]
pub struct ExInstant(Instant);

/// Relies on std::time::Instant::now: a reading of the monotonic clock, of which
/// nothing is promised.
#[verifier::external_body]
fn instant_now() -> Instant {
    Instant::now()
}

/// The moment the control loop starts; intervals are measured from it.
pub fn init_interval_time() -> Instant {
    instant_now()
}

} // verus!
