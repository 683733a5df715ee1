use gyroboy::button::{cast_to_button_t, click_notice, Button, ClickNotice};
use gyroboy::calibrator::CalibrationResult;
use gyroboy::driver::{init_interval_time, next_transition, update_interval_time, Command, Event, LogLevel, Phase};

#[test]
fn ten_failures_abort_startup() {
    let mut phase = Phase::Idle;
    let t = next_transition(phase, Event::Start);
    assert_eq!(t.command, Command::ResetAndCalibrate);
    assert_eq!(t.log, Some(LogLevel::Notice));
    phase = t.phase;
    let mut warnings = 0;
    let mut errors = 0;
    let mut last = Command::Nothing;
    for _ in 0..10 {
        let t = next_transition(phase, Event::Calibrated(CalibrationResult { success: false, gyro_offset: 0 }));
        assert_ne!(t.phase, Phase::Balancing);
        match t.log {
            Some(LogLevel::Warning) => warnings += 1,
            Some(LogLevel::Error) => errors += 1,
            _ => {}
        }
        phase = t.phase;
        last = t.command;
    }
    assert_eq!(warnings, 9);
    assert_eq!(errors, 1);
    assert_eq!(phase, Phase::Fallen);
    assert_eq!(last, Command::Abort);
}

#[test]
fn success_starts_balancing_and_logs_thousandths() {
    let t = next_transition(
        Phase::Calibrating { failures: 3 },
        Event::Calibrated(CalibrationResult { success: true, gyro_offset: -2_345_678 }),
    );
    assert_eq!(t.phase, Phase::Balancing);
    assert_eq!(t.command, Command::StartBalancing { offset_milli: -2_345 });
}

#[test]
fn fall_stops_motors() {
    let t = next_transition(Phase::Balancing, Event::Balanced(true));
    assert_eq!(t.phase, Phase::Balancing);
    assert_eq!(t.command, Command::Continue);
    let t = next_transition(Phase::Balancing, Event::Balanced(false));
    assert_eq!(t.phase, Phase::Fallen);
    assert_eq!(t.command, Command::StopMotors);
    assert_eq!(t.log, Some(LogLevel::Notice));
    let t = next_transition(Phase::Fallen, Event::Start);
    assert_eq!(t.phase, Phase::Fallen);
    assert_eq!(t.command, Command::Nothing);
}

#[test]
fn interval_is_mean_elapsed_time() {
    assert_eq!(update_interval_time(28_000, 2), 14_000);
    assert_eq!(update_interval_time(10_001, 2), 5_000);
    assert_eq!(update_interval_time(0, 3), 1);
    let start = init_interval_time();
    assert!(start.elapsed().as_secs() < 60);
}

#[test]
fn buttons_by_number() {
    assert_eq!(cast_to_button_t(0), Button::Left);
    assert_eq!(cast_to_button_t(1), Button::Right);
    assert_eq!(cast_to_button_t(2), Button::Up);
    assert_eq!(cast_to_button_t(3), Button::Down);
    assert_eq!(cast_to_button_t(4), Button::Enter);
    assert_eq!(cast_to_button_t(5), Button::Back);
    assert_eq!(cast_to_button_t(6), Button::Unknown);
    assert_eq!(cast_to_button_t(-1), Button::Unknown);
}

#[test]
fn click_notices() {
    assert_eq!(click_notice(5), ClickNotice::BackClicked);
    assert_eq!(click_notice(0), ClickNotice::LeftClicked);
    assert_eq!(click_notice(4), ClickNotice::OtherClicked);
    assert_eq!(click_notice(99), ClickNotice::OtherClicked);
}
