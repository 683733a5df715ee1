use gyroboy::calibrator::{calibrate_gyro_sensor, is_stable, AcceptanceRule, CalibrationResult, CALIBRATION_SAMPLES};
use gyroboy::driver::{next_transition, Command, Event, LogLevel, Phase};

#[test]
fn noisy_samples_give_their_mean() {
    let mut samples: Vec<i32> = Vec::new();
    for i in 0..CALIBRATION_SAMPLES {
        samples.push(if i % 2 == 0 { 10 } else { 12 });
    }
    let r = calibrate_gyro_sensor(&samples, AcceptanceRule::MotionRequired);
    assert_eq!(r, CalibrationResult { success: true, gyro_offset: 11_000_000 });
}

#[test]
fn negative_mean_is_exact_for_divisible_counts() {
    let samples = vec![-3, 0, 0, 0];
    let r = calibrate_gyro_sensor(&samples, AcceptanceRule::MotionRequired);
    assert_eq!(r, CalibrationResult { success: true, gyro_offset: -750_000 });
}

#[test]
fn mean_rounds_down() {
    let samples = vec![0, 0, -1];
    let r = calibrate_gyro_sensor(&samples, AcceptanceRule::StillnessRequired);
    assert_eq!(r, CalibrationResult { success: true, gyro_offset: -333_334 });
}

#[test]
fn constant_samples_fail_when_motion_is_required() {
    let samples = vec![100; CALIBRATION_SAMPLES];
    let r = calibrate_gyro_sensor(&samples, AcceptanceRule::MotionRequired);
    assert_eq!(r, CalibrationResult { success: false, gyro_offset: 0 });
    let t = next_transition(Phase::Calibrating { failures: 0 }, Event::Calibrated(r));
    assert_eq!(t.phase, Phase::Calibrating { failures: 1 });
    assert_eq!(t.command, Command::Calibrate);
    assert_eq!(t.log, Some(LogLevel::Warning));
}

#[test]
fn constant_samples_pass_when_stillness_is_required() {
    let samples = vec![100; CALIBRATION_SAMPLES];
    let r = calibrate_gyro_sensor(&samples, AcceptanceRule::StillnessRequired);
    assert_eq!(r, CalibrationResult { success: true, gyro_offset: 100_000_000 });
    let t = next_transition(Phase::Calibrating { failures: 0 }, Event::Calibrated(r));
    assert_eq!(t.phase, Phase::Balancing);
    assert_eq!(t.command, Command::StartBalancing { offset_milli: 100_000 });
    assert_eq!(t.log, Some(LogLevel::Info));
}

#[test]
fn spread_of_one_fails_when_motion_is_required() {
    let samples = vec![5, 6, 5, 6];
    let r = calibrate_gyro_sensor(&samples, AcceptanceRule::MotionRequired);
    assert!(!r.success);
    assert_eq!(r.gyro_offset, 0);
}

#[test]
fn no_samples_fail() {
    let samples: Vec<i32> = Vec::new();
    assert!(!calibrate_gyro_sensor(&samples, AcceptanceRule::MotionRequired).success);
    assert!(!calibrate_gyro_sensor(&samples, AcceptanceRule::StillnessRequired).success);
}

#[test]
fn acceptance_predicate_on_threshold() {
    assert!(is_stable(2, AcceptanceRule::MotionRequired));
    assert!(!is_stable(1, AcceptanceRule::MotionRequired));
    assert!(is_stable(1, AcceptanceRule::StillnessRequired));
    assert!(!is_stable(2, AcceptanceRule::StillnessRequired));
}
