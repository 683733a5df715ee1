use gyroboy::controller::{clamp_power, keep_balance, power, BalanceInput, ControlState, Gains};

fn still_input(now_us: u64) -> BalanceInput {
    BalanceInput {
        now_us,
        motor_pos: 0,
        drive: 0,
        interval_us: 14_000,
        gyro_speed: 0,
        gyro_angle: 0,
        motor_speed: 0,
        motor_diff: 0,
        steer: 0,
    }
}

#[test]
fn position_gain_alone_gives_position() {
    let g = Gains { gyro_speed: 0, gyro_angle: 0, position: 1000, drive: 0, speed: 0 };
    assert_eq!(power(&g, 123, 456, 50_000_000, 7, 89), 50);
}

#[test]
fn default_gains_on_gyro_speed() {
    let g = Gains::default();
    assert_eq!(power(&g, 1_000_000, 0, 0, 0, 0), 1);
    assert_eq!(power(&g, -1_000_000, 0, 0, 0, 0), -1);
    assert_eq!(power(&g, 10_000_000, 0, 0, 0, 0), 11);
}

#[test]
fn default_gains_on_angle_and_drive() {
    let g = Gains::default();
    assert_eq!(power(&g, 0, 1_000_000_000_000, 0, 0, 0), 15);
    assert_eq!(power(&g, 0, 0, 0, 100, 0), -2);
    assert_eq!(power(&g, 0, 0, 0, 0, 30_000_000), 3);
}

#[test]
fn power_outside_range_becomes_nearest_bound() {
    assert_eq!(clamp_power(150), 100);
    assert_eq!(clamp_power(-150), -100);
    assert_eq!(clamp_power(101), 100);
    assert_eq!(clamp_power(-101), -100);
    assert_eq!(clamp_power(42), 42);
    assert_eq!(clamp_power(-100), -100);
}

#[test]
fn in_range_power_advances_ok_time_and_mixes_steering() {
    let g = Gains { gyro_speed: 0, gyro_angle: 0, position: 1000, drive: 0, speed: 0 };
    let st = ControlState { ok_time_us: 0, motor_diff_target: 0 };
    let mut inp = still_input(5_000);
    inp.motor_pos = 20_000_000;
    inp.steer = 1_000;
    inp.motor_diff = 2;
    let r = keep_balance(&g, &st, &inp);
    assert!(r.keep);
    assert_eq!(r.state, ControlState { ok_time_us: 5_000, motor_diff_target: 14 });
    assert_eq!(r.motor_pos, 20_000_000);
    assert_eq!(r.left_power, 17);
    assert_eq!(r.right_power, 23);
}

#[test]
fn drive_moves_position() {
    let g = Gains { gyro_speed: 0, gyro_angle: 0, position: 0, drive: 0, speed: 0 };
    let st = ControlState { ok_time_us: 0, motor_diff_target: 0 };
    let mut inp = still_input(0);
    inp.drive = 10;
    let r = keep_balance(&g, &st, &inp);
    assert_eq!(r.motor_pos, -140_000);
}

#[test]
fn brief_excess_keeps_balancing_with_limited_power() {
    let g = Gains { gyro_speed: 0, gyro_angle: 0, position: 1000, drive: 0, speed: 0 };
    let st = ControlState { ok_time_us: 1_000, motor_diff_target: 0 };
    let mut inp = still_input(1_000_999);
    inp.motor_pos = 200_000_000;
    let r = keep_balance(&g, &st, &inp);
    assert!(r.keep);
    assert_eq!(r.state.ok_time_us, 1_000);
    assert_eq!(r.left_power, 100);
    assert_eq!(r.right_power, 100);
}

#[test]
fn sustained_excess_is_a_fall() {
    let g = Gains { gyro_speed: 0, gyro_angle: 0, position: 1000, drive: 0, speed: 0 };
    let st = ControlState { ok_time_us: 1_000, motor_diff_target: 0 };
    let mut inp = still_input(1_001_000);
    inp.motor_pos = -200_000_000;
    let r = keep_balance(&g, &st, &inp);
    assert!(!r.keep);
    assert_eq!(r.left_power, 0);
    assert_eq!(r.right_power, 0);
}
