use gyroboy::gyro::{update_gyro_data, GyroState, INIT_GYRO_ANGLE};
use gyroboy::motor::{init_motor_data, update_motor_data};

#[test]
fn gyro_update_exact_values() {
    let g = update_gyro_data(0, INIT_GYRO_ANGLE, 14_000, 100).unwrap();
    assert_eq!(g, GyroState { offset: 50_000, speed: 99_950_000, angle: 1_149_300_000_000 });
}

#[test]
fn gyro_offset_moves_down_toward_negative_sample() {
    let g = update_gyro_data(0, 0, 1, -1).unwrap();
    assert_eq!(g.offset, -500);
    assert_eq!(g.speed, -999_500);
    assert_eq!(g.angle, -999_500);
}

#[test]
fn two_gyro_updates_integrate_both_rates() {
    let a0: i64 = 7_000;
    let g1 = update_gyro_data(3_000_000, a0, 5_000, 4).unwrap();
    let g2 = update_gyro_data(g1.offset, g1.angle, 9_000, -2).unwrap();
    assert_eq!(g2.angle, a0 + g1.speed * 5_000 + g2.speed * 9_000);
}

#[test]
fn gyro_angle_overflow_is_reported() {
    assert_eq!(update_gyro_data(0, i64::MAX, 1_000, 1_000), None);
}

#[test]
fn motor_init_seeds_second_slot() {
    let m = init_motor_data(1_000, 10, 20);
    assert_eq!(m.pos, 30_000_000);
    assert_eq!(m.prev_sum, 30);
    assert_eq!(m.deltas, [0, 30, 0, 0]);
    assert_eq!(m.diff, 10);
    assert_eq!(m.speed, 7_500_000_000);
}

#[test]
fn motor_position_accumulates_the_sum() {
    let m0 = init_motor_data(1_000, 10, 20);
    let m1 = update_motor_data(&m0, 2, 1_000, 15, 25).unwrap();
    assert_eq!(m1.pos, 30_000_000 + 40_000_000);
    assert_eq!(m1.prev_sum, 40);
    assert_eq!(m1.deltas, [0, 30, 10, 0]);
    assert_eq!(m1.diff, 10);
    assert_eq!(m1.speed, 10_000_000_000);
}

#[test]
fn motor_speed_settles_after_four_equal_deltas() {
    let dt: u32 = 4_000;
    let mut m = init_motor_data(dt, 0, 0);
    let mut sum: i32 = 0;
    for k in 2..6u32 {
        sum += 8;
        m = update_motor_data(&m, k, dt, sum / 2, sum - sum / 2).unwrap();
    }
    assert_eq!(m.deltas, [8, 8, 8, 8]);
    assert_eq!(m.speed, 2_000_000_000);
}

#[test]
fn motor_position_overflow_is_reported() {
    let mut m = init_motor_data(1_000, 0, 0);
    m.pos = i64::MAX - 1;
    assert!(update_motor_data(&m, 2, 1_000, 1, 0).is_none());
}
