//! Self-balancing control loop of a two-wheeled robot: gyro calibration, sensor
//! fusion, motion estimation, the balance control law with steering mix, fall
//! detection, and the phase machine that sequences them.
pub mod button;
pub mod calibrator;
pub mod controller;
pub mod driver;
pub mod fixed;
pub mod gyro;
pub mod motor;
