//! Register mapping for a three-axis magnetometer driven over a two-wire bus:
//! a catalog of bit fields in the device's read and write frames, and a driver
//! state that keeps both frames and turns raw counts into field strengths.

pub mod field;
pub mod mask;
pub mod driver;
