//! Board-support logic for the embedded-controller platforms: fan tachometer
//! measurement, fan limits and the I2C target debug responder.

pub mod fan;
pub mod i2c_debug;
pub mod tachometer;
