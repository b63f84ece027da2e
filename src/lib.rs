//! Register protocol and bring-up logic for the PMW3901 optical flow sensor.
//!
//! The sensor is reached over SPI with two-byte frames. This crate builds the
//! frames, checks the responses and sequences the device bring-up; moving the
//! bytes over the bus is left to the caller.
pub mod protocol;
pub mod sample;
pub mod device;

pub use device::{Action, Bringup, BringupStage};
pub use protocol::{Frame, Pmw3901Error};
pub use sample::Pmw3901Sample;
