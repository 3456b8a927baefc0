//! Bus-independent driver core for the ICM-42688-P six-axis inertial sensor.
//!
//! The driver never touches the bus itself.  It names the next transaction
//! as a [`Request`], and the host hands back what the transport answered as
//! a [`Reply`].  Register encodings, resolutions and sample conversion are
//! exact: physical values are rationals, never rounded.

pub mod bus;
pub mod icm42688p;
pub mod laws;
pub mod rational;
pub mod register;
pub mod sample;
pub mod scale;
pub mod state;

pub use bus::{Error, Reply, Request};
pub use icm42688p::Icm42688p;
pub use rational::{Quantity, Rational, Resolution};
pub use scale::{AccelScale, GyroScale, SamplingRate};
