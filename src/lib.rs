//! An engine that simulates UWB devices speaking the UCI control protocol:
//! per-device configuration and sessions, the device command handlers, and
//! the ranging rounds between paired devices.
use vstd::prelude::*;

pub mod device;
pub mod engine;
pub mod packets;
pub mod ranging;

pub use crate::device::{Device, PicaError, Position, Session, MAX_DEVICE, MAX_SESSION};
pub use crate::engine::Pica;
pub use crate::ranging::{MockRangingEstimator, RangingEstimator};

verus! {

} // verus!
