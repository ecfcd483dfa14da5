//! Addressing and timing contracts for emulated hardware: devices that are read
//! and written at an address at an instant of simulated time, and devices that
//! advance when simulated time moves forward.

pub mod adapter;
pub mod bus;
pub mod bytes;
pub mod memory;
pub mod step;
pub mod time;

pub use crate::adapter::{AutoBusAdapter, BusAdapter, FromAddress, IntoAddress};
pub use crate::bus::{BasicBusError, BusAccess, Error};
pub use crate::bytes::ByteOrder;
pub use crate::memory::MemoryBlock;
pub use crate::step::{Inspect, Step};
pub use crate::time::Instant;
