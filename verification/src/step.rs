//! Devices that advance their state with the passage of simulated time.
//!
//! A clocked device is driven from outside: it is reset once, and then stepped
//! for as long as it reports that it is running, each step being handed the
//! current instant and returning the instant at which the next step is due.
//! Which device is stepped when, and what is done about an error, is the
//! driver's affair.

use crate::time::Instant;
use vstd::prelude::*;

verus! {

/// A device that changes state with the passage of a clock signal: a CPU, or a
/// peripheral such as a timer.
pub trait Step<Bus> where Bus: ?Sized {
    /// The instant in simulated time at which a step takes place.
    type Instant: Instant;

    /// The error returned where a step or a reset cannot be carried out. An
    /// error of the bus met on the way is handed on in it, not retried.
    type Error;

    /// Returns true if this device is still running, false once it has stopped
    /// or halted. A device without a stop condition is always running.
    fn is_running(&mut self) -> (running: bool)
        default_ensures
            running,
            &*final(self) == &*old(self),
    {
        true
    }

    /// Resets the device to its initial state, as if its reset signal was
    /// asserted. A device without state to reset leaves itself and the bus as
    /// they are.
    fn reset(&mut self, _now: Self::Instant, _bus: &mut Bus) -> (r: Result<(), Self::Error>)
        default_ensures
            r is Ok,
            &*final(self) == &*old(self),
            &*final(_bus) == &*old(_bus),
    {
        Ok(())
    }

    /// Advances the device by one unit of work at the instant `now`, with
    /// access to the system through `bus`, and returns the instant at which
    /// this function should be called again.
    fn step(&mut self, now: Self::Instant, bus: &mut Bus) -> Result<Self::Instant, Self::Error>;
}

/// Inspects the state of a device and writes it out to a `Writer`, the sink
/// for text that the device is given: in practice a type with
/// `core::fmt::Write`.
pub trait Inspect<Bus, Writer> where Bus: ?Sized {
    /// The kinds of information or state that this device can emit.
    type InfoType;

    /// The error returned where the data cannot be written as expected.
    type Error;

    /// Writes the information `info` to `writer`.
    fn inspect(&mut self, info: Self::InfoType, bus: &mut Bus, writer: &mut Writer) -> Result<
        (),
        Self::Error,
    >;

    /// Writes a brief summary of the device's current state to `writer`.
    fn brief_summary(&mut self, bus: &mut Bus, writer: &mut Writer) -> Result<(), Self::Error>;

    /// Writes a detailed summary of the device's current state to `writer`.
    fn detailed_summary(&mut self, bus: &mut Bus, writer: &mut Writer) -> Result<(), Self::Error>;
}

/// Controls the execution of a CPU device for debugging.
pub trait Debug<Address, Bus, Writer>: Inspect<Bus, Writer> + Step<Bus> where
    Address: Copy,
    Bus: ?Sized,
 {
    /// The error returned where a debugging request cannot be met.
    type DebugError;

    /// Returns the address at which execution takes place at the next step.
    fn get_execution_address(&mut self) -> Result<Address, Self::DebugError>;

    /// Sets the address at which execution takes place at the next step.
    fn set_execution_address(&mut self, address: Address) -> Result<(), Self::DebugError>;

    /// Adds a breakpoint at `address`.
    fn add_breakpoint(&mut self, address: Address);

    /// Removes the breakpoint at `address`.
    fn remove_breakpoint(&mut self, address: Address);

    /// Removes every breakpoint.
    fn clear_breakpoints(&mut self);
}

} // verus!
