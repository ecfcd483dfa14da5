//! Reading from and writing to a device at an address, at an instant of
//! simulated time.
//!
//! A device offers two primitives, `read` and `write`, on byte buffers. What a
//! device does on a transfer is its own affair; the trait records it as a
//! relation between the device before the transfer, the arguments, and the
//! device, buffer and result after it. The typed accessors for 8, 16, 32 and
//! 64-bit values are defined on top of the two primitives and of the byte-order
//! arithmetic of [`crate::bytes`], and on nothing else.

use crate::bytes::{
    be_bytes,
    be_value,
    bytes_in,
    le_bytes,
    le_value,
    value_in,
    zeros,
    ByteOrder,
    u16_from_be_bytes,
    u16_from_le_bytes,
    u16_to_be_bytes,
    u16_to_le_bytes,
    u32_from_be_bytes,
    u32_from_le_bytes,
    u32_to_be_bytes,
    u32_to_le_bytes,
    u64_from_be_bytes,
    u64_from_le_bytes,
    u64_to_be_bytes,
    u64_to_le_bytes,
};
use crate::time::Instant;
use core::convert::Infallible;
use core::fmt::Debug;
use vstd::prelude::*;

verus! {

/// What went wrong in a bus transaction. An error needs only to be printable
/// for debugging.
pub trait Error: Debug {}

impl Error for Infallible {}

/// A small ready-made error type for bus transactions.
#[derive(Debug)]
#[non_exhaustive]
pub enum BasicBusError {
    /// A write was asked of a target that is read-only.
    ReadOnly,
    /// No device is mapped at the address, so nothing can be transferred.
    UnmappedAddress,
    /// Some other kind of error, with the cause that a device wishes to
    /// surface: any value that can be printed for debugging, as every
    /// [`Error`] can.
    Other(Box<dyn Debug>),
}

impl Error for BasicBusError {}

/// What a typed accessor returns: `value` where the transfer succeeded,
/// whatever count the device reported, and the device's error where it failed.
pub open spec fn outcome<T, E>(raw: Result<usize, E>, value: T) -> Result<T, E> {
    match raw {
        Ok(_) => Ok(value),
        Err(e) => Err(e),
    }
}

/// A device that can be addressed to read data from it or write data to it.
///
/// This stands for a peripheral, or for a bus of several devices, as a
/// controller such as a CPU sees it. An address may be a single number, or a
/// value that names one of several address spaces.
pub trait BusAccess<Address> where Address: Copy {
    /// The instant in simulated time at which a transfer takes place.
    type Instant: Instant;

    /// The error that a failed transfer returns.
    type Error: Error;

    /// Whether the device is in a state in which it can be accessed. A device
    /// that states nothing can always be accessed.
    open spec fn wf(&self) -> bool {
        true
    }

    /// Whether a read at `addr` at time `now`, into a buffer that held
    /// `before`, may leave the device as `post` and the buffer as `after`, and
    /// return `r`.
    open spec fn read_spec(
        &self,
        now: Self::Instant,
        addr: Address,
        before: Seq<u8>,
        post: &Self,
        after: Seq<u8>,
        r: Result<usize, Self::Error>,
    ) -> bool {
        true
    }

    /// Whether a write of `data` at `addr` at time `now` may leave the device
    /// as `post` and return `r`.
    open spec fn write_spec(
        &self,
        now: Self::Instant,
        addr: Address,
        data: Seq<u8>,
        post: &Self,
        r: Result<usize, Self::Error>,
    ) -> bool {
        true
    }

    /// Reads up to `data.len()` bytes from the device at `addr`, at time `now`.
    ///
    /// Returns the number of bytes transferred, which is at most the length of
    /// the buffer and may be zero where nothing is mapped.
    fn read(&mut self, now: Self::Instant, addr: Address, data: &mut [u8]) -> (r: Result<
        usize,
        Self::Error,
    >)
        requires
            (*old(self)).wf(),
        ensures
            (*final(self)).wf(),
            final(data)@.len() == old(data)@.len(),
            r matches Ok(n) ==> n <= old(data)@.len(),
            (*old(self)).read_spec(now, addr, old(data)@, &*final(self), final(data)@, r),
    ;

    /// Writes up to `data.len()` bytes to the device at `addr`, at time `now`.
    ///
    /// Returns the number of bytes transferred, which is at most the length of
    /// the buffer and may be zero where nothing was written.
    fn write(&mut self, now: Self::Instant, addr: Address, data: &[u8]) -> (r: Result<
        usize,
        Self::Error,
    >)
        requires
            (*old(self)).wf(),
        ensures
            (*final(self)).wf(),
            r matches Ok(n) ==> n <= data@.len(),
            (*old(self)).write_spec(now, addr, data@, &*final(self), r),
    ;

    /// Reads a single byte at `addr`.
    #[inline]
    fn read_u8(&mut self, now: Self::Instant, addr: Address) -> (r: Result<u8, Self::Error>)
        requires
            (*old(self)).wf(),
        ensures
            (*final(self)).wf(),
            exists|after: Seq<u8>, raw: Result<usize, Self::Error>|
                #[trigger] (*old(self)).read_spec(now, addr, zeros(1), &*final(self), after, raw)
                    && after.len() == 1 && r == outcome(raw, after[0]),
    {
        let mut data = [0u8];
        assert(data@ =~= zeros(1));
        match self.read(now, addr, &mut data) {
            Ok(_) => Ok(data[0]),
            Err(e) => Err(e),
        }
    }

    /// Reads a `u16` at `addr`, in big-endian byte order.
    #[inline]
    fn read_beu16(&mut self, now: Self::Instant, addr: Address) -> (r: Result<u16, Self::Error>)
        requires
            (*old(self)).wf(),
        ensures
            (*final(self)).wf(),
            exists|after: Seq<u8>, raw: Result<usize, Self::Error>|
                #[trigger] (*old(self)).read_spec(now, addr, zeros(2), &*final(self), after, raw)
                    && after.len() == 2 && r == outcome(raw, be_value(after) as u16),
    {
        let mut data = [0u8, 0u8];
        assert(data@ =~= zeros(2));
        match self.read(now, addr, &mut data) {
            Ok(_) => Ok(u16_from_be_bytes(data)),
            Err(e) => Err(e),
        }
    }

    /// Reads a `u16` at `addr`, in little-endian byte order.
    #[inline]
    fn read_leu16(&mut self, now: Self::Instant, addr: Address) -> (r: Result<u16, Self::Error>)
        requires
            (*old(self)).wf(),
        ensures
            (*final(self)).wf(),
            exists|after: Seq<u8>, raw: Result<usize, Self::Error>|
                #[trigger] (*old(self)).read_spec(now, addr, zeros(2), &*final(self), after, raw)
                    && after.len() == 2 && r == outcome(raw, le_value(after) as u16),
    {
        let mut data = [0u8, 0u8];
        assert(data@ =~= zeros(2));
        match self.read(now, addr, &mut data) {
            Ok(_) => Ok(u16_from_le_bytes(data)),
            Err(e) => Err(e),
        }
    }

    /// Reads a `u16` at `addr`, in the byte order `order`.
    #[inline]
    fn read_u16(&mut self, order: ByteOrder, now: Self::Instant, addr: Address) -> (r: Result<
        u16,
        Self::Error,
    >)
        requires
            (*old(self)).wf(),
        ensures
            (*final(self)).wf(),
            exists|after: Seq<u8>, raw: Result<usize, Self::Error>|
                #[trigger] (*old(self)).read_spec(now, addr, zeros(2), &*final(self), after, raw)
                    && after.len() == 2 && r == outcome(raw, value_in(order, after) as u16),
    {
        match order {
            ByteOrder::Little => self.read_leu16(now, addr),
            ByteOrder::Big => self.read_beu16(now, addr),
        }
    }

    /// Reads a `u32` at `addr`, in big-endian byte order.
    #[inline]
    fn read_beu32(&mut self, now: Self::Instant, addr: Address) -> (r: Result<u32, Self::Error>)
        requires
            (*old(self)).wf(),
        ensures
            (*final(self)).wf(),
            exists|after: Seq<u8>, raw: Result<usize, Self::Error>|
                #[trigger] (*old(self)).read_spec(now, addr, zeros(4), &*final(self), after, raw)
                    && after.len() == 4 && r == outcome(raw, be_value(after) as u32),
    {
        let mut data = [0u8, 0u8, 0u8, 0u8];
        assert(data@ =~= zeros(4));
        match self.read(now, addr, &mut data) {
            Ok(_) => Ok(u32_from_be_bytes(data)),
            Err(e) => Err(e),
        }
    }

    /// Reads a `u32` at `addr`, in little-endian byte order.
    #[inline]
    fn read_leu32(&mut self, now: Self::Instant, addr: Address) -> (r: Result<u32, Self::Error>)
        requires
            (*old(self)).wf(),
        ensures
            (*final(self)).wf(),
            exists|after: Seq<u8>, raw: Result<usize, Self::Error>|
                #[trigger] (*old(self)).read_spec(now, addr, zeros(4), &*final(self), after, raw)
                    && after.len() == 4 && r == outcome(raw, le_value(after) as u32),
    {
        let mut data = [0u8, 0u8, 0u8, 0u8];
        assert(data@ =~= zeros(4));
        match self.read(now, addr, &mut data) {
            Ok(_) => Ok(u32_from_le_bytes(data)),
            Err(e) => Err(e),
        }
    }

    /// Reads a `u32` at `addr`, in the byte order `order`.
    #[inline]
    fn read_u32(&mut self, order: ByteOrder, now: Self::Instant, addr: Address) -> (r: Result<
        u32,
        Self::Error,
    >)
        requires
            (*old(self)).wf(),
        ensures
            (*final(self)).wf(),
            exists|after: Seq<u8>, raw: Result<usize, Self::Error>|
                #[trigger] (*old(self)).read_spec(now, addr, zeros(4), &*final(self), after, raw)
                    && after.len() == 4 && r == outcome(raw, value_in(order, after) as u32),
    {
        match order {
            ByteOrder::Little => self.read_leu32(now, addr),
            ByteOrder::Big => self.read_beu32(now, addr),
        }
    }

    /// Reads a `u64` at `addr`, in big-endian byte order.
    #[inline]
    fn read_beu64(&mut self, now: Self::Instant, addr: Address) -> (r: Result<u64, Self::Error>)
        requires
            (*old(self)).wf(),
        ensures
            (*final(self)).wf(),
            exists|after: Seq<u8>, raw: Result<usize, Self::Error>|
                #[trigger] (*old(self)).read_spec(now, addr, zeros(8), &*final(self), after, raw)
                    && after.len() == 8 && r == outcome(raw, be_value(after) as u64),
    {
        let mut data = [0u8, 0u8, 0u8, 0u8, 0u8, 0u8, 0u8, 0u8];
        assert(data@ =~= zeros(8));
        match self.read(now, addr, &mut data) {
            Ok(_) => Ok(u64_from_be_bytes(data)),
            Err(e) => Err(e),
        }
    }

    /// Reads a `u64` at `addr`, in little-endian byte order.
    #[inline]
    fn read_leu64(&mut self, now: Self::Instant, addr: Address) -> (r: Result<u64, Self::Error>)
        requires
            (*old(self)).wf(),
        ensures
            (*final(self)).wf(),
            exists|after: Seq<u8>, raw: Result<usize, Self::Error>|
                #[trigger] (*old(self)).read_spec(now, addr, zeros(8), &*final(self), after, raw)
                    && after.len() == 8 && r == outcome(raw, le_value(after) as u64),
    {
        let mut data = [0u8, 0u8, 0u8, 0u8, 0u8, 0u8, 0u8, 0u8];
        assert(data@ =~= zeros(8));
        match self.read(now, addr, &mut data) {
            Ok(_) => Ok(u64_from_le_bytes(data)),
            Err(e) => Err(e),
        }
    }

    /// Reads a `u64` at `addr`, in the byte order `order`.
    #[inline]
    fn read_u64(&mut self, order: ByteOrder, now: Self::Instant, addr: Address) -> (r: Result<
        u64,
        Self::Error,
    >)
        requires
            (*old(self)).wf(),
        ensures
            (*final(self)).wf(),
            exists|after: Seq<u8>, raw: Result<usize, Self::Error>|
                #[trigger] (*old(self)).read_spec(now, addr, zeros(8), &*final(self), after, raw)
                    && after.len() == 8 && r == outcome(raw, value_in(order, after) as u64),
    {
        match order {
            ByteOrder::Little => self.read_leu64(now, addr),
            ByteOrder::Big => self.read_beu64(now, addr),
        }
    }

    /// Writes the single byte `value` at `addr`.
    #[inline]
    fn write_u8(&mut self, now: Self::Instant, addr: Address, value: u8) -> (r: Result<
        (),
        Self::Error,
    >)
        requires
            (*old(self)).wf(),
        ensures
            (*final(self)).wf(),
            exists|raw: Result<usize, Self::Error>|
                #[trigger] (*old(self)).write_spec(now, addr, seq![value], &*final(self), raw)
                    && r == outcome(raw, ()),
    {
        let data = [value];
        assert(data@ =~= seq![value]);
        match self.write(now, addr, &data) {
            Ok(_) => Ok(()),
            Err(e) => Err(e),
        }
    }

    /// Writes `value` at `addr`, in big-endian byte order.
    #[inline]
    fn write_beu16(&mut self, now: Self::Instant, addr: Address, value: u16) -> (r: Result<
        (),
        Self::Error,
    >)
        requires
            (*old(self)).wf(),
        ensures
            (*final(self)).wf(),
            exists|raw: Result<usize, Self::Error>|
                #[trigger] (*old(self)).write_spec(
                    now,
                    addr,
                    be_bytes(value as nat, 2),
                    &*final(self),
                    raw,
                ) && r == outcome(raw, ()),
    {
        let data = u16_to_be_bytes(value);
        match self.write(now, addr, &data) {
            Ok(_) => Ok(()),
            Err(e) => Err(e),
        }
    }

    /// Writes `value` at `addr`, in little-endian byte order.
    #[inline]
    fn write_leu16(&mut self, now: Self::Instant, addr: Address, value: u16) -> (r: Result<
        (),
        Self::Error,
    >)
        requires
            (*old(self)).wf(),
        ensures
            (*final(self)).wf(),
            exists|raw: Result<usize, Self::Error>|
                #[trigger] (*old(self)).write_spec(
                    now,
                    addr,
                    le_bytes(value as nat, 2),
                    &*final(self),
                    raw,
                ) && r == outcome(raw, ()),
    {
        let data = u16_to_le_bytes(value);
        match self.write(now, addr, &data) {
            Ok(_) => Ok(()),
            Err(e) => Err(e),
        }
    }

    /// Writes `value` at `addr`, in the byte order `order`.
    #[inline]
    fn write_u16(
        &mut self,
        order: ByteOrder,
        now: Self::Instant,
        addr: Address,
        value: u16,
    ) -> (r: Result<(), Self::Error>)
        requires
            (*old(self)).wf(),
        ensures
            (*final(self)).wf(),
            exists|raw: Result<usize, Self::Error>|
                #[trigger] (*old(self)).write_spec(
                    now,
                    addr,
                    bytes_in(order, value as nat, 2),
                    &*final(self),
                    raw,
                ) && r == outcome(raw, ()),
    {
        match order {
            ByteOrder::Little => {
                assert(bytes_in(order, value as nat, 2) == le_bytes(value as nat, 2));
                self.write_leu16(now, addr, value)
            },
            ByteOrder::Big => {
                assert(bytes_in(order, value as nat, 2) == be_bytes(value as nat, 2));
                self.write_beu16(now, addr, value)
            },
        }
    }

    /// Writes `value` at `addr`, in big-endian byte order.
    #[inline]
    fn write_beu32(&mut self, now: Self::Instant, addr: Address, value: u32) -> (r: Result<
        (),
        Self::Error,
    >)
        requires
            (*old(self)).wf(),
        ensures
            (*final(self)).wf(),
            exists|raw: Result<usize, Self::Error>|
                #[trigger] (*old(self)).write_spec(
                    now,
                    addr,
                    be_bytes(value as nat, 4),
                    &*final(self),
                    raw,
                ) && r == outcome(raw, ()),
    {
        let data = u32_to_be_bytes(value);
        match self.write(now, addr, &data) {
            Ok(_) => Ok(()),
            Err(e) => Err(e),
        }
    }

    /// Writes `value` at `addr`, in little-endian byte order.
    #[inline]
    fn write_leu32(&mut self, now: Self::Instant, addr: Address, value: u32) -> (r: Result<
        (),
        Self::Error,
    >)
        requires
            (*old(self)).wf(),
        ensures
            (*final(self)).wf(),
            exists|raw: Result<usize, Self::Error>|
                #[trigger] (*old(self)).write_spec(
                    now,
                    addr,
                    le_bytes(value as nat, 4),
                    &*final(self),
                    raw,
                ) && r == outcome(raw, ()),
    {
        let data = u32_to_le_bytes(value);
        match self.write(now, addr, &data) {
            Ok(_) => Ok(()),
            Err(e) => Err(e),
        }
    }

    /// Writes `value` at `addr`, in the byte order `order`.
    #[inline]
    fn write_u32(
        &mut self,
        order: ByteOrder,
        now: Self::Instant,
        addr: Address,
        value: u32,
    ) -> (r: Result<(), Self::Error>)
        requires
            (*old(self)).wf(),
        ensures
            (*final(self)).wf(),
            exists|raw: Result<usize, Self::Error>|
                #[trigger] (*old(self)).write_spec(
                    now,
                    addr,
                    bytes_in(order, value as nat, 4),
                    &*final(self),
                    raw,
                ) && r == outcome(raw, ()),
    {
        match order {
            ByteOrder::Little => {
                assert(bytes_in(order, value as nat, 4) == le_bytes(value as nat, 4));
                self.write_leu32(now, addr, value)
            },
            ByteOrder::Big => {
                assert(bytes_in(order, value as nat, 4) == be_bytes(value as nat, 4));
                self.write_beu32(now, addr, value)
            },
        }
    }

    /// Writes `value` at `addr`, in big-endian byte order.
    #[inline]
    fn write_beu64(&mut self, now: Self::Instant, addr: Address, value: u64) -> (r: Result<
        (),
        Self::Error,
    >)
        requires
            (*old(self)).wf(),
        ensures
            (*final(self)).wf(),
            exists|raw: Result<usize, Self::Error>|
                #[trigger] (*old(self)).write_spec(
                    now,
                    addr,
                    be_bytes(value as nat, 8),
                    &*final(self),
                    raw,
                ) && r == outcome(raw, ()),
    {
        let data = u64_to_be_bytes(value);
        match self.write(now, addr, &data) {
            Ok(_) => Ok(()),
            Err(e) => Err(e),
        }
    }

    /// Writes `value` at `addr`, in little-endian byte order.
    #[inline]
    fn write_leu64(&mut self, now: Self::Instant, addr: Address, value: u64) -> (r: Result<
        (),
        Self::Error,
    >)
        requires
            (*old(self)).wf(),
        ensures
            (*final(self)).wf(),
            exists|raw: Result<usize, Self::Error>|
                #[trigger] (*old(self)).write_spec(
                    now,
                    addr,
                    le_bytes(value as nat, 8),
                    &*final(self),
                    raw,
                ) && r == outcome(raw, ()),
    {
        let data = u64_to_le_bytes(value);
        match self.write(now, addr, &data) {
            Ok(_) => Ok(()),
            Err(e) => Err(e),
        }
    }

    /// Writes `value` at `addr`, in the byte order `order`.
    #[inline]
    fn write_u64(
        &mut self,
        order: ByteOrder,
        now: Self::Instant,
        addr: Address,
        value: u64,
    ) -> (r: Result<(), Self::Error>)
        requires
            (*old(self)).wf(),
        ensures
            (*final(self)).wf(),
            exists|raw: Result<usize, Self::Error>|
                #[trigger] (*old(self)).write_spec(
                    now,
                    addr,
                    bytes_in(order, value as nat, 8),
                    &*final(self),
                    raw,
                ) && r == outcome(raw, ()),
    {
        match order {
            ByteOrder::Little => {
                assert(bytes_in(order, value as nat, 8) == le_bytes(value as nat, 8));
                self.write_leu64(now, addr, value)
            },
            ByteOrder::Big => {
                assert(bytes_in(order, value as nat, 8) == be_bytes(value as nat, 8));
                self.write_beu64(now, addr, value)
            },
        }
    }
}

impl<Address, T> BusAccess<Address> for &mut T where Address: Copy, T: BusAccess<Address> + ?Sized {
    type Instant = T::Instant;

    type Error = T::Error;

    open spec fn wf(&self) -> bool {
        (**self).wf()
    }

    open spec fn read_spec(
        &self,
        now: Self::Instant,
        addr: Address,
        before: Seq<u8>,
        post: &Self,
        after: Seq<u8>,
        r: Result<usize, Self::Error>,
    ) -> bool {
        (**self).read_spec(now, addr, before, &**post, after, r)
    }

    open spec fn write_spec(
        &self,
        now: Self::Instant,
        addr: Address,
        data: Seq<u8>,
        post: &Self,
        r: Result<usize, Self::Error>,
    ) -> bool {
        (**self).write_spec(now, addr, data, &**post, r)
    }

    #[inline]
    fn read(&mut self, now: Self::Instant, addr: Address, data: &mut [u8]) -> (r: Result<
        usize,
        T::Error,
    >) {
        T::read(self, now, addr, data)
    }

    #[inline]
    fn write(&mut self, now: Self::Instant, addr: Address, data: &[u8]) -> (r: Result<
        usize,
        T::Error,
    >) {
        T::write(self, now, addr, data)
    }
}

impl<Address, T> BusAccess<Address> for Box<T> where Address: Copy, T: BusAccess<Address> + ?Sized {
    type Instant = T::Instant;

    type Error = T::Error;

    open spec fn wf(&self) -> bool {
        (**self).wf()
    }

    open spec fn read_spec(
        &self,
        now: Self::Instant,
        addr: Address,
        before: Seq<u8>,
        post: &Self,
        after: Seq<u8>,
        r: Result<usize, Self::Error>,
    ) -> bool {
        (**self).read_spec(now, addr, before, &**post, after, r)
    }

    open spec fn write_spec(
        &self,
        now: Self::Instant,
        addr: Address,
        data: Seq<u8>,
        post: &Self,
        r: Result<usize, Self::Error>,
    ) -> bool {
        (**self).write_spec(now, addr, data, &**post, r)
    }

    #[inline]
    fn read(&mut self, now: Self::Instant, addr: Address, data: &mut [u8]) -> (r: Result<
        usize,
        T::Error,
    >) {
        T::read(self, now, addr, data)
    }

    #[inline]
    fn write(&mut self, now: Self::Instant, addr: Address, data: &[u8]) -> (r: Result<
        usize,
        T::Error,
    >) {
        T::write(self, now, addr, data)
    }
}

} // verus!
