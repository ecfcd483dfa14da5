//! A contiguous block of memory that answers bus reads and writes.

use crate::bus::{outcome, BasicBusError, BusAccess};
use crate::bytes::{
    bytes_in, lemma_bytes_len, lemma_limits, lemma_value_of_bytes, value_in, zeros, ByteOrder,
};
use crate::time::Instant;
use core::marker::PhantomData;
use vstd::prelude::*;
use vstd::std_specs::convert::TryIntoSpec;

verus! {

/// `base` with `data` laid over it from index `at` on. Bytes of `data` that
/// would fall outside `base` are dropped.
pub open spec fn overlay(base: Seq<u8>, at: int, data: Seq<u8>) -> Seq<u8> {
    Seq::new(
        base.len(),
        |j: int|
            if at <= j < at + data.len() {
                data[j - at]
            } else {
                base[j]
            },
    )
}

/// `bytes` cut or padded with zeros to the length `len`.
pub open spec fn resized(bytes: Seq<u8>, len: nat) -> Seq<u8> {
    Seq::new(
        len,
        |j: int|
            if j < bytes.len() {
                bytes[j]
            } else {
                0u8
            },
    )
}

/// Whether `index` may be what converting `addr` to an index gives: `None`
/// stands for a conversion that failed. Where the conversion of `Address` is
/// specified, it decides; where it is not, any outcome is possible.
pub open spec fn converts<Address: TryInto<usize>>(addr: Address, index: Option<usize>) -> bool {
    <Address as TryIntoSpec<usize>>::obeys_try_into_spec() ==> index == match addr.try_into_spec() {
        Ok(i) => Some(i),
        Err(_) => None::<usize>,
    }
}

/// A contiguous block of memory, backed by a `Vec`.
pub struct MemoryBlock<Time> {
    read_only: bool,
    contents: Vec<u8>,
    instant: PhantomData<Time>,
}

impl<Time> View for MemoryBlock<Time> {
    type V = Seq<u8>;

    /// The bytes that the block holds.
    closed spec fn view(&self) -> Seq<u8> {
        self.contents@
    }
}

impl<Time> MemoryBlock<Time> {
    /// Whether writes through the bus leave the block untouched.
    pub closed spec fn is_read_only(&self) -> bool {
        self.read_only
    }

    /// Whether `len` bytes from `index` on lie inside the block.
    pub open spec fn maps(&self, index: Option<usize>, len: nat) -> bool {
        index matches Some(i) && i + len <= self@.len()
    }

    /// What a read of `len` bytes at `index` returns.
    pub open spec fn read_result(&self, index: Option<usize>, len: nat) -> Result<
        usize,
        BasicBusError,
    > {
        if self.maps(index, len) {
            Ok(len as usize)
        } else {
            Err(BasicBusError::UnmappedAddress)
        }
    }

    /// What a buffer that held `before` holds after a read at `index`.
    pub open spec fn read_bytes(&self, index: Option<usize>, before: Seq<u8>) -> Seq<u8> {
        if self.maps(index, before.len()) {
            self@.subrange(index.unwrap() as int, index.unwrap() + before.len())
        } else {
            before
        }
    }

    /// What a write of `len` bytes at `index` returns.
    pub open spec fn write_result(&self, index: Option<usize>, len: nat) -> Result<
        usize,
        BasicBusError,
    > {
        if self.is_read_only() {
            Ok(0usize)
        } else if self.maps(index, len) {
            Ok(len as usize)
        } else {
            Err(BasicBusError::UnmappedAddress)
        }
    }

    /// What the block holds after a write of `data` at `index`.
    pub open spec fn written(&self, index: Option<usize>, data: Seq<u8>) -> Seq<u8> {
        if !self.is_read_only() && self.maps(index, data.len()) {
            overlay(self@, index.unwrap() as int, data)
        } else {
            self@
        }
    }

    /// Makes a writable memory block of the bytes of `contents`.
    pub fn from(contents: Vec<u8>) -> (block: Self)
        ensures
            block@ == contents@,
            !block.is_read_only(),
    {
        MemoryBlock { read_only: false, contents, instant: PhantomData }
    }

    /// Makes this memory block read-only.
    pub fn read_only(&mut self)
        ensures
            final(self).is_read_only(),
            final(self)@ == old(self)@,
    {
        self.read_only = true;
    }

    /// Resizes the block to `new_size` bytes: bytes past the new size are
    /// dropped, and new bytes are zero.
    pub fn resize(&mut self, new_size: usize)
        ensures
            final(self)@ == resized(old(self)@, new_size as nat),
            final(self).is_read_only() == old(self).is_read_only(),
    {
        self.contents.resize(new_size, 0);
        assert(self.contents@ =~= resized(old(self)@, new_size as nat));
    }

    /// The number of bytes in the block.
    pub fn len(&self) -> (len: usize)
        ensures
            len == self@.len(),
    {
        self.contents.len()
    }

    /// Copies `bytes` into the block from index `addr` on, whether or not the
    /// block is read-only to the bus. The block must already be large enough.
    pub fn load_bytes_at(&mut self, addr: usize, bytes: &[u8])
        requires
            addr + bytes@.len() <= old(self)@.len(),
        ensures
            final(self)@ == overlay(old(self)@, addr as int, bytes@),
            final(self).is_read_only() == old(self).is_read_only(),
    {
        let len = bytes.len();
        let size = self.contents.len();
        let mut k: usize = 0;
        while k < len
            invariant
                len == bytes@.len(),
                k <= len,
                addr + len <= size,
                size == old(self)@.len(),
                self.contents@ == overlay(old(self)@, addr as int, bytes@.take(k as int)),
                self.read_only == old(self).read_only,
            decreases len - k,
        {
            self.contents[addr + k] = bytes[k];
            k += 1;
            assert(self.contents@ =~= overlay(old(self)@, addr as int, bytes@.take(k as int)));
        }
        assert(bytes@.take(len as int) =~= bytes@);
    }

    /// Reads `data.len()` bytes from the block at `index`, where `None` stands
    /// for an address that names no index. Either the whole buffer is filled,
    /// or the range is not inside the block: then the buffer is left as it was
    /// and the address is reported as unmapped.
    pub fn read_at(&self, index: Option<usize>, data: &mut [u8]) -> (r: Result<
        usize,
        BasicBusError,
    >)
        ensures
            r == self.read_result(index, old(data)@.len()),
            final(data)@ == self.read_bytes(index, old(data)@),
    {
        let len = data.len();
        let size = self.contents.len();
        match index {
            Some(at) => {
                if at <= size && len <= size - at {
                    let mut k: usize = 0;
                    while k < len
                        invariant
                            len == data@.len(),
                            size == self.contents@.len(),
                            k <= len,
                            at + len <= size,
                            forall|j: int| 0 <= j < k ==> data@[j] == self.contents@[at + j],
                        decreases len - k,
                    {
                        data[k] = self.contents[at + k];
                        k += 1;
                    }
                    assert(data@ =~= self@.subrange(at as int, at + len));
                    Ok(len)
                } else {
                    Err(BasicBusError::UnmappedAddress)
                }
            },
            None => Err(BasicBusError::UnmappedAddress),
        }
    }

    /// Writes `data` into the block at `index`, where `None` stands for an
    /// address that names no index. A read-only block reports zero bytes
    /// written, whatever the address, and stays as it was. Otherwise either all
    /// of `data` is written, or the range is not inside the block: then the
    /// block is left as it was and the address is reported as unmapped.
    pub fn write_at(&mut self, index: Option<usize>, data: &[u8]) -> (r: Result<
        usize,
        BasicBusError,
    >)
        ensures
            r == old(self).write_result(index, data@.len()),
            final(self)@ == old(self).written(index, data@),
            final(self).is_read_only() == old(self).is_read_only(),
    {
        if self.read_only {
            return Ok(0);
        }
        let len = data.len();
        let size = self.contents.len();
        match index {
            Some(at) => {
                if at <= size && len <= size - at {
                    self.load_bytes_at(at, data);
                    Ok(len)
                } else {
                    Err(BasicBusError::UnmappedAddress)
                }
            },
            None => Err(BasicBusError::UnmappedAddress),
        }
    }
}

impl<Address, Time> BusAccess<Address> for MemoryBlock<Time> where
    Address: TryInto<usize> + Copy,
    Time: Instant,
 {
    type Instant = Time;

    type Error = BasicBusError;

    /// A memory block can always be accessed.
    open spec fn wf(&self) -> bool {
        true
    }

    /// A read converts the address to an index and copies the bytes from there
    /// on, as `read_at` does. The block itself stays as it is.
    open spec fn read_spec(
        &self,
        now: Time,
        addr: Address,
        before: Seq<u8>,
        post: &Self,
        after: Seq<u8>,
        r: Result<usize, BasicBusError>,
    ) -> bool {
        exists|index: Option<usize>|
            {
                &&& #[trigger] converts(addr, index)
                &&& r == self.read_result(index, before.len())
                &&& after == self.read_bytes(index, before)
                &&& post@ == self@
                &&& post.is_read_only() == self.is_read_only()
            }
    }

    /// A write to a read-only block does nothing. Otherwise it converts the
    /// address to an index and copies the bytes to there, as `write_at` does.
    open spec fn write_spec(
        &self,
        now: Time,
        addr: Address,
        data: Seq<u8>,
        post: &Self,
        r: Result<usize, BasicBusError>,
    ) -> bool {
        exists|index: Option<usize>|
            {
                &&& #[trigger] converts(addr, index)
                &&& r == self.write_result(index, data.len())
                &&& post@ == self.written(index, data)
                &&& post.is_read_only() == self.is_read_only()
            }
    }

    /// Copies `data.len()` bytes from the block at `addr` into `data`. An
    /// address that is out of range, or that converts to no index, gives the
    /// unmapped-address error and leaves the buffer as it was. The block is
    /// never changed.
    fn read(&mut self, _now: Time, addr: Address, data: &mut [u8]) -> (r: Result<
        usize,
        BasicBusError,
    >)
        ensures
            final(self)@ == old(self)@,
            final(self).is_read_only() == old(self).is_read_only(),
            unmapped(*old(self), addr, old(data)@.len()) ==> r == Err::<usize, BasicBusError>(
                BasicBusError::UnmappedAddress,
            ) && final(data)@ == old(data)@,
    {
        let index = match addr.try_into() {
            Ok(at) => Some(at),
            Err(_) => None,
        };
        assert(converts(addr, index));
        self.read_at(index, data)
    }

    /// Copies `data` into the block at `addr`. A read-only block reports zero
    /// bytes written and stays as it was, whatever the address and the data.
    /// On a writable block, an address that is out of range, or that converts
    /// to no index, gives the unmapped-address error and leaves the block as it
    /// was.
    fn write(&mut self, _now: Time, addr: Address, data: &[u8]) -> (r: Result<
        usize,
        BasicBusError,
    >)
        ensures
            final(self).is_read_only() == old(self).is_read_only(),
            old(self).is_read_only() ==> r == Ok::<usize, BasicBusError>(0) && final(self)@ == old(
                self,
            )@,
            !old(self).is_read_only() && unmapped(*old(self), addr, data@.len()) ==> r == Err::<
                usize,
                BasicBusError,
            >(BasicBusError::UnmappedAddress) && final(self)@ == old(self)@,
    {
        if self.read_only {
            let ghost index = match addr.try_into_spec() {
                Ok(at) => Some(at),
                Err(_) => None::<usize>,
            };
            assert(converts(addr, index));
            return Ok(0);
        }
        let index = match addr.try_into() {
            Ok(at) => Some(at),
            Err(_) => None,
        };
        assert(converts(addr, index));
        self.write_at(index, data)
    }
}

/// Whether `addr` stands for the index `at`: every conversion of it gives `at`.
pub open spec fn names<Address: TryInto<usize>>(addr: Address, at: usize) -> bool {
    forall|index: Option<usize>| #[trigger] converts(addr, index) ==> index == Some(at)
}

/// Whether no conversion of `addr` gives an index at which `len` bytes lie
/// inside `block`: the conversion fails, or the range runs past the end.
pub open spec fn unmapped<Address: TryInto<usize>, Time>(
    block: MemoryBlock<Time>,
    addr: Address,
    len: nat,
) -> bool {
    forall|index: Option<usize>| #[trigger] converts(addr, index) ==> !block.maps(index, len)
}

/// A write to a read-only block reports zero bytes written and leaves the
/// block as it was, whatever the address and the data.
pub proof fn lemma_read_only_write<Address, Time>(
    block: MemoryBlock<Time>,
    now: Time,
    addr: Address,
    data: Seq<u8>,
    post: MemoryBlock<Time>,
    r: Result<usize, BasicBusError>,
) where Address: TryInto<usize> + Copy, Time: Instant
    requires
        block.is_read_only(),
        block.write_spec(now, addr, data, &post, r),
    ensures
        r == Ok::<usize, BasicBusError>(0),
        post@ == block@,
        post.is_read_only(),
{
}

/// A read at an address that is out of range, or that converts to no index,
/// gives the unmapped-address error and leaves buffer and block as they were.
pub proof fn lemma_unmapped_read<Address, Time>(
    block: MemoryBlock<Time>,
    now: Time,
    addr: Address,
    before: Seq<u8>,
    post: MemoryBlock<Time>,
    after: Seq<u8>,
    r: Result<usize, BasicBusError>,
) where Address: TryInto<usize> + Copy, Time: Instant
    requires
        unmapped(block, addr, before.len()),
        block.read_spec(now, addr, before, &post, after, r),
    ensures
        r == Err::<usize, BasicBusError>(BasicBusError::UnmappedAddress),
        after == before,
        post@ == block@,
{
}

/// A write to a writable block at an address that is out of range, or that
/// converts to no index, gives the unmapped-address error and leaves the block
/// as it was.
pub proof fn lemma_unmapped_write<Address, Time>(
    block: MemoryBlock<Time>,
    now: Time,
    addr: Address,
    data: Seq<u8>,
    post: MemoryBlock<Time>,
    r: Result<usize, BasicBusError>,
) where Address: TryInto<usize> + Copy, Time: Instant
    requires
        !block.is_read_only(),
        unmapped(block, addr, data.len()),
        block.write_spec(now, addr, data, &post, r),
    ensures
        r == Err::<usize, BasicBusError>(BasicBusError::UnmappedAddress),
        post@ == block@,
{
}

/// Bytes written to a writable block inside its bounds are the bytes that a
/// read of the same length at the same address gives back.
pub proof fn lemma_write_then_read<Address, Time>(
    block: MemoryBlock<Time>,
    now: Time,
    addr: Address,
    at: usize,
    data: Seq<u8>,
    written: MemoryBlock<Time>,
    w: Result<usize, BasicBusError>,
    later: Time,
    before: Seq<u8>,
    post: MemoryBlock<Time>,
    after: Seq<u8>,
    r: Result<usize, BasicBusError>,
) where Address: TryInto<usize> + Copy, Time: Instant
    requires
        !block.is_read_only(),
        names(addr, at),
        at + data.len() <= block@.len(),
        before.len() == data.len(),
        block.write_spec(now, addr, data, &written, w),
        written.read_spec(later, addr, before, &post, after, r),
    ensures
        w == Ok::<usize, BasicBusError>(data.len() as usize),
        r == Ok::<usize, BasicBusError>(data.len() as usize),
        after == data,
        post@ == written@,
{
    assert(written@ == overlay(block@, at as int, data));
    assert(after =~= data);
}

/// A `u16` written to a writable block inside its bounds, in either byte
/// order, is the value that reading a `u16` at the same address in the
/// same order gives back.
pub proof fn lemma_round_trip_u16<Address, Time>(
    block: MemoryBlock<Time>,
    order: ByteOrder,
    now: Time,
    addr: Address,
    at: usize,
    value: u16,
    written: MemoryBlock<Time>,
    w: Result<(), BasicBusError>,
    later: Time,
    post: MemoryBlock<Time>,
    r: Result<u16, BasicBusError>,
) where Address: TryInto<usize> + Copy, Time: Instant
    requires
        !block.is_read_only(),
        names(addr, at),
        at + 2 <= block@.len(),
        exists|raw: Result<usize, BasicBusError>|
            #[trigger] block.write_spec(
                now,
                addr,
                bytes_in(order, value as nat, 2),
                &written,
                raw,
            ) && w == outcome(raw, ()),
        exists|after: Seq<u8>, raw: Result<usize, BasicBusError>|
            #[trigger] written.read_spec(later, addr, zeros(2), &post, after, raw) && after.len()
                == 2 && r == outcome(raw, value_in(order, after) as u16),
    ensures
        w == Ok::<(), BasicBusError>(()),
        r == Ok::<u16, BasicBusError>(value),
{
    lemma_limits();
    lemma_value_of_bytes(order, value as nat, 2);
    lemma_bytes_len(order, value as nat, 2);
    let data = bytes_in(order, value as nat, 2);
    let raw_w = choose|raw: Result<usize, BasicBusError>|
        #[trigger] block.write_spec(now, addr, data, &written, raw) && w == outcome(raw, ());
    let (after, raw_r) = choose|after: Seq<u8>, raw: Result<usize, BasicBusError>|
        #[trigger] written.read_spec(later, addr, zeros(2), &post, after, raw) && after.len()
            == 2 && r == outcome(raw, value_in(order, after) as u16);
    lemma_write_then_read(
        block,
        now,
        addr,
        at,
        data,
        written,
        raw_w,
        later,
        zeros(2),
        post,
        after,
        raw_r,
    );
}

/// A `u32` written to a writable block inside its bounds, in either byte
/// order, is the value that reading a `u32` at the same address in the
/// same order gives back.
pub proof fn lemma_round_trip_u32<Address, Time>(
    block: MemoryBlock<Time>,
    order: ByteOrder,
    now: Time,
    addr: Address,
    at: usize,
    value: u32,
    written: MemoryBlock<Time>,
    w: Result<(), BasicBusError>,
    later: Time,
    post: MemoryBlock<Time>,
    r: Result<u32, BasicBusError>,
) where Address: TryInto<usize> + Copy, Time: Instant
    requires
        !block.is_read_only(),
        names(addr, at),
        at + 4 <= block@.len(),
        exists|raw: Result<usize, BasicBusError>|
            #[trigger] block.write_spec(
                now,
                addr,
                bytes_in(order, value as nat, 4),
                &written,
                raw,
            ) && w == outcome(raw, ()),
        exists|after: Seq<u8>, raw: Result<usize, BasicBusError>|
            #[trigger] written.read_spec(later, addr, zeros(4), &post, after, raw) && after.len()
                == 4 && r == outcome(raw, value_in(order, after) as u32),
    ensures
        w == Ok::<(), BasicBusError>(()),
        r == Ok::<u32, BasicBusError>(value),
{
    lemma_limits();
    lemma_value_of_bytes(order, value as nat, 4);
    lemma_bytes_len(order, value as nat, 4);
    let data = bytes_in(order, value as nat, 4);
    let raw_w = choose|raw: Result<usize, BasicBusError>|
        #[trigger] block.write_spec(now, addr, data, &written, raw) && w == outcome(raw, ());
    let (after, raw_r) = choose|after: Seq<u8>, raw: Result<usize, BasicBusError>|
        #[trigger] written.read_spec(later, addr, zeros(4), &post, after, raw) && after.len()
            == 4 && r == outcome(raw, value_in(order, after) as u32);
    lemma_write_then_read(
        block,
        now,
        addr,
        at,
        data,
        written,
        raw_w,
        later,
        zeros(4),
        post,
        after,
        raw_r,
    );
}

/// A `u64` written to a writable block inside its bounds, in either byte
/// order, is the value that reading a `u64` at the same address in the
/// same order gives back.
pub proof fn lemma_round_trip_u64<Address, Time>(
    block: MemoryBlock<Time>,
    order: ByteOrder,
    now: Time,
    addr: Address,
    at: usize,
    value: u64,
    written: MemoryBlock<Time>,
    w: Result<(), BasicBusError>,
    later: Time,
    post: MemoryBlock<Time>,
    r: Result<u64, BasicBusError>,
) where Address: TryInto<usize> + Copy, Time: Instant
    requires
        !block.is_read_only(),
        names(addr, at),
        at + 8 <= block@.len(),
        exists|raw: Result<usize, BasicBusError>|
            #[trigger] block.write_spec(
                now,
                addr,
                bytes_in(order, value as nat, 8),
                &written,
                raw,
            ) && w == outcome(raw, ()),
        exists|after: Seq<u8>, raw: Result<usize, BasicBusError>|
            #[trigger] written.read_spec(later, addr, zeros(8), &post, after, raw) && after.len()
                == 8 && r == outcome(raw, value_in(order, after) as u64),
    ensures
        w == Ok::<(), BasicBusError>(()),
        r == Ok::<u64, BasicBusError>(value),
{
    lemma_limits();
    lemma_value_of_bytes(order, value as nat, 8);
    lemma_bytes_len(order, value as nat, 8);
    let data = bytes_in(order, value as nat, 8);
    let raw_w = choose|raw: Result<usize, BasicBusError>|
        #[trigger] block.write_spec(now, addr, data, &written, raw) && w == outcome(raw, ());
    let (after, raw_r) = choose|after: Seq<u8>, raw: Result<usize, BasicBusError>|
        #[trigger] written.read_spec(later, addr, zeros(8), &post, after, raw) && after.len()
            == 8 && r == outcome(raw, value_in(order, after) as u64);
    lemma_write_then_read(
        block,
        now,
        addr,
        at,
        data,
        written,
        raw_w,
        later,
        zeros(8),
        post,
        after,
        raw_r,
    );
}

/// A byte written to a writable block inside its bounds is the byte that a
/// read at the same address gives back.
pub proof fn lemma_round_trip_u8<Address, Time>(
    block: MemoryBlock<Time>,
    now: Time,
    addr: Address,
    at: usize,
    value: u8,
    written: MemoryBlock<Time>,
    w: Result<(), BasicBusError>,
    later: Time,
    post: MemoryBlock<Time>,
    r: Result<u8, BasicBusError>,
) where Address: TryInto<usize> + Copy, Time: Instant
    requires
        !block.is_read_only(),
        names(addr, at),
        at + 1 <= block@.len(),
        exists|raw: Result<usize, BasicBusError>|
            #[trigger] block.write_spec(now, addr, seq![value], &written, raw) && w == outcome(
                raw,
                (),
            ),
        exists|after: Seq<u8>, raw: Result<usize, BasicBusError>|
            #[trigger] written.read_spec(later, addr, zeros(1), &post, after, raw) && after.len()
                == 1 && r == outcome(raw, after[0]),
    ensures
        w == Ok::<(), BasicBusError>(()),
        r == Ok::<u8, BasicBusError>(value),
{
    let data = seq![value];
    let raw_w = choose|raw: Result<usize, BasicBusError>|
        #[trigger] block.write_spec(now, addr, data, &written, raw) && w == outcome(raw, ());
    let (after, raw_r) = choose|after: Seq<u8>, raw: Result<usize, BasicBusError>|
        #[trigger] written.read_spec(later, addr, zeros(1), &post, after, raw) && after.len() == 1
            && r == outcome(raw, after[0]);
    lemma_write_then_read(
        block,
        now,
        addr,
        at,
        data,
        written,
        raw_w,
        later,
        zeros(1),
        post,
        after,
        raw_r,
    );
}

} // verus!
