//! Adapters that translate the address and the error type of a bus.

use crate::bus::{BusAccess, Error};
use core::marker::PhantomData;
use vstd::prelude::*;
use vstd::std_specs::convert::FromSpec;

verus! {

/// Translates an address of one address space into one of another.
pub trait FromAddress<T>: Sized {
    /// Whether `out` may be the address of this space that `address` stands
    /// for. A translation that states nothing may give any address.
    open spec fn translates(address: T, out: Self) -> bool {
        true
    }

    /// Translates `address` into an address of type `Self`.
    fn from_address(address: T) -> (out: Self)
        ensures
            Self::translates(address, out),
    ;
}

/// Translates an address of one address space into one of another.
pub trait IntoAddress<T>: Sized {
    /// Whether `out` may be the address of the space `T` that `self` stands
    /// for. A translation that states nothing may give any address.
    open spec fn translates_into(self, out: T) -> bool {
        true
    }

    /// Translates `self` into an address of type `T`.
    fn into_address(self) -> (out: T)
        ensures
            self.translates_into(out),
    ;
}

impl<T, S> IntoAddress<T> for S where T: FromAddress<S> {
    /// An address goes into the space `T` as `T` takes it from this space.
    open spec fn translates_into(self, out: T) -> bool {
        T::translates(self, out)
    }

    fn into_address(self) -> (out: T) {
        let out = T::from_address(self);
        assert(<S as IntoAddress<T>>::translates_into(self, out) == T::translates(self, out));
        out
    }
}

/// Whether `out` may be what converting the error `e` gives. Where the
/// conversion is specified, it decides; where it is not, any outcome is
/// possible.
pub open spec fn error_maps<In, Out: From<In>>(e: In, out: Out) -> bool {
    <Out as FromSpec<In>>::obeys_from_spec() ==> out == <Out as FromSpec<In>>::from_spec(e)
}

/// Whether `r` is the result `raw` of an inner transfer with its error, if
/// any, converted. A count passes through unchanged, and an error stays an
/// error.
pub open spec fn result_maps<In, Out: From<In>>(
    raw: Result<usize, In>,
    r: Result<usize, Out>,
) -> bool {
    match raw {
        Ok(n) => r == Ok::<usize, Out>(n),
        Err(e) => r matches Err(out) && error_maps(e, out),
    }
}

/// Whether `translate` can be called on every address.
pub open spec fn total<AddressIn, AddressOut, Translate: Fn(AddressIn) -> AddressOut>(
    translate: Translate,
) -> bool {
    forall|addr: AddressIn| call_requires(translate, (addr,))
}

/// Whether `translate` takes `addr` to `target` and to nothing else.
pub open spec fn takes<AddressIn, AddressOut, Translate: Fn(AddressIn) -> AddressOut>(
    translate: Translate,
    addr: AddressIn,
    target: AddressOut,
) -> bool {
    forall|out: AddressOut| call_ensures(translate, (addr,), out) ==> out == target
}

/// An adapter that applies an address translation before it accesses a wrapped
/// bus.
///
/// The adapter takes addresses of type `AddressIn`, applies `translate` to get
/// an address of type `AddressOut`, hands the transfer on to the wrapped bus at
/// that address, and converts an error that comes back into `ErrorOut`. It
/// neither retries nor swallows an error, and passes the count through.
#[verifier::reject_recursive_types(AddressIn)]
#[verifier::reject_recursive_types(AddressOut)]
#[verifier::reject_recursive_types(Bus)]
#[verifier::reject_recursive_types(ErrorOut)]
#[verifier::reject_recursive_types(Translate)]
pub struct BusAdapter<AddressIn, AddressOut, Bus, ErrorOut, Translate> where
    AddressIn: Copy,
    AddressOut: Copy,
    Bus: BusAccess<AddressOut>,
    ErrorOut: From<Bus::Error>,
    Translate: Fn(AddressIn) -> AddressOut,
 {
    /// The bus that this adapter wraps.
    pub inner: Bus,
    /// The translation applied to every address.
    pub translate: Translate,
    /// Marks the type of the addresses that the adapter takes.
    pub address_in: PhantomData<AddressIn>,
    /// Marks the type of the addresses that the wrapped bus takes.
    pub address_out: PhantomData<AddressOut>,
    /// Marks the type of the errors that the adapter returns.
    pub error_out: PhantomData<ErrorOut>,
}

impl<AddressIn, AddressOut, Bus, ErrorOut, Translate> BusAdapter<
    AddressIn,
    AddressOut,
    Bus,
    ErrorOut,
    Translate,
> where
    AddressIn: Copy,
    AddressOut: Copy,
    Bus: BusAccess<AddressOut>,
    ErrorOut: From<Bus::Error>,
    Translate: Fn(AddressIn) -> AddressOut,
 {
    /// Makes an adapter for the bus `inner` that translates addresses with
    /// `translate`.
    pub fn new(inner: Bus, translate: Translate) -> (adapter: Self)
        ensures
            adapter.inner == inner,
            adapter.translate == translate,
    {
        Self {
            inner,
            translate,
            address_in: PhantomData,
            address_out: PhantomData,
            error_out: PhantomData,
        }
    }
}

impl<AddressIn, AddressOut, Bus, ErrorOut, Translate> BusAccess<AddressIn> for BusAdapter<
    AddressIn,
    AddressOut,
    Bus,
    ErrorOut,
    Translate,
> where
    AddressIn: Copy,
    AddressOut: Copy,
    Bus: BusAccess<AddressOut>,
    ErrorOut: Error + From<Bus::Error>,
    Translate: Fn(AddressIn) -> AddressOut,
 {
    type Instant = Bus::Instant;

    type Error = ErrorOut;

    /// The wrapped bus can be accessed, and every address can be translated.
    open spec fn wf(&self) -> bool {
        &&& self.inner.wf()
        &&& total(self.translate)
    }

    /// A read through the adapter at `addr` is a read of the wrapped bus at an
    /// address that `translate` gives for `addr`, with the error converted.
    open spec fn read_spec(
        &self,
        now: Bus::Instant,
        addr: AddressIn,
        before: Seq<u8>,
        post: &Self,
        after: Seq<u8>,
        r: Result<usize, ErrorOut>,
    ) -> bool {
        &&& post.translate == self.translate
        &&& exists|inner_addr: AddressOut, raw: Result<usize, Bus::Error>|
            {
                &&& call_ensures(self.translate, (addr,), inner_addr)
                &&& #[trigger] self.inner.read_spec(
                    now,
                    inner_addr,
                    before,
                    &post.inner,
                    after,
                    raw,
                )
                &&& result_maps(raw, r)
            }
    }

    /// A write through the adapter at `addr` is a write to the wrapped bus at
    /// an address that `translate` gives for `addr`, with the error converted.
    open spec fn write_spec(
        &self,
        now: Bus::Instant,
        addr: AddressIn,
        data: Seq<u8>,
        post: &Self,
        r: Result<usize, ErrorOut>,
    ) -> bool {
        &&& post.translate == self.translate
        &&& exists|inner_addr: AddressOut, raw: Result<usize, Bus::Error>|
            {
                &&& call_ensures(self.translate, (addr,), inner_addr)
                &&& #[trigger] self.inner.write_spec(now, inner_addr, data, &post.inner, raw)
                &&& result_maps(raw, r)
            }
    }

    #[inline]
    fn read(&mut self, now: Bus::Instant, addr: AddressIn, data: &mut [u8]) -> (r: Result<
        usize,
        ErrorOut,
    >) {
        let inner_addr = (self.translate)(addr);
        let raw = self.inner.read(now, inner_addr, data);
        let ghost seen = raw;
        let r = match raw {
            Ok(n) => Ok(n),
            Err(e) => Err(ErrorOut::from(e)),
        };
        assert(call_ensures(old(self).translate, (addr,), inner_addr));
        assert(old(self).inner.read_spec(now, inner_addr, old(data)@, &self.inner, data@, seen));
        assert(result_maps(seen, r));
        r
    }

    #[inline]
    fn write(&mut self, now: Bus::Instant, addr: AddressIn, data: &[u8]) -> (r: Result<
        usize,
        ErrorOut,
    >) {
        let inner_addr = (self.translate)(addr);
        let raw = self.inner.write(now, inner_addr, data);
        let ghost seen = raw;
        let r = match raw {
            Ok(n) => Ok(n),
            Err(e) => Err(ErrorOut::from(e)),
        };
        assert(call_ensures(old(self).translate, (addr,), inner_addr));
        assert(old(self).inner.write_spec(now, inner_addr, data@, &self.inner, seen));
        assert(result_maps(seen, r));
        r
    }
}

/// An adapter that translates addresses through `FromAddress` before it
/// accesses a wrapped bus.
///
/// The adapter takes addresses of type `AddressIn`, translates each into the
/// `AddressOut` that `FromAddress` gives for it, hands the transfer on to the
/// wrapped bus at that address, and converts an error that comes back into
/// `ErrorOut`.
#[verifier::reject_recursive_types(AddressIn)]
#[verifier::reject_recursive_types(AddressOut)]
#[verifier::reject_recursive_types(Bus)]
#[verifier::reject_recursive_types(ErrorOut)]
pub struct AutoBusAdapter<AddressIn, AddressOut, Bus, ErrorOut> where
    AddressOut: FromAddress<AddressIn> + Copy,
    Bus: BusAccess<AddressOut>,
    ErrorOut: From<Bus::Error>,
 {
    /// The bus that this adapter wraps.
    pub inner: Bus,
    /// Marks the type of the addresses that the adapter takes.
    pub address_in: PhantomData<AddressIn>,
    /// Marks the type of the addresses that the wrapped bus takes.
    pub address_out: PhantomData<AddressOut>,
    /// Marks the type of the errors that the adapter returns.
    pub error_out: PhantomData<ErrorOut>,
}

impl<AddressIn, AddressOut, Bus, ErrorOut> AutoBusAdapter<
    AddressIn,
    AddressOut,
    Bus,
    ErrorOut,
> where
    AddressOut: FromAddress<AddressIn> + Copy,
    Bus: BusAccess<AddressOut>,
    ErrorOut: From<Bus::Error>,
 {
    /// Makes an adapter for the bus `inner`.
    pub fn new(inner: Bus) -> (adapter: Self)
        ensures
            adapter.inner == inner,
    {
        Self {
            inner,
            address_in: PhantomData,
            address_out: PhantomData,
            error_out: PhantomData,
        }
    }
}

impl<AddressIn, AddressOut, Bus, ErrorOut> BusAccess<AddressIn> for AutoBusAdapter<
    AddressIn,
    AddressOut,
    Bus,
    ErrorOut,
> where
    AddressIn: Copy,
    AddressOut: FromAddress<AddressIn> + Copy,
    Bus: BusAccess<AddressOut>,
    ErrorOut: Error + From<Bus::Error>,
 {
    type Instant = Bus::Instant;

    type Error = ErrorOut;

    /// The wrapped bus can be accessed.
    open spec fn wf(&self) -> bool {
        self.inner.wf()
    }

    /// A read through the adapter at `addr` is a read of the wrapped bus at an
    /// address that `FromAddress` gives for `addr`, with the error converted.
    open spec fn read_spec(
        &self,
        now: Bus::Instant,
        addr: AddressIn,
        before: Seq<u8>,
        post: &Self,
        after: Seq<u8>,
        r: Result<usize, ErrorOut>,
    ) -> bool {
        exists|inner_addr: AddressOut, raw: Result<usize, Bus::Error>|
            {
                &&& AddressOut::translates(addr, inner_addr)
                &&& #[trigger] self.inner.read_spec(
                    now,
                    inner_addr,
                    before,
                    &post.inner,
                    after,
                    raw,
                )
                &&& result_maps(raw, r)
            }
    }

    /// A write through the adapter at `addr` is a write to the wrapped bus at
    /// an address that `FromAddress` gives for `addr`, with the error converted.
    open spec fn write_spec(
        &self,
        now: Bus::Instant,
        addr: AddressIn,
        data: Seq<u8>,
        post: &Self,
        r: Result<usize, ErrorOut>,
    ) -> bool {
        exists|inner_addr: AddressOut, raw: Result<usize, Bus::Error>|
            {
                &&& AddressOut::translates(addr, inner_addr)
                &&& #[trigger] self.inner.write_spec(now, inner_addr, data, &post.inner, raw)
                &&& result_maps(raw, r)
            }
    }

    #[inline]
    fn read(&mut self, now: Bus::Instant, addr: AddressIn, data: &mut [u8]) -> (r: Result<
        usize,
        ErrorOut,
    >) {
        let inner_addr: AddressOut = addr.into_address();
        assert(AddressOut::translates(addr, inner_addr));
        let raw = self.inner.read(now, inner_addr, data);
        let ghost seen = raw;
        let r = match raw {
            Ok(n) => Ok(n),
            Err(e) => Err(ErrorOut::from(e)),
        };
        assert(old(self).inner.read_spec(now, inner_addr, old(data)@, &self.inner, data@, seen));
        assert(result_maps(seen, r));
        r
    }

    #[inline]
    fn write(&mut self, now: Bus::Instant, addr: AddressIn, data: &[u8]) -> (r: Result<
        usize,
        ErrorOut,
    >) {
        let inner_addr: AddressOut = addr.into_address();
        assert(AddressOut::translates(addr, inner_addr));
        let raw = self.inner.write(now, inner_addr, data);
        let ghost seen = raw;
        let r = match raw {
            Ok(n) => Ok(n),
            Err(e) => Err(ErrorOut::from(e)),
        };
        assert(old(self).inner.write_spec(now, inner_addr, data@, &self.inner, seen));
        assert(result_maps(seen, r));
        r
    }
}

/// A static adapter can be accessed exactly when the wrapped bus can be and
/// every address can be translated.
pub proof fn lemma_adapter_wf<AddressIn, AddressOut, Bus, ErrorOut, Translate>(
    adapter: BusAdapter<AddressIn, AddressOut, Bus, ErrorOut, Translate>,
) where
    AddressIn: Copy,
    AddressOut: Copy,
    Bus: BusAccess<AddressOut>,
    ErrorOut: Error + From<Bus::Error>,
    Translate: Fn(AddressIn) -> AddressOut,

    ensures
        adapter.wf() <==> adapter.inner.wf() && total(adapter.translate),
{
}

/// A read through a static adapter at `addr` has the effect of a read of the
/// wrapped bus at the address that `translate` gives for `addr`: the same
/// bytes in the buffer, the wrapped bus in the same state, the same count, and
/// the wrapped bus's error converted.
pub proof fn lemma_adapter_read<AddressIn, AddressOut, Bus, ErrorOut, Translate>(
    adapter: BusAdapter<AddressIn, AddressOut, Bus, ErrorOut, Translate>,
    now: Bus::Instant,
    addr: AddressIn,
    target: AddressOut,
    before: Seq<u8>,
    post: BusAdapter<AddressIn, AddressOut, Bus, ErrorOut, Translate>,
    after: Seq<u8>,
    r: Result<usize, ErrorOut>,
) where
    AddressIn: Copy,
    AddressOut: Copy,
    Bus: BusAccess<AddressOut>,
    ErrorOut: Error + From<Bus::Error>,
    Translate: Fn(AddressIn) -> AddressOut,

    requires
        takes(adapter.translate, addr, target),
        adapter.read_spec(now, addr, before, &post, after, r),
    ensures
        post.translate == adapter.translate,
        exists|raw: Result<usize, Bus::Error>|
            #[trigger] adapter.inner.read_spec(now, target, before, &post.inner, after, raw)
                && result_maps(raw, r),
{
}

/// A write through a static adapter at `addr` has the effect of a write to the
/// wrapped bus at the address that `translate` gives for `addr`.
pub proof fn lemma_adapter_write<AddressIn, AddressOut, Bus, ErrorOut, Translate>(
    adapter: BusAdapter<AddressIn, AddressOut, Bus, ErrorOut, Translate>,
    now: Bus::Instant,
    addr: AddressIn,
    target: AddressOut,
    data: Seq<u8>,
    post: BusAdapter<AddressIn, AddressOut, Bus, ErrorOut, Translate>,
    r: Result<usize, ErrorOut>,
) where
    AddressIn: Copy,
    AddressOut: Copy,
    Bus: BusAccess<AddressOut>,
    ErrorOut: Error + From<Bus::Error>,
    Translate: Fn(AddressIn) -> AddressOut,

    requires
        takes(adapter.translate, addr, target),
        adapter.write_spec(now, addr, data, &post, r),
    ensures
        post.translate == adapter.translate,
        exists|raw: Result<usize, Bus::Error>|
            #[trigger] adapter.inner.write_spec(now, target, data, &post.inner, raw) && result_maps(
                raw,
                r,
            ),
{
}

/// An adapter never turns a failed transfer into a success, nor a success into
/// a failure, and never alters the count.
pub proof fn lemma_result_maps<In, Out: From<In>>(raw: Result<usize, In>, r: Result<usize, Out>)
    requires
        result_maps(raw, r),
    ensures
        raw is Ok <==> r is Ok,
        raw matches Ok(n) ==> r == Ok::<usize, Out>(n),
{
}

} // verus!
