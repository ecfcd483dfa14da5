use emulator_hal::adapter::{AutoBusAdapter, BusAdapter, FromAddress, IntoAddress};
use emulator_hal::bus::{BasicBusError, BusAccess, Error as BusError};
use emulator_hal::memory::MemoryBlock;
use emulator_hal::time::Instant;
use std::time::Duration;

#[derive(Clone, Debug)]
enum Error {}

impl BusError for Error {}

struct Memory(Vec<u8>);

impl BusAccess<u64> for Memory {
    type Instant = Duration;
    type Error = Error;

    fn read(&mut self, _now: Duration, addr: u64, data: &mut [u8]) -> Result<usize, Self::Error> {
        let addr = addr as usize;
        data.copy_from_slice(&self.0[addr..addr + data.len()]);
        Ok(data.len())
    }

    fn write(&mut self, _now: Duration, addr: u64, data: &[u8]) -> Result<usize, Self::Error> {
        let addr = addr as usize;
        self.0[addr..addr + data.len()].copy_from_slice(data);
        Ok(data.len())
    }
}

#[derive(Clone, Copy, Debug)]
struct Address(u8);

impl FromAddress<Address> for u64 {
    fn from_address(address: Address) -> u64 {
        address.0 as u64
    }
}

#[derive(Clone, Debug, PartialEq)]
enum Error2 {
    BusError,
}

impl BusError for Error2 {}

impl From<Error> for Error2 {
    fn from(_err: Error) -> Self {
        Error2::BusError
    }
}

impl From<BasicBusError> for Error2 {
    fn from(_err: BasicBusError) -> Self {
        Error2::BusError
    }
}

#[test]
fn test_adapt_address() {
    let bus = Memory(vec![0; 1024]);

    let mut adapter = BusAdapter::new(bus, |addr| addr as u64);

    let expected_value = 0x1234;
    adapter
        .write_beu16(Duration::ZERO, 0, expected_value)
        .unwrap();
    let result: Result<u16, Error> = adapter.read_beu16(Duration::ZERO, 0);
    assert_eq!(result.unwrap(), expected_value);
}

#[test]
fn test_adapt_error() {
    let bus = Memory(vec![0; 1024]);

    let mut adapter = BusAdapter::new(bus, |addr| addr as u64);

    let expected_value = 0x1234;
    adapter
        .write_beu16(Duration::ZERO, 0, expected_value)
        .unwrap();
    let result: Result<u16, Error2> = adapter.read_beu16(Duration::ZERO, 0);
    assert_eq!(result.unwrap(), expected_value);
}

#[test]
fn test_auto_adapt_address() {
    let bus = Memory(vec![0; 1024]);

    let mut adapter = AutoBusAdapter::new(bus);

    let expected_value = 0x1234;
    adapter
        .write_beu16(Duration::ZERO, Address(0), expected_value)
        .unwrap();
    let result: Result<u16, Error> = adapter.read_beu16(Duration::ZERO, Address(0));
    assert_eq!(result.unwrap(), expected_value);
}

#[test]
fn test_auto_adapt_error() {
    let bus = Memory(vec![0; 1024]);

    let mut adapter = AutoBusAdapter::new(bus);

    let expected_value = 0x1234;
    adapter
        .write_beu16(Duration::ZERO, Address(0), expected_value)
        .unwrap();
    let result: Result<u16, Error2> = adapter.read_beu16(Duration::ZERO, Address(0));
    assert_eq!(result.unwrap(), expected_value);
}

#[test]
fn into_address_is_from_address() {
    let wide: u64 = Address(200).into_address();
    assert_eq!(wide, 200);
    assert_eq!(<u64 as FromAddress<Address>>::from_address(Address(7)), 7);
}

#[test]
fn static_adapter_acts_on_inner_at_translated_address() {
    let now = Duration::start();
    let mut direct = MemoryBlock::<Duration>::from(vec![0; 64]);
    let mut adapter: BusAdapter<u8, u64, MemoryBlock<Duration>, Error2, _> =
        BusAdapter::new(MemoryBlock::<Duration>::from(vec![0; 64]), |addr: u8| addr as u64 + 16);

    assert_eq!(adapter.write(now, 4, &[1, 2, 3]), Ok(3));
    assert_eq!(direct.write(now, 20u64, &[1, 2, 3]).unwrap(), 3);
    let mut through = [0u8; 64];
    let mut plain = [0u8; 64];
    assert_eq!(adapter.inner.read(now, 0u64, &mut through).unwrap(), 64);
    assert_eq!(direct.read(now, 0u64, &mut plain).unwrap(), 64);
    assert_eq!(through, plain);
    assert_eq!(through[20..23], [1, 2, 3]);

    let mut got = [0u8; 3];
    assert_eq!(adapter.read(now, 4, &mut got), Ok(3));
    assert_eq!(got, [1, 2, 3]);
    assert_eq!((adapter.translate)(4), 20);
}

#[test]
fn adapters_convert_errors_and_keep_counts() {
    let now = Duration::start();
    let mut adapter: BusAdapter<u8, u64, MemoryBlock<Duration>, Error2, _> =
        BusAdapter::new(MemoryBlock::<Duration>::from(vec![0; 8]), |addr: u8| addr as u64);
    let mut data = [5u8; 4];
    assert_eq!(adapter.read(now, 6, &mut data), Err(Error2::BusError));
    assert_eq!(data, [5; 4]);
    assert_eq!(adapter.write(now, 6, &data), Err(Error2::BusError));
    assert_eq!(adapter.read_leu32(now, 5), Err(Error2::BusError));
    assert_eq!(adapter.write(now, 4, &data), Ok(4));
    adapter.inner.read_only();
    assert_eq!(adapter.write(now, 0, &data), Ok(0));

    let mut auto: AutoBusAdapter<Address, u64, MemoryBlock<Duration>, Error2> =
        AutoBusAdapter::new(MemoryBlock::<Duration>::from(vec![0; 8]));
    assert_eq!(auto.write(now, Address(6), &data), Err(Error2::BusError));
    assert_eq!(auto.write(now, Address(4), &data), Ok(4));
    assert_eq!(auto.read_u8(now, Address(7)), Ok(5));
    assert_eq!(auto.read_u8(now, Address(8)), Err(Error2::BusError));
    assert_eq!(auto.inner.len(), 8);
}
