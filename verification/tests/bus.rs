use emulator_hal::bus::{BasicBusError, BusAccess, Error as BusError};
use emulator_hal::bytes::ByteOrder;
use emulator_hal::time::Instant;
use std::time::Duration;

#[derive(Clone, Debug)]
enum Error {}

impl BusError for Error {}

struct Memory(Vec<u8>);

impl BusAccess<u64> for Memory {
    type Instant = Duration;
    type Error = Error;

    fn read(&mut self, _now: Duration, addr: u64, data: &mut [u8]) -> Result<usize, Self::Error> {
        let addr = addr as usize;
        data.copy_from_slice(&self.0[addr..addr + data.len()]);
        Ok(data.len())
    }

    fn write(&mut self, _now: Duration, addr: u64, data: &[u8]) -> Result<usize, Self::Error> {
        let addr = addr as usize;
        self.0[addr..addr + data.len()].copy_from_slice(data);
        Ok(data.len())
    }
}

#[test]
fn test_implemeting_memory() {
    let mut bus = Memory(vec![0; 1024]);

    let number = 0x1234_5678;
    bus.write_beu32(Duration::start(), 0, number).unwrap();
    assert_eq!(
        u32::from_be_bytes(bus.0[0..4].try_into().unwrap()),
        0x1234_5678
    );

    assert_eq!(
        bus.read_u32(ByteOrder::Big, Duration::start(), 0).unwrap(),
        number
    );
}

#[test]
fn boxed_device_forwards() {
    let mut bus = Box::new(Memory(vec![0; 16]));
    bus.write_leu16(Duration::start(), 2, 0xBEEF).unwrap();
    assert_eq!(bus.read_leu16(Duration::start(), 2).unwrap(), 0xBEEF);
    assert_eq!(bus.read_u8(Duration::start(), 2).unwrap(), 0xEF);
}

#[test]
fn borrowed_device_forwards() {
    fn exercise<B: BusAccess<u64, Instant = Duration, Error = Error>>(mut bus: B) {
        bus.write_beu64(Duration::start(), 8, 0x0102_0304_0506_0708).unwrap();
        assert_eq!(bus.read_beu32(Duration::start(), 8).unwrap(), 0x0102_0304);
        assert_eq!(bus.read_leu32(Duration::start(), 12).unwrap(), 0x0807_0605);
    }
    let mut memory = Memory(vec![0; 16]);
    exercise(&mut memory);
    assert_eq!(memory.0[8..16], [1, 2, 3, 4, 5, 6, 7, 8]);
}

struct Null;

impl BusAccess<u16> for Null {
    type Instant = Duration;
    type Error = Error;

    fn read(&mut self, _now: Duration, _addr: u16, _data: &mut [u8]) -> Result<usize, Self::Error> {
        Ok(0)
    }

    fn write(&mut self, _now: Duration, _addr: u16, _data: &[u8]) -> Result<usize, Self::Error> {
        Ok(0)
    }
}

#[test]
fn nothing_transferred_reads_as_zero() {
    let mut bus = Null;
    let now = Duration::start();
    assert_eq!(bus.read_u8(now, 0).unwrap(), 0);
    assert_eq!(bus.read_beu16(now, 0).unwrap(), 0);
    assert_eq!(bus.read_leu32(now, 0).unwrap(), 0);
    assert_eq!(bus.read_u64(ByteOrder::Big, now, 0).unwrap(), 0);
    bus.write_u8(now, 0, 1).unwrap();
    bus.write_u64(ByteOrder::Little, now, 0, 1).unwrap();
}

struct Broken;

#[derive(Debug, PartialEq)]
struct Fault(u16);

impl BusError for Fault {}

impl BusAccess<u16> for Broken {
    type Instant = Duration;
    type Error = Fault;

    fn read(&mut self, _now: Duration, addr: u16, _data: &mut [u8]) -> Result<usize, Fault> {
        Err(Fault(addr))
    }

    fn write(&mut self, _now: Duration, addr: u16, _data: &[u8]) -> Result<usize, Fault> {
        Err(Fault(addr))
    }
}

#[test]
fn accessors_hand_on_the_error() {
    let mut bus = Broken;
    let now = Duration::start();
    assert_eq!(bus.read_u8(now, 1), Err(Fault(1)));
    assert_eq!(bus.read_beu16(now, 2), Err(Fault(2)));
    assert_eq!(bus.read_leu16(now, 3), Err(Fault(3)));
    assert_eq!(bus.read_u16(ByteOrder::Big, now, 4), Err(Fault(4)));
    assert_eq!(bus.read_beu32(now, 5), Err(Fault(5)));
    assert_eq!(bus.read_leu32(now, 6), Err(Fault(6)));
    assert_eq!(bus.read_u32(ByteOrder::Little, now, 7), Err(Fault(7)));
    assert_eq!(bus.read_beu64(now, 8), Err(Fault(8)));
    assert_eq!(bus.read_leu64(now, 9), Err(Fault(9)));
    assert_eq!(bus.read_u64(ByteOrder::Big, now, 10), Err(Fault(10)));
    assert_eq!(bus.write_u8(now, 11, 0), Err(Fault(11)));
    assert_eq!(bus.write_beu16(now, 12, 0), Err(Fault(12)));
    assert_eq!(bus.write_leu16(now, 13, 0), Err(Fault(13)));
    assert_eq!(bus.write_u16(ByteOrder::Little, now, 14, 0), Err(Fault(14)));
    assert_eq!(bus.write_beu32(now, 15, 0), Err(Fault(15)));
    assert_eq!(bus.write_leu32(now, 16, 0), Err(Fault(16)));
    assert_eq!(bus.write_u32(ByteOrder::Big, now, 17, 0), Err(Fault(17)));
    assert_eq!(bus.write_beu64(now, 18, 0), Err(Fault(18)));
    assert_eq!(bus.write_leu64(now, 19, 0), Err(Fault(19)));
    assert_eq!(bus.write_u64(ByteOrder::Big, now, 20, 0), Err(Fault(20)));
}

#[test]
fn accessors_lay_bytes_out_in_order() {
    let mut bus = Memory(vec![0; 32]);
    let now = Duration::start();
    bus.write_u8(now, 0, 0xAB).unwrap();
    bus.write_beu16(now, 2, 0x1234).unwrap();
    bus.write_leu16(now, 4, 0x1234).unwrap();
    bus.write_beu32(now, 8, 0x1234_5678).unwrap();
    bus.write_leu32(now, 12, 0x1234_5678).unwrap();
    bus.write_u64(ByteOrder::Big, now, 16, 0x0102_0304_0506_0708).unwrap();
    bus.write_u64(ByteOrder::Little, now, 24, 0x0102_0304_0506_0708).unwrap();
    assert_eq!(bus.0[0], 0xAB);
    assert_eq!(bus.0[2..4], [0x12, 0x34]);
    assert_eq!(bus.0[4..6], [0x34, 0x12]);
    assert_eq!(bus.0[8..12], [0x12, 0x34, 0x56, 0x78]);
    assert_eq!(bus.0[12..16], [0x78, 0x56, 0x34, 0x12]);
    assert_eq!(bus.0[16..24], [1, 2, 3, 4, 5, 6, 7, 8]);
    assert_eq!(bus.0[24..32], [8, 7, 6, 5, 4, 3, 2, 1]);
    assert_eq!(bus.read_u16(ByteOrder::Big, now, 2).unwrap(), 0x1234);
    assert_eq!(bus.read_u16(ByteOrder::Little, now, 2).unwrap(), 0x3412);
    assert_eq!(bus.read_u64(ByteOrder::Little, now, 16).unwrap(), 0x0807_0605_0403_0201);
}

#[test]
fn basic_bus_error_variants() {
    fn check<E: BusError>(e: E) -> String {
        format!("{:?}", e)
    }
    assert_eq!(check(BasicBusError::ReadOnly), "ReadOnly");
    assert_eq!(check(BasicBusError::UnmappedAddress), "UnmappedAddress");
    assert_eq!(check(BasicBusError::Other(Box::new("worn out"))), "Other(\"worn out\")");
    assert_eq!(check(BasicBusError::Other(Box::new(Fault(7)))), "Other(Fault(7))");
}
