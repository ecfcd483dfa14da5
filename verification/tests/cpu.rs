use emulator_hal::bus::{BusAccess, Error as BusError};
use emulator_hal::step::Step;
use emulator_hal::time::Instant;
use std::time::Duration;

#[derive(Clone, Debug)]
enum Error {}

impl BusError for Error {}

struct Memory(Vec<u8>);

impl BusAccess<u64> for Memory {
    type Instant = Duration;
    type Error = Error;

    fn read(&mut self, _now: Duration, addr: u64, data: &mut [u8]) -> Result<usize, Self::Error> {
        let addr = addr as usize;
        data.copy_from_slice(&self.0[addr..addr + data.len()]);
        Ok(data.len())
    }

    fn write(&mut self, _now: Duration, addr: u64, data: &[u8]) -> Result<usize, Self::Error> {
        let addr = addr as usize;
        self.0[addr..addr + data.len()].copy_from_slice(data);
        Ok(data.len())
    }
}

#[derive(Default)]
struct Cpu {
    pc: u64,
    sum: u32,
    running: bool,
}

impl<Bus> Step<Bus> for Cpu
where
    Bus: BusAccess<u64, Error = Error, Instant = Duration>,
{
    type Instant = Duration;
    type Error = Bus::Error;

    fn is_running(&mut self) -> bool {
        self.running
    }

    fn reset(&mut self, now: Duration, bus: &mut Bus) -> Result<(), Self::Error> {
        self.running = true;
        self.pc = bus.read_beu32(now, 0x0000)? as u64;
        Ok(())
    }

    fn step(&mut self, now: Duration, bus: &mut Bus) -> Result<Duration, Self::Error> {
        if self.running {
            let value = bus.read_beu32(now, self.pc)?;
            self.pc += 4;

            if value == 0 {
                self.running = false;
            } else {
                self.sum += value;
            }
        }
        Ok(now + Duration::from_nanos(100))
    }
}

#[test]
fn cpu_test_static_system() {
    let mut memory = Memory(vec![0; 1024]);

    let mut cpu = Cpu::default();

    let location = 0x100;
    memory
        .write_beu32(Duration::start(), 0x0000, location as u32)
        .unwrap();

    for i in 0..100 {
        memory
            .write_beu32(Duration::start(), location + 4 * i as u64, 1 + i as u32)
            .unwrap();
    }

    fn run_static_test<B, C, E>(bus: &mut B, cpu: &mut C) -> Result<(), E>
    where
        B: BusAccess<u64, Error = E, Instant = Duration>,
        C: Step<B, Error = E, Instant = Duration>,
    {
        cpu.reset(Duration::start(), bus)?;

        while cpu.is_running() {
            cpu.step(Duration::start(), bus)?;
        }
        Ok(())
    }

    run_static_test(&mut memory, &mut cpu).unwrap();

    assert_eq!(cpu.sum, 5050);
}

#[test]
fn cpu_test_dynamic_system() {
    let mut memory = Memory(vec![0; 1024]);

    let mut cpu = Cpu::default();

    let location = 0x100 as u64;
    memory
        .write_beu32(Duration::start(), 0x0000, location as u32)
        .unwrap();

    for i in 0..100 {
        memory
            .write_beu32(Duration::start(), location + 4 * i as u64, 1 + i as u32)
            .unwrap();
    }

    type Bus = Box<Memory>;

    fn run_dynamic_test(
        mut bus: Bus,
        cpu: &mut dyn Step<Bus, Instant = Duration, Error = Error>,
    ) -> Result<(), Error> {
        cpu.reset(Duration::start(), &mut bus)?;

        while cpu.is_running() {
            cpu.step(Duration::start(), &mut bus)?;
        }
        Ok(())
    }

    run_dynamic_test(Box::new(memory), &mut cpu).unwrap();

    assert_eq!(cpu.sum, 5050);
}
