use monarch64::cartridge::MonadBootCartridge;
use monarch64::cpu::{CpuFault, MonadCPU};
use monarch64::io_bus::{FixedPort, IoBus, IoHandler};
use monarch64::memory_bus::MemoryBus48;
use monarch64::motherboard::{BootError, MonadMotherboard, Monarch64Motherboard};
use monarch64::system::Monarch64System;

struct NoDevice;

impl IoHandler for NoDevice {
    fn read_u8(&self, _port: u16) -> u8 {
        0
    }
    fn read_u16(&self, _port: u16) -> u16 {
        0
    }
    fn read_u32(&self, _port: u16) -> u32 {
        0
    }
    fn read_u64(&self, _port: u16) -> u64 {
        0
    }
    fn write_u8(&self, _port: u16, _value: u8) {}
    fn write_u16(&self, _port: u16, _value: u16) {}
    fn write_u32(&self, _port: u16, _value: u32) {}
    fn write_u64(&self, _port: u16, _value: u64) {}
}

fn board() -> MonadMotherboard<MonadCPU, NoDevice> {
    MonadMotherboard::new(MonadCPU::new())
}

#[test]
fn boot_copy_then_wait_for_interrupt() {
    let image = [0x0D, 0x03, 0, 0, 0, 0, 0, 0];
    let mut system = Monarch64System::new(board().with_boot_cartridge(MonadBootCartridge::new(&image)));
    assert_eq!(system.motherboard.init(&mut system.memory_bus), Ok(()));
    assert_eq!(system.memory_bus.read_bytes(0, 8), &image);
    assert_eq!(system.motherboard.run_cpu(&mut system.memory_bus, 100), Ok(1));
    assert!(!system.motherboard.cpu.is_running());
    assert_eq!(system.motherboard.cpu.rip(), 8);
}

#[test]
fn image_bytes_0x30_0x03_decode_as_unknown_opcode() {
    let image = [0x30, 0x03, 0, 0, 0, 0, 0, 0];
    let mut system = Monarch64System::new(board().with_boot_cartridge(MonadBootCartridge::new(&image)));
    system.motherboard.init(&mut system.memory_bus).unwrap();
    assert_eq!(
        system.motherboard.run_cpu(&mut system.memory_bus, 100),
        Err(CpuFault::UnknownOpcode(0x0330))
    );
}

#[test]
fn init_without_cartridge_loads_nothing() {
    let mut mem = MemoryBus48::new();
    let mut b = board();
    assert_eq!(b.init(&mut mem), Err(BootError::NoCartridge));
    assert_eq!(mem.read_bytes(0, 4), &[0, 0, 0, 0]);
    b.set_boot_cartridge(MonadBootCartridge::new(&[1, 2, 3]));
    assert_eq!(b.init(&mut mem), Ok(()));
    assert_eq!(mem.read_bytes(0, 4), &[1, 2, 3, 0]);
    b.remove_boot_cartridge();
    assert!(b.boot_cartridge.is_none());
}

#[test]
fn init_refuses_other_revisions() {
    let mut mem = MemoryBus48::new();
    let mut b = board();
    b.set_boot_cartridge(MonadBootCartridge::with_revision(&[9, 9], 1));
    assert_eq!(b.init(&mut mem), Err(BootError::UnsupportedRevision(1)));
    assert_eq!(mem.read_bytes(0, 2), &[0, 0]);
}

#[test]
fn init_refuses_image_larger_than_ram() {
    let mut mem = MemoryBus48::new();
    let mut b = board();
    b.set_boot_cartridge(MonadBootCartridge::new(&vec![7u8; 4097]));
    assert_eq!(b.init(&mut mem), Err(BootError::ImageTooLarge));
    assert_eq!(mem.read_bytes(0, 1), &[0]);
    b.set_boot_cartridge(MonadBootCartridge::new(&vec![7u8; 4096]));
    assert_eq!(b.init(&mut mem), Ok(()));
    assert_eq!(mem.read_bytes(4095, 1), &[7]);
}

#[test]
fn run_with_no_budget_only_starts_the_cpu() {
    let mut mem = MemoryBus48::new();
    let mut b = board();
    assert_eq!(b.run_cpu(&mut mem, 0), Ok(0));
    assert!(b.cpu.is_running());
    assert_eq!(b.cpu.rip(), 0);
}

#[test]
fn cartridge_reports_image_and_revision() {
    let c = MonadBootCartridge::with_revision(&[4, 5, 6], 2);
    assert_eq!(c.get_data(), &vec![4, 5, 6]);
    assert_eq!(c.get_revision(), 2);
    assert_eq!(MonadBootCartridge::new(&[]).get_revision(), 0);
}

#[test]
fn io_bus_starts_empty() {
    let mut io: IoBus<NoDevice> = IoBus::new();
    assert_eq!(io.port_count(), 0);
    io.add_handler(NoDevice);
    assert_eq!(io.port_count(), 1);
    assert_eq!(io.read_u16(0), 0);
}

#[test]
fn fixed_port_reads_its_value_at_each_width() {
    let mut io: IoBus<FixedPort> = IoBus::new();
    io.add_handler(FixedPort { value: 0x1122_3344_5566_7788 });
    assert_eq!(io.read_u8(0), 0x88);
    assert_eq!(io.read_u16(0), 0x7788);
    assert_eq!(io.read_u32(0), 0x5566_7788);
    assert_eq!(io.read_u64(0), 0x1122_3344_5566_7788);
    io.write_u32(0, 5);
    assert_eq!(io.read_u8(0), 0x88);
}
