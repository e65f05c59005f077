//! The Monad motherboard: a CPU, its I/O bus and an optional boot cartridge.
use crate::cartridge::MonadBootCartridge;
use crate::cpu::{CpuFault, Monarch64CPU};
use crate::io_bus::{IoBus, IoHandler};
use crate::memory_bus::{written, MemoryBus48};
use vstd::prelude::*;

verus! {

/// Why `init` loaded nothing into RAM.
#[derive(Clone, Copy, Debug, PartialEq, Eq, Structural)]
pub enum BootError {
    NoCartridge,
    /// Only revision 0 images are supported.
    UnsupportedRevision(u8),
    /// The image is larger than RAM.
    ImageTooLarge,
}

/// Whether a board with `cartridge` can boot into RAM of `size` bytes.
pub open spec fn boot_check(cartridge: Option<MonadBootCartridge>, size: nat) -> Result<(), BootError> {
    match cartridge {
        None => Err(BootError::NoCartridge),
        Some(c) => if c.rev() > 0 {
            Err(BootError::UnsupportedRevision(c.rev()))
        } else if c.image().len() > size {
            Err(BootError::ImageTooLarge)
        } else {
            Ok(())
        },
    }
}

/// What a system needs from its board.
pub trait Monarch64Motherboard {
    type Cpu: Monarch64CPU;

    /// The CPU on the board.
    spec fn board_cpu(&self) -> Self::Cpu;

    fn get_cpu(&self) -> (r: &Self::Cpu)
        ensures
            *r == self.board_cpu(),
    ;

    fn get_cpu_mut(&mut self) -> (r: &mut Self::Cpu)
        ensures
            *r == old(self).board_cpu(),
            final(self).board_cpu() == *final(r),
    ;

    fn set_cpu(&mut self, cpu: Self::Cpu)
        ensures
            final(self).board_cpu() == cpu,
    ;

    /// The boot cartridge in the slot, if any.
    spec fn board_cartridge(&self) -> Option<MonadBootCartridge>;

    /// The number of I/O ports with a handler.
    spec fn board_port_count(&self) -> nat;

    fn run_cpu(&mut self, memory_bus: &mut MemoryBus48, max_cycles: u64) -> (r: Result<u64, CpuFault>)
        ensures
            final(self).board_cartridge() == old(self).board_cartridge(),
            final(self).board_port_count() == old(self).board_port_count(),
            r matches Ok(n) ==> n <= max_cycles,
    ;

    fn init(&mut self, memory_bus: &mut MemoryBus48) -> (r: Result<(), BootError>)
        ensures
            final(self).board_cpu() == old(self).board_cpu(),
            final(self).board_cartridge() == old(self).board_cartridge(),
            final(self).board_port_count() == old(self).board_port_count(),
            r == boot_check(old(self).board_cartridge(), old(memory_bus)@.len()),
            r is Ok ==> final(memory_bus)@ == written(
                old(memory_bus)@,
                0,
                old(self).board_cartridge()->Some_0.image(),
            ),
            r is Err ==> final(memory_bus)@ == old(memory_bus)@,
    ;
}

pub struct MonadMotherboard<C: Monarch64CPU, H: IoHandler> {
    pub cpu: C,
    pub io_bus: IoBus<H>,
    pub boot_cartridge: Option<MonadBootCartridge>,
}

impl<C: Monarch64CPU, H: IoHandler> MonadMotherboard<C, H> {
    /// A board around `cpu` with no ports and no cartridge.
    pub fn new(cpu: C) -> (r: Self)
        ensures
            r.cpu == cpu,
            r.io_bus.io_handlers@.len() == 0,
            r.boot_cartridge is None,
    {
        MonadMotherboard { cpu, io_bus: IoBus::new(), boot_cartridge: None }
    }

    pub fn with_boot_cartridge(self, cartridge: MonadBootCartridge) -> (r: Self)
        ensures
            r.cpu == self.cpu,
            r.io_bus == self.io_bus,
            r.boot_cartridge == Some(cartridge),
    {
        let mut board = self;
        board.boot_cartridge = Some(cartridge);
        board
    }

    pub fn set_boot_cartridge(&mut self, cartridge: MonadBootCartridge)
        ensures
            final(self).cpu == old(self).cpu,
            final(self).io_bus == old(self).io_bus,
            final(self).boot_cartridge == Some(cartridge),
    {
        self.boot_cartridge = Some(cartridge);
    }

    pub fn remove_boot_cartridge(&mut self)
        ensures
            final(self).cpu == old(self).cpu,
            final(self).io_bus == old(self).io_bus,
            final(self).boot_cartridge is None,
    {
        self.boot_cartridge = None;
    }

    /// Copies the cartridge image to address 0 when there is a revision 0 cartridge
    /// whose image fits in RAM; otherwise leaves RAM as it was and says why.
    pub fn init(&mut self, memory_bus: &mut MemoryBus48) -> (r: Result<(), BootError>)
        ensures
            *final(self) == *old(self),
            r == boot_check(old(self).boot_cartridge, old(memory_bus)@.len()),
            r is Ok ==> final(memory_bus)@ == written(
                old(memory_bus)@,
                0,
                old(self).boot_cartridge->Some_0.image(),
            ),
            r is Err ==> final(memory_bus)@ == old(memory_bus)@,
    {
        match &self.boot_cartridge {
            None => Err(BootError::NoCartridge),
            Some(cartridge) => {
                if cartridge.get_revision() > 0 {
                    Err(BootError::UnsupportedRevision(cartridge.get_revision()))
                } else {
                    let data = cartridge.get_data();
                    if data.len() <= memory_bus.get_size() {
                        memory_bus.write_bytes(0, data.as_slice());
                        Ok(())
                    } else {
                        Err(BootError::ImageTooLarge)
                    }
                }
            },
        }
    }
}

impl<C: Monarch64CPU, H: IoHandler> Monarch64Motherboard for MonadMotherboard<C, H> {
    type Cpu = C;

    open spec fn board_cpu(&self) -> C {
        self.cpu
    }

    open spec fn board_cartridge(&self) -> Option<MonadBootCartridge> {
        self.boot_cartridge
    }

    open spec fn board_port_count(&self) -> nat {
        self.io_bus.io_handlers@.len()
    }

    fn get_cpu(&self) -> &C {
        &self.cpu
    }

    fn get_cpu_mut(&mut self) -> &mut C {
        &mut self.cpu
    }

    fn set_cpu(&mut self, cpu: C) {
        self.cpu = cpu;
    }

    fn run_cpu(&mut self, memory_bus: &mut MemoryBus48, max_cycles: u64) -> Result<u64, CpuFault> {
        self.cpu.run_cpu(memory_bus, &mut self.io_bus, max_cycles)
    }

    fn init(&mut self, memory_bus: &mut MemoryBus48) -> Result<(), BootError> {
        MonadMotherboard::init(self, memory_bus)
    }
}

} // verus!
