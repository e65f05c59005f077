//! An emulator core for the Monarch64 fantasy computer: the Monad CPU with its
//! register file, flags and fetch-decode-execute cycle, a bounds-checked memory
//! bus, a port-indexed I/O bus, the boot cartridge and the motherboard that loads
//! it, each with its behaviour stated as a contract and proved.
pub mod alu;
pub mod cartridge;
pub mod cpu;
pub mod flags;
pub mod io_bus;
pub mod isa;
pub mod laws;
pub mod memory_bus;
pub mod motherboard;
pub mod system;
pub mod word;
