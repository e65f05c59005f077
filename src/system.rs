//! A whole machine: a motherboard and the RAM it shares with its CPU.
use crate::memory_bus::{MemoryBus48, RAM_SIZE};
use crate::motherboard::Monarch64Motherboard;
use vstd::prelude::*;

verus! {

pub struct Monarch64System<M: Monarch64Motherboard> {
    pub motherboard: M,
    pub memory_bus: MemoryBus48,
}

impl<M: Monarch64Motherboard> Monarch64System<M> {
    /// A system around `motherboard` with zeroed RAM.
    pub fn new(motherboard: M) -> (r: Self)
        ensures
            r.motherboard == motherboard,
            r.memory_bus@ == Seq::new(RAM_SIZE as nat, |i: int| 0u8),
    {
        Monarch64System { motherboard, memory_bus: MemoryBus48::new() }
    }
}

} // verus!
