//! Single-byte memory access, each access costing one cycle.

use vstd::prelude::*;

use crate::cpu::model::{spec_fetched, spec_pc_byte, spec_spend};
use crate::cpu::processor::Processor;
use crate::mem::Memory;

verus! {

pub trait ByteFunctions {
    fn read_byte(&mut self, memory: &Memory, address: u16) -> u8;

    fn fetch_byte(&mut self, memory: &Memory) -> u8;

    fn write_byte(&mut self, memory: &mut Memory, data: u8, address: u16);
}

impl ByteFunctions for Processor {
    /// Reads the byte the program counter points at, advancing the counter
    /// and spending one cycle.
    fn fetch_byte(&mut self, memory: &Memory) -> (data: u8)
        ensures
            *final(self) == spec_fetched(*old(self)),
            data == spec_pc_byte(*old(self), memory@),
    {
        let data: u8 = memory.data[self.program_counter as usize];
        self.increment_pc();
        self.decrement_cycles(1);
        return data;
    }

    /// Reads the byte at `address`, spending one cycle.
    fn read_byte(&mut self, memory: &Memory, address: u16) -> (data: u8)
        ensures
            *final(self) == spec_spend(*old(self), 1),
            data == memory@[address as int],
    {
        let data: u8 = memory.data[address as usize];
        self.decrement_cycles(1);
        return data;
    }

    /// Writes one byte to `address`, spending one cycle.
    fn write_byte(&mut self, memory: &mut Memory, data: u8, address: u16)
        ensures
            *final(self) == spec_spend(*old(self), 1),
            final(memory)@ == old(memory)@.update(address as int, data),
    {
        memory.data[address as usize] = data;
        self.decrement_cycles(1);
    }
}

} // verus!
