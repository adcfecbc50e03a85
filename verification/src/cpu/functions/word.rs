//! Little-endian 16-bit memory access, built from byte accesses.

use vstd::prelude::*;

use crate::cpu::functions::byte::ByteFunctions;
use crate::cpu::model::{
    lemma_u16_from_bytes, lemma_u16_to_bytes, spec_fetch_word, spec_high_byte, spec_low_byte,
    spec_spend, spec_word_at,
};
use crate::cpu::processor::Processor;
use crate::mem::Memory;

verus! {

pub trait WordFunctions {
    fn read_word(&mut self, memory: &Memory, address: u16) -> u16;

    fn fetch_word(&mut self, memory: &Memory) -> u16;

    fn write_word(&mut self, memory: &mut Memory, data: u16, address: u16);
}

impl WordFunctions for Processor {
    /// Reads the little-endian word the program counter points at, advancing
    /// the counter past it and spending two cycles.
    fn fetch_word(&mut self, memory: &Memory) -> (data: u16)
        ensures
            *final(self) == spec_fetch_word(*old(self), memory@).0,
            data == spec_fetch_word(*old(self), memory@).1,
    {
        let low: u8 = memory.data[self.program_counter as usize];
        self.increment_pc();
        let high: u8 = memory.data[self.program_counter as usize];
        self.increment_pc();
        self.decrement_cycles(2);

        proof {
            lemma_u16_from_bytes(low, high);
        }
        return low as u16 | ((high as u16) << 8);
    }

    /// Reads the little-endian word at `address` and `address + 1` (wrapping
    /// within the address space), spending two cycles.
    fn read_word(&mut self, memory: &Memory, address: u16) -> (data: u16)
        ensures
            *final(self) == spec_spend(*old(self), 2),
            data == spec_word_at(memory@, address),
    {
        let low_byte: u8 = self.read_byte(memory, address);
        let high_byte: u8 = self.read_byte(memory, address.wrapping_add(1));
        proof {
            lemma_u16_from_bytes(low_byte, high_byte);
        }
        return low_byte as u16 | ((high_byte as u16) << 8);
    }

    /// Writes a 16-bit value in little-endian order at `address` and
    /// `address + 1` (wrapping within the address space), spending two
    /// cycles.
    fn write_word(&mut self, memory: &mut Memory, data: u16, address: u16)
        ensures
            *final(self) == spec_spend(*old(self), 2),
            final(memory)@ == old(memory)@.update(address as int, spec_low_byte(data)).update(
                address.wrapping_add(1) as int,
                spec_high_byte(data),
            ),
    {
        proof {
            lemma_u16_to_bytes(data);
        }
        memory.data[address as usize] = (data & 0xFF) as u8;
        memory.data[address.wrapping_add(1) as usize] = (data >> 8) as u8;
        self.decrement_cycles(2);
    }
}

} // verus!
