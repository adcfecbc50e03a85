//! The page-1 stack: byte and word push/pop with an 8-bit stack pointer
//! that wraps modulo 256.

use vstd::prelude::*;

use crate::cpu::functions::byte::ByteFunctions;
use crate::cpu::model::{
    lemma_stack_page_address, lemma_u16_from_bytes, lemma_u16_to_bytes, spec_pop_byte,
    spec_pop_word, spec_push_byte, spec_push_word, spec_stack_addr,
};
use crate::cpu::processor::Processor;
use crate::mem::Memory;

verus! {

pub trait StackFunctions {
    fn push_pc_to_stack(&mut self, memory: &mut Memory);

    fn push_pc_plus_one_to_stack(&mut self, memory: &mut Memory);

    fn push_byte_to_stack(&mut self, memory: &mut Memory, value: u8);

    fn stack_pointer_to_address(&mut self) -> u16;

    fn pop_word_from_stack(&mut self, memory: &mut Memory) -> u16;

    fn pop_byte_from_stack(&mut self, memory: &mut Memory) -> u8;
}

impl StackFunctions for Processor {
    /// Pushes the address of the current instruction's last byte (the
    /// program counter minus one), as `JSR` stores its return address.
    fn push_pc_to_stack(&mut self, memory: &mut Memory)
        ensures
            *final(self) == spec_push_word(
                *old(self),
                old(memory)@,
                old(self).program_counter.wrapping_sub(1),
            ).0,
            final(memory)@ == spec_push_word(
                *old(self),
                old(memory)@,
                old(self).program_counter.wrapping_sub(1),
            ).1,
    {
        let value = self.program_counter.wrapping_sub(1);
        self.push_word_value(memory, value);
    }

    /// Pushes the program counter plus one, as `BRK` stores the address of
    /// the byte after its padding operand.
    fn push_pc_plus_one_to_stack(&mut self, memory: &mut Memory)
        ensures
            *final(self) == spec_push_word(
                *old(self),
                old(memory)@,
                old(self).program_counter.wrapping_add(1),
            ).0,
            final(memory)@ == spec_push_word(
                *old(self),
                old(memory)@,
                old(self).program_counter.wrapping_add(1),
            ).1,
    {
        let value = self.program_counter.wrapping_add(1);
        self.push_word_value(memory, value);
    }

    /// Pushes one byte at the current stack address, then decrements the
    /// stack pointer; two cycles.
    fn push_byte_to_stack(&mut self, memory: &mut Memory, value: u8)
        ensures
            *final(self) == spec_push_byte(*old(self), old(memory)@, value).0,
            final(memory)@ == spec_push_byte(*old(self), old(memory)@, value).1,
    {
        let stack_addr = self.stack_pointer_to_address();
        self.write_byte(memory, value, stack_addr);

        self.stack_pointer = self.stack_pointer.wrapping_sub(1);
        self.decrement_cycles(1);
    }

    /// The page-1 address the stack pointer resolves to: `0x100 |
    /// stack_pointer`.
    fn stack_pointer_to_address(&mut self) -> (address: u16)
        ensures
            *final(self) == *old(self),
            address == spec_stack_addr(old(self).stack_pointer),
    {
        proof {
            lemma_stack_page_address(self.stack_pointer);
        }
        return 0x100 | self.stack_pointer as u16;
    }

    /// Pops a little-endian word: low byte one above the current stack
    /// address, high byte two above, stack pointer up by two; three cycles.
    fn pop_word_from_stack(&mut self, memory: &mut Memory) -> (value: u16)
        ensures
            *final(self) == spec_pop_word(*old(self), old(memory)@).0,
            value == spec_pop_word(*old(self), old(memory)@).1,
            final(memory)@ == old(memory)@,
    {
        proof {
            lemma_stack_page_address(self.stack_pointer.wrapping_add(1));
            lemma_stack_page_address(self.stack_pointer.wrapping_add(2));
        }
        let low_addr: u16 = 0x100 | self.stack_pointer.wrapping_add(1) as u16;
        let high_addr: u16 = 0x100 | self.stack_pointer.wrapping_add(2) as u16;
        self.stack_pointer = self.stack_pointer.wrapping_add(2);
        self.decrement_cycles(1);
        let low: u8 = self.read_byte(memory, low_addr);
        let high: u8 = self.read_byte(memory, high_addr);
        proof {
            lemma_u16_from_bytes(low, high);
        }
        return low as u16 | ((high as u16) << 8);
    }

    /// Pops one byte: the stack pointer increments first, then the byte is
    /// read from the address it resolves to; three cycles.
    fn pop_byte_from_stack(&mut self, memory: &mut Memory) -> (value: u8)
        ensures
            *final(self) == spec_pop_byte(*old(self), old(memory)@).0,
            value == spec_pop_byte(*old(self), old(memory)@).1,
            final(memory)@ == old(memory)@,
    {
        self.stack_pointer = self.stack_pointer.wrapping_add(1);
        let sp_addr: u16 = self.stack_pointer_to_address();
        self.decrement_cycles(2);
        return self.read_byte(memory, sp_addr);
    }
}

impl Processor {
    /// Pushes a 16-bit value: high byte at the current stack address, low
    /// byte one below, stack pointer down by two; two cycles.
    fn push_word_value(&mut self, memory: &mut Memory, value: u16)
        ensures
            *final(self) == spec_push_word(*old(self), old(memory)@, value).0,
            final(memory)@ == spec_push_word(*old(self), old(memory)@, value).1,
    {
        proof {
            lemma_u16_to_bytes(value);
            lemma_stack_page_address(self.stack_pointer);
            lemma_stack_page_address(self.stack_pointer.wrapping_sub(1));
        }
        let high_addr: u16 = 0x100 | self.stack_pointer as u16;
        let low_addr: u16 = 0x100 | self.stack_pointer.wrapping_sub(1) as u16;
        memory.data[high_addr as usize] = (value >> 8) as u8;
        memory.data[low_addr as usize] = (value & 0xFF) as u8;
        self.stack_pointer = self.stack_pointer.wrapping_sub(2);
        self.decrement_cycles(2);
    }
}

} // verus!
