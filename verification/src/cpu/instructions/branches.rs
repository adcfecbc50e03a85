//! Conditional branches over a signed 8-bit relative offset.

use vstd::prelude::*;

use crate::cpu::functions::byte::ByteFunctions;
use crate::cpu::model::spec_branch;
use crate::cpu::processor::Processor;
use crate::mem::Memory;

verus! {

pub trait Branches {
    fn branch(&mut self, memory: &mut Memory, condition: bool);
}

impl Branches for Processor {
    /// Fetches the signed offset; when the condition holds, moves the
    /// program counter by it (16-bit wraparound) for one extra cycle, and
    /// two more if the move changes the counter's high byte.
    fn branch(&mut self, memory: &mut Memory, condition: bool)
        ensures
            *final(self) == spec_branch(*old(self), old(memory)@, condition),
            final(memory)@ == old(memory)@,
    {
        let jump_offset: u8 = self.fetch_byte(memory);
        if condition == true {
            let original_pc = self.program_counter;
            let twos_comp: i8 = jump_offset as i8;

            self.program_counter = self.program_counter.wrapping_add(twos_comp as u16);
            self.decrement_cycles(1);

            if (self.program_counter >> 8) != (original_pc >> 8) {
                self.decrement_cycles(2);
            }
        }
    }
}

} // verus!
