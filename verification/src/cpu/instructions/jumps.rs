//! Jumps and the subroutine call/return pair with its documented off-by-one
//! return-address convention.

use vstd::prelude::*;

use crate::cpu::functions::stack::StackFunctions;
use crate::cpu::functions::word::WordFunctions;
use crate::cpu::instructions::addressing::Addressing;
use crate::cpu::model::{spec_jsr, spec_jump_absolute, spec_jump_indirect, spec_rts};
use crate::cpu::processor::Processor;
use crate::mem::Memory;

verus! {

pub trait Jumps {
    fn jsr(&mut self, memory: &mut Memory);

    fn rts(&mut self, memory: &mut Memory);

    fn jump_absolute(&mut self, memory: &mut Memory);

    fn jump_indirect(&mut self, memory: &mut Memory);
}

impl Jumps for Processor {
    /// `JSR`: pushes the program counter minus one (the address of the
    /// call's last byte) and jumps to the fetched target.
    fn jsr(&mut self, memory: &mut Memory)
        ensures
            *final(self) == spec_jsr(*old(self), old(memory)@).0,
            final(memory)@ == spec_jsr(*old(self), old(memory)@).1,
    {
        let sub_addr: u16 = self.fetch_word(memory);
        self.push_pc_to_stack(memory);
        self.program_counter = sub_addr;

        self.decrement_cycles(1);
    }

    /// `RTS`: pops the pushed address and resumes one byte past it.
    fn rts(&mut self, memory: &mut Memory)
        ensures
            *final(self) == spec_rts(*old(self), old(memory)@),
            final(memory)@ == old(memory)@,
    {
        let return_addr: u16 = self.pop_word_from_stack(memory);
        self.program_counter = return_addr.wrapping_add(1);
        self.decrement_cycles(2);
    }

    /// `JMP` with an absolute target.
    fn jump_absolute(&mut self, memory: &mut Memory)
        ensures
            *final(self) == spec_jump_absolute(*old(self), old(memory)@),
            final(memory)@ == old(memory)@,
    {
        let address: u16 = self.addr_absolute(memory, None);
        self.program_counter = address;
    }

    /// `JMP` through an indirect target: the operand names the location the
    /// target is read from.
    fn jump_indirect(&mut self, memory: &mut Memory)
        ensures
            *final(self) == spec_jump_indirect(*old(self), old(memory)@),
            final(memory)@ == old(memory)@,
    {
        let mut address: u16 = self.addr_absolute(memory, None);
        address = self.read_word(memory, address);
        self.program_counter = address;
    }
}

} // verus!
