//! System control: the forced interrupt `BRK` and the return `RTI`, with
//! the hardware's quirky treatment of status bits 4 and 5 — on return they
//! are reconstructed from the live register, never from the stack.

use vstd::prelude::*;

use crate::cpu::functions::stack::StackFunctions;
use crate::cpu::functions::word::WordFunctions;
use crate::cpu::model::{spec_force_interrupt, spec_return_from_interrupt};
use crate::cpu::opcodes::ProcessorStatus;
use crate::cpu::processor::Processor;
use crate::mem::{fetch_bit, set_bit, Memory};

verus! {

pub const INTERRUPT_VECTOR: u16 = 0xFFFE;

pub trait System {
    fn force_interrupt(&mut self, memory: &mut Memory);

    fn return_from_interrupt(&mut self, memory: &mut Memory);
}

impl System for Processor {
    /// `BRK`: pushes the program counter plus one (the byte after the
    /// padding operand), pushes the status with bits 4 and 5 forced to one,
    /// loads the program counter from the interrupt vector, and sets Break
    /// and InterruptDisable.
    fn force_interrupt(&mut self, memory: &mut Memory)
        ensures
            *final(self) == spec_force_interrupt(*old(self), old(memory)@).0,
            final(memory)@ == spec_force_interrupt(*old(self), old(memory)@).1,
    {
        self.push_pc_plus_one_to_stack(memory);
        let mut processor_status = self.status;
        processor_status = set_bit(processor_status, 4, true);
        processor_status = set_bit(processor_status, 5, true);
        self.push_byte_to_stack(memory, processor_status);

        self.program_counter = self.read_word(memory, INTERRUPT_VECTOR);

        self.set_status(ProcessorStatus::BreakCommand, true);
        self.set_status(ProcessorStatus::InterruptDisable, true);
    }

    /// `RTI`: pops the status byte — bits 4 and 5 keep their live values —
    /// pops the return address into the program counter unmodified (no
    /// off-by-one, unlike `RTS`), and clears Break. One cycle of the status
    /// pop is given back so the instruction costs six cycles in all.
    fn return_from_interrupt(&mut self, memory: &mut Memory)
        ensures
            *final(self) == spec_return_from_interrupt(*old(self), old(memory)@),
            final(memory)@ == old(memory)@,
    {
        let live_break = fetch_bit(self.status, 4);
        let live_unused = fetch_bit(self.status, 5);
        let mut new_processor_status = self.pop_byte_from_stack(memory);
        new_processor_status = set_bit(new_processor_status, 4, live_break);
        new_processor_status = set_bit(new_processor_status, 5, live_unused);

        self.status = new_processor_status;
        self.cycles = self.cycles.saturating_add(1);
        self.program_counter = self.pop_word_from_stack(memory);
        self.set_status(ProcessorStatus::BreakCommand, false);
    }
}

} // verus!
