//! Stack-pointer transfers and the push/pull instructions, including the
//! documented bit forcing of the pushed status byte.

use vstd::prelude::*;

use crate::cpu::functions::stack::StackFunctions;
use crate::cpu::instructions::registers::load::LoadRegister;
use crate::cpu::model::{
    spec_pha, spec_php, spec_pla, spec_plp, spec_tsx, spec_txs,
};
use crate::cpu::opcodes::Registers;
use crate::cpu::processor::Processor;
use crate::mem::{fetch_bit, set_bit, Memory};

verus! {

pub trait StackOperations {
    fn tsx(&mut self);

    fn txs(&mut self);

    fn pha(&mut self, memory: &mut Memory);

    fn php(&mut self, memory: &mut Memory);

    fn pla(&mut self, memory: &mut Memory);

    fn plp(&mut self, memory: &mut Memory);
}

impl StackOperations for Processor {
    /// `TSX`: copies the stack pointer into X; Zero/Negative follow.
    fn tsx(&mut self)
        ensures
            *final(self) == spec_tsx(*old(self)),
    {
        let stack_pointer: u8 = self.stack_pointer;
        self.set_register(Registers::RegisterX, stack_pointer);

        self.decrement_cycles(1);
    }

    /// `TXS`: copies X into the stack pointer; no flags change.
    fn txs(&mut self)
        ensures
            *final(self) == spec_txs(*old(self)),
    {
        self.stack_pointer = self.register_x;
        self.decrement_cycles(1);
    }

    /// `PHA`: pushes the accumulator.
    fn pha(&mut self, memory: &mut Memory)
        ensures
            *final(self) == spec_pha(*old(self), old(memory)@).0,
            final(memory)@ == spec_pha(*old(self), old(memory)@).1,
    {
        let value = self.accumulator;
        self.push_byte_to_stack(memory, value);
    }

    /// `PHP`: the pushed byte is not an exact copy of the status register;
    /// bits 4 (Break) and 5 (unused) are forced to one on the stack,
    /// whatever their live values.
    fn php(&mut self, memory: &mut Memory)
        ensures
            *final(self) == spec_php(*old(self), old(memory)@).0,
            final(memory)@ == spec_php(*old(self), old(memory)@).1,
    {
        let mut status_to_push = self.status;
        status_to_push = set_bit(status_to_push, 4, true);
        status_to_push = set_bit(status_to_push, 5, true);

        self.push_byte_to_stack(memory, status_to_push);
    }

    /// `PLA`: pops into the accumulator; Zero/Negative follow.
    fn pla(&mut self, memory: &mut Memory)
        ensures
            *final(self) == spec_pla(*old(self), old(memory)@),
            final(memory)@ == old(memory)@,
    {
        let byte_value = self.pop_byte_from_stack(memory);
        self.set_register(Registers::Accumulator, byte_value);
    }

    /// `PLP`: restores bits 0 to 3, 6 and 7 from the popped byte; bits 4
    /// and 5 keep the values already held in the live status register.
    fn plp(&mut self, memory: &mut Memory)
        ensures
            *final(self) == spec_plp(*old(self), old(memory)@),
            final(memory)@ == old(memory)@,
    {
        let live_break = fetch_bit(self.status, 4);
        let live_unused = fetch_bit(self.status, 5);
        let mut status_to_set = self.pop_byte_from_stack(memory);
        status_to_set = set_bit(status_to_set, 4, live_break);
        status_to_set = set_bit(status_to_set, 5, live_unused);

        self.status = status_to_set;
    }
}

} // verus!
