//! Subtract-with-carry, implemented as the hardware implements it: an
//! add-with-carry of the bitwise complement of the operand, reusing the
//! identical flag logic. Decimal mode is deliberately unsupported.

use vstd::prelude::*;

use crate::cpu::functions::byte::ByteFunctions;
use crate::cpu::instructions::addressing::Addressing;
use crate::cpu::instructions::arithmetic::add::add_to_accumulator;
use crate::cpu::model::{
    spec_fetch_bit, spec_sbc_absolute, spec_sbc_immediate, spec_sbc_indirect_x,
    spec_sbc_indirect_y, spec_sbc_zero_page,
};
use crate::cpu::opcodes::Registers;
use crate::cpu::processor::Processor;
use crate::mem::Memory;

verus! {

pub trait SubtractWithCarry {
    /// Whether subtract-with-carry may run: decimal mode must be disabled.
    spec fn subtraction_allowed(&self) -> bool;

    fn sbc_immediate(&mut self, memory: &mut Memory)
        requires
            old(self).subtraction_allowed(),
    ;

    fn sbc_absolute(&mut self, memory: &mut Memory, offset_register: Option<Registers>)
        requires
            old(self).subtraction_allowed(),
    ;

    fn sbc_zero_page(&mut self, memory: &mut Memory, offset_register: Option<Registers>)
        requires
            old(self).subtraction_allowed(),
    ;

    fn sbc_indirect_x(&mut self, memory: &mut Memory)
        requires
            old(self).subtraction_allowed(),
    ;

    fn sbc_indirect_y(&mut self, memory: &mut Memory)
        requires
            old(self).subtraction_allowed(),
    ;
}

impl SubtractWithCarry for Processor {
    open spec fn subtraction_allowed(&self) -> bool {
        !spec_fetch_bit(self.status, 3)
    }

    /// `SBC` with an immediate operand.
    fn sbc_immediate(&mut self, memory: &mut Memory)
        ensures
            *final(self) == spec_sbc_immediate(*old(self), old(memory)@),
            final(memory)@ == old(memory)@,
    {
        let operand = self.fetch_byte(memory);
        add_to_accumulator(self, !operand);
    }

    /// `SBC` with an absolute operand.
    fn sbc_absolute(&mut self, memory: &mut Memory, offset_register: Option<Registers>)
        ensures
            *final(self) == spec_sbc_absolute(*old(self), old(memory)@, offset_register),
            final(memory)@ == old(memory)@,
    {
        let address = self.addr_absolute(memory, offset_register);
        let operand = self.read_byte(memory, address);
        add_to_accumulator(self, !operand);
    }

    /// `SBC` with a zero-page operand.
    fn sbc_zero_page(&mut self, memory: &mut Memory, offset_register: Option<Registers>)
        ensures
            *final(self) == spec_sbc_zero_page(*old(self), old(memory)@, offset_register),
            final(memory)@ == old(memory)@,
    {
        let address = self.addr_zero_page(memory, offset_register);
        let operand = self.read_byte(memory, address);
        add_to_accumulator(self, !operand);
    }

    /// `SBC` with an indexed-indirect operand.
    fn sbc_indirect_x(&mut self, memory: &mut Memory)
        ensures
            *final(self) == spec_sbc_indirect_x(*old(self), old(memory)@),
            final(memory)@ == old(memory)@,
    {
        let address = self.addr_indirect_x(memory);
        let operand = self.read_byte(memory, address);
        add_to_accumulator(self, !operand);
    }

    /// `SBC` with an indirect-indexed operand.
    fn sbc_indirect_y(&mut self, memory: &mut Memory)
        ensures
            *final(self) == spec_sbc_indirect_y(*old(self), old(memory)@),
            final(memory)@ == old(memory)@,
    {
        let address = self.addr_indirect_y(memory);
        let operand = self.read_byte(memory, address);
        add_to_accumulator(self, !operand);
    }
}

} // verus!
