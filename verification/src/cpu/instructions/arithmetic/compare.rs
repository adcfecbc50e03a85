//! The compare group: a non-destructive subtraction of an operand from a
//! chosen register, setting Carry, Zero and Negative.

use vstd::prelude::*;

use crate::cpu::functions::byte::ByteFunctions;
use crate::cpu::instructions::addressing::Addressing;
use crate::cpu::model::{
    spec_cmp_absolute, spec_cmp_immediate, spec_cmp_indirect_x, spec_cmp_indirect_y,
    spec_cmp_zero_page, spec_compare_with,
};
use crate::cpu::opcodes::{ProcessorStatus, Registers};
use crate::cpu::processor::Processor;
use crate::mem::{fetch_bit, Memory};

verus! {

/// Compares the chosen register against the operand: Zero iff equal, Carry
/// iff the register is at least the operand, Negative from bit 7 of the
/// 8-bit difference. The register is not modified.
fn compare(processor: &mut Processor, operand: u8, register: Registers)
    ensures
        *final(processor) == spec_compare_with(*old(processor), operand, register),
{
    let register_value: u8 = match register {
        Registers::Accumulator => processor.accumulator,
        Registers::RegisterX => processor.register_x,
        Registers::RegisterY => processor.register_y,
    };
    let result: u8 = register_value.wrapping_sub(operand);

    let zero = register_value == operand;
    processor.set_status(ProcessorStatus::ZeroFlag, zero);
    let carry = register_value >= operand;
    processor.set_status(ProcessorStatus::CarryFlag, carry);
    let negative = fetch_bit(result, 7);
    processor.set_status(ProcessorStatus::NegativeFlag, negative);
}

pub trait Compare {
    fn cmp_immediate(&mut self, memory: &mut Memory, register: Registers);

    fn cmp_absolute(
        &mut self,
        memory: &mut Memory,
        register: Registers,
        offset_register: Option<Registers>,
    );

    fn cmp_zero_page(
        &mut self,
        memory: &mut Memory,
        register: Registers,
        offset_register: Option<Registers>,
    );

    fn cmp_indirect_x(&mut self, memory: &mut Memory, register: Registers);

    fn cmp_indirect_y(&mut self, memory: &mut Memory, register: Registers);
}

impl Compare for Processor {
    /// Compare against an immediate operand.
    fn cmp_immediate(&mut self, memory: &mut Memory, register: Registers)
        ensures
            *final(self) == spec_cmp_immediate(*old(self), old(memory)@, register),
            final(memory)@ == old(memory)@,
    {
        let operand = self.fetch_byte(memory);
        compare(self, operand, register);
    }

    /// Compare against an absolute operand.
    fn cmp_absolute(
        &mut self,
        memory: &mut Memory,
        register: Registers,
        offset_register: Option<Registers>,
    )
        ensures
            *final(self) == spec_cmp_absolute(*old(self), old(memory)@, register, offset_register),
            final(memory)@ == old(memory)@,
    {
        let address = self.addr_absolute(memory, offset_register);
        let operand = self.read_byte(memory, address);
        compare(self, operand, register);
    }

    /// Compare against a zero-page operand.
    fn cmp_zero_page(
        &mut self,
        memory: &mut Memory,
        register: Registers,
        offset_register: Option<Registers>,
    )
        ensures
            *final(self) == spec_cmp_zero_page(
                *old(self),
                old(memory)@,
                register,
                offset_register,
            ),
            final(memory)@ == old(memory)@,
    {
        let address = self.addr_zero_page(memory, offset_register);
        let operand = self.read_byte(memory, address);
        compare(self, operand, register);
    }

    /// Compare against an indexed-indirect operand.
    fn cmp_indirect_x(&mut self, memory: &mut Memory, register: Registers)
        ensures
            *final(self) == spec_cmp_indirect_x(*old(self), old(memory)@, register),
            final(memory)@ == old(memory)@,
    {
        let address = self.addr_indirect_x(memory);
        let operand = self.read_byte(memory, address);
        compare(self, operand, register);
    }

    /// Compare against an indirect-indexed operand.
    fn cmp_indirect_y(&mut self, memory: &mut Memory, register: Registers)
        ensures
            *final(self) == spec_cmp_indirect_y(*old(self), old(memory)@, register),
            final(memory)@ == old(memory)@,
    {
        let address = self.addr_indirect_y(memory);
        let operand = self.read_byte(memory, address);
        compare(self, operand, register);
    }
}

} // verus!
