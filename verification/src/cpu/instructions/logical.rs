//! The logical group: AND, OR, exclusive-OR against the accumulator, and
//! the BIT test.

use vstd::prelude::*;

use crate::cpu::functions::byte::ByteFunctions;
use crate::cpu::instructions::addressing::Addressing;
use crate::cpu::instructions::registers::load::LoadRegister;
use crate::cpu::model::{
    spec_bit_absolute, spec_bit_zero_page, spec_logic_absolute, spec_logic_immediate,
    spec_logic_indirect_x, spec_logic_indirect_y, spec_logic_value, spec_logic_zero_page,
};
use crate::cpu::opcodes::{LogicalOperations, ProcessorStatus, Registers};
use crate::cpu::processor::Processor;
use crate::mem::{fetch_bit, Memory};

verus! {

/// Applies one of the three bitwise operations.
pub fn complete_logic_op(a: u8, b: u8, operation: LogicalOperations) -> (r: u8)
    ensures
        r == spec_logic_value(a, b, operation),
{
    match operation {
        LogicalOperations::And => a & b,
        LogicalOperations::Or => a | b,
        LogicalOperations::ExclusiveOr => a ^ b,
    }
}

pub trait Logical {
    fn logic_immediate(&mut self, memory: &mut Memory, operation: LogicalOperations);

    fn logic_zero_page(
        &mut self,
        memory: &mut Memory,
        operation: LogicalOperations,
        offset_register: Option<Registers>,
    );

    fn logic_absolute(
        &mut self,
        memory: &mut Memory,
        operation: LogicalOperations,
        offset_register: Option<Registers>,
    );

    fn logic_indirect_x(&mut self, memory: &mut Memory, operation: LogicalOperations);

    fn logic_indirect_y(&mut self, memory: &mut Memory, operation: LogicalOperations);

    fn bit_zero_page(&mut self, memory: &mut Memory);

    fn bit_absolute(&mut self, memory: &mut Memory);
}

impl Logical for Processor {
    /// A logical operation against an immediate operand; Zero/Negative
    /// follow the new accumulator.
    fn logic_immediate(&mut self, memory: &mut Memory, operation: LogicalOperations)
        ensures
            *final(self) == spec_logic_immediate(*old(self), old(memory)@, operation),
            final(memory)@ == old(memory)@,
    {
        let byte_value = self.fetch_byte(memory);
        let result = complete_logic_op(self.accumulator, byte_value, operation);
        self.set_register(Registers::Accumulator, result);
    }

    /// A logical operation against a zero-page operand.
    fn logic_zero_page(
        &mut self,
        memory: &mut Memory,
        operation: LogicalOperations,
        offset_register: Option<Registers>,
    )
        ensures
            *final(self) == spec_logic_zero_page(
                *old(self),
                old(memory)@,
                operation,
                offset_register,
            ),
            final(memory)@ == old(memory)@,
    {
        let zero_page_addr: u16 = self.addr_zero_page(memory, offset_register);
        let byte_value: u8 = self.read_byte(memory, zero_page_addr);
        let result = complete_logic_op(self.accumulator, byte_value, operation);
        self.set_register(Registers::Accumulator, result);
    }

    /// A logical operation against an absolute operand.
    fn logic_absolute(
        &mut self,
        memory: &mut Memory,
        operation: LogicalOperations,
        offset_register: Option<Registers>,
    )
        ensures
            *final(self) == spec_logic_absolute(
                *old(self),
                old(memory)@,
                operation,
                offset_register,
            ),
            final(memory)@ == old(memory)@,
    {
        let absolute_addr: u16 = self.addr_absolute(memory, offset_register);
        let byte_value: u8 = self.read_byte(memory, absolute_addr);
        let result = complete_logic_op(self.accumulator, byte_value, operation);
        self.set_register(Registers::Accumulator, result);
    }

    /// A logical operation against an indexed-indirect operand.
    fn logic_indirect_x(&mut self, memory: &mut Memory, operation: LogicalOperations)
        ensures
            *final(self) == spec_logic_indirect_x(*old(self), old(memory)@, operation),
            final(memory)@ == old(memory)@,
    {
        let absolute_addr: u16 = self.addr_indirect_x(memory);
        let byte_value: u8 = self.read_byte(memory, absolute_addr);
        let result = complete_logic_op(self.accumulator, byte_value, operation);
        self.set_register(Registers::Accumulator, result);
    }

    /// A logical operation against an indirect-indexed operand.
    fn logic_indirect_y(&mut self, memory: &mut Memory, operation: LogicalOperations)
        ensures
            *final(self) == spec_logic_indirect_y(*old(self), old(memory)@, operation),
            final(memory)@ == old(memory)@,
    {
        let absolute_addr: u16 = self.addr_indirect_y(memory);
        let byte_value: u8 = self.read_byte(memory, absolute_addr);
        let result = complete_logic_op(self.accumulator, byte_value, operation);
        self.set_register(Registers::Accumulator, result);
    }

    /// `BIT` with a zero-page operand: Zero from the masked accumulator,
    /// Overflow and Negative from bits 6 and 7 of the operand; the
    /// accumulator itself is untouched.
    fn bit_zero_page(&mut self, memory: &mut Memory)
        ensures
            *final(self) == spec_bit_zero_page(*old(self), old(memory)@),
            final(memory)@ == old(memory)@,
    {
        let zero_page_addr = self.addr_zero_page(memory, None);
        let value = self.read_byte(memory, zero_page_addr);

        let zero = self.accumulator & value == 0;
        self.set_status(ProcessorStatus::ZeroFlag, zero);
        let overflow = fetch_bit(value, 6);
        self.set_status(ProcessorStatus::OverflowFlag, overflow);
        let negative = fetch_bit(value, 7);
        self.set_status(ProcessorStatus::NegativeFlag, negative);
    }

    /// `BIT` with an absolute operand.
    fn bit_absolute(&mut self, memory: &mut Memory)
        ensures
            *final(self) == spec_bit_absolute(*old(self), old(memory)@),
            final(memory)@ == old(memory)@,
    {
        let absolute_addr = self.addr_absolute(memory, None);
        let value = self.read_byte(memory, absolute_addr);

        let zero = self.accumulator & value == 0;
        self.set_status(ProcessorStatus::ZeroFlag, zero);
        let overflow = fetch_bit(value, 6);
        self.set_status(ProcessorStatus::OverflowFlag, overflow);
        let negative = fetch_bit(value, 7);
        self.set_status(ProcessorStatus::NegativeFlag, negative);
    }
}

} // verus!
