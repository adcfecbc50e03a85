//! Add-with-carry. Decimal mode is deliberately unsupported: every entry
//! point demands that the DecimalMode flag is clear, so a decimal-mode
//! addition can never be verified, let alone silently computed in binary.

use vstd::prelude::*;

use crate::cpu::functions::byte::ByteFunctions;
use crate::cpu::instructions::addressing::Addressing;
use crate::cpu::model::{
    lemma_u16_to_bytes, spec_adc_absolute, spec_adc_immediate, spec_adc_indirect_x,
    spec_adc_indirect_y, spec_adc_zero_page, spec_add_to_accumulator, spec_fetch_bit,
};
use crate::cpu::opcodes::{ProcessorStatus, Registers};
use crate::cpu::processor::Processor;
use crate::mem::{fetch_bit, Memory};

verus! {

/// The 9-bit add of accumulator, operand and carry-in, with the full flag
/// update: Carry for a sum over 255, Zero/Negative from the low 8 bits, and
/// Overflow exactly when both addends shared a sign bit and the result's
/// sign differs from it.
pub(crate) fn add_to_accumulator(processor: &mut Processor, operand: u8)
    requires
        !spec_fetch_bit(old(processor).status, 3),
    ensures
        *final(processor) == spec_add_to_accumulator(*old(processor), operand),
{
    let same_signs: bool = !fetch_bit(processor.accumulator ^ operand, 7);
    let carry: u16 = if processor.fetch_status(ProcessorStatus::CarryFlag) {
        1
    } else {
        0
    };
    let sum: u16 = processor.accumulator as u16 + operand as u16 + carry;

    proof {
        lemma_u16_to_bytes(sum);
    }
    processor.accumulator = (sum & 0xFF) as u8;
    let zero = processor.accumulator == 0;
    processor.set_status(ProcessorStatus::ZeroFlag, zero);
    let negative = fetch_bit(processor.accumulator, 7);
    processor.set_status(ProcessorStatus::NegativeFlag, negative);
    processor.set_status(ProcessorStatus::CarryFlag, sum > 0xFF);
    let overflow = same_signs && fetch_bit(processor.accumulator, 7) != fetch_bit(operand, 7);
    processor.set_status(ProcessorStatus::OverflowFlag, overflow);
}

pub trait AddWithCarry {
    /// Whether add-with-carry may run: decimal mode must be disabled.
    spec fn addition_allowed(&self) -> bool;

    fn adc_immediate(&mut self, memory: &mut Memory)
        requires
            old(self).addition_allowed(),
    ;

    fn adc_absolute(&mut self, memory: &mut Memory, offset_register: Option<Registers>)
        requires
            old(self).addition_allowed(),
    ;

    fn adc_zero_page(&mut self, memory: &mut Memory, offset_register: Option<Registers>)
        requires
            old(self).addition_allowed(),
    ;

    fn adc_indirect_x(&mut self, memory: &mut Memory)
        requires
            old(self).addition_allowed(),
    ;

    fn adc_indirect_y(&mut self, memory: &mut Memory)
        requires
            old(self).addition_allowed(),
    ;
}

impl AddWithCarry for Processor {
    open spec fn addition_allowed(&self) -> bool {
        !spec_fetch_bit(self.status, 3)
    }

    /// `ADC` with an immediate operand.
    fn adc_immediate(&mut self, memory: &mut Memory)
        ensures
            *final(self) == spec_adc_immediate(*old(self), old(memory)@),
            final(memory)@ == old(memory)@,
    {
        let operand: u8 = self.fetch_byte(memory);
        add_to_accumulator(self, operand);
    }

    /// `ADC` with an absolute operand.
    fn adc_absolute(&mut self, memory: &mut Memory, offset_register: Option<Registers>)
        ensures
            *final(self) == spec_adc_absolute(*old(self), old(memory)@, offset_register),
            final(memory)@ == old(memory)@,
    {
        let address = self.addr_absolute(memory, offset_register);
        let operand: u8 = self.read_byte(memory, address);
        add_to_accumulator(self, operand);
    }

    /// `ADC` with a zero-page operand.
    fn adc_zero_page(&mut self, memory: &mut Memory, offset_register: Option<Registers>)
        ensures
            *final(self) == spec_adc_zero_page(*old(self), old(memory)@, offset_register),
            final(memory)@ == old(memory)@,
    {
        let address = self.addr_zero_page(memory, offset_register);
        let operand: u8 = self.read_byte(memory, address);
        add_to_accumulator(self, operand);
    }

    /// `ADC` with an indexed-indirect operand.
    fn adc_indirect_x(&mut self, memory: &mut Memory)
        ensures
            *final(self) == spec_adc_indirect_x(*old(self), old(memory)@),
            final(memory)@ == old(memory)@,
    {
        let address = self.addr_indirect_x(memory);
        let operand: u8 = self.read_byte(memory, address);
        add_to_accumulator(self, operand);
    }

    /// `ADC` with an indirect-indexed operand.
    fn adc_indirect_y(&mut self, memory: &mut Memory)
        ensures
            *final(self) == spec_adc_indirect_y(*old(self), old(memory)@),
            final(memory)@ == old(memory)@,
    {
        let address = self.addr_indirect_y(memory);
        let operand: u8 = self.read_byte(memory, address);
        add_to_accumulator(self, operand);
    }
}

} // verus!
