//! Increments of registers and memory bytes, wrapping 255 to 0.

use vstd::prelude::*;

use crate::cpu::functions::byte::ByteFunctions;
use crate::cpu::instructions::addressing::Addressing;
use crate::cpu::instructions::registers::load::LoadRegister;
use crate::cpu::model::{
    spec_increment_memory_absolute, spec_increment_memory_zero_page, spec_set_memory,
    spec_transfer,
};
use crate::cpu::opcodes::{ProcessorStatus, Registers};
use crate::cpu::processor::Processor;
use crate::mem::{fetch_bit, Memory};

verus! {

/// Writes a modified byte back to memory and sets Zero/Negative from it,
/// at the cost of the write plus one modify cycle.
pub(crate) fn set_memory(processor: &mut Processor, memory: &mut Memory, value: u8, address: u16)
    ensures
        *final(processor) == spec_set_memory(*old(processor), old(memory)@, value, address).0,
        final(memory)@ == spec_set_memory(*old(processor), old(memory)@, value, address).1,
{
    processor.write_byte(memory, value, address);
    let zero = value == 0;
    processor.set_status(ProcessorStatus::ZeroFlag, zero);
    let negative = fetch_bit(value, 7);
    processor.set_status(ProcessorStatus::NegativeFlag, negative);
    processor.decrement_cycles(1);
}

pub trait Increment {
    fn increment_memory_zero_page(&mut self, memory: &mut Memory, offset_register: Option<Registers>);

    fn increment_memory_absolute(&mut self, memory: &mut Memory, offset_register: Option<Registers>);

    fn increment_x(&mut self);

    fn increment_y(&mut self);
}

impl Increment for Processor {
    /// `INC` on a zero-page byte.
    fn increment_memory_zero_page(
        &mut self,
        memory: &mut Memory,
        offset_register: Option<Registers>,
    )
        ensures
            *final(self) == spec_increment_memory_zero_page(
                *old(self),
                old(memory)@,
                offset_register,
            ).0,
            final(memory)@ == spec_increment_memory_zero_page(
                *old(self),
                old(memory)@,
                offset_register,
            ).1,
    {
        let zero_page_addr = self.addr_zero_page(memory, offset_register);
        let value: u8 = self.read_byte(memory, zero_page_addr).wrapping_add(1);
        set_memory(self, memory, value, zero_page_addr);
    }

    /// `INC` on an absolute byte.
    fn increment_memory_absolute(
        &mut self,
        memory: &mut Memory,
        offset_register: Option<Registers>,
    )
        ensures
            *final(self) == spec_increment_memory_absolute(
                *old(self),
                old(memory)@,
                offset_register,
            ).0,
            final(memory)@ == spec_increment_memory_absolute(
                *old(self),
                old(memory)@,
                offset_register,
            ).1,
    {
        let absolute_addr = self.addr_absolute(memory, offset_register);
        let value: u8 = self.read_byte(memory, absolute_addr).wrapping_add(1);
        set_memory(self, memory, value, absolute_addr);
    }

    /// `INX`.
    fn increment_x(&mut self)
        ensures
            *final(self) == spec_transfer(
                *old(self),
                Registers::RegisterX,
                old(self).register_x.wrapping_add(1),
            ),
    {
        let value = self.register_x.wrapping_add(1);
        self.set_register(Registers::RegisterX, value);
        self.decrement_cycles(1);
    }

    /// `INY`.
    fn increment_y(&mut self)
        ensures
            *final(self) == spec_transfer(
                *old(self),
                Registers::RegisterY,
                old(self).register_y.wrapping_add(1),
            ),
    {
        let value = self.register_y.wrapping_add(1);
        self.set_register(Registers::RegisterY, value);
        self.decrement_cycles(1);
    }
}

} // verus!
