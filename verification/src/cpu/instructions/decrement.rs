//! Decrements of registers and memory bytes, wrapping 0 to 255.

use vstd::prelude::*;

use crate::cpu::functions::byte::ByteFunctions;
use crate::cpu::instructions::addressing::Addressing;
use crate::cpu::instructions::increment::set_memory;
use crate::cpu::instructions::registers::load::LoadRegister;
use crate::cpu::model::{
    spec_decrement_memory_absolute, spec_decrement_memory_zero_page, spec_transfer,
};
use crate::cpu::opcodes::Registers;
use crate::cpu::processor::Processor;
use crate::mem::Memory;

verus! {

pub trait Decrement {
    fn decrement_memory_zero_page(&mut self, memory: &mut Memory, offset_register: Option<Registers>);

    fn decrement_memory_absolute(&mut self, memory: &mut Memory, offset_register: Option<Registers>);

    fn decrement_x(&mut self);

    fn decrement_y(&mut self);
}

impl Decrement for Processor {
    /// `DEC` on a zero-page byte.
    fn decrement_memory_zero_page(
        &mut self,
        memory: &mut Memory,
        offset_register: Option<Registers>,
    )
        ensures
            *final(self) == spec_decrement_memory_zero_page(
                *old(self),
                old(memory)@,
                offset_register,
            ).0,
            final(memory)@ == spec_decrement_memory_zero_page(
                *old(self),
                old(memory)@,
                offset_register,
            ).1,
    {
        let zero_page_addr = self.addr_zero_page(memory, offset_register);
        let value: u8 = self.read_byte(memory, zero_page_addr).wrapping_sub(1);
        set_memory(self, memory, value, zero_page_addr);
    }

    /// `DEC` on an absolute byte, at the same read-modify-write cost as an
    /// increment.
    fn decrement_memory_absolute(
        &mut self,
        memory: &mut Memory,
        offset_register: Option<Registers>,
    )
        ensures
            *final(self) == spec_decrement_memory_absolute(
                *old(self),
                old(memory)@,
                offset_register,
            ).0,
            final(memory)@ == spec_decrement_memory_absolute(
                *old(self),
                old(memory)@,
                offset_register,
            ).1,
    {
        let absolute_addr = self.addr_absolute(memory, offset_register);
        let value: u8 = self.read_byte(memory, absolute_addr).wrapping_sub(1);
        set_memory(self, memory, value, absolute_addr);
    }

    /// `DEX`.
    fn decrement_x(&mut self)
        ensures
            *final(self) == spec_transfer(
                *old(self),
                Registers::RegisterX,
                old(self).register_x.wrapping_sub(1),
            ),
    {
        let value = self.register_x.wrapping_sub(1);
        self.set_register(Registers::RegisterX, value);
        self.decrement_cycles(1);
    }

    /// `DEY`.
    fn decrement_y(&mut self)
        ensures
            *final(self) == spec_transfer(
                *old(self),
                Registers::RegisterY,
                old(self).register_y.wrapping_sub(1),
            ),
    {
        let value = self.register_y.wrapping_sub(1);
        self.set_register(Registers::RegisterY, value);
        self.decrement_cycles(1);
    }
}

} // verus!
