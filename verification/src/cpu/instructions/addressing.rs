//! The addressing resolver: computes each mode's effective address while
//! consuming the program counter and the documented cycle costs, including
//! page-cross penalties.

use vstd::prelude::*;

use crate::cpu::functions::byte::ByteFunctions;
use crate::cpu::functions::word::WordFunctions;
use crate::cpu::model::{
    spec_addr_absolute, spec_addr_indirect_x, spec_addr_indirect_y, spec_addr_zero_page,
};
use crate::cpu::opcodes::Registers;
use crate::cpu::processor::Processor;
use crate::mem::Memory;

verus! {

pub trait Addressing {
    fn addr_zero_page(&mut self, memory: &Memory, offset_register: Option<Registers>) -> u16;

    fn addr_absolute(&mut self, memory: &Memory, offset_register: Option<Registers>) -> u16;

    fn addr_indirect_x(&mut self, memory: &Memory) -> u16;

    fn addr_indirect_y(&mut self, memory: &Memory) -> u16;
}

impl Addressing for Processor {
    /// Zero-page addressing: one operand byte, optionally indexed with 8-bit
    /// wraparound for one extra cycle.
    fn addr_zero_page(&mut self, memory: &Memory, offset_register: Option<Registers>) -> (address: u16)
        ensures
            *final(self) == spec_addr_zero_page(*old(self), memory@, offset_register).0,
            address == spec_addr_zero_page(*old(self), memory@, offset_register).1,
    {
        let mut zero_page_addr: u8 = self.fetch_byte(memory);

        match offset_register {
            Some(Registers::RegisterX) => {
                zero_page_addr = zero_page_addr.wrapping_add(self.register_x);
                self.decrement_cycles(1);
            },
            Some(Registers::RegisterY) => {
                zero_page_addr = zero_page_addr.wrapping_add(self.register_y);
                self.decrement_cycles(1);
            },
            _ => {},
        }

        return zero_page_addr as u16;
    }

    /// Absolute addressing: a 16-bit operand, optionally indexed with 16-bit
    /// wraparound; crossing a page boundary costs one extra cycle.
    fn addr_absolute(&mut self, memory: &Memory, offset_register: Option<Registers>) -> (address: u16)
        ensures
            *final(self) == spec_addr_absolute(*old(self), memory@, offset_register).0,
            address == spec_addr_absolute(*old(self), memory@, offset_register).1,
    {
        let absolute_addr: u16 = self.fetch_word(memory);
        let absolute_addr_offset: u16 = match offset_register {
            Some(Registers::RegisterX) => absolute_addr.wrapping_add(self.register_x as u16),
            Some(Registers::RegisterY) => absolute_addr.wrapping_add(self.register_y as u16),
            _ => absolute_addr,
        };

        if absolute_addr_offset >> 8 != absolute_addr >> 8 {
            self.decrement_cycles(1);
        }

        return absolute_addr_offset;
    }

    /// Indexed-indirect addressing: the operand byte plus register X names
    /// the zero-page location holding the effective address.
    fn addr_indirect_x(&mut self, memory: &Memory) -> (address: u16)
        ensures
            *final(self) == spec_addr_indirect_x(*old(self), memory@).0,
            address == spec_addr_indirect_x(*old(self), memory@).1,
    {
        let mut zero_page_address: u8 = self.fetch_byte(memory);
        zero_page_address = zero_page_address.wrapping_add(self.register_x);
        self.decrement_cycles(1);

        return self.read_word(memory, zero_page_address as u16);
    }

    /// Indirect-indexed addressing: the operand byte names a zero-page
    /// location holding a base address, to which register Y is added with
    /// 16-bit wraparound; crossing a page boundary costs one extra cycle.
    fn addr_indirect_y(&mut self, memory: &Memory) -> (address: u16)
        ensures
            *final(self) == spec_addr_indirect_y(*old(self), memory@).0,
            address == spec_addr_indirect_y(*old(self), memory@).1,
    {
        let zero_page_address: u8 = self.fetch_byte(memory);
        let effective_address: u16 = self.read_word(memory, zero_page_address as u16);
        let effective_address_y: u16 = effective_address.wrapping_add(self.register_y as u16);

        if effective_address_y >> 8 != effective_address >> 8 {
            self.decrement_cycles(1);
        }

        return effective_address_y;
    }
}

} // verus!
