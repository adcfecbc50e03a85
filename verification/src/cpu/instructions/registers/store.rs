//! Register stores: every addressing mode. An indexed absolute store always
//! pays the address fix-up cycle, whether or not a page was crossed.

use vstd::prelude::*;

use crate::cpu::functions::byte::ByteFunctions;
use crate::cpu::functions::word::WordFunctions;
use crate::cpu::instructions::addressing::Addressing;
use crate::cpu::model::{
    spec_store_absolute, spec_store_indirect_x, spec_store_indirect_y, spec_store_zero_page,
};
use crate::cpu::opcodes::Registers;
use crate::cpu::processor::Processor;
use crate::mem::Memory;

verus! {

pub trait StoreRegister {
    fn store_zero_page(
        &mut self,
        memory: &mut Memory,
        register: Registers,
        offset_register: Option<Registers>,
    );

    fn store_absolute(
        &mut self,
        memory: &mut Memory,
        register: Registers,
        offset_register: Option<Registers>,
    );

    fn store_indirect_x(&mut self, memory: &mut Memory);

    fn store_indirect_y(&mut self, memory: &mut Memory);
}

impl StoreRegister for Processor {
    /// Stores the chosen register to a zero-page address. Flags are
    /// untouched.
    fn store_zero_page(
        &mut self,
        memory: &mut Memory,
        register: Registers,
        offset_register: Option<Registers>,
    )
        ensures
            *final(self) == spec_store_zero_page(
                *old(self),
                old(memory)@,
                register,
                offset_register,
            ).0,
            final(memory)@ == spec_store_zero_page(
                *old(self),
                old(memory)@,
                register,
                offset_register,
            ).1,
    {
        let zero_page_address: u16 = self.addr_zero_page(memory, offset_register);

        match register {
            Registers::Accumulator => {
                let value = self.accumulator;
                self.write_byte(memory, value, zero_page_address);
            },
            Registers::RegisterX => {
                let value = self.register_x;
                self.write_byte(memory, value, zero_page_address);
            },
            Registers::RegisterY => {
                let value = self.register_y;
                self.write_byte(memory, value, zero_page_address);
            },
        }
    }

    /// Stores the chosen register to an absolute address. With an index
    /// register the effective address is formed with 16-bit wraparound and
    /// the fix-up cycle is spent unconditionally: a store must always write
    /// the corrected address, so there is no conditional crossing penalty.
    fn store_absolute(
        &mut self,
        memory: &mut Memory,
        register: Registers,
        offset_register: Option<Registers>,
    )
        ensures
            *final(self) == spec_store_absolute(
                *old(self),
                old(memory)@,
                register,
                offset_register,
            ).0,
            final(memory)@ == spec_store_absolute(
                *old(self),
                old(memory)@,
                register,
                offset_register,
            ).1,
    {
        let base: u16 = self.fetch_word(memory);
        let address: u16 = match offset_register {
            Some(Registers::RegisterX) => self.register_x as u16,
            Some(Registers::RegisterY) => self.register_y as u16,
            _ => 0,
        };
        let address = base.wrapping_add(address);

        match register {
            Registers::Accumulator => {
                let value = self.accumulator;
                self.write_byte(memory, value, address);
            },
            Registers::RegisterX => {
                let value = self.register_x;
                self.write_byte(memory, value, address);
            },
            Registers::RegisterY => {
                let value = self.register_y;
                self.write_byte(memory, value, address);
            },
        }

        match offset_register {
            Some(Registers::RegisterX) | Some(Registers::RegisterY) => self.decrement_cycles(1),
            _ => {},
        }
    }

    /// Stores the accumulator through an indexed-indirect address.
    fn store_indirect_x(&mut self, memory: &mut Memory)
        ensures
            *final(self) == spec_store_indirect_x(*old(self), old(memory)@).0,
            final(memory)@ == spec_store_indirect_x(*old(self), old(memory)@).1,
    {
        let indirect_addr: u16 = self.addr_indirect_x(memory);
        let value = self.accumulator;
        self.write_byte(memory, value, indirect_addr);
    }

    /// Stores the accumulator through an indirect-indexed address, with one
    /// extra cycle beyond the addressing cost.
    fn store_indirect_y(&mut self, memory: &mut Memory)
        ensures
            *final(self) == spec_store_indirect_y(*old(self), old(memory)@).0,
            final(memory)@ == spec_store_indirect_y(*old(self), old(memory)@).1,
    {
        let indirect_addr: u16 = self.addr_indirect_y(memory);
        let value = self.accumulator;
        self.write_byte(memory, value, indirect_addr);
        self.decrement_cycles(1);
    }
}

} // verus!
