//! Register loads: every addressing mode, each setting Zero and Negative
//! from the loaded value.

use vstd::prelude::*;

use crate::cpu::functions::byte::ByteFunctions;
use crate::cpu::instructions::addressing::Addressing;
use crate::cpu::model::{
    spec_load_absolute, spec_load_immediate, spec_load_indirect_x, spec_load_indirect_y,
    spec_load_zero_page, spec_with_register,
};
use crate::cpu::opcodes::Registers;
use crate::cpu::processor::Processor;
use crate::mem::Memory;

verus! {

pub trait LoadRegister {
    fn set_register(&mut self, register: Registers, value: u8);

    fn load_immediate(&mut self, memory: &Memory, register: Registers);

    fn load_zero_page(
        &mut self,
        memory: &Memory,
        register: Registers,
        offset_register: Option<Registers>,
    );

    fn load_absolute(
        &mut self,
        memory: &Memory,
        register: Registers,
        offset_register: Option<Registers>,
    );

    fn load_indirect_x(&mut self, memory: &Memory);

    fn load_indirect_y(&mut self, memory: &Memory);
}

impl LoadRegister for Processor {
    /// Writes the chosen register, setting Zero iff the value is 0 and
    /// Negative from its bit 7.
    fn set_register(&mut self, register: Registers, value: u8)
        ensures
            *final(self) == spec_with_register(*old(self), register, value),
    {
        match register {
            Registers::Accumulator => {
                self.accumulator = value;
                let zero = self.accumulator == 0;
                self.set_status(crate::cpu::opcodes::ProcessorStatus::ZeroFlag, zero);
                let negative = crate::mem::fetch_bit(self.accumulator, 7);
                self.set_status(crate::cpu::opcodes::ProcessorStatus::NegativeFlag, negative);
            },
            Registers::RegisterX => {
                self.register_x = value;
                let zero = self.register_x == 0;
                self.set_status(crate::cpu::opcodes::ProcessorStatus::ZeroFlag, zero);
                let negative = crate::mem::fetch_bit(self.register_x, 7);
                self.set_status(crate::cpu::opcodes::ProcessorStatus::NegativeFlag, negative);
            },
            Registers::RegisterY => {
                self.register_y = value;
                let zero = self.register_y == 0;
                self.set_status(crate::cpu::opcodes::ProcessorStatus::ZeroFlag, zero);
                let negative = crate::mem::fetch_bit(self.register_y, 7);
                self.set_status(crate::cpu::opcodes::ProcessorStatus::NegativeFlag, negative);
            },
        }
    }

    /// Loads an immediate operand into the chosen register.
    fn load_immediate(&mut self, memory: &Memory, register: Registers)
        ensures
            *final(self) == spec_load_immediate(*old(self), memory@, register),
    {
        let byte_value = self.fetch_byte(memory);
        self.set_register(register, byte_value);
    }

    /// Loads a zero-page operand into the chosen register.
    fn load_zero_page(
        &mut self,
        memory: &Memory,
        register: Registers,
        offset_register: Option<Registers>,
    )
        ensures
            *final(self) == spec_load_zero_page(*old(self), memory@, register, offset_register),
    {
        let zero_page_addr: u16 = self.addr_zero_page(memory, offset_register);
        let byte_value: u8 = self.read_byte(memory, zero_page_addr);

        self.set_register(register, byte_value);
    }

    /// Loads an absolute operand into the chosen register.
    fn load_absolute(
        &mut self,
        memory: &Memory,
        register: Registers,
        offset_register: Option<Registers>,
    )
        ensures
            *final(self) == spec_load_absolute(*old(self), memory@, register, offset_register),
    {
        let absolute_addr: u16 = self.addr_absolute(memory, offset_register);
        let byte_value: u8 = self.read_byte(memory, absolute_addr);

        self.set_register(register, byte_value);
    }

    /// Loads an indexed-indirect operand into the accumulator.
    fn load_indirect_x(&mut self, memory: &Memory)
        ensures
            *final(self) == spec_load_indirect_x(*old(self), memory@),
    {
        let indirect_addr: u16 = self.addr_indirect_x(memory);
        let byte_value = self.read_byte(memory, indirect_addr);

        self.set_register(Registers::Accumulator, byte_value);
    }

    /// Loads an indirect-indexed operand into the accumulator.
    fn load_indirect_y(&mut self, memory: &Memory)
        ensures
            *final(self) == spec_load_indirect_y(*old(self), memory@),
    {
        let indirect_addr: u16 = self.addr_indirect_y(memory);
        let byte_value = self.read_byte(memory, indirect_addr);

        self.set_register(Registers::Accumulator, byte_value);
    }
}

} // verus!
