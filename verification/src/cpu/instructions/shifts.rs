//! Shifts and rotates, on the accumulator or on a resolved memory byte.
//! The bit shifted out becomes the new Carry; rotates shift the old Carry
//! into the vacated bit.

use vstd::prelude::*;

use crate::cpu::functions::byte::ByteFunctions;
use crate::cpu::instructions::addressing::Addressing;
use crate::cpu::model::{spec_rotate_left, spec_rotate_right, spec_shift_left, spec_shift_right};
use crate::cpu::opcodes as op;
use crate::cpu::opcodes::{ProcessorStatus, Registers};
use crate::cpu::processor::Processor;
use crate::mem::{fetch_bit, set_bit, Memory};

verus! {

pub trait Shifts {
    fn shift_left(&mut self, memory: &mut Memory, opcode: u8);

    fn shift_right(&mut self, memory: &mut Memory, opcode: u8);

    fn rotate_left(&mut self, memory: &mut Memory, opcode: u8);

    fn rotate_right(&mut self, memory: &mut Memory, opcode: u8);
}

impl Shifts for Processor {
    /// `ASL`: shifts left; the old bit 7 becomes the Carry.
    fn shift_left(&mut self, memory: &mut Memory, opcode: u8)
        ensures
            *final(self) == spec_shift_left(*old(self), old(memory)@, opcode).0,
            final(memory)@ == spec_shift_left(*old(self), old(memory)@, opcode).1,
    {
        let mut result: u8 = 0;
        let mut old_carry: bool = false;
        let mut address: Option<u16> = None;

        match opcode {
            op::ASL_ACCUMULATOR => {
                old_carry = fetch_bit(self.accumulator, 7);
                result = self.accumulator << 1;
                self.accumulator = result;
            },
            op::ASL_ZERO_PAGE => {
                address = Some(self.addr_zero_page(memory, None));
            },
            op::ASL_ZERO_PAGE_X => {
                address = Some(self.addr_zero_page(memory, Some(Registers::RegisterX)));
            },
            op::ASL_ABSOLUTE => {
                address = Some(self.addr_absolute(memory, None));
            },
            op::ASL_ABSOLUTE_X => {
                address = Some(self.addr_absolute(memory, Some(Registers::RegisterX)));
            },
            _ => {},
        }

        match address {
            Some(resolved) => {
                let operand = self.read_byte(memory, resolved);
                old_carry = fetch_bit(operand, 7);
                result = operand << 1;
                self.write_byte(memory, result, resolved);
            },
            None => {},
        }

        let negative = fetch_bit(result, 7);
        self.set_status(ProcessorStatus::NegativeFlag, negative);
        self.set_status(ProcessorStatus::ZeroFlag, result == 0);
        self.set_status(ProcessorStatus::CarryFlag, old_carry);
        self.decrement_cycles(1);
    }

    /// `LSR`: shifts right; the old bit 0 becomes the Carry.
    fn shift_right(&mut self, memory: &mut Memory, opcode: u8)
        ensures
            *final(self) == spec_shift_right(*old(self), old(memory)@, opcode).0,
            final(memory)@ == spec_shift_right(*old(self), old(memory)@, opcode).1,
    {
        let mut result: u8 = 0;
        let mut old_carry: bool = false;
        let mut address: Option<u16> = None;

        match opcode {
            op::LSR_ACCUMULATOR => {
                old_carry = fetch_bit(self.accumulator, 0);
                result = self.accumulator >> 1;
                self.accumulator = result;
            },
            op::LSR_ZERO_PAGE => {
                address = Some(self.addr_zero_page(memory, None));
            },
            op::LSR_ZERO_PAGE_X => {
                address = Some(self.addr_zero_page(memory, Some(Registers::RegisterX)));
            },
            op::LSR_ABSOLUTE => {
                address = Some(self.addr_absolute(memory, None));
            },
            op::LSR_ABSOLUTE_X => {
                address = Some(self.addr_absolute(memory, Some(Registers::RegisterX)));
            },
            _ => {},
        }

        match address {
            Some(resolved) => {
                let operand = self.read_byte(memory, resolved);
                old_carry = fetch_bit(operand, 0);
                result = operand >> 1;
                self.write_byte(memory, result, resolved);
            },
            None => {},
        }

        let negative = fetch_bit(result, 7);
        self.set_status(ProcessorStatus::NegativeFlag, negative);
        self.set_status(ProcessorStatus::ZeroFlag, result == 0);
        self.set_status(ProcessorStatus::CarryFlag, old_carry);
        self.decrement_cycles(1);
    }

    /// `ROL`: rotates left through the Carry; the old Carry enters at bit 0
    /// and the old bit 7 leaves into the Carry.
    fn rotate_left(&mut self, memory: &mut Memory, opcode: u8)
        ensures
            *final(self) == spec_rotate_left(*old(self), old(memory)@, opcode).0,
            final(memory)@ == spec_rotate_left(*old(self), old(memory)@, opcode).1,
    {
        let carry_in = self.fetch_status(ProcessorStatus::CarryFlag);
        let mut result: u8 = 0;
        let mut old_carry: bool = false;
        let mut address: Option<u16> = None;

        match opcode {
            op::ROL_ACCUMULATOR => {
                old_carry = fetch_bit(self.accumulator, 7);
                result = set_bit(self.accumulator << 1, 0, carry_in);
                self.accumulator = result;
            },
            op::ROL_ZERO_PAGE => {
                address = Some(self.addr_zero_page(memory, None));
            },
            op::ROL_ZERO_PAGE_X => {
                address = Some(self.addr_zero_page(memory, Some(Registers::RegisterX)));
            },
            op::ROL_ABSOLUTE => {
                address = Some(self.addr_absolute(memory, None));
            },
            op::ROL_ABSOLUTE_X => {
                address = Some(self.addr_absolute(memory, Some(Registers::RegisterX)));
            },
            _ => {},
        }

        match address {
            Some(resolved) => {
                let operand = self.read_byte(memory, resolved);
                old_carry = fetch_bit(operand, 7);
                result = set_bit(operand << 1, 0, carry_in);
                self.write_byte(memory, result, resolved);
            },
            None => {},
        }

        let negative = fetch_bit(result, 7);
        self.set_status(ProcessorStatus::NegativeFlag, negative);
        self.set_status(ProcessorStatus::ZeroFlag, result == 0);
        self.set_status(ProcessorStatus::CarryFlag, old_carry);
        self.decrement_cycles(1);
    }

    /// `ROR`: rotates right through the Carry; the old Carry enters at bit 7
    /// and the old bit 0 leaves into the Carry.
    fn rotate_right(&mut self, memory: &mut Memory, opcode: u8)
        ensures
            *final(self) == spec_rotate_right(*old(self), old(memory)@, opcode).0,
            final(memory)@ == spec_rotate_right(*old(self), old(memory)@, opcode).1,
    {
        let carry_in = self.fetch_status(ProcessorStatus::CarryFlag);
        let mut result: u8 = 0;
        let mut old_carry: bool = false;
        let mut address: Option<u16> = None;

        match opcode {
            op::ROR_ACCUMULATOR => {
                old_carry = fetch_bit(self.accumulator, 0);
                result = set_bit(self.accumulator >> 1, 7, carry_in);
                self.accumulator = result;
            },
            op::ROR_ZERO_PAGE => {
                address = Some(self.addr_zero_page(memory, None));
            },
            op::ROR_ZERO_PAGE_X => {
                address = Some(self.addr_zero_page(memory, Some(Registers::RegisterX)));
            },
            op::ROR_ABSOLUTE => {
                address = Some(self.addr_absolute(memory, None));
            },
            op::ROR_ABSOLUTE_X => {
                address = Some(self.addr_absolute(memory, Some(Registers::RegisterX)));
            },
            _ => {},
        }

        match address {
            Some(resolved) => {
                let operand = self.read_byte(memory, resolved);
                old_carry = fetch_bit(operand, 0);
                result = set_bit(operand >> 1, 7, carry_in);
                self.write_byte(memory, result, resolved);
            },
            None => {},
        }

        let negative = fetch_bit(result, 7);
        self.set_status(ProcessorStatus::NegativeFlag, negative);
        self.set_status(ProcessorStatus::ZeroFlag, result == 0);
        self.set_status(ProcessorStatus::CarryFlag, old_carry);
        self.decrement_cycles(1);
    }
}

} // verus!
