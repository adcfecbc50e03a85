//! Register-to-register transfers, each setting Zero and Negative from the
//! copied value.

use vstd::prelude::*;

use crate::cpu::instructions::registers::load::LoadRegister;
use crate::cpu::model::spec_transfer;
use crate::cpu::opcodes::Registers;
use crate::cpu::processor::Processor;

verus! {

pub trait Transfers {
    fn transfer_accumulator_to_x(&mut self);

    fn transfer_accumulator_to_y(&mut self);

    fn transfer_x_to_accumulator(&mut self);

    fn transfer_y_to_accumulator(&mut self);
}

impl Transfers for Processor {
    /// `TAX`.
    fn transfer_accumulator_to_x(&mut self)
        ensures
            *final(self) == spec_transfer(*old(self), Registers::RegisterX, old(self).accumulator),
    {
        let value = self.accumulator;
        self.set_register(Registers::RegisterX, value);
        self.decrement_cycles(1);
    }

    /// `TAY`.
    fn transfer_accumulator_to_y(&mut self)
        ensures
            *final(self) == spec_transfer(*old(self), Registers::RegisterY, old(self).accumulator),
    {
        let value = self.accumulator;
        self.set_register(Registers::RegisterY, value);
        self.decrement_cycles(1);
    }

    /// `TXA`.
    fn transfer_x_to_accumulator(&mut self)
        ensures
            *final(self) == spec_transfer(
                *old(self),
                Registers::Accumulator,
                old(self).register_x,
            ),
    {
        let value = self.register_x;
        self.set_register(Registers::Accumulator, value);
        self.decrement_cycles(1);
    }

    /// `TYA`.
    fn transfer_y_to_accumulator(&mut self)
        ensures
            *final(self) == spec_transfer(
                *old(self),
                Registers::Accumulator,
                old(self).register_y,
            ),
    {
        let value = self.register_y;
        self.set_register(Registers::Accumulator, value);
        self.decrement_cycles(1);
    }
}

} // verus!
