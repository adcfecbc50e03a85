//! The 64 KiB byte-addressable memory and the two bit-twiddling helpers the
//! status register codec is built from.

use vstd::prelude::*;

use crate::cpu::model::{spec_fetch_bit, spec_set_bit};

verus! {

/// Size of the address space: 64 KiB, indexed by a 16-bit address.
pub const MAX_MEMORY: usize = 1024 * 64;

/// Reads one bit of a byte; `check_bit` counts from the least significant bit.
pub fn fetch_bit(value: u8, check_bit: u8) -> (r: bool)
    requires
        check_bit < 8,
    ensures
        r == spec_fetch_bit(value, check_bit),
{
    return value & (1 << check_bit) != 0;
}

/// Returns `value` with the chosen bit forced to `bit_value`.
pub fn set_bit(value: u8, bit: u8, bit_value: bool) -> (r: u8)
    requires
        bit < 8,
    ensures
        r == spec_set_bit(value, bit, bit_value),
{
    let mut value = value;
    if bit_value == true {
        value |= 1 << bit;
    } else {
        value &= !(1 << bit);
    }
    return value;
}

/// A flat, fixed-size byte array. It holds no logic of its own: the
/// processor core is the only component that accounts for access cycles.
pub struct Memory {
    pub data: [u8; MAX_MEMORY],
}

impl View for Memory {
    type V = Seq<u8>;

    open spec fn view(&self) -> Seq<u8> {
        self.data@
    }
}

pub trait Functions {
    fn write_2byte(&mut self, data: u16, address: u16, cycles: &mut u32);

    fn write_byte(&mut self, data: u8, address: u16, cycles: &mut u32);
}

impl Functions for Memory {
    /// Stores a 16-bit value in little-endian order at `address` and
    /// `address + 1` (wrapping within the address space), spending two cycles
    /// of the supplied budget.
    fn write_2byte(&mut self, data: u16, address: u16, cycles: &mut u32)
        ensures
            final(self)@ == old(self)@.update(address as int, (data & 0xFF) as u8).update(
                address.wrapping_add(1) as int,
                (data >> 8) as u8,
            ),
            *final(cycles) == old(cycles).saturating_sub(2),
    {
        let low: u8 = (data & 0xFF) as u8;
        let high: u8 = (data >> 8) as u8;

        self.data[address as usize] = low;
        self.data[address.wrapping_add(1) as usize] = high;
        *cycles = cycles.saturating_sub(2);
    }

    /// Stores one byte at `address`, spending one cycle of the supplied
    /// budget.
    fn write_byte(&mut self, data: u8, address: u16, cycles: &mut u32)
        ensures
            final(self)@ == old(self)@.update(address as int, data),
            *final(cycles) == old(cycles).saturating_sub(1),
    {
        self.data[address as usize] = data;
        *cycles = cycles.saturating_sub(1);
    }
}

} // verus!
