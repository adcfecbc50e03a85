//! A cycle-accurate instruction-set emulator for the MOS 6502 8-bit
//! microprocessor, with machine-checked contracts.
//!
//! The crate models the processor's register transfers, flag updates,
//! addressing-mode effective-address computation and clock-cycle accounting,
//! including the documented timing quirks (page-boundary-cross penalties,
//! the off-by-one return address of `JSR`/`RTS`, and the forced bits of the
//! pushed status byte). Every public operation carries a contract that pins
//! its effect on the processor and on memory down to a mathematical model of
//! the machine, and the fetch-decode-execute loop is proved to agree with a
//! step-by-step specification of the whole run.

pub mod checks;
pub mod cpu;
pub mod mem;
