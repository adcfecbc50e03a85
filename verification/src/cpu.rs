//! The processor core: registers, opcode table, machine model, and the
//! instruction implementations grouped as in the hardware manual.

pub mod functions;
pub mod instructions;
pub mod laws;
pub mod model;
pub mod opcodes;
pub mod processor;
