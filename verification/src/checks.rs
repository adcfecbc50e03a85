//! Statically checked assertions and a fresh machine for exercising the
//! processor: a verified caller of `verify_cycles` or `verify_memory` must
//! prove the stated equality, so neither can fail at run time.

use vstd::prelude::*;

use crate::cpu::model::{spec_fetch_bit, spec_register_value};
use crate::cpu::opcodes::Registers;
use crate::cpu::processor::{Functions, Processor};
use crate::mem::{Memory, MAX_MEMORY};

verus! {

/// A fresh machine: zeroed memory and a processor reset with the
/// conventional reset vector 0xFFFC, ready for a program and a cycle
/// budget.
pub fn setup() -> (machine: (Memory, Processor))
    ensures
        machine.1.program_counter == 0xFFFC,
        machine.1.stack_pointer == 0xFF,
        machine.1.accumulator == 0,
        machine.1.register_x == 0,
        machine.1.register_y == 0,
        machine.1.status == 0,
        machine.1.cycles == 0,
        machine.0@.len() == MAX_MEMORY,
        forall|i: int| 0 <= i < MAX_MEMORY ==> machine.0@[i] == 0u8,
{
    let mut memory = Memory { data: [0; MAX_MEMORY] };

    let mut processor = Processor {
        program_counter: 0,
        stack_pointer: 0,
        accumulator: 0,
        register_x: 0,
        register_y: 0,
        status: 0,
        cycles: 0,
    };

    processor.reset(&mut memory, 0xFFFC);

    return (memory, processor);
}

/// A statically checked claim that an execution consumed exactly the
/// expected number of cycles.
pub fn verify_cycles(cycles: i64, expected_cycles: i64)
    requires
        cycles == expected_cycles,
{
}

/// A statically checked claim about one byte of memory.
pub fn verify_memory(memory: &Memory, address: u16, expected: u8)
    requires
        memory@[address as int] == expected,
{
}

/// A statically checked claim about the value of one data register.
pub fn verify_register(processor: &Processor, register: Registers, expected: u8)
    requires
        spec_register_value(*processor, register) == expected,
{
}

/// A statically checked claim that a plain load has left every flag beside
/// Zero and Negative untouched at zero.
pub fn verify_lda_flags(processor: &Processor)
    requires
        !spec_fetch_bit(processor.status, 0),
        !spec_fetch_bit(processor.status, 2),
        !spec_fetch_bit(processor.status, 3),
        !spec_fetch_bit(processor.status, 4),
        !spec_fetch_bit(processor.status, 6),
{
}

} // verus!
