//! The mathematical model of the machine.
//!
//! Every executable operation of the processor is specified against the
//! functions in this module: a processor value together with a `Seq<u8>`
//! view of memory is mapped to the state after the operation. The dispatch
//! table and the whole execution loop are modelled by [`spec_dispatch`] and
//! [`spec_run`], so the contract of `execute` pins the final machine state
//! down to this model.

use vstd::prelude::*;

use crate::cpu::opcodes::{
    ASL_ABSOLUTE, ASL_ABSOLUTE_X, ASL_ACCUMULATOR, ASL_ZERO_PAGE, ASL_ZERO_PAGE_X, LSR_ABSOLUTE,
    LSR_ABSOLUTE_X, LSR_ACCUMULATOR, LSR_ZERO_PAGE, LSR_ZERO_PAGE_X, ROL_ABSOLUTE, ROL_ABSOLUTE_X,
    ROL_ACCUMULATOR, ROL_ZERO_PAGE, ROL_ZERO_PAGE_X, ROR_ABSOLUTE, ROR_ABSOLUTE_X, ROR_ACCUMULATOR,
    ROR_ZERO_PAGE, ROR_ZERO_PAGE_X,
};
use crate::cpu::opcodes as op;
use crate::cpu::opcodes::{LogicalOperations, ProcessorStatus, Registers};
use crate::cpu::opcodes::LogicalOperations::{And, ExclusiveOr, Or};
use crate::cpu::opcodes::Registers::{Accumulator, RegisterX, RegisterY};
use crate::cpu::processor::Processor;

verus! {

// ---------------------------------------------------------------------------
// Bits and the status register codec
// ---------------------------------------------------------------------------
/// One bit of a byte, counted from the least significant bit.
pub open spec fn spec_fetch_bit(value: u8, check_bit: u8) -> bool {
    value & (1u8 << check_bit) != 0
}

/// `value` with the chosen bit forced to `bit_value`.
pub open spec fn spec_set_bit(value: u8, bit: u8, bit_value: bool) -> u8 {
    if bit_value {
        value | (1u8 << bit)
    } else {
        value & !(1u8 << bit)
    }
}

/// The bit position of each named flag: Carry 0, Zero 1, InterruptDisable 2,
/// DecimalMode 3, Break 4, Overflow 6, Negative 7. Bit 5 is unused.
pub open spec fn spec_flag_bit(flag: ProcessorStatus) -> u8 {
    match flag {
        ProcessorStatus::CarryFlag => 0,
        ProcessorStatus::ZeroFlag => 1,
        ProcessorStatus::InterruptDisable => 2,
        ProcessorStatus::DecimalMode => 3,
        ProcessorStatus::BreakCommand => 4,
        ProcessorStatus::OverflowFlag => 6,
        ProcessorStatus::NegativeFlag => 7,
    }
}

/// The status byte after an operation that sets Zero and Negative from the
/// 8-bit value it produced: Zero iff the value is 0, Negative iff bit 7.
pub open spec fn spec_status_zn(status: u8, value: u8) -> u8 {
    spec_set_bit(spec_set_bit(status, 1, value == 0), 7, spec_fetch_bit(value, 7))
}

/// A little-endian pair of bytes denotes `low + 256 * high`.
pub proof fn lemma_u16_from_bytes(low: u8, high: u8)
    by (bit_vector)
    ensures
        (low as u16 | ((high as u16) << 8)) as int == low as int + 256 * high as int,
{
}

/// Masking and shifting split a 16-bit value into its two bytes.
pub proof fn lemma_u16_to_bytes(value: u16)
    by (bit_vector)
    ensures
        (value & 0xFF) as int == value as int % 256,
        (value >> 8) as int == value as int / 256,
{
}

/// The page-1 address of a stack pointer value, written with a bitwise or,
/// is plain addition: the two operands share no bits.
pub proof fn lemma_stack_page_address(stack_pointer: u8)
    by (bit_vector)
    ensures
        (0x100u16 | stack_pointer as u16) as int == 0x100 + stack_pointer as int,
{
}

/// Forcing one bit of a byte changes that bit alone.
pub proof fn lemma_set_bit_effect(value: u8, bit: u8, bit_value: bool, read_bit: u8)
    by (bit_vector)
    requires
        bit < 8,
        read_bit < 8,
    ensures
        spec_fetch_bit(spec_set_bit(value, bit, bit_value), read_bit) == if read_bit == bit {
            bit_value
        } else {
            spec_fetch_bit(value, read_bit)
        },
{
}

/// The bitwise complement of a byte is its difference from 255.
pub proof fn lemma_complement(value: u8)
    by (bit_vector)
    ensures
        (!value) as int == 255 - value as int,
{
}

// ---------------------------------------------------------------------------
// Elementary state transformers
// ---------------------------------------------------------------------------
/// Spends `amount` cycles of the remaining budget, saturating at zero.
pub open spec fn spec_spend(cpu: Processor, amount: u32) -> Processor {
    Processor { cycles: cpu.cycles.saturating_sub(amount), ..cpu }
}

/// Advances the program counter by one, wrapping in 16 bits.
pub open spec fn spec_advance_pc(cpu: Processor) -> Processor {
    Processor { program_counter: cpu.program_counter.wrapping_add(1), ..cpu }
}

/// The byte the program counter points at.
pub open spec fn spec_pc_byte(cpu: Processor, mem: Seq<u8>) -> u8 {
    mem[cpu.program_counter as int]
}

/// Fetching one instruction byte: the program counter advances and one cycle
/// is spent.
pub open spec fn spec_fetched(cpu: Processor) -> Processor {
    spec_spend(spec_advance_pc(cpu), 1)
}

/// The value of the chosen 8-bit data register.
pub open spec fn spec_register_value(cpu: Processor, register: Registers) -> u8 {
    match register {
        Accumulator => cpu.accumulator,
        RegisterX => cpu.register_x,
        RegisterY => cpu.register_y,
    }
}

/// Writes the chosen register and sets Zero/Negative from the new value.
pub open spec fn spec_with_register(cpu: Processor, register: Registers, value: u8) -> Processor {
    let status = spec_status_zn(cpu.status, value);
    match register {
        Accumulator => Processor { accumulator: value, status, ..cpu },
        RegisterX => Processor { register_x: value, status, ..cpu },
        RegisterY => Processor { register_y: value, status, ..cpu },
    }
}

// ---------------------------------------------------------------------------
// Words and the stack
// ---------------------------------------------------------------------------
/// The little-endian 16-bit value stored at `address` and `address + 1`
/// (the second byte wrapping within the 16-bit address space).
pub open spec fn spec_word_at(mem: Seq<u8>, address: u16) -> u16 {
    (mem[address as int] as int + 256 * mem[address.wrapping_add(1) as int] as int) as u16
}

/// The low byte of a 16-bit value.
pub open spec fn spec_low_byte(value: u16) -> u8 {
    (value as int % 256) as u8
}

/// The high byte of a 16-bit value.
pub open spec fn spec_high_byte(value: u16) -> u8 {
    (value as int / 256) as u8
}

/// The address a stack pointer value resolves to: `0x100 + stack_pointer`,
/// always within page 1.
pub open spec fn spec_stack_addr(stack_pointer: u8) -> u16 {
    (0x100 + stack_pointer as int) as u16
}

/// Pushing one byte: the byte lands at the address the stack pointer
/// resolves to, the stack pointer decrements with 8-bit wraparound, and two
/// cycles are spent (the write and the pointer update).
pub open spec fn spec_push_byte(cpu: Processor, mem: Seq<u8>, value: u8) -> (Processor, Seq<u8>) {
    (
        spec_spend(
            Processor { stack_pointer: cpu.stack_pointer.wrapping_sub(1), ..cpu },
            2,
        ),
        mem.update(spec_stack_addr(cpu.stack_pointer) as int, value),
    )
}

/// Popping one byte: the stack pointer increments with 8-bit wraparound and
/// the byte is read from the address it then resolves to; three cycles.
pub open spec fn spec_pop_byte(cpu: Processor, mem: Seq<u8>) -> (Processor, u8) {
    let sp = cpu.stack_pointer.wrapping_add(1);
    (
        spec_spend(Processor { stack_pointer: sp, ..cpu }, 3),
        mem[spec_stack_addr(sp) as int],
    )
}

/// Pushing a 16-bit value: high byte at the current stack address, low byte
/// one below (both within page 1), stack pointer down by two, two cycles.
pub open spec fn spec_push_word(cpu: Processor, mem: Seq<u8>, value: u16) -> (Processor, Seq<u8>) {
    let low_addr = spec_stack_addr(cpu.stack_pointer.wrapping_sub(1));
    (
        spec_spend(
            Processor { stack_pointer: cpu.stack_pointer.wrapping_sub(2), ..cpu },
            2,
        ),
        mem.update(spec_stack_addr(cpu.stack_pointer) as int, spec_high_byte(value)).update(
            low_addr as int,
            spec_low_byte(value),
        ),
    )
}

/// Popping a 16-bit value: low byte from one above the current stack
/// address, high byte from two above, stack pointer up by two, three cycles.
pub open spec fn spec_pop_word(cpu: Processor, mem: Seq<u8>) -> (Processor, u16) {
    let low = mem[spec_stack_addr(cpu.stack_pointer.wrapping_add(1)) as int];
    let high = mem[spec_stack_addr(cpu.stack_pointer.wrapping_add(2)) as int];
    (
        spec_spend(
            Processor { stack_pointer: cpu.stack_pointer.wrapping_add(2), ..cpu },
            3,
        ),
        (low as int + 256 * high as int) as u16,
    )
}

// ---------------------------------------------------------------------------
// Addressing modes
// ---------------------------------------------------------------------------
/// Fetching a little-endian 16-bit operand: the program counter advances by
/// two and two cycles are spent.
pub open spec fn spec_fetch_word(cpu: Processor, mem: Seq<u8>) -> (Processor, u16) {
    (
        spec_spend(spec_advance_pc(spec_advance_pc(cpu)), 2),
        spec_word_at(mem, cpu.program_counter),
    )
}

/// Whether an indexed address computation crossed a page boundary: the high
/// byte of the effective address differs from the high byte of the base.
pub open spec fn spec_page_crossed(base: u16, effective: u16) -> bool {
    effective >> 8 != base >> 8
}

/// Zero-page addressing: one operand byte; an index register, if supplied,
/// is added with 8-bit wraparound at the cost of one extra cycle.
pub open spec fn spec_addr_zero_page(
    cpu: Processor,
    mem: Seq<u8>,
    offset_register: Option<Registers>,
) -> (Processor, u16) {
    let zero_page_addr = spec_pc_byte(cpu, mem);
    let fetched = spec_fetched(cpu);
    match offset_register {
        Some(RegisterX) => (
            spec_spend(fetched, 1),
            zero_page_addr.wrapping_add(cpu.register_x) as u16,
        ),
        Some(RegisterY) => (
            spec_spend(fetched, 1),
            zero_page_addr.wrapping_add(cpu.register_y) as u16,
        ),
        _ => (fetched, zero_page_addr as u16),
    }
}

/// Absolute addressing: a 16-bit operand; an index register, if supplied, is
/// added with 16-bit wraparound, and a page crossing costs one extra cycle.
pub open spec fn spec_addr_absolute(
    cpu: Processor,
    mem: Seq<u8>,
    offset_register: Option<Registers>,
) -> (Processor, u16) {
    let fetched = spec_fetch_word(cpu, mem);
    let base = fetched.1;
    let effective = match offset_register {
        Some(RegisterX) => base.wrapping_add(cpu.register_x as u16),
        Some(RegisterY) => base.wrapping_add(cpu.register_y as u16),
        _ => base,
    };
    if spec_page_crossed(base, effective) {
        (spec_spend(fetched.0, 1), effective)
    } else {
        (fetched.0, effective)
    }
}

/// Indexed-indirect addressing: the operand byte plus register X (8-bit
/// wraparound, one extra cycle) names the zero-page location holding the
/// effective address, which is read in two further cycles.
pub open spec fn spec_addr_indirect_x(cpu: Processor, mem: Seq<u8>) -> (Processor, u16) {
    let zero_page_addr = spec_pc_byte(cpu, mem).wrapping_add(cpu.register_x);
    (
        spec_spend(spec_fetched(cpu), 3),
        spec_word_at(mem, zero_page_addr as u16),
    )
}

/// Indirect-indexed addressing: the operand byte names a zero-page location
/// holding a base address (read in two cycles); register Y is added with
/// 16-bit wraparound, and a page crossing costs one extra cycle.
pub open spec fn spec_addr_indirect_y(cpu: Processor, mem: Seq<u8>) -> (Processor, u16) {
    let base = spec_word_at(mem, spec_pc_byte(cpu, mem) as u16);
    let effective = base.wrapping_add(cpu.register_y as u16);
    let after_read = spec_spend(spec_fetched(cpu), 2);
    if spec_page_crossed(base, effective) {
        (spec_spend(after_read, 1), effective)
    } else {
        (after_read, effective)
    }
}

// ---------------------------------------------------------------------------
// Loads, stores, transfers
// ---------------------------------------------------------------------------
/// An immediate load into the chosen register; Zero/Negative follow.
pub open spec fn spec_load_immediate(cpu: Processor, mem: Seq<u8>, register: Registers) -> Processor {
    spec_with_register(spec_fetched(cpu), register, spec_pc_byte(cpu, mem))
}

/// A zero-page load into the chosen register; Zero/Negative follow.
pub open spec fn spec_load_zero_page(
    cpu: Processor,
    mem: Seq<u8>,
    register: Registers,
    offset_register: Option<Registers>,
) -> Processor {
    let resolved = spec_addr_zero_page(cpu, mem, offset_register);
    spec_with_register(spec_spend(resolved.0, 1), register, mem[resolved.1 as int])
}

/// An absolute load into the chosen register; Zero/Negative follow.
pub open spec fn spec_load_absolute(
    cpu: Processor,
    mem: Seq<u8>,
    register: Registers,
    offset_register: Option<Registers>,
) -> Processor {
    let resolved = spec_addr_absolute(cpu, mem, offset_register);
    spec_with_register(spec_spend(resolved.0, 1), register, mem[resolved.1 as int])
}

/// An indexed-indirect load into the accumulator.
pub open spec fn spec_load_indirect_x(cpu: Processor, mem: Seq<u8>) -> Processor {
    let resolved = spec_addr_indirect_x(cpu, mem);
    spec_with_register(spec_spend(resolved.0, 1), Accumulator, mem[resolved.1 as int])
}

/// An indirect-indexed load into the accumulator.
pub open spec fn spec_load_indirect_y(cpu: Processor, mem: Seq<u8>) -> Processor {
    let resolved = spec_addr_indirect_y(cpu, mem);
    spec_with_register(spec_spend(resolved.0, 1), Accumulator, mem[resolved.1 as int])
}

/// A zero-page store of the chosen register. Flags are untouched.
pub open spec fn spec_store_zero_page(
    cpu: Processor,
    mem: Seq<u8>,
    register: Registers,
    offset_register: Option<Registers>,
) -> (Processor, Seq<u8>) {
    let resolved = spec_addr_zero_page(cpu, mem, offset_register);
    (
        spec_spend(resolved.0, 1),
        mem.update(resolved.1 as int, spec_register_value(cpu, register)),
    )
}

/// An absolute store of the chosen register. An indexed store always spends
/// the fix-up cycle, whether or not the index crossed a page: the effective
/// address (with 16-bit wraparound) is computed without the conditional
/// crossing penalty and one unconditional extra cycle is charged instead.
pub open spec fn spec_store_absolute(
    cpu: Processor,
    mem: Seq<u8>,
    register: Registers,
    offset_register: Option<Registers>,
) -> (Processor, Seq<u8>) {
    let fetched = spec_fetch_word(cpu, mem);
    let effective = match offset_register {
        Some(RegisterX) => fetched.1.wrapping_add(cpu.register_x as u16),
        Some(RegisterY) => fetched.1.wrapping_add(cpu.register_y as u16),
        _ => fetched.1,
    };
    let spent = match offset_register {
        Some(RegisterX) => spec_spend(fetched.0, 2),
        Some(RegisterY) => spec_spend(fetched.0, 2),
        _ => spec_spend(fetched.0, 1),
    };
    (spent, mem.update(effective as int, spec_register_value(cpu, register)))
}

/// An indexed-indirect store of the accumulator.
pub open spec fn spec_store_indirect_x(cpu: Processor, mem: Seq<u8>) -> (Processor, Seq<u8>) {
    let resolved = spec_addr_indirect_x(cpu, mem);
    (spec_spend(resolved.0, 1), mem.update(resolved.1 as int, cpu.accumulator))
}

/// An indirect-indexed store of the accumulator, with one extra cycle beyond
/// the addressing cost.
pub open spec fn spec_store_indirect_y(cpu: Processor, mem: Seq<u8>) -> (Processor, Seq<u8>) {
    let resolved = spec_addr_indirect_y(cpu, mem);
    (spec_spend(resolved.0, 2), mem.update(resolved.1 as int, cpu.accumulator))
}

/// A register-to-register transfer; Zero/Negative follow the copied value.
pub open spec fn spec_transfer(cpu: Processor, target: Registers, value: u8) -> Processor {
    spec_spend(spec_with_register(cpu, target, value), 1)
}

// ---------------------------------------------------------------------------
// Logic and BIT
// ---------------------------------------------------------------------------
/// The value of one of the three bitwise operations.
pub open spec fn spec_logic_value(a: u8, b: u8, operation: LogicalOperations) -> u8 {
    match operation {
        And => a & b,
        Or => a | b,
        ExclusiveOr => a ^ b,
    }
}

/// An immediate logical operation against the accumulator.
pub open spec fn spec_logic_immediate(
    cpu: Processor,
    mem: Seq<u8>,
    operation: LogicalOperations,
) -> Processor {
    spec_with_register(
        spec_fetched(cpu),
        Accumulator,
        spec_logic_value(cpu.accumulator, spec_pc_byte(cpu, mem), operation),
    )
}

/// A zero-page logical operation against the accumulator.
pub open spec fn spec_logic_zero_page(
    cpu: Processor,
    mem: Seq<u8>,
    operation: LogicalOperations,
    offset_register: Option<Registers>,
) -> Processor {
    let resolved = spec_addr_zero_page(cpu, mem, offset_register);
    spec_with_register(
        spec_spend(resolved.0, 1),
        Accumulator,
        spec_logic_value(cpu.accumulator, mem[resolved.1 as int], operation),
    )
}

/// An absolute logical operation against the accumulator.
pub open spec fn spec_logic_absolute(
    cpu: Processor,
    mem: Seq<u8>,
    operation: LogicalOperations,
    offset_register: Option<Registers>,
) -> Processor {
    let resolved = spec_addr_absolute(cpu, mem, offset_register);
    spec_with_register(
        spec_spend(resolved.0, 1),
        Accumulator,
        spec_logic_value(cpu.accumulator, mem[resolved.1 as int], operation),
    )
}

/// An indexed-indirect logical operation against the accumulator.
pub open spec fn spec_logic_indirect_x(
    cpu: Processor,
    mem: Seq<u8>,
    operation: LogicalOperations,
) -> Processor {
    let resolved = spec_addr_indirect_x(cpu, mem);
    spec_with_register(
        spec_spend(resolved.0, 1),
        Accumulator,
        spec_logic_value(cpu.accumulator, mem[resolved.1 as int], operation),
    )
}

/// An indirect-indexed logical operation against the accumulator.
pub open spec fn spec_logic_indirect_y(
    cpu: Processor,
    mem: Seq<u8>,
    operation: LogicalOperations,
) -> Processor {
    let resolved = spec_addr_indirect_y(cpu, mem);
    spec_with_register(
        spec_spend(resolved.0, 1),
        Accumulator,
        spec_logic_value(cpu.accumulator, mem[resolved.1 as int], operation),
    )
}

/// The status byte after `BIT`: Zero from the masked accumulator, Overflow
/// from bit 6 of the operand, Negative from bit 7 of the operand.
pub open spec fn spec_bit_test_status(status: u8, accumulator: u8, value: u8) -> u8 {
    spec_set_bit(
        spec_set_bit(spec_set_bit(status, 1, accumulator & value == 0), 6, spec_fetch_bit(value, 6)),
        7,
        spec_fetch_bit(value, 7),
    )
}

/// `BIT` with a zero-page operand; the accumulator is not modified.
pub open spec fn spec_bit_zero_page(cpu: Processor, mem: Seq<u8>) -> Processor {
    let resolved = spec_addr_zero_page(cpu, mem, None);
    let after_read = spec_spend(resolved.0, 1);
    Processor {
        status: spec_bit_test_status(cpu.status, cpu.accumulator, mem[resolved.1 as int]),
        ..after_read
    }
}

/// `BIT` with an absolute operand; the accumulator is not modified.
pub open spec fn spec_bit_absolute(cpu: Processor, mem: Seq<u8>) -> Processor {
    let resolved = spec_addr_absolute(cpu, mem, None);
    let after_read = spec_spend(resolved.0, 1);
    Processor {
        status: spec_bit_test_status(cpu.status, cpu.accumulator, mem[resolved.1 as int]),
        ..after_read
    }
}

// ---------------------------------------------------------------------------
// Arithmetic
// ---------------------------------------------------------------------------
/// Add-with-carry of one operand into the accumulator: a 9-bit sum of
/// accumulator, operand and carry-in. Carry is set iff the sum exceeds 255,
/// Zero and Negative follow the low 8 bits, and Overflow is set exactly when
/// the operands shared a sign bit and the result's sign differs from it.
pub open spec fn spec_add_to_accumulator(cpu: Processor, operand: u8) -> Processor {
    let same_signs = !spec_fetch_bit(cpu.accumulator ^ operand, 7);
    let carry_in: int = if spec_fetch_bit(cpu.status, 0) {
        1
    } else {
        0
    };
    let sum = cpu.accumulator as int + operand as int + carry_in;
    let result = (sum % 256) as u8;
    let status = spec_set_bit(
        spec_set_bit(spec_status_zn(cpu.status, result), 0, sum > 255),
        6,
        same_signs && spec_fetch_bit(result, 7) != spec_fetch_bit(operand, 7),
    );
    Processor { accumulator: result, status, ..cpu }
}

/// Add-with-carry of an immediate operand.
pub open spec fn spec_adc_immediate(cpu: Processor, mem: Seq<u8>) -> Processor {
    spec_add_to_accumulator(spec_fetched(cpu), spec_pc_byte(cpu, mem))
}

/// Add-with-carry of a zero-page operand.
pub open spec fn spec_adc_zero_page(
    cpu: Processor,
    mem: Seq<u8>,
    offset_register: Option<Registers>,
) -> Processor {
    let resolved = spec_addr_zero_page(cpu, mem, offset_register);
    spec_add_to_accumulator(spec_spend(resolved.0, 1), mem[resolved.1 as int])
}

/// Add-with-carry of an absolute operand.
pub open spec fn spec_adc_absolute(
    cpu: Processor,
    mem: Seq<u8>,
    offset_register: Option<Registers>,
) -> Processor {
    let resolved = spec_addr_absolute(cpu, mem, offset_register);
    spec_add_to_accumulator(spec_spend(resolved.0, 1), mem[resolved.1 as int])
}

/// Add-with-carry of an indexed-indirect operand.
pub open spec fn spec_adc_indirect_x(cpu: Processor, mem: Seq<u8>) -> Processor {
    let resolved = spec_addr_indirect_x(cpu, mem);
    spec_add_to_accumulator(spec_spend(resolved.0, 1), mem[resolved.1 as int])
}

/// Add-with-carry of an indirect-indexed operand.
pub open spec fn spec_adc_indirect_y(cpu: Processor, mem: Seq<u8>) -> Processor {
    let resolved = spec_addr_indirect_y(cpu, mem);
    spec_add_to_accumulator(spec_spend(resolved.0, 1), mem[resolved.1 as int])
}

/// Subtract-with-carry: add-with-carry of the bitwise complement of the
/// operand, exactly as the hardware implements it.
pub open spec fn spec_sbc_immediate(cpu: Processor, mem: Seq<u8>) -> Processor {
    spec_add_to_accumulator(spec_fetched(cpu), !spec_pc_byte(cpu, mem))
}

/// Subtract-with-carry of a zero-page operand.
pub open spec fn spec_sbc_zero_page(
    cpu: Processor,
    mem: Seq<u8>,
    offset_register: Option<Registers>,
) -> Processor {
    let resolved = spec_addr_zero_page(cpu, mem, offset_register);
    spec_add_to_accumulator(spec_spend(resolved.0, 1), !mem[resolved.1 as int])
}

/// Subtract-with-carry of an absolute operand.
pub open spec fn spec_sbc_absolute(
    cpu: Processor,
    mem: Seq<u8>,
    offset_register: Option<Registers>,
) -> Processor {
    let resolved = spec_addr_absolute(cpu, mem, offset_register);
    spec_add_to_accumulator(spec_spend(resolved.0, 1), !mem[resolved.1 as int])
}

/// Subtract-with-carry of an indexed-indirect operand.
pub open spec fn spec_sbc_indirect_x(cpu: Processor, mem: Seq<u8>) -> Processor {
    let resolved = spec_addr_indirect_x(cpu, mem);
    spec_add_to_accumulator(spec_spend(resolved.0, 1), !mem[resolved.1 as int])
}

/// Subtract-with-carry of an indirect-indexed operand.
pub open spec fn spec_sbc_indirect_y(cpu: Processor, mem: Seq<u8>) -> Processor {
    let resolved = spec_addr_indirect_y(cpu, mem);
    spec_add_to_accumulator(spec_spend(resolved.0, 1), !mem[resolved.1 as int])
}

/// A non-destructive compare of the chosen register against an operand:
/// Zero iff equal, Carry iff the register is at least the operand, Negative
/// from bit 7 of the 8-bit difference.
pub open spec fn spec_compare_with(cpu: Processor, operand: u8, register: Registers) -> Processor {
    let reg = spec_register_value(cpu, register);
    let result = reg.wrapping_sub(operand);
    let status = spec_set_bit(
        spec_set_bit(spec_set_bit(cpu.status, 1, reg == operand), 0, reg >= operand),
        7,
        spec_fetch_bit(result, 7),
    );
    Processor { status, ..cpu }
}

/// Compare against an immediate operand.
pub open spec fn spec_cmp_immediate(cpu: Processor, mem: Seq<u8>, register: Registers) -> Processor {
    spec_compare_with(spec_fetched(cpu), spec_pc_byte(cpu, mem), register)
}

/// Compare against a zero-page operand.
pub open spec fn spec_cmp_zero_page(
    cpu: Processor,
    mem: Seq<u8>,
    register: Registers,
    offset_register: Option<Registers>,
) -> Processor {
    let resolved = spec_addr_zero_page(cpu, mem, offset_register);
    spec_compare_with(spec_spend(resolved.0, 1), mem[resolved.1 as int], register)
}

/// Compare against an absolute operand.
pub open spec fn spec_cmp_absolute(
    cpu: Processor,
    mem: Seq<u8>,
    register: Registers,
    offset_register: Option<Registers>,
) -> Processor {
    let resolved = spec_addr_absolute(cpu, mem, offset_register);
    spec_compare_with(spec_spend(resolved.0, 1), mem[resolved.1 as int], register)
}

/// Compare against an indexed-indirect operand.
pub open spec fn spec_cmp_indirect_x(cpu: Processor, mem: Seq<u8>, register: Registers) -> Processor {
    let resolved = spec_addr_indirect_x(cpu, mem);
    spec_compare_with(spec_spend(resolved.0, 1), mem[resolved.1 as int], register)
}

/// Compare against an indirect-indexed operand.
pub open spec fn spec_cmp_indirect_y(cpu: Processor, mem: Seq<u8>, register: Registers) -> Processor {
    let resolved = spec_addr_indirect_y(cpu, mem);
    spec_compare_with(spec_spend(resolved.0, 1), mem[resolved.1 as int], register)
}

// ---------------------------------------------------------------------------
// Increment, decrement
// ---------------------------------------------------------------------------
/// Writes an increment/decrement result back to memory, updating
/// Zero/Negative from the written value; the write plus the modify cycle.
pub open spec fn spec_set_memory(
    cpu: Processor,
    mem: Seq<u8>,
    value: u8,
    address: u16,
) -> (Processor, Seq<u8>) {
    (
        spec_spend(Processor { status: spec_status_zn(cpu.status, value), ..cpu }, 2),
        mem.update(address as int, value),
    )
}

/// Increment of a zero-page memory byte, wrapping 255 to 0.
pub open spec fn spec_increment_memory_zero_page(
    cpu: Processor,
    mem: Seq<u8>,
    offset_register: Option<Registers>,
) -> (Processor, Seq<u8>) {
    let resolved = spec_addr_zero_page(cpu, mem, offset_register);
    spec_set_memory(
        spec_spend(resolved.0, 1),
        mem,
        mem[resolved.1 as int].wrapping_add(1),
        resolved.1,
    )
}

/// Increment of an absolute memory byte, wrapping 255 to 0.
pub open spec fn spec_increment_memory_absolute(
    cpu: Processor,
    mem: Seq<u8>,
    offset_register: Option<Registers>,
) -> (Processor, Seq<u8>) {
    let resolved = spec_addr_absolute(cpu, mem, offset_register);
    spec_set_memory(
        spec_spend(resolved.0, 1),
        mem,
        mem[resolved.1 as int].wrapping_add(1),
        resolved.1,
    )
}

/// Decrement of a zero-page memory byte, wrapping 0 to 255.
pub open spec fn spec_decrement_memory_zero_page(
    cpu: Processor,
    mem: Seq<u8>,
    offset_register: Option<Registers>,
) -> (Processor, Seq<u8>) {
    let resolved = spec_addr_zero_page(cpu, mem, offset_register);
    spec_set_memory(
        spec_spend(resolved.0, 1),
        mem,
        mem[resolved.1 as int].wrapping_sub(1),
        resolved.1,
    )
}

/// Decrement of an absolute memory byte, wrapping 0 to 255. The fixed
/// read-modify-write cost beyond the addressing is the same as an
/// increment's.
pub open spec fn spec_decrement_memory_absolute(
    cpu: Processor,
    mem: Seq<u8>,
    offset_register: Option<Registers>,
) -> (Processor, Seq<u8>) {
    let resolved = spec_addr_absolute(cpu, mem, offset_register);
    spec_set_memory(
        spec_spend(resolved.0, 1),
        mem,
        mem[resolved.1 as int].wrapping_sub(1),
        resolved.1,
    )
}

// ---------------------------------------------------------------------------
// Shifts and rotates
// ---------------------------------------------------------------------------
/// The status byte after a shift or rotate: Negative and Zero from the
/// result, Carry from the bit shifted out.
pub open spec fn spec_shift_status(status: u8, result: u8, carry_out: bool) -> u8 {
    spec_set_bit(
        spec_set_bit(spec_set_bit(status, 7, spec_fetch_bit(result, 7)), 1, result == 0),
        0,
        carry_out,
    )
}

/// A shift or rotate applied to the accumulator: one cycle past the fetch.
pub open spec fn spec_shift_accumulator(cpu: Processor, result: u8, carry_out: bool) -> Processor {
    spec_spend(
        Processor {
            accumulator: result,
            status: spec_shift_status(cpu.status, result, carry_out),
            ..cpu
        },
        1,
    )
}

/// A shift or rotate applied to a resolved memory byte: the read, the write
/// and one modify cycle past the addressing cost.
pub open spec fn spec_shift_memory(
    cpu: Processor,
    mem: Seq<u8>,
    address: u16,
    result: u8,
    carry_out: bool,
) -> (Processor, Seq<u8>) {
    (
        spec_spend(
            Processor { status: spec_shift_status(cpu.status, result, carry_out), ..cpu },
            3,
        ),
        mem.update(address as int, result),
    )
}

/// A shift or rotate routed by an opcode the shift group does not recognise:
/// nothing is operated on, and the flags are set from a zero result.
pub open spec fn spec_shift_unrouted(cpu: Processor) -> Processor {
    spec_spend(Processor { status: spec_shift_status(cpu.status, 0, false), ..cpu }, 1)
}

/// Shift left: the old bit 7 becomes the Carry, bit 0 becomes 0.
pub open spec fn spec_shift_left(cpu: Processor, mem: Seq<u8>, opcode: u8) -> (Processor, Seq<u8>) {
    if opcode == ASL_ACCUMULATOR {
        (spec_shift_accumulator(cpu, cpu.accumulator << 1, spec_fetch_bit(cpu.accumulator, 7)), mem)
    } else if opcode == ASL_ZERO_PAGE || opcode == ASL_ZERO_PAGE_X || opcode == ASL_ABSOLUTE
        || opcode == ASL_ABSOLUTE_X {
        let resolved = if opcode == ASL_ZERO_PAGE {
            spec_addr_zero_page(cpu, mem, None)
        } else if opcode == ASL_ZERO_PAGE_X {
            spec_addr_zero_page(cpu, mem, Some(RegisterX))
        } else if opcode == ASL_ABSOLUTE {
            spec_addr_absolute(cpu, mem, None)
        } else {
            spec_addr_absolute(cpu, mem, Some(RegisterX))
        };
        let operand = mem[resolved.1 as int];
        spec_shift_memory(resolved.0, mem, resolved.1, operand << 1, spec_fetch_bit(operand, 7))
    } else {
        (spec_shift_unrouted(cpu), mem)
    }
}

/// Shift right: the old bit 0 becomes the Carry, bit 7 becomes 0.
pub open spec fn spec_shift_right(cpu: Processor, mem: Seq<u8>, opcode: u8) -> (Processor, Seq<u8>) {
    if opcode == LSR_ACCUMULATOR {
        (spec_shift_accumulator(cpu, cpu.accumulator >> 1, spec_fetch_bit(cpu.accumulator, 0)), mem)
    } else if opcode == LSR_ZERO_PAGE || opcode == LSR_ZERO_PAGE_X || opcode == LSR_ABSOLUTE
        || opcode == LSR_ABSOLUTE_X {
        let resolved = if opcode == LSR_ZERO_PAGE {
            spec_addr_zero_page(cpu, mem, None)
        } else if opcode == LSR_ZERO_PAGE_X {
            spec_addr_zero_page(cpu, mem, Some(RegisterX))
        } else if opcode == LSR_ABSOLUTE {
            spec_addr_absolute(cpu, mem, None)
        } else {
            spec_addr_absolute(cpu, mem, Some(RegisterX))
        };
        let operand = mem[resolved.1 as int];
        spec_shift_memory(resolved.0, mem, resolved.1, operand >> 1, spec_fetch_bit(operand, 0))
    } else {
        (spec_shift_unrouted(cpu), mem)
    }
}

/// Rotate left: the old Carry enters at bit 0, the old bit 7 becomes the
/// Carry.
pub open spec fn spec_rotate_left(cpu: Processor, mem: Seq<u8>, opcode: u8) -> (Processor, Seq<u8>) {
    let carry_in = spec_fetch_bit(cpu.status, 0);
    if opcode == ROL_ACCUMULATOR {
        let result = spec_set_bit(cpu.accumulator << 1, 0, carry_in);
        (spec_shift_accumulator(cpu, result, spec_fetch_bit(cpu.accumulator, 7)), mem)
    } else if opcode == ROL_ZERO_PAGE || opcode == ROL_ZERO_PAGE_X || opcode == ROL_ABSOLUTE
        || opcode == ROL_ABSOLUTE_X {
        let resolved = if opcode == ROL_ZERO_PAGE {
            spec_addr_zero_page(cpu, mem, None)
        } else if opcode == ROL_ZERO_PAGE_X {
            spec_addr_zero_page(cpu, mem, Some(RegisterX))
        } else if opcode == ROL_ABSOLUTE {
            spec_addr_absolute(cpu, mem, None)
        } else {
            spec_addr_absolute(cpu, mem, Some(RegisterX))
        };
        let operand = mem[resolved.1 as int];
        let result = spec_set_bit(operand << 1, 0, carry_in);
        spec_shift_memory(resolved.0, mem, resolved.1, result, spec_fetch_bit(operand, 7))
    } else {
        (spec_shift_unrouted(cpu), mem)
    }
}

/// Rotate right: the old Carry enters at bit 7, the old bit 0 becomes the
/// Carry.
pub open spec fn spec_rotate_right(cpu: Processor, mem: Seq<u8>, opcode: u8) -> (Processor, Seq<u8>) {
    let carry_in = spec_fetch_bit(cpu.status, 0);
    if opcode == ROR_ACCUMULATOR {
        let result = spec_set_bit(cpu.accumulator >> 1, 7, carry_in);
        (spec_shift_accumulator(cpu, result, spec_fetch_bit(cpu.accumulator, 0)), mem)
    } else if opcode == ROR_ZERO_PAGE || opcode == ROR_ZERO_PAGE_X || opcode == ROR_ABSOLUTE
        || opcode == ROR_ABSOLUTE_X {
        let resolved = if opcode == ROR_ZERO_PAGE {
            spec_addr_zero_page(cpu, mem, None)
        } else if opcode == ROR_ZERO_PAGE_X {
            spec_addr_zero_page(cpu, mem, Some(RegisterX))
        } else if opcode == ROR_ABSOLUTE {
            spec_addr_absolute(cpu, mem, None)
        } else {
            spec_addr_absolute(cpu, mem, Some(RegisterX))
        };
        let operand = mem[resolved.1 as int];
        let result = spec_set_bit(operand >> 1, 7, carry_in);
        spec_shift_memory(resolved.0, mem, resolved.1, result, spec_fetch_bit(operand, 0))
    } else {
        (spec_shift_unrouted(cpu), mem)
    }
}

// ---------------------------------------------------------------------------
// Branches, jumps, subroutines
// ---------------------------------------------------------------------------
/// A conditional branch: the signed 8-bit offset is fetched; when the
/// condition holds the program counter moves by the offset (16-bit
/// wraparound) for one extra cycle, and a page crossing costs two more.
pub open spec fn spec_branch(cpu: Processor, mem: Seq<u8>, condition: bool) -> Processor {
    let jump_offset = spec_pc_byte(cpu, mem);
    let fetched = spec_fetched(cpu);
    if condition {
        let target = fetched.program_counter.wrapping_add((jump_offset as i8) as u16);
        let taken = spec_spend(Processor { program_counter: target, ..fetched }, 1);
        if spec_page_crossed(fetched.program_counter, target) {
            spec_spend(taken, 2)
        } else {
            taken
        }
    } else {
        fetched
    }
}

/// `JSR`: fetches the target, pushes the address of the call's last byte
/// (program counter minus one), and jumps; one cycle beyond the pushes.
pub open spec fn spec_jsr(cpu: Processor, mem: Seq<u8>) -> (Processor, Seq<u8>) {
    let fetched = spec_fetch_word(cpu, mem);
    let pushed = spec_push_word(fetched.0, mem, fetched.0.program_counter.wrapping_sub(1));
    (
        spec_spend(Processor { program_counter: fetched.1, ..pushed.0 }, 1),
        pushed.1,
    )
}

/// `RTS`: pops the return address and resumes one past it; two cycles beyond
/// the pop.
pub open spec fn spec_rts(cpu: Processor, mem: Seq<u8>) -> Processor {
    let popped = spec_pop_word(cpu, mem);
    spec_spend(
        Processor { program_counter: popped.1.wrapping_add(1), ..popped.0 },
        2,
    )
}

/// `JMP` absolute.
pub open spec fn spec_jump_absolute(cpu: Processor, mem: Seq<u8>) -> Processor {
    let resolved = spec_addr_absolute(cpu, mem, None);
    Processor { program_counter: resolved.1, ..resolved.0 }
}

/// `JMP` indirect: the operand names the location holding the target.
pub open spec fn spec_jump_indirect(cpu: Processor, mem: Seq<u8>) -> Processor {
    let resolved = spec_addr_absolute(cpu, mem, None);
    spec_spend(
        Processor { program_counter: spec_word_at(mem, resolved.1), ..resolved.0 },
        2,
    )
}

// ---------------------------------------------------------------------------
// Stack operations
// ---------------------------------------------------------------------------
/// `TSX`: copies the stack pointer into X; Zero/Negative follow.
pub open spec fn spec_tsx(cpu: Processor) -> Processor {
    spec_transfer(cpu, RegisterX, cpu.stack_pointer)
}

/// `TXS`: copies X into the stack pointer; no flags change.
pub open spec fn spec_txs(cpu: Processor) -> Processor {
    spec_spend(Processor { stack_pointer: cpu.register_x, ..cpu }, 1)
}

/// `PHA`: pushes the accumulator.
pub open spec fn spec_pha(cpu: Processor, mem: Seq<u8>) -> (Processor, Seq<u8>) {
    spec_push_byte(cpu, mem, cpu.accumulator)
}

/// The status byte as pushed by `PHP` and `BRK`: bits 4 and 5 are forced to
/// one regardless of their live value.
pub open spec fn spec_pushed_status(status: u8) -> u8 {
    spec_set_bit(spec_set_bit(status, 4, true), 5, true)
}

/// `PHP`: pushes the status byte with bits 4 and 5 forced to one.
pub open spec fn spec_php(cpu: Processor, mem: Seq<u8>) -> (Processor, Seq<u8>) {
    spec_push_byte(cpu, mem, spec_pushed_status(cpu.status))
}

/// `PLA`: pops into the accumulator; Zero/Negative follow.
pub open spec fn spec_pla(cpu: Processor, mem: Seq<u8>) -> Processor {
    let popped = spec_pop_byte(cpu, mem);
    spec_with_register(popped.0, Accumulator, popped.1)
}

/// The status byte after a status pull: bits 0 to 3, 6 and 7 come from the
/// popped byte, while bits 4 and 5 keep their live values.
pub open spec fn spec_pulled_status(live: u8, popped: u8) -> u8 {
    spec_set_bit(spec_set_bit(popped, 4, spec_fetch_bit(live, 4)), 5, spec_fetch_bit(live, 5))
}

/// `PLP`: pops the status byte, leaving bits 4 and 5 as they were.
pub open spec fn spec_plp(cpu: Processor, mem: Seq<u8>) -> Processor {
    let popped = spec_pop_byte(cpu, mem);
    Processor { status: spec_pulled_status(cpu.status, popped.1), ..popped.0 }
}

// ---------------------------------------------------------------------------
// System control
// ---------------------------------------------------------------------------
/// The address the interrupt vector is stored at.
pub open spec fn spec_interrupt_vector() -> u16 {
    0xFFFE
}

/// `BRK`: pushes the program counter plus one, pushes the status with bits 4
/// and 5 forced, loads the program counter from the interrupt vector, and
/// sets Break and InterruptDisable.
pub open spec fn spec_force_interrupt(cpu: Processor, mem: Seq<u8>) -> (Processor, Seq<u8>) {
    let pushed_pc = spec_push_word(cpu, mem, cpu.program_counter.wrapping_add(1));
    let pushed_status = spec_push_byte(pushed_pc.0, pushed_pc.1, spec_pushed_status(cpu.status));
    let vector = spec_word_at(pushed_status.1, spec_interrupt_vector());
    let status = spec_set_bit(spec_set_bit(cpu.status, 4, true), 2, true);
    (
        spec_spend(
            Processor { program_counter: vector, status, ..pushed_status.0 },
            2,
        ),
        pushed_status.1,
    )
}

/// `RTI`: pops the status byte (bits 4 and 5 keep their live values), pops
/// the return address unmodified, and clears Break. One cycle of the status
/// pop is given back: the interrupt return costs six cycles in all.
pub open spec fn spec_return_from_interrupt(cpu: Processor, mem: Seq<u8>) -> Processor {
    let popped_status = spec_pop_byte(cpu, mem);
    let restored = spec_pulled_status(cpu.status, popped_status.1);
    let refunded = Processor { cycles: popped_status.0.cycles.saturating_add(1), ..popped_status.0 };
    let popped_pc = spec_pop_word(refunded, mem);
    Processor {
        program_counter: popped_pc.1,
        status: spec_set_bit(restored, 4, false),
        ..popped_pc.0
    }
}

// ---------------------------------------------------------------------------
// Flag instructions and NOP
// ---------------------------------------------------------------------------
/// A flag set/clear instruction: one cycle past the fetch.
pub open spec fn spec_set_flag(cpu: Processor, bit: u8, value: bool) -> Processor {
    spec_spend(Processor { status: spec_set_bit(cpu.status, bit, value), ..cpu }, 1)
}

/// `NOP`: one cycle past the fetch.
pub open spec fn spec_nop(cpu: Processor) -> Processor {
    spec_spend(cpu, 1)
}

// ---------------------------------------------------------------------------
// Program loading
// ---------------------------------------------------------------------------
/// The load address carried in a program image's two-byte little-endian
/// header.
pub open spec fn spec_program_address(program: Seq<u8>) -> u16 {
    (program[0] as int + 256 * program[1] as int) as u16
}

/// Memory after a program image is loaded: the bytes after the header are
/// copied to consecutive addresses starting at the header address, and the
/// rest of memory is untouched.
pub open spec fn spec_loaded_memory(mem: Seq<u8>, program: Seq<u8>) -> Seq<u8> {
    let address = spec_program_address(program) as int;
    Seq::new(
        mem.len(),
        |i: int|
            if address <= i < address + program.len() - 2 {
                program[i - address + 2]
            } else {
                mem[i]
            },
    )
}

// ---------------------------------------------------------------------------
// The dispatch table and the execution loop
// ---------------------------------------------------------------------------
/// The fixed opcode table: the effect of one decoded instruction on the
/// machine, starting from the state right after the opcode fetch.
///
/// `None` stands for the two ways dispatch can refuse to run an instruction:
/// an opcode outside the table, and add/subtract-with-carry while decimal
/// mode is enabled (decimal arithmetic is deliberately unsupported). Either
/// refusal halts the current execution call with the machine left as the
/// fetch put it.
pub open spec fn spec_dispatch(cpu: Processor, mem: Seq<u8>, instruction: u8) -> Option<
    (Processor, Seq<u8>),
> {
    let decimal = spec_fetch_bit(cpu.status, 3);
    match instruction {
        op::LDA_IMMEDIATE => Some((spec_load_immediate(cpu, mem, Accumulator), mem)),
        op::LDA_ZERO_PAGE => Some((spec_load_zero_page(cpu, mem, Accumulator, None), mem)),
        op::LDA_ZERO_PAGE_X => Some(
            (spec_load_zero_page(cpu, mem, Accumulator, Some(RegisterX)), mem),
        ),
        op::LDA_ABSOLUTE => Some((spec_load_absolute(cpu, mem, Accumulator, None), mem)),
        op::LDA_ABSOLUTE_X => Some(
            (spec_load_absolute(cpu, mem, Accumulator, Some(RegisterX)), mem),
        ),
        op::LDA_ABSOLUTE_Y => Some(
            (spec_load_absolute(cpu, mem, Accumulator, Some(RegisterY)), mem),
        ),
        op::LDA_INDIRECT_X => Some((spec_load_indirect_x(cpu, mem), mem)),
        op::LDA_INDIRECT_Y => Some((spec_load_indirect_y(cpu, mem), mem)),
        op::LDX_IMMEDIATE => Some((spec_load_immediate(cpu, mem, RegisterX), mem)),
        op::LDX_ZERO_PAGE => Some((spec_load_zero_page(cpu, mem, RegisterX, None), mem)),
        op::LDX_ZERO_PAGE_Y => Some(
            (spec_load_zero_page(cpu, mem, RegisterX, Some(RegisterY)), mem),
        ),
        op::LDX_ABSOLUTE => Some((spec_load_absolute(cpu, mem, RegisterX, None), mem)),
        op::LDX_ABSOLUTE_Y => Some(
            (spec_load_absolute(cpu, mem, RegisterX, Some(RegisterY)), mem),
        ),
        op::LDY_IMMEDIATE => Some((spec_load_immediate(cpu, mem, RegisterY), mem)),
        op::LDY_ZERO_PAGE => Some((spec_load_zero_page(cpu, mem, RegisterY, None), mem)),
        op::LDY_ZERO_PAGE_X => Some(
            (spec_load_zero_page(cpu, mem, RegisterY, Some(RegisterX)), mem),
        ),
        op::LDY_ABSOLUTE => Some((spec_load_absolute(cpu, mem, RegisterY, None), mem)),
        op::LDY_ABSOLUTE_X => Some(
            (spec_load_absolute(cpu, mem, RegisterY, Some(RegisterX)), mem),
        ),
        op::STA_ZERO_PAGE => Some(spec_store_zero_page(cpu, mem, Accumulator, None)),
        op::STA_ZERO_PAGE_X => Some(spec_store_zero_page(cpu, mem, Accumulator, Some(RegisterX))),
        op::STA_ABSOLUTE => Some(spec_store_absolute(cpu, mem, Accumulator, None)),
        op::STA_ABSOLUTE_X => Some(spec_store_absolute(cpu, mem, Accumulator, Some(RegisterX))),
        op::STA_ABSOLUTE_Y => Some(spec_store_absolute(cpu, mem, Accumulator, Some(RegisterY))),
        op::STA_INDIRECT_X => Some(spec_store_indirect_x(cpu, mem)),
        op::STA_INDIRECT_Y => Some(spec_store_indirect_y(cpu, mem)),
        op::STX_ZERO_PAGE => Some(spec_store_zero_page(cpu, mem, RegisterX, None)),
        op::STX_ZERO_PAGE_Y => Some(spec_store_zero_page(cpu, mem, RegisterX, Some(RegisterY))),
        op::STX_ABSOLUTE => Some(spec_store_absolute(cpu, mem, RegisterX, None)),
        op::STY_ZERO_PAGE => Some(spec_store_zero_page(cpu, mem, RegisterY, None)),
        op::STY_ZERO_PAGE_X => Some(spec_store_zero_page(cpu, mem, RegisterY, Some(RegisterX))),
        op::STY_ABSOLUTE => Some(spec_store_absolute(cpu, mem, RegisterY, None)),
        op::JSR => Some(spec_jsr(cpu, mem)),
        op::RTS => Some((spec_rts(cpu, mem), mem)),
        op::JMP_ABSOLUTE => Some((spec_jump_absolute(cpu, mem), mem)),
        op::JMP_INDIRECT => Some((spec_jump_indirect(cpu, mem), mem)),
        op::TSX => Some((spec_tsx(cpu), mem)),
        op::TXS => Some((spec_txs(cpu), mem)),
        op::PHA => Some(spec_pha(cpu, mem)),
        op::PHP => Some(spec_php(cpu, mem)),
        op::PLA => Some((spec_pla(cpu, mem), mem)),
        op::PLP => Some((spec_plp(cpu, mem), mem)),
        op::AND_IMMEDIATE => Some((spec_logic_immediate(cpu, mem, And), mem)),
        op::AND_ZERO_PAGE => Some((spec_logic_zero_page(cpu, mem, And, None), mem)),
        op::AND_ZERO_PAGE_X => Some(
            (spec_logic_zero_page(cpu, mem, And, Some(RegisterX)), mem),
        ),
        op::AND_ABSOLUTE => Some((spec_logic_absolute(cpu, mem, And, None), mem)),
        op::AND_ABSOLUTE_X => Some(
            (spec_logic_absolute(cpu, mem, And, Some(RegisterX)), mem),
        ),
        op::AND_ABSOLUTE_Y => Some(
            (spec_logic_absolute(cpu, mem, And, Some(RegisterY)), mem),
        ),
        op::AND_INDIRECT_X => Some((spec_logic_indirect_x(cpu, mem, And), mem)),
        op::AND_INDIRECT_Y => Some((spec_logic_indirect_y(cpu, mem, And), mem)),
        op::OR_IMMEDIATE => Some((spec_logic_immediate(cpu, mem, Or), mem)),
        op::OR_ZERO_PAGE => Some((spec_logic_zero_page(cpu, mem, Or, None), mem)),
        op::OR_ZERO_PAGE_X => Some((spec_logic_zero_page(cpu, mem, Or, Some(RegisterX)), mem)),
        op::OR_ABSOLUTE => Some((spec_logic_absolute(cpu, mem, Or, None), mem)),
        op::OR_ABSOLUTE_X => Some((spec_logic_absolute(cpu, mem, Or, Some(RegisterX)), mem)),
        op::OR_ABSOLUTE_Y => Some((spec_logic_absolute(cpu, mem, Or, Some(RegisterY)), mem)),
        op::OR_INDIRECT_X => Some((spec_logic_indirect_x(cpu, mem, Or), mem)),
        op::OR_INDIRECT_Y => Some((spec_logic_indirect_y(cpu, mem, Or), mem)),
        op::EOR_IMMEDIATE => Some((spec_logic_immediate(cpu, mem, ExclusiveOr), mem)),
        op::EOR_ZERO_PAGE => Some((spec_logic_zero_page(cpu, mem, ExclusiveOr, None), mem)),
        op::EOR_ZERO_PAGE_X => Some(
            (spec_logic_zero_page(cpu, mem, ExclusiveOr, Some(RegisterX)), mem),
        ),
        op::EOR_ABSOLUTE => Some((spec_logic_absolute(cpu, mem, ExclusiveOr, None), mem)),
        op::EOR_ABSOLUTE_X => Some(
            (spec_logic_absolute(cpu, mem, ExclusiveOr, Some(RegisterX)), mem),
        ),
        op::EOR_ABSOLUTE_Y => Some(
            (spec_logic_absolute(cpu, mem, ExclusiveOr, Some(RegisterY)), mem),
        ),
        op::EOR_INDIRECT_X => Some((spec_logic_indirect_x(cpu, mem, ExclusiveOr), mem)),
        op::EOR_INDIRECT_Y => Some((spec_logic_indirect_y(cpu, mem, ExclusiveOr), mem)),
        op::BIT_ZERO_PAGE => Some((spec_bit_zero_page(cpu, mem), mem)),
        op::BIT_ABSOLUTE => Some((spec_bit_absolute(cpu, mem), mem)),
        op::TAX => Some((spec_transfer(cpu, RegisterX, cpu.accumulator), mem)),
        op::TAY => Some((spec_transfer(cpu, RegisterY, cpu.accumulator), mem)),
        op::TXA => Some((spec_transfer(cpu, Accumulator, cpu.register_x), mem)),
        op::TYA => Some((spec_transfer(cpu, Accumulator, cpu.register_y), mem)),
        op::INX => Some((spec_transfer(cpu, RegisterX, cpu.register_x.wrapping_add(1)), mem)),
        op::INY => Some((spec_transfer(cpu, RegisterY, cpu.register_y.wrapping_add(1)), mem)),
        op::INC_ZERO_PAGE => Some(spec_increment_memory_zero_page(cpu, mem, None)),
        op::INC_ZERO_PAGE_X => Some(
            spec_increment_memory_zero_page(cpu, mem, Some(RegisterX)),
        ),
        op::INC_ABSOLUTE => Some(spec_increment_memory_absolute(cpu, mem, None)),
        op::INC_ABSOLUTE_X => Some(
            spec_increment_memory_absolute(cpu, mem, Some(RegisterX)),
        ),
        op::DEX => Some((spec_transfer(cpu, RegisterX, cpu.register_x.wrapping_sub(1)), mem)),
        op::DEY => Some((spec_transfer(cpu, RegisterY, cpu.register_y.wrapping_sub(1)), mem)),
        op::DEC_ZERO_PAGE => Some(spec_decrement_memory_zero_page(cpu, mem, None)),
        op::DEC_ZERO_PAGE_X => Some(
            spec_decrement_memory_zero_page(cpu, mem, Some(RegisterX)),
        ),
        op::DEC_ABSOLUTE => Some(spec_decrement_memory_absolute(cpu, mem, None)),
        op::DEC_ABSOLUTE_X => Some(
            spec_decrement_memory_absolute(cpu, mem, Some(RegisterX)),
        ),
        op::BEQ => Some((spec_branch(cpu, mem, spec_fetch_bit(cpu.status, 1)), mem)),
        op::BNE => Some((spec_branch(cpu, mem, !spec_fetch_bit(cpu.status, 1)), mem)),
        op::BCS => Some((spec_branch(cpu, mem, spec_fetch_bit(cpu.status, 0)), mem)),
        op::BCC => Some((spec_branch(cpu, mem, !spec_fetch_bit(cpu.status, 0)), mem)),
        op::BMI => Some((spec_branch(cpu, mem, spec_fetch_bit(cpu.status, 7)), mem)),
        op::BPL => Some((spec_branch(cpu, mem, !spec_fetch_bit(cpu.status, 7)), mem)),
        op::BVS => Some((spec_branch(cpu, mem, spec_fetch_bit(cpu.status, 6)), mem)),
        op::BVC => Some((spec_branch(cpu, mem, !spec_fetch_bit(cpu.status, 6)), mem)),
        op::NOP => Some((spec_nop(cpu), mem)),
        op::CLC => Some((spec_set_flag(cpu, 0, false), mem)),
        op::CLD => Some((spec_set_flag(cpu, 3, false), mem)),
        op::CLI => Some((spec_set_flag(cpu, 2, false), mem)),
        op::CLV => Some((spec_set_flag(cpu, 6, false), mem)),
        op::SEC => Some((spec_set_flag(cpu, 0, true), mem)),
        op::SED => Some((spec_set_flag(cpu, 3, true), mem)),
        op::SEI => Some((spec_set_flag(cpu, 2, true), mem)),
        op::ADC_IMMEDIATE => if decimal {
            None
        } else {
            Some((spec_adc_immediate(cpu, mem), mem))
        },
        op::ADC_ABSOLUTE => if decimal {
            None
        } else {
            Some((spec_adc_absolute(cpu, mem, None), mem))
        },
        op::ADC_ABSOLUTE_X => if decimal {
            None
        } else {
            Some((spec_adc_absolute(cpu, mem, Some(RegisterX)), mem))
        },
        op::ADC_ABSOLUTE_Y => if decimal {
            None
        } else {
            Some((spec_adc_absolute(cpu, mem, Some(RegisterY)), mem))
        },
        op::ADC_ZERO_PAGE => if decimal {
            None
        } else {
            Some((spec_adc_zero_page(cpu, mem, None), mem))
        },
        op::ADC_ZERO_PAGE_X => if decimal {
            None
        } else {
            Some((spec_adc_zero_page(cpu, mem, Some(RegisterX)), mem))
        },
        op::ADC_INDIRECT_X => if decimal {
            None
        } else {
            Some((spec_adc_indirect_x(cpu, mem), mem))
        },
        op::ADC_INDIRECT_Y => if decimal {
            None
        } else {
            Some((spec_adc_indirect_y(cpu, mem), mem))
        },
        op::CMP_IMMEDIATE => Some((spec_cmp_immediate(cpu, mem, Accumulator), mem)),
        op::CMP_ABSOLUTE => Some((spec_cmp_absolute(cpu, mem, Accumulator, None), mem)),
        op::CMP_ABSOLUTE_X => Some(
            (spec_cmp_absolute(cpu, mem, Accumulator, Some(RegisterX)), mem),
        ),
        op::CMP_ABSOLUTE_Y => Some(
            (spec_cmp_absolute(cpu, mem, Accumulator, Some(RegisterY)), mem),
        ),
        op::CMP_ZERO_PAGE => Some((spec_cmp_zero_page(cpu, mem, Accumulator, None), mem)),
        op::CMP_ZERO_PAGE_X => Some(
            (spec_cmp_zero_page(cpu, mem, Accumulator, Some(RegisterX)), mem),
        ),
        op::CMP_INDIRECT_X => Some((spec_cmp_indirect_x(cpu, mem, Accumulator), mem)),
        op::CMP_INDIRECT_Y => Some((spec_cmp_indirect_y(cpu, mem, Accumulator), mem)),
        op::CPX_IMMEDIATE => Some((spec_cmp_immediate(cpu, mem, RegisterX), mem)),
        op::CPX_ZERO_PAGE => Some((spec_cmp_zero_page(cpu, mem, RegisterX, None), mem)),
        op::CPX_ABSOLUTE => Some((spec_cmp_absolute(cpu, mem, RegisterX, None), mem)),
        op::CPY_IMMEDIATE => Some((spec_cmp_immediate(cpu, mem, RegisterY), mem)),
        op::CPY_ZERO_PAGE => Some((spec_cmp_zero_page(cpu, mem, RegisterY, None), mem)),
        op::CPY_ABSOLUTE => Some((spec_cmp_absolute(cpu, mem, RegisterY, None), mem)),
        op::SBC_IMMEDIATE => if decimal {
            None
        } else {
            Some((spec_sbc_immediate(cpu, mem), mem))
        },
        op::SBC_ABSOLUTE => if decimal {
            None
        } else {
            Some((spec_sbc_absolute(cpu, mem, None), mem))
        },
        op::SBC_ABSOLUTE_X => if decimal {
            None
        } else {
            Some((spec_sbc_absolute(cpu, mem, Some(RegisterX)), mem))
        },
        op::SBC_ABSOLUTE_Y => if decimal {
            None
        } else {
            Some((spec_sbc_absolute(cpu, mem, Some(RegisterY)), mem))
        },
        op::SBC_ZERO_PAGE => if decimal {
            None
        } else {
            Some((spec_sbc_zero_page(cpu, mem, None), mem))
        },
        op::SBC_ZERO_PAGE_X => if decimal {
            None
        } else {
            Some((spec_sbc_zero_page(cpu, mem, Some(RegisterX)), mem))
        },
        op::SBC_INDIRECT_X => if decimal {
            None
        } else {
            Some((spec_sbc_indirect_x(cpu, mem), mem))
        },
        op::SBC_INDIRECT_Y => if decimal {
            None
        } else {
            Some((spec_sbc_indirect_y(cpu, mem), mem))
        },
        op::ASL_ACCUMULATOR | op::ASL_ZERO_PAGE | op::ASL_ZERO_PAGE_X | op::ASL_ABSOLUTE
            | op::ASL_ABSOLUTE_X => Some(spec_shift_left(cpu, mem, instruction)),
        op::LSR_ACCUMULATOR | op::LSR_ZERO_PAGE | op::LSR_ZERO_PAGE_X | op::LSR_ABSOLUTE
            | op::LSR_ABSOLUTE_X => Some(spec_shift_right(cpu, mem, instruction)),
        op::ROL_ACCUMULATOR | op::ROL_ZERO_PAGE | op::ROL_ZERO_PAGE_X | op::ROL_ABSOLUTE
            | op::ROL_ABSOLUTE_X => Some(spec_rotate_left(cpu, mem, instruction)),
        op::ROR_ACCUMULATOR | op::ROR_ZERO_PAGE | op::ROR_ZERO_PAGE_X | op::ROR_ABSOLUTE
            | op::ROR_ABSOLUTE_X => Some(spec_rotate_right(cpu, mem, instruction)),
        op::BRK => Some(spec_force_interrupt(cpu, mem)),
        op::RTI => Some((spec_return_from_interrupt(cpu, mem), mem)),
        _ => None,
    }
}

/// One iteration of the execution loop: the opcode fetch followed by
/// dispatch. `None` is the halt of the current call.
pub open spec fn spec_step(cpu: Processor, mem: Seq<u8>) -> Option<(Processor, Seq<u8>)> {
    spec_dispatch(spec_fetched(cpu), mem, spec_pc_byte(cpu, mem))
}

/// A cycle allowance larger than any single instruction can spend (the
/// costliest instruction takes eight cycles, fetch included). Running one
/// instruction against this allowance never saturates, so the drop in the
/// allowance is the instruction's exact cost.
pub const COST_METER: u32 = 64;

/// The execution loop: instructions run until the cycle budget is exhausted
/// at an instruction boundary, or until dispatch refuses an opcode, in which
/// case the machine stops as that opcode's fetch left it.
///
/// The result carries the final processor, the final memory, and the number
/// of cycles actually consumed: the sum of the executed instructions' full
/// costs, the fetch of a refused opcode included. An instruction is never
/// cut short, so the consumption may exceed the budget by the tail of the
/// final instruction; the budget register itself saturates at zero and
/// cannot record that overshoot, which is why each instruction's cost is
/// measured against [`COST_METER`] and the register then drops by exactly
/// that cost.
///
/// Every instruction spends at least the fetch cycle, so the budget
/// strictly decreases at every step; the guard on the recursive call only
/// writes that fact into the definition.
pub open spec fn spec_run(cpu: Processor, mem: Seq<u8>) -> (Processor, Seq<u8>, int)
    decreases cpu.cycles,
{
    if cpu.cycles == 0 {
        (cpu, mem, 0)
    } else {
        let probe = Processor { cycles: COST_METER, ..cpu };
        match spec_step(probe, mem) {
            None => (
                Processor { cycles: cpu.cycles.saturating_sub(1), ..spec_fetched(probe) },
                mem,
                1,
            ),
            Some((stepped_cpu, stepped_mem)) => {
                let cost = COST_METER - stepped_cpu.cycles;
                let next_cycles: u32 = if cpu.cycles >= cost {
                    (cpu.cycles - cost) as u32
                } else {
                    0
                };
                let next = Processor { cycles: next_cycles, ..stepped_cpu };
                if stepped_cpu.cycles < COST_METER {
                    let rest = spec_run(next, stepped_mem);
                    (rest.0, rest.1, cost + rest.2)
                } else {
                    (next, stepped_mem, cost)
                }
            },
        }
    }
}

} // verus!
