//! Laws of the machine model: the flag-decoding facts, the
//! add/subtract inverse, the subroutine call/return round trip, and the
//! status push/pull round trip, each proved once and for all inputs.

use vstd::prelude::*;

use crate::cpu::model::{
    lemma_complement, lemma_set_bit_effect, spec_add_to_accumulator, spec_fetch_bit, spec_jsr,
    spec_php, spec_plp, spec_pulled_status, spec_pushed_status, spec_rts, spec_set_bit,
    spec_shift_status, spec_stack_addr, spec_status_zn,
};
use crate::cpu::processor::Processor;

verus! {

/// After any operation that sets the flags from an 8-bit value — a load, a
/// logical operation, an increment or decrement — Zero holds exactly when
/// the value is 0 and Negative is exactly its bit 7; no other bit of the
/// status register moves.
pub proof fn lemma_zero_negative_flags(status: u8, value: u8)
    ensures
        spec_fetch_bit(spec_status_zn(status, value), 1) == (value == 0),
        spec_fetch_bit(spec_status_zn(status, value), 7) == spec_fetch_bit(value, 7),
        forall|bit: u8|
            bit < 8 && bit != 1 && bit != 7 ==> #[trigger] spec_fetch_bit(
                spec_status_zn(status, value),
                bit,
            ) == spec_fetch_bit(status, bit),
{
    let with_zero = spec_set_bit(status, 1, value == 0);
    lemma_set_bit_effect(status, 1, value == 0, 1);
    lemma_set_bit_effect(with_zero, 7, spec_fetch_bit(value, 7), 1);
    lemma_set_bit_effect(with_zero, 7, spec_fetch_bit(value, 7), 7);
    assert forall|bit: u8| bit < 8 && bit != 1 && bit != 7 implies #[trigger] spec_fetch_bit(
        spec_status_zn(status, value),
        bit,
    ) == spec_fetch_bit(status, bit) by {
        lemma_set_bit_effect(status, 1, value == 0, bit);
        lemma_set_bit_effect(with_zero, 7, spec_fetch_bit(value, 7), bit);
    }
}

/// After a shift or rotate, Zero holds exactly when the result is 0,
/// Negative is its bit 7, and Carry is the bit shifted out.
pub proof fn lemma_shift_flags(status: u8, result: u8, carry_out: bool)
    ensures
        spec_fetch_bit(spec_shift_status(status, result, carry_out), 1) == (result == 0),
        spec_fetch_bit(spec_shift_status(status, result, carry_out), 7) == spec_fetch_bit(
            result,
            7,
        ),
        spec_fetch_bit(spec_shift_status(status, result, carry_out), 0) == carry_out,
{
    let with_negative = spec_set_bit(status, 7, spec_fetch_bit(result, 7));
    let with_zero = spec_set_bit(with_negative, 1, result == 0);
    lemma_set_bit_effect(status, 7, spec_fetch_bit(result, 7), 7);
    lemma_set_bit_effect(with_negative, 1, result == 0, 1);
    lemma_set_bit_effect(with_negative, 1, result == 0, 7);
    lemma_set_bit_effect(with_zero, 0, carry_out, 0);
    lemma_set_bit_effect(with_zero, 0, carry_out, 1);
    lemma_set_bit_effect(with_zero, 0, carry_out, 7);
}

/// The inverse law of the arithmetic unit: an add-with-carry followed by a
/// subtract-with-carry of the same operand, run with the carry-in
/// complemented, returns the accumulator to its original byte value — for
/// every accumulator, operand and carry-in. (The Carry and Overflow flags
/// do not round-trip; the byte always does.)
pub proof fn lemma_add_subtract_round_trip(cpu: Processor, operand: u8)
    ensures
        ({
            let added = spec_add_to_accumulator(cpu, operand);
            let carry_complemented = (Processor {
                status: spec_set_bit(added.status, 0, !spec_fetch_bit(cpu.status, 0)),
                ..added
            });
            spec_add_to_accumulator(carry_complemented, !operand).accumulator
                == cpu.accumulator
        }),
{
    let a = cpu.accumulator as int;
    let m = operand as int;
    let carry_in: int = if spec_fetch_bit(cpu.status, 0) {
        1
    } else {
        0
    };
    let first_sum = a + m + carry_in;
    let added = spec_add_to_accumulator(cpu, operand);
    assert(added.accumulator as int == first_sum % 256);
    assert(first_sum % 256 == if first_sum > 255 {
        first_sum - 256
    } else {
        first_sum
    });

    let carry_complemented = (Processor {
        status: spec_set_bit(added.status, 0, !spec_fetch_bit(cpu.status, 0)),
        ..added
    });
    lemma_set_bit_effect(added.status, 0, !spec_fetch_bit(cpu.status, 0), 0);
    lemma_complement(operand);

    let second_sum = added.accumulator as int + (255 - m) + (1 - carry_in);
    assert(spec_add_to_accumulator(carry_complemented, !operand).accumulator as int == second_sum
        % 256);
}

/// The same composition run with the carry the addition produced — the
/// carry left in the status register — also restores the byte, whenever
/// that produced carry differs from the original carry-in. (When the two
/// coincide the popped-back byte is off by one; the complemented-carry form
/// above holds without exception.)
pub proof fn lemma_add_subtract_resulting_carry(cpu: Processor, operand: u8)
    requires
        spec_fetch_bit(spec_add_to_accumulator(cpu, operand).status, 0) != spec_fetch_bit(
            cpu.status,
            0,
        ),
    ensures
        spec_add_to_accumulator(spec_add_to_accumulator(cpu, operand), !operand).accumulator
            == cpu.accumulator,
{
    let a = cpu.accumulator as int;
    let m = operand as int;
    let carry_in: int = if spec_fetch_bit(cpu.status, 0) {
        1
    } else {
        0
    };
    let first_sum = a + m + carry_in;
    let added = spec_add_to_accumulator(cpu, operand);
    assert(added.accumulator as int == first_sum % 256);
    assert(first_sum % 256 == if first_sum > 255 {
        first_sum - 256
    } else {
        first_sum
    });

    let zn = spec_status_zn(cpu.status, added.accumulator);
    let with_carry = spec_set_bit(zn, 0, first_sum > 255);
    lemma_set_bit_effect(zn, 0, first_sum > 255, 0);
    lemma_set_bit_effect(
        with_carry,
        6,
        !spec_fetch_bit(cpu.accumulator ^ operand, 7) && spec_fetch_bit(added.accumulator, 7)
            != spec_fetch_bit(operand, 7),
        0,
    );
    assert(spec_fetch_bit(added.status, 0) == (first_sum > 255));
    lemma_complement(operand);

    let second_carry: int = if first_sum > 255 {
        1
    } else {
        0
    };
    let second_sum = added.accumulator as int + (255 - m) + second_carry;
    assert(spec_add_to_accumulator(added, !operand).accumulator as int == second_sum % 256);
}

/// The subroutine round trip: starting from the byte after a `JSR` opcode,
/// the call followed by the matching `RTS` leaves the program counter
/// exactly two bytes further — at the instruction after the three-byte call
/// — restores the stack pointer, and costs the two instructions' documented
/// cycles (five and five beyond the two opcode fetches).
pub proof fn lemma_jsr_rts_round_trip(cpu: Processor, mem: Seq<u8>)
    requires
        mem.len() == 0x10000,
    ensures
        ({
            let called = spec_jsr(cpu, mem);
            let returned = spec_rts(called.0, called.1);
            returned.program_counter == cpu.program_counter.wrapping_add(2)
                && returned.stack_pointer == cpu.stack_pointer && returned.cycles
                == cpu.cycles.saturating_sub(10)
        }),
{
    let pushed_value = cpu.program_counter.wrapping_add(1).wrapping_add(1).wrapping_sub(1);
    let high_addr = spec_stack_addr(cpu.stack_pointer);
    let low_addr = spec_stack_addr(cpu.stack_pointer.wrapping_sub(1));
    assert(high_addr != low_addr);

    let called = spec_jsr(cpu, mem);
    assert(called.1[low_addr as int] as int == pushed_value as int % 256);
    assert(called.1[high_addr as int] as int == pushed_value as int / 256);

    let returned = spec_rts(called.0, called.1);
    assert(called.0.stack_pointer.wrapping_add(1) == cpu.stack_pointer.wrapping_sub(1));
    assert(called.0.stack_pointer.wrapping_add(2) == cpu.stack_pointer);
    assert(returned.program_counter == pushed_value.wrapping_add(1));
}

/// The status push/pull round trip: the byte `PHP` leaves on the stack
/// always has bits 4 and 5 set, whatever the live status register held; the
/// matching `PLP` pops that byte with bits 4 and 5 taken from the live
/// register instead, so the status register comes back exactly, and so does
/// the stack pointer.
pub proof fn lemma_php_plp_round_trip(cpu: Processor, mem: Seq<u8>)
    requires
        mem.len() == 0x10000,
    ensures
        ({
            let pushed = spec_php(cpu, mem);
            let stack_byte = pushed.1[spec_stack_addr(cpu.stack_pointer) as int];
            let pulled = spec_plp(pushed.0, pushed.1);
            stack_byte == spec_pushed_status(cpu.status) && spec_fetch_bit(stack_byte, 4)
                && spec_fetch_bit(stack_byte, 5) && pulled.status == cpu.status
                && pulled.stack_pointer == cpu.stack_pointer
        }),
{
    let stack_byte = spec_pushed_status(cpu.status);
    lemma_set_bit_effect(spec_set_bit(cpu.status, 4, true), 5, true, 4);
    lemma_set_bit_effect(cpu.status, 4, true, 4);
    lemma_set_bit_effect(spec_set_bit(cpu.status, 4, true), 5, true, 5);

    let pushed = spec_php(cpu, mem);
    assert(pushed.0.stack_pointer.wrapping_sub(1).wrapping_add(1) == pushed.0.stack_pointer);
    assert(cpu.stack_pointer.wrapping_sub(1).wrapping_add(1) == cpu.stack_pointer);
    let live = cpu.status;
    assert(spec_pulled_status(live, spec_pushed_status(live)) == live) by (bit_vector);
}

} // verus!
