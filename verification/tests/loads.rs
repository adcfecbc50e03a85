use mos6502::checks::setup;
use mos6502::cpu::opcodes;
use mos6502::cpu::opcodes::ProcessorStatus;
use mos6502::cpu::processor::{Functions, Processor};
use mos6502::mem::Memory;

fn verify_load_flags(processor: &Processor) {
    assert!(!processor.fetch_status(ProcessorStatus::CarryFlag));
    assert!(!processor.fetch_status(ProcessorStatus::InterruptDisable));
    assert!(!processor.fetch_status(ProcessorStatus::DecimalMode));
    assert!(!processor.fetch_status(ProcessorStatus::BreakCommand));
    assert!(!processor.fetch_status(ProcessorStatus::OverflowFlag));
}

fn register_value(processor: &Processor, opcode_base: u8) -> u8 {
    match opcode_base {
        0xA9 => processor.accumulator,
        0xA2 => processor.register_x,
        _ => processor.register_y,
    }
}

fn run_immediate(opcode: u8, opcode_base: u8) {
    let (mut memory, mut processor) = setup();

    memory.data[0xFFFC] = opcode;
    memory.data[0xFFFD] = 0x84;

    processor.cycles = 2;
    let cycles = processor.execute(&mut memory);

    assert_eq!(register_value(&processor, opcode_base), 0x84);
    assert_eq!(cycles, 2);
    assert!(processor.fetch_status(ProcessorStatus::NegativeFlag));
    assert!(!processor.fetch_status(ProcessorStatus::ZeroFlag));
    verify_load_flags(&processor);
}

#[test]
fn lda_immediate() {
    run_immediate(opcodes::LDA_IMMEDIATE, 0xA9);
}

#[test]
fn ldx_immediate() {
    run_immediate(opcodes::LDX_IMMEDIATE, 0xA2);
}

#[test]
fn ldy_immediate() {
    run_immediate(opcodes::LDY_IMMEDIATE, 0xA0);
}

#[test]
fn lda_immediate_zero_flag() {
    let (mut memory, mut processor) = setup();

    processor.accumulator = 0x44;
    memory.data[0xFFFC] = opcodes::LDA_IMMEDIATE;
    memory.data[0xFFFD] = 0x00;

    processor.cycles = 2;
    let cycles = processor.execute(&mut memory);

    assert_eq!(processor.accumulator, 0x00);
    assert_eq!(cycles, 2);
    assert!(processor.fetch_status(ProcessorStatus::ZeroFlag));
    assert!(!processor.fetch_status(ProcessorStatus::NegativeFlag));
}

fn run_zero_page(opcode: u8, opcode_base: u8) {
    let (mut memory, mut processor) = setup();

    memory.data[0xFFFC] = opcode;
    memory.data[0xFFFD] = 0x42;
    memory.data[0x0042] = 0x84;

    processor.cycles = 3;
    let cycles = processor.execute(&mut memory);

    assert_eq!(register_value(&processor, opcode_base), 0x84);
    assert_eq!(cycles, 3);
    verify_load_flags(&processor);
}

#[test]
fn lda_zero_page() {
    run_zero_page(opcodes::LDA_ZERO_PAGE, 0xA9);
}

#[test]
fn ldx_zero_page() {
    run_zero_page(opcodes::LDX_ZERO_PAGE, 0xA2);
}

#[test]
fn ldy_zero_page() {
    run_zero_page(opcodes::LDY_ZERO_PAGE, 0xA0);
}

fn run_zero_page_indexed(opcode: u8, opcode_base: u8, index_is_x: bool) {
    let (mut memory, mut processor) = setup();

    memory.data[0xFFFC] = opcode;
    memory.data[0xFFFD] = 0x42;
    memory.data[0x0047] = 0x84;
    if index_is_x {
        processor.register_x = 5;
    } else {
        processor.register_y = 5;
    }

    processor.cycles = 4;
    let cycles = processor.execute(&mut memory);

    assert_eq!(register_value(&processor, opcode_base), 0x84);
    assert_eq!(cycles, 4);
    verify_load_flags(&processor);
}

#[test]
fn lda_zero_page_x() {
    run_zero_page_indexed(opcodes::LDA_ZERO_PAGE_X, 0xA9, true);
}

#[test]
fn ldx_zero_page_y() {
    run_zero_page_indexed(opcodes::LDX_ZERO_PAGE_Y, 0xA2, false);
}

#[test]
fn ldy_zero_page_x() {
    run_zero_page_indexed(opcodes::LDY_ZERO_PAGE_X, 0xA0, true);
}

#[test]
fn lda_zero_page_x_overflow() {
    // Zero-page indexing wraps within the page: 0x80 + 0xFF resolves to
    // 0x7F, not 0x17F.
    let (mut memory, mut processor) = setup();

    memory.data[0xFFFC] = opcodes::LDA_ZERO_PAGE_X;
    memory.data[0xFFFD] = 0x80;
    memory.data[0x007F] = 0x84;
    memory.data[0x017F] = 0x11;
    processor.register_x = 0xFF;

    processor.cycles = 4;
    let cycles = processor.execute(&mut memory);

    assert_eq!(processor.accumulator, 0x84);
    assert_eq!(cycles, 4);
}

fn run_absolute(opcode: u8, opcode_base: u8) {
    let (mut memory, mut processor) = setup();

    memory.data[0xFFFC] = opcode;
    memory.data[0xFFFD] = 0x80;
    memory.data[0xFFFE] = 0x44;
    memory.data[0x4480] = 0x84;

    processor.cycles = 4;
    let cycles = processor.execute(&mut memory);

    assert_eq!(register_value(&processor, opcode_base), 0x84);
    assert_eq!(cycles, 4);
    verify_load_flags(&processor);
}

#[test]
fn lda_absolute() {
    run_absolute(opcodes::LDA_ABSOLUTE, 0xA9);
}

#[test]
fn ldx_absolute() {
    run_absolute(opcodes::LDX_ABSOLUTE, 0xA2);
}

#[test]
fn ldy_absolute() {
    run_absolute(opcodes::LDY_ABSOLUTE, 0xA0);
}

fn run_absolute_indexed(opcode: u8, opcode_base: u8, index_is_x: bool, cross: bool) {
    let (mut memory, mut processor) = setup();

    memory.data[0xFFFC] = opcode;
    memory.data[0xFFFE] = 0x44;
    let expected_cycles: i64;
    if cross {
        // The original scenario grants four cycles; the crossing load costs
        // five and runs to completion, and the full cost is reported.
        memory.data[0xFFFD] = 0x02;
        memory.data[0x4501] = 0x84;
        expected_cycles = 5;
        if index_is_x {
            processor.register_x = 0xFF;
        } else {
            processor.register_y = 0xFF;
        }
    } else {
        memory.data[0xFFFD] = 0x80;
        memory.data[0x4485] = 0x84;
        expected_cycles = 4;
        if index_is_x {
            processor.register_x = 5;
        } else {
            processor.register_y = 5;
        }
    }

    processor.cycles = 4;
    let cycles = processor.execute(&mut memory);

    assert_eq!(register_value(&processor, opcode_base), 0x84);
    assert_eq!(cycles, expected_cycles);
    verify_load_flags(&processor);
}

#[test]
fn lda_absolute_x() {
    run_absolute_indexed(opcodes::LDA_ABSOLUTE_X, 0xA9, true, false);
}

#[test]
fn lda_absolute_x_overflow() {
    run_absolute_indexed(opcodes::LDA_ABSOLUTE_X, 0xA9, true, true);
}

#[test]
fn lda_absolute_y() {
    run_absolute_indexed(opcodes::LDA_ABSOLUTE_Y, 0xA9, false, false);
}

#[test]
fn lda_absolute_y_overflow() {
    run_absolute_indexed(opcodes::LDA_ABSOLUTE_Y, 0xA9, false, true);
}

#[test]
fn ldx_absolute_y() {
    run_absolute_indexed(opcodes::LDX_ABSOLUTE_Y, 0xA2, false, false);
}

#[test]
fn ldy_absolute_x() {
    run_absolute_indexed(opcodes::LDY_ABSOLUTE_X, 0xA0, true, false);
}

#[test]
fn lda_indirect_x() {
    let (mut memory, mut processor) = setup();

    processor.register_x = 0x04;
    memory.data[0xFFFC] = opcodes::LDA_INDIRECT_X;
    memory.data[0xFFFD] = 0x02;
    memory.data[0x0006] = 0x00;
    memory.data[0x0007] = 0x80;
    memory.data[0x8000] = 0x84;

    processor.cycles = 6;
    let cycles = processor.execute(&mut memory);

    assert_eq!(processor.accumulator, 0x84);
    assert_eq!(cycles, 6);
    verify_load_flags(&processor);
}

#[test]
fn lda_indirect_y() {
    let (mut memory, mut processor) = setup();

    processor.register_y = 0x04;
    memory.data[0xFFFC] = opcodes::LDA_INDIRECT_Y;
    memory.data[0xFFFD] = 0x02;
    memory.data[0x0002] = 0x00;
    memory.data[0x0003] = 0x80;
    memory.data[0x8004] = 0x84;

    processor.cycles = 5;
    let cycles = processor.execute(&mut memory);

    assert_eq!(processor.accumulator, 0x84);
    assert_eq!(cycles, 5);
    verify_load_flags(&processor);
}

#[test]
fn lda_indirect_y_overflow() {
    // Four cycles are granted; the crossing indirect load costs six and
    // runs to completion, and the full cost is reported.
    let (mut memory, mut processor) = setup();

    processor.register_y = 0xFF;
    memory.data[0xFFFC] = opcodes::LDA_INDIRECT_Y;
    memory.data[0xFFFD] = 0x02;
    memory.data[0x0002] = 0x02;
    memory.data[0x0003] = 0x80;
    memory.data[0x8101] = 0x84;

    processor.cycles = 4;
    let cycles = processor.execute(&mut memory);

    assert_eq!(processor.accumulator, 0x84);
    assert_eq!(cycles, 6);
    verify_load_flags(&processor);
}

#[test]
fn lda_immediate_from_reset() {
    // The end-to-end scenario: LDA #0x84 with a two-cycle budget from a
    // freshly reset processor.
    let (mut memory, mut processor) = setup();
    processor.reset(&mut memory, 0xFF00);

    memory.data[0xFF00] = opcodes::LDA_IMMEDIATE;
    memory.data[0xFF01] = 0x84;

    processor.cycles = 2;
    let cycles = processor.execute(&mut memory);

    assert_eq!(processor.accumulator, 0x84);
    assert!(processor.fetch_status(ProcessorStatus::NegativeFlag));
    assert!(!processor.fetch_status(ProcessorStatus::ZeroFlag));
    assert_eq!(cycles, 2);
}

#[test]
fn load_program_places_bytes() {
    let (mut memory, mut processor) = setup();
    let program: [u8; 4] = [0x00, 0xFF, 0xA9, 0x84];

    let load_address = processor.load_program(&mut memory, &program);

    assert_eq!(load_address, 0xFF00);
    assert_eq!(memory.data[0xFF00], 0xA9);
    assert_eq!(memory.data[0xFF01], 0x84);
    assert_eq!(memory.data[0xFF02], 0x00);
}

#[test]
fn load_program_too_short() {
    let (mut memory, mut processor) = setup();
    let program: [u8; 2] = [0xA9, 0x84];

    let load_address = processor.load_program(&mut memory, &program);

    assert_eq!(load_address, 0x200);
    assert_eq!(memory.data[0xA9], 0x00);
}

fn run_machine(memory: &mut Memory, processor: &mut Processor, budget: u32) -> i64 {
    processor.cycles = budget;
    processor.execute(memory)
}

#[test]
fn unknown_opcode_halts() {
    // 0x02 is outside the dispatch table: the call stops at once, and the
    // cycle its fetch consumed is reported.
    let (mut memory, mut processor) = setup();
    processor.reset(&mut memory, 0xFF00);
    memory.data[0xFF00] = 0x02;

    let cycles = run_machine(&mut memory, &mut processor, 10);

    assert_eq!(cycles, 1);
    assert_eq!(processor.program_counter, 0xFF01);
    assert_eq!(processor.cycles, 9);
}

#[test]
fn unknown_opcode_spends_its_fetch() {
    // Even a one-cycle budget spent entirely on the refused fetch is
    // reported: the result is positive for every positive budget.
    let (mut memory, mut processor) = setup();
    processor.reset(&mut memory, 0xFF00);
    memory.data[0xFF00] = 0x02;

    let cycles = run_machine(&mut memory, &mut processor, 1);

    assert_eq!(cycles, 1);
    assert_eq!(processor.cycles, 0);
}

#[test]
fn unknown_opcode_reports_completed_cycles() {
    let (mut memory, mut processor) = setup();
    processor.reset(&mut memory, 0xFF00);
    memory.data[0xFF00] = opcodes::LDA_IMMEDIATE;
    memory.data[0xFF01] = 0x84;
    memory.data[0xFF02] = 0x02;

    let cycles = run_machine(&mut memory, &mut processor, 10);

    // Two cycles for the completed load, one for the refused fetch.
    assert_eq!(cycles, 3);
    assert_eq!(processor.accumulator, 0x84);
}

#[test]
fn budget_is_checked_at_instruction_boundaries() {
    // A four-cycle instruction started with two cycles left runs to
    // completion and its full cost is reported, beyond the granted budget;
    // the budget register itself bottoms out at zero.
    let (mut memory, mut processor) = setup();
    memory.data[0xFFFC] = opcodes::LDA_ABSOLUTE;
    memory.data[0xFFFD] = 0x80;
    memory.data[0xFFFE] = 0x44;
    memory.data[0x4480] = 0x84;

    let cycles = run_machine(&mut memory, &mut processor, 2);

    assert_eq!(processor.accumulator, 0x84);
    assert_eq!(cycles, 4);
    assert_eq!(processor.cycles, 0);
}
