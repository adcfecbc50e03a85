use mos6502::checks::setup;
use mos6502::cpu::opcodes;
use mos6502::cpu::opcodes::ProcessorStatus;
use mos6502::cpu::processor::Functions;

fn run_logic_immediate(opcode: u8, expected: u8) {
    let (mut memory, mut processor) = setup();

    processor.accumulator = 0xCC;
    memory.data[0xFFFC] = opcode;
    memory.data[0xFFFD] = 0x84;

    processor.cycles = 2;
    let cycles = processor.execute(&mut memory);

    assert_eq!(processor.accumulator, expected);
    assert_eq!(cycles, 2);
}

#[test]
fn and_immediate() {
    run_logic_immediate(opcodes::AND_IMMEDIATE, 0xCC & 0x84);
}

#[test]
fn or_immediate() {
    run_logic_immediate(opcodes::OR_IMMEDIATE, 0xCC | 0x84);
}

#[test]
fn eor_immediate() {
    run_logic_immediate(opcodes::EOR_IMMEDIATE, 0xCC ^ 0x84);
}

fn run_logic_zero_page(opcode: u8, expected: u8) {
    let (mut memory, mut processor) = setup();

    processor.accumulator = 0xCC;
    memory.data[0xFFFC] = opcode;
    memory.data[0xFFFD] = 0x42;
    memory.data[0x0042] = 0x84;

    processor.cycles = 3;
    let cycles = processor.execute(&mut memory);

    assert_eq!(processor.accumulator, expected);
    assert_eq!(cycles, 3);
}

#[test]
fn and_zero_page() {
    run_logic_zero_page(opcodes::AND_ZERO_PAGE, 0xCC & 0x84);
}

#[test]
fn or_zero_page() {
    run_logic_zero_page(opcodes::OR_ZERO_PAGE, 0xCC | 0x84);
}

#[test]
fn eor_zero_page() {
    run_logic_zero_page(opcodes::EOR_ZERO_PAGE, 0xCC ^ 0x84);
}

fn run_logic_absolute(opcode: u8, expected: u8) {
    let (mut memory, mut processor) = setup();

    processor.accumulator = 0xCC;
    memory.data[0xFFFC] = opcode;
    memory.data[0xFFFD] = 0x00;
    memory.data[0xFFFE] = 0x80;
    memory.data[0x8000] = 0x84;

    processor.cycles = 4;
    let cycles = processor.execute(&mut memory);

    assert_eq!(processor.accumulator, expected);
    assert_eq!(cycles, 4);
}

#[test]
fn and_absolute() {
    run_logic_absolute(opcodes::AND_ABSOLUTE, 0xCC & 0x84);
}

#[test]
fn or_absolute() {
    run_logic_absolute(opcodes::OR_ABSOLUTE, 0xCC | 0x84);
}

#[test]
fn eor_absolute() {
    run_logic_absolute(opcodes::EOR_ABSOLUTE, 0xCC ^ 0x84);
}

#[test]
fn and_immediate_zero_flag() {
    let (mut memory, mut processor) = setup();

    processor.accumulator = 0x0F;
    memory.data[0xFFFC] = opcodes::AND_IMMEDIATE;
    memory.data[0xFFFD] = 0xF0;

    processor.cycles = 2;
    let cycles = processor.execute(&mut memory);

    assert_eq!(processor.accumulator, 0x00);
    assert!(processor.fetch_status(ProcessorStatus::ZeroFlag));
    assert_eq!(cycles, 2);
}

#[test]
fn bit_zero_page() {
    // 0xC0 has bits 6 and 7 set: Overflow and Negative follow the operand;
    // the masked accumulator is nonzero, so Zero stays clear.
    let (mut memory, mut processor) = setup();

    processor.accumulator = 0xC0;
    memory.data[0xFFFC] = opcodes::BIT_ZERO_PAGE;
    memory.data[0xFFFD] = 0x42;
    memory.data[0x0042] = 0xC0;

    processor.cycles = 3;
    let cycles = processor.execute(&mut memory);

    assert_eq!(processor.accumulator, 0xC0);
    assert!(!processor.fetch_status(ProcessorStatus::ZeroFlag));
    assert!(processor.fetch_status(ProcessorStatus::OverflowFlag));
    assert!(processor.fetch_status(ProcessorStatus::NegativeFlag));
    assert_eq!(cycles, 3);
}

#[test]
fn bit_zero_page_masked_to_zero() {
    let (mut memory, mut processor) = setup();

    processor.accumulator = 0x0F;
    memory.data[0xFFFC] = opcodes::BIT_ZERO_PAGE;
    memory.data[0xFFFD] = 0x42;
    memory.data[0x0042] = 0x40;

    processor.cycles = 3;
    let cycles = processor.execute(&mut memory);

    assert!(processor.fetch_status(ProcessorStatus::ZeroFlag));
    assert!(processor.fetch_status(ProcessorStatus::OverflowFlag));
    assert!(!processor.fetch_status(ProcessorStatus::NegativeFlag));
    assert_eq!(cycles, 3);
}

#[test]
fn bit_absolute() {
    let (mut memory, mut processor) = setup();

    processor.accumulator = 0x80;
    memory.data[0xFFFC] = opcodes::BIT_ABSOLUTE;
    memory.data[0xFFFD] = 0x00;
    memory.data[0xFFFE] = 0x80;
    memory.data[0x8000] = 0x80;

    processor.cycles = 4;
    let cycles = processor.execute(&mut memory);

    assert!(!processor.fetch_status(ProcessorStatus::ZeroFlag));
    assert!(!processor.fetch_status(ProcessorStatus::OverflowFlag));
    assert!(processor.fetch_status(ProcessorStatus::NegativeFlag));
    assert_eq!(cycles, 4);
}
