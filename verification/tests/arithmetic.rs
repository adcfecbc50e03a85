use mos6502::checks::setup;
use mos6502::cpu::opcodes;
use mos6502::cpu::opcodes::ProcessorStatus;
use mos6502::cpu::processor::Functions;

struct ArithmeticCase {
    carry: bool,
    accumulator: u8,
    operand: u8,
    answer: u8,
    expect_carry: bool,
    expect_negative: bool,
    expect_overflow: bool,
    expect_zero: bool,
}

fn run_absolute_case(case: ArithmeticCase, opcode: u8) {
    let (mut memory, mut processor) = setup();
    processor.reset(&mut memory, 0xFF00);

    processor.accumulator = case.accumulator;
    processor.set_status(ProcessorStatus::ZeroFlag, !case.expect_zero);
    processor.set_status(ProcessorStatus::NegativeFlag, !case.expect_negative);
    processor.set_status(ProcessorStatus::OverflowFlag, !case.expect_overflow);
    processor.set_status(ProcessorStatus::CarryFlag, case.carry);

    memory.data[0xFF00] = opcode;
    memory.data[0xFF01] = 0x00;
    memory.data[0xFF02] = 0x80;
    memory.data[0x8000] = case.operand;

    processor.cycles = 4;
    let cycles = processor.execute(&mut memory);

    assert_eq!(processor.accumulator, case.answer);
    assert_eq!(
        processor.fetch_status(ProcessorStatus::CarryFlag),
        case.expect_carry
    );
    assert_eq!(
        processor.fetch_status(ProcessorStatus::NegativeFlag),
        case.expect_negative
    );
    assert_eq!(
        processor.fetch_status(ProcessorStatus::OverflowFlag),
        case.expect_overflow
    );
    assert_eq!(
        processor.fetch_status(ProcessorStatus::ZeroFlag),
        case.expect_zero
    );
    assert_eq!(cycles, 4);
}

#[test]
fn add_absolute_zero() {
    run_absolute_case(
        ArithmeticCase {
            carry: false,
            accumulator: 0,
            operand: 0,
            answer: 0,
            expect_carry: false,
            expect_negative: false,
            expect_overflow: false,
            expect_zero: true,
        },
        opcodes::ADC_ABSOLUTE,
    );
}

#[test]
fn add_absolute_zero_carry() {
    run_absolute_case(
        ArithmeticCase {
            carry: true,
            accumulator: 0,
            operand: 0,
            answer: 1,
            expect_carry: false,
            expect_negative: false,
            expect_overflow: false,
            expect_zero: false,
        },
        opcodes::ADC_ABSOLUTE,
    );
}

#[test]
fn add_absolute_wraps_to_zero() {
    run_absolute_case(
        ArithmeticCase {
            carry: false,
            accumulator: 0xFF,
            operand: 1,
            answer: 0,
            expect_carry: true,
            expect_negative: false,
            expect_overflow: false,
            expect_zero: true,
        },
        opcodes::ADC_ABSOLUTE,
    );
}

#[test]
fn add_absolute_negative() {
    run_absolute_case(
        ArithmeticCase {
            carry: false,
            accumulator: 0,
            operand: 0xFF,
            answer: 0xFF,
            expect_carry: false,
            expect_negative: true,
            expect_overflow: false,
            expect_zero: false,
        },
        opcodes::ADC_ABSOLUTE,
    );
}

#[test]
fn add_absolute_unsigned() {
    run_absolute_case(
        ArithmeticCase {
            carry: true,
            accumulator: 20,
            operand: 17,
            answer: 38,
            expect_carry: false,
            expect_negative: false,
            expect_overflow: false,
            expect_zero: false,
        },
        opcodes::ADC_ABSOLUTE,
    );
}

#[test]
fn add_absolute_signed_negative_overflow() {
    run_absolute_case(
        ArithmeticCase {
            carry: false,
            accumulator: 0x80,
            operand: 0xFF,
            answer: 127,
            expect_carry: true,
            expect_negative: false,
            expect_overflow: true,
            expect_zero: false,
        },
        opcodes::ADC_ABSOLUTE,
    );
}

#[test]
fn add_absolute_signed_overflow() {
    run_absolute_case(
        ArithmeticCase {
            carry: false,
            accumulator: 127,
            operand: 1,
            answer: 128,
            expect_carry: false,
            expect_negative: true,
            expect_overflow: true,
            expect_zero: false,
        },
        opcodes::ADC_ABSOLUTE,
    );
}

#[test]
fn add_immediate() {
    let (mut memory, mut processor) = setup();
    processor.reset(&mut memory, 0xFF00);

    processor.accumulator = 20;
    processor.set_status(ProcessorStatus::CarryFlag, true);
    memory.data[0xFF00] = opcodes::ADC_IMMEDIATE;
    memory.data[0xFF01] = 17;

    processor.cycles = 2;
    let cycles = processor.execute(&mut memory);

    assert_eq!(processor.accumulator, 38);
    assert_eq!(cycles, 2);
}

#[test]
fn add_zero_page() {
    let (mut memory, mut processor) = setup();
    processor.reset(&mut memory, 0xFF00);

    processor.accumulator = 13;
    memory.data[0xFF00] = opcodes::ADC_ZERO_PAGE;
    memory.data[0xFF01] = 0x42;
    memory.data[0x0042] = 29;

    processor.cycles = 3;
    let cycles = processor.execute(&mut memory);

    assert_eq!(processor.accumulator, 42);
    assert_eq!(cycles, 3);
}

#[test]
fn subtract_absolute_simple() {
    // With carry set (no borrow pending): 38 - 17 = 21.
    run_absolute_case(
        ArithmeticCase {
            carry: true,
            accumulator: 38,
            operand: 17,
            answer: 21,
            expect_carry: true,
            expect_negative: false,
            expect_overflow: false,
            expect_zero: false,
        },
        opcodes::SBC_ABSOLUTE,
    );
}

#[test]
fn subtract_absolute_to_zero() {
    run_absolute_case(
        ArithmeticCase {
            carry: true,
            accumulator: 17,
            operand: 17,
            answer: 0,
            expect_carry: true,
            expect_negative: false,
            expect_overflow: false,
            expect_zero: true,
        },
        opcodes::SBC_ABSOLUTE,
    );
}

#[test]
fn subtract_absolute_borrow() {
    // 0 - 1 with carry set borrows: 0xFF with the carry cleared.
    run_absolute_case(
        ArithmeticCase {
            carry: true,
            accumulator: 0,
            operand: 1,
            answer: 0xFF,
            expect_carry: false,
            expect_negative: true,
            expect_overflow: false,
            expect_zero: false,
        },
        opcodes::SBC_ABSOLUTE,
    );
}

#[test]
fn subtract_immediate_signed_overflow() {
    // -128 - 1 overflows to +127.
    run_absolute_case(
        ArithmeticCase {
            carry: true,
            accumulator: 0x80,
            operand: 1,
            answer: 0x7F,
            expect_carry: true,
            expect_negative: false,
            expect_overflow: true,
            expect_zero: false,
        },
        opcodes::SBC_ABSOLUTE,
    );
}

fn run_compare_immediate(opcode: u8, register_value: u8, operand: u8) -> (bool, bool, bool) {
    let (mut memory, mut processor) = setup();
    processor.reset(&mut memory, 0xFF00);

    match opcode {
        0xC9 => processor.accumulator = register_value,
        0xE0 => processor.register_x = register_value,
        _ => processor.register_y = register_value,
    }
    memory.data[0xFF00] = opcode;
    memory.data[0xFF01] = operand;

    processor.cycles = 2;
    let cycles = processor.execute(&mut memory);
    assert_eq!(cycles, 2);

    (
        processor.fetch_status(ProcessorStatus::ZeroFlag),
        processor.fetch_status(ProcessorStatus::CarryFlag),
        processor.fetch_status(ProcessorStatus::NegativeFlag),
    )
}

#[test]
fn compare_equal() {
    let (zero, carry, negative) = run_compare_immediate(opcodes::CMP_IMMEDIATE, 0x42, 0x42);
    assert!(zero);
    assert!(carry);
    assert!(!negative);
}

#[test]
fn compare_greater() {
    let (zero, carry, negative) = run_compare_immediate(opcodes::CMP_IMMEDIATE, 0x50, 0x42);
    assert!(!zero);
    assert!(carry);
    assert!(!negative);
}

#[test]
fn compare_less_sets_negative() {
    let (zero, carry, negative) = run_compare_immediate(opcodes::CMP_IMMEDIATE, 0x40, 0x42);
    assert!(!zero);
    assert!(!carry);
    assert!(negative);
}

#[test]
fn compare_x_register() {
    let (zero, carry, negative) = run_compare_immediate(opcodes::CPX_IMMEDIATE, 0x10, 0x08);
    assert!(!zero);
    assert!(carry);
    assert!(!negative);
}

#[test]
fn compare_y_register() {
    let (zero, carry, negative) = run_compare_immediate(opcodes::CPY_IMMEDIATE, 0x08, 0x10);
    assert!(!zero);
    assert!(!carry);
    assert!(negative);
}

#[test]
fn compare_zero_page() {
    let (mut memory, mut processor) = setup();
    processor.reset(&mut memory, 0xFF00);

    processor.accumulator = 0x42;
    memory.data[0xFF00] = opcodes::CMP_ZERO_PAGE;
    memory.data[0xFF01] = 0x10;
    memory.data[0x0010] = 0x42;

    processor.cycles = 3;
    let cycles = processor.execute(&mut memory);

    assert!(processor.fetch_status(ProcessorStatus::ZeroFlag));
    assert_eq!(processor.accumulator, 0x42);
    assert_eq!(cycles, 3);
}

#[test]
fn decimal_mode_addition_is_refused() {
    // SED enables decimal mode; the following ADC is refused at dispatch
    // and the call stops with only the completed SED accounted for.
    let (mut memory, mut processor) = setup();
    processor.reset(&mut memory, 0xFF00);

    processor.accumulator = 0x05;
    memory.data[0xFF00] = opcodes::SED;
    memory.data[0xFF01] = opcodes::ADC_IMMEDIATE;
    memory.data[0xFF02] = 0x05;

    processor.cycles = 4;
    let cycles = processor.execute(&mut memory);

    // Two cycles for the completed SED, one for the refused fetch.
    assert_eq!(cycles, 3);
    assert_eq!(processor.accumulator, 0x05);
    assert!(processor.fetch_status(ProcessorStatus::DecimalMode));
}

#[test]
fn decimal_mode_subtraction_is_refused() {
    let (mut memory, mut processor) = setup();
    processor.reset(&mut memory, 0xFF00);

    processor.accumulator = 0x05;
    memory.data[0xFF00] = opcodes::SED;
    memory.data[0xFF01] = opcodes::SBC_IMMEDIATE;
    memory.data[0xFF02] = 0x01;

    processor.cycles = 4;
    let cycles = processor.execute(&mut memory);

    assert_eq!(cycles, 3);
    assert_eq!(processor.accumulator, 0x05);
}
