//! The processor record and its top-level operations: reset, flag access,
//! program loading, and the fetch-decode-execute loop.

use vstd::prelude::*;

use crate::cpu::functions::byte::ByteFunctions;
use crate::cpu::instructions::arithmetic::add::AddWithCarry;
use crate::cpu::instructions::arithmetic::compare::Compare;
use crate::cpu::instructions::arithmetic::subtract::SubtractWithCarry;
use crate::cpu::instructions::branches::Branches;
use crate::cpu::instructions::decrement::Decrement;
use crate::cpu::instructions::increment::Increment;
use crate::cpu::instructions::jumps::Jumps;
use crate::cpu::instructions::logical::Logical;
use crate::cpu::instructions::registers::load::LoadRegister;
use crate::cpu::instructions::registers::store::StoreRegister;
use crate::cpu::instructions::shifts::Shifts;
use crate::cpu::instructions::stackops::StackOperations;
use crate::cpu::instructions::system::System;
use crate::cpu::instructions::transfers::Transfers;
use crate::cpu::model::{
    lemma_u16_from_bytes, spec_advance_pc, spec_dispatch, spec_fetch_bit, spec_flag_bit,
    spec_loaded_memory, spec_program_address, spec_run, spec_set_bit, spec_spend, COST_METER,
};
use crate::cpu::opcodes as op;
use crate::cpu::opcodes::{LogicalOperations, ProcessorStatus, Registers};
use crate::mem::{fetch_bit, set_bit, Memory, MAX_MEMORY};

verus! {

/// The complete register state of the processor, together with the cycle
/// budget of the current execution call.
///
/// `cycles` is not hardware state: it is the number of clock cycles the
/// caller still allows, decremented by every memory access and every
/// extra-cycle condition, saturating at zero.
#[derive(Debug)]
pub struct Processor {
    pub program_counter: u16,
    pub stack_pointer: u8,
    pub accumulator: u8,
    pub register_x: u8,
    pub register_y: u8,
    pub status: u8,
    pub cycles: u32,
}

pub trait Functions {
    fn increment_pc(&mut self);

    fn decrement_cycles(&mut self, amount: u32);

    fn reset(&mut self, memory: &mut Memory, reset_vector: u16);

    fn set_status(&mut self, flag: ProcessorStatus, value: bool);

    fn fetch_status(&self, flag: ProcessorStatus) -> bool;

    fn load_program(&mut self, memory: &mut Memory, program: &[u8]) -> u16
        requires
            program@.len() > 2 ==> program@.len() <= 0xFFFF && spec_program_address(program@)
                + program@.len() - 2 <= 0xFFFF,
    ;

    fn execute(&mut self, memory: &mut Memory) -> i64;
}

impl Processor {
    /// Advances the program counter by one, wrapping in 16 bits.
    pub fn increment_pc(&mut self)
        ensures
            *final(self) == spec_advance_pc(*old(self)),
    {
        self.program_counter = self.program_counter.wrapping_add(1);
    }

    /// Spends cycles of the remaining budget, saturating at zero. Spending
    /// more than is left is a harness anomaly, not a hardware condition: the
    /// budget simply stays at zero.
    pub fn decrement_cycles(&mut self, amount: u32)
        ensures
            *final(self) == spec_spend(*old(self), amount),
    {
        self.cycles = self.cycles.saturating_sub(amount);
    }

    /// Forces one named flag of the status register to `value`.
    pub fn set_status(&mut self, flag: ProcessorStatus, value: bool)
        ensures
            *final(self) == (Processor {
                status: spec_set_bit(old(self).status, spec_flag_bit(flag), value),
                ..*old(self)
            }),
    {
        match flag {
            ProcessorStatus::CarryFlag => self.status = set_bit(self.status, 0, value),
            ProcessorStatus::ZeroFlag => self.status = set_bit(self.status, 1, value),
            ProcessorStatus::InterruptDisable => self.status = set_bit(self.status, 2, value),
            ProcessorStatus::DecimalMode => self.status = set_bit(self.status, 3, value),
            ProcessorStatus::BreakCommand => self.status = set_bit(self.status, 4, value),
            ProcessorStatus::OverflowFlag => self.status = set_bit(self.status, 6, value),
            ProcessorStatus::NegativeFlag => self.status = set_bit(self.status, 7, value),
        }
    }

    /// Reads one named flag of the status register.
    pub fn fetch_status(&self, flag: ProcessorStatus) -> (r: bool)
        ensures
            r == spec_fetch_bit(self.status, spec_flag_bit(flag)),
    {
        match flag {
            ProcessorStatus::CarryFlag => fetch_bit(self.status, 0),
            ProcessorStatus::ZeroFlag => fetch_bit(self.status, 1),
            ProcessorStatus::InterruptDisable => fetch_bit(self.status, 2),
            ProcessorStatus::DecimalMode => fetch_bit(self.status, 3),
            ProcessorStatus::BreakCommand => fetch_bit(self.status, 4),
            ProcessorStatus::OverflowFlag => fetch_bit(self.status, 6),
            ProcessorStatus::NegativeFlag => fetch_bit(self.status, 7),
        }
    }
}

impl Functions for Processor {
    /// Advances the program counter by one, wrapping in 16 bits.
    fn increment_pc(&mut self)
        ensures
            *final(self) == spec_advance_pc(*old(self)),
    {
        Processor::increment_pc(self);
    }

    /// Spends cycles of the remaining budget, saturating at zero.
    fn decrement_cycles(&mut self, amount: u32)
        ensures
            *final(self) == spec_spend(*old(self), amount),
    {
        Processor::decrement_cycles(self, amount);
    }

    /// Zeroes every register and all of memory, sets the stack pointer to
    /// 0xFF, and loads the program counter from the supplied reset vector.
    /// The cycle budget is left to the caller.
    fn reset(&mut self, memory: &mut Memory, reset_vector: u16)
        ensures
            final(self).program_counter == reset_vector,
            final(self).stack_pointer == 0xFF,
            final(self).status == 0,
            final(self).accumulator == 0,
            final(self).register_x == 0,
            final(self).register_y == 0,
            final(self).cycles == old(self).cycles,
            final(memory)@.len() == MAX_MEMORY,
            forall|i: int| 0 <= i < MAX_MEMORY ==> final(memory)@[i] == 0u8,
    {
        self.program_counter = reset_vector;
        self.stack_pointer = 0xFF;
        self.status = 0;
        self.accumulator = 0;
        self.register_x = 0;
        self.register_y = 0;
        memory.data = [0; MAX_MEMORY];
    }

    /// Forces one named flag of the status register to `value`.
    fn set_status(&mut self, flag: ProcessorStatus, value: bool)
        ensures
            *final(self) == (Processor {
                status: spec_set_bit(old(self).status, spec_flag_bit(flag), value),
                ..*old(self)
            }),
    {
        Processor::set_status(self, flag, value);
    }

    /// Reads one named flag of the status register.
    fn fetch_status(&self, flag: ProcessorStatus) -> (r: bool)
        ensures
            r == spec_fetch_bit(self.status, spec_flag_bit(flag)),
    {
        Processor::fetch_status(self, flag)
    }

    /// Loads a raw program image: the first two bytes are the little-endian
    /// load address, the rest is copied there, and the load address is
    /// returned. An image too short to carry a header loads nothing and
    /// returns 0x200, the first address past the zero page and the stack.
    fn load_program(&mut self, memory: &mut Memory, program: &[u8]) -> (load_address: u16)
        ensures
            *final(self) == *old(self),
            program@.len() > 2 ==> load_address == spec_program_address(program@)
                && final(memory)@ == spec_loaded_memory(old(memory)@, program@),
            program@.len() <= 2 ==> load_address == 0x200 && final(memory)@ == old(memory)@,
    {
        let program_length: usize = program.len();
        if program_length > 2 {
            let load_low_byte: u8 = program[0];
            let load_high_byte: u8 = program[1];
            proof {
                lemma_u16_from_bytes(load_low_byte, load_high_byte);
            }
            let load_address: u16 = load_low_byte as u16 | ((load_high_byte as u16) << 8);

            let final_index: u16 = load_address + (program_length as u16 - 2);

            let mut index: u16 = load_address;
            let mut position: usize = 2;

            while index < final_index
                invariant
                    load_address <= index <= final_index,
                    final_index == load_address + program@.len() - 2,
                    2 < program@.len() <= 0xFFFF,
                    position == index - load_address + 2,
                    memory@.len() == MAX_MEMORY,
                    forall|i: int|
                        0 <= i < MAX_MEMORY ==> memory@[i] == if load_address <= i < index {
                            program@[i - load_address + 2]
                        } else {
                            old(memory)@[i]
                        },
                decreases final_index - index,
            {
                memory.data[index as usize] = program[position];
                position = position + 1;
                index = index + 1;
            }

            proof {
                assert(memory@ =~= spec_loaded_memory(old(memory)@, program@));
            }
            return load_address;
        }
        return 0x200;
    }

    /// The dispatch loop: fetches an opcode, routes it through the fixed
    /// table, and repeats while the cycle budget lasts. The loop stops at
    /// an instruction boundary once the budget is exhausted, or as soon as
    /// dispatch refuses an opcode.
    ///
    /// Returns the number of cycles actually consumed: the sum of the
    /// executed instructions' full costs, the fetch of a refused opcode
    /// included. The final instruction always runs to completion, so the
    /// result may exceed the requested budget by that instruction's tail;
    /// the budget register saturates at zero and cannot carry the
    /// overshoot, so each instruction's cost is metered against
    /// [`COST_METER`] and the register then drops by exactly that cost.
    fn execute(&mut self, memory: &mut Memory) -> (cycles_used: i64)
        ensures
            *final(self) == spec_run(*old(self), old(memory)@).0,
            final(memory)@ == spec_run(*old(self), old(memory)@).1,
            cycles_used == spec_run(*old(self), old(memory)@).2,
            old(self).cycles > 0 ==> cycles_used >= 1,
    {
        let ghost start_cpu = *self;
        let ghost start_mem = memory@;
        let origin_cycles: u32 = self.cycles;
        let mut remaining: u32 = self.cycles;
        let mut consumed: u64 = 0;
        let mut halted: bool = false;

        while remaining > 0 && !halted
            invariant
                origin_cycles == start_cpu.cycles,
                remaining <= origin_cycles,
                consumed <= 8 * (origin_cycles - remaining),
                consumed == 0 ==> remaining == origin_cycles && !halted,
                ({
                    let virt = (Processor { cycles: remaining, ..*self });
                    if halted {
                        spec_run(start_cpu, start_mem) == (virt, memory@, consumed as int)
                    } else {
                        spec_run(start_cpu, start_mem).0 == spec_run(virt, memory@).0
                            && spec_run(start_cpu, start_mem).1 == spec_run(virt, memory@).1
                            && spec_run(start_cpu, start_mem).2 == consumed + spec_run(
                            virt,
                            memory@,
                        ).2
                    }
                }),
            decreases remaining,
        {
            let ghost pre_virt = Processor { cycles: remaining, ..*self };
            let ghost pre_mem = memory@;

            self.cycles = COST_METER;
            let instruction: u8 = self.fetch_byte(memory);
            let handled: bool = self.dispatch_instruction(memory, instruction);
            let cost: u32 = COST_METER - self.cycles;
            consumed = consumed + cost as u64;
            remaining = remaining.saturating_sub(cost);
            if !handled {
                halted = true;
            }
            proof {
                let virt = Processor { cycles: remaining, ..*self };
                assert(spec_run(pre_virt, pre_mem) == if halted {
                    (virt, memory@, cost as int)
                } else {
                    let rest = spec_run(virt, memory@);
                    (rest.0, rest.1, cost + rest.2)
                });
            }
        }

        self.cycles = remaining;
        return consumed as i64;
    }
}

impl Processor {
    /// Routes one fetched opcode to its operation group. Returns whether
    /// the opcode was run: an opcode outside the table is refused, and so is
    /// add/subtract-with-carry while decimal mode is enabled, which the
    /// machine deliberately does not implement. A dispatched instruction
    /// spends between zero and seven further cycles past the fetch.
    #[verifier::rlimit(100)]
    #[verifier::spinoff_prover]
    fn dispatch_instruction(&mut self, memory: &mut Memory, instruction: u8) -> (handled: bool)
        ensures
            (match spec_dispatch(*old(self), old(memory)@, instruction) {
                Some(stepped) => handled && *final(self) == stepped.0 && final(memory)@
                    == stepped.1,
                None => !handled && *final(self) == *old(self) && final(memory)@ == old(memory)@,
            }),
            handled ==> final(self).cycles <= old(self).cycles,
            handled ==> old(self).cycles <= final(self).cycles + 7,
    {
        match instruction {
            op::LDA_IMMEDIATE => {
                self.load_immediate(memory, Registers::Accumulator);
                true
            },
            op::LDA_ZERO_PAGE => {
                self.load_zero_page(memory, Registers::Accumulator, None);
                true
            },
            op::LDA_ZERO_PAGE_X => {
                self.load_zero_page(memory, Registers::Accumulator, Some(Registers::RegisterX));
                true
            },
            op::LDA_ABSOLUTE => {
                self.load_absolute(memory, Registers::Accumulator, None);
                true
            },
            op::LDA_ABSOLUTE_X => {
                self.load_absolute(memory, Registers::Accumulator, Some(Registers::RegisterX));
                true
            },
            op::LDA_ABSOLUTE_Y => {
                self.load_absolute(memory, Registers::Accumulator, Some(Registers::RegisterY));
                true
            },
            op::LDA_INDIRECT_X => {
                self.load_indirect_x(memory);
                true
            },
            op::LDA_INDIRECT_Y => {
                self.load_indirect_y(memory);
                true
            },
            op::LDX_IMMEDIATE => {
                self.load_immediate(memory, Registers::RegisterX);
                true
            },
            op::LDX_ZERO_PAGE => {
                self.load_zero_page(memory, Registers::RegisterX, None);
                true
            },
            op::LDX_ZERO_PAGE_Y => {
                self.load_zero_page(memory, Registers::RegisterX, Some(Registers::RegisterY));
                true
            },
            op::LDX_ABSOLUTE => {
                self.load_absolute(memory, Registers::RegisterX, None);
                true
            },
            op::LDX_ABSOLUTE_Y => {
                self.load_absolute(memory, Registers::RegisterX, Some(Registers::RegisterY));
                true
            },
            op::LDY_IMMEDIATE => {
                self.load_immediate(memory, Registers::RegisterY);
                true
            },
            op::LDY_ZERO_PAGE => {
                self.load_zero_page(memory, Registers::RegisterY, None);
                true
            },
            op::LDY_ZERO_PAGE_X => {
                self.load_zero_page(memory, Registers::RegisterY, Some(Registers::RegisterX));
                true
            },
            op::LDY_ABSOLUTE => {
                self.load_absolute(memory, Registers::RegisterY, None);
                true
            },
            op::LDY_ABSOLUTE_X => {
                self.load_absolute(memory, Registers::RegisterY, Some(Registers::RegisterX));
                true
            },
            op::STA_ZERO_PAGE => {
                self.store_zero_page(memory, Registers::Accumulator, None);
                true
            },
            op::STA_ZERO_PAGE_X => {
                self.store_zero_page(memory, Registers::Accumulator, Some(Registers::RegisterX));
                true
            },
            op::STA_ABSOLUTE => {
                self.store_absolute(memory, Registers::Accumulator, None);
                true
            },
            op::STA_ABSOLUTE_X => {
                self.store_absolute(memory, Registers::Accumulator, Some(Registers::RegisterX));
                true
            },
            op::STA_ABSOLUTE_Y => {
                self.store_absolute(memory, Registers::Accumulator, Some(Registers::RegisterY));
                true
            },
            op::STA_INDIRECT_X => {
                self.store_indirect_x(memory);
                true
            },
            op::STA_INDIRECT_Y => {
                self.store_indirect_y(memory);
                true
            },
            op::STX_ZERO_PAGE => {
                self.store_zero_page(memory, Registers::RegisterX, None);
                true
            },
            op::STX_ZERO_PAGE_Y => {
                self.store_zero_page(memory, Registers::RegisterX, Some(Registers::RegisterY));
                true
            },
            op::STX_ABSOLUTE => {
                self.store_absolute(memory, Registers::RegisterX, None);
                true
            },
            op::STY_ZERO_PAGE => {
                self.store_zero_page(memory, Registers::RegisterY, None);
                true
            },
            op::STY_ZERO_PAGE_X => {
                self.store_zero_page(memory, Registers::RegisterY, Some(Registers::RegisterX));
                true
            },
            op::STY_ABSOLUTE => {
                self.store_absolute(memory, Registers::RegisterY, None);
                true
            },
            op::JSR => {
                self.jsr(memory);
                true
            },
            op::RTS => {
                self.rts(memory);
                true
            },
            op::JMP_ABSOLUTE => {
                self.jump_absolute(memory);
                true
            },
            op::JMP_INDIRECT => {
                self.jump_indirect(memory);
                true
            },
            op::TSX => {
                self.tsx();
                true
            },
            op::TXS => {
                self.txs();
                true
            },
            op::PHA => {
                self.pha(memory);
                true
            },
            op::PHP => {
                self.php(memory);
                true
            },
            op::PLA => {
                self.pla(memory);
                true
            },
            op::PLP => {
                self.plp(memory);
                true
            },
            op::AND_IMMEDIATE => {
                self.logic_immediate(memory, LogicalOperations::And);
                true
            },
            op::AND_ZERO_PAGE => {
                self.logic_zero_page(memory, LogicalOperations::And, None);
                true
            },
            op::AND_ZERO_PAGE_X => {
                self.logic_zero_page(memory, LogicalOperations::And, Some(Registers::RegisterX));
                true
            },
            op::AND_ABSOLUTE => {
                self.logic_absolute(memory, LogicalOperations::And, None);
                true
            },
            op::AND_ABSOLUTE_X => {
                self.logic_absolute(memory, LogicalOperations::And, Some(Registers::RegisterX));
                true
            },
            op::AND_ABSOLUTE_Y => {
                self.logic_absolute(memory, LogicalOperations::And, Some(Registers::RegisterY));
                true
            },
            op::AND_INDIRECT_X => {
                self.logic_indirect_x(memory, LogicalOperations::And);
                true
            },
            op::AND_INDIRECT_Y => {
                self.logic_indirect_y(memory, LogicalOperations::And);
                true
            },
            op::OR_IMMEDIATE => {
                self.logic_immediate(memory, LogicalOperations::Or);
                true
            },
            op::OR_ZERO_PAGE => {
                self.logic_zero_page(memory, LogicalOperations::Or, None);
                true
            },
            op::OR_ZERO_PAGE_X => {
                self.logic_zero_page(memory, LogicalOperations::Or, Some(Registers::RegisterX));
                true
            },
            op::OR_ABSOLUTE => {
                self.logic_absolute(memory, LogicalOperations::Or, None);
                true
            },
            op::OR_ABSOLUTE_X => {
                self.logic_absolute(memory, LogicalOperations::Or, Some(Registers::RegisterX));
                true
            },
            op::OR_ABSOLUTE_Y => {
                self.logic_absolute(memory, LogicalOperations::Or, Some(Registers::RegisterY));
                true
            },
            op::OR_INDIRECT_X => {
                self.logic_indirect_x(memory, LogicalOperations::Or);
                true
            },
            op::OR_INDIRECT_Y => {
                self.logic_indirect_y(memory, LogicalOperations::Or);
                true
            },
            op::EOR_IMMEDIATE => {
                self.logic_immediate(memory, LogicalOperations::ExclusiveOr);
                true
            },
            op::EOR_ZERO_PAGE => {
                self.logic_zero_page(memory, LogicalOperations::ExclusiveOr, None);
                true
            },
            op::EOR_ZERO_PAGE_X => {
                self.logic_zero_page(
                    memory,
                    LogicalOperations::ExclusiveOr,
                    Some(Registers::RegisterX),
                );
                true
            },
            op::EOR_ABSOLUTE => {
                self.logic_absolute(memory, LogicalOperations::ExclusiveOr, None);
                true
            },
            op::EOR_ABSOLUTE_X => {
                self.logic_absolute(
                    memory,
                    LogicalOperations::ExclusiveOr,
                    Some(Registers::RegisterX),
                );
                true
            },
            op::EOR_ABSOLUTE_Y => {
                self.logic_absolute(
                    memory,
                    LogicalOperations::ExclusiveOr,
                    Some(Registers::RegisterY),
                );
                true
            },
            op::EOR_INDIRECT_X => {
                self.logic_indirect_x(memory, LogicalOperations::ExclusiveOr);
                true
            },
            op::EOR_INDIRECT_Y => {
                self.logic_indirect_y(memory, LogicalOperations::ExclusiveOr);
                true
            },
            op::BIT_ZERO_PAGE => {
                self.bit_zero_page(memory);
                true
            },
            op::BIT_ABSOLUTE => {
                self.bit_absolute(memory);
                true
            },
            op::TAX => {
                self.transfer_accumulator_to_x();
                true
            },
            op::TAY => {
                self.transfer_accumulator_to_y();
                true
            },
            op::TXA => {
                self.transfer_x_to_accumulator();
                true
            },
            op::TYA => {
                self.transfer_y_to_accumulator();
                true
            },
            op::INX => {
                self.increment_x();
                true
            },
            op::INY => {
                self.increment_y();
                true
            },
            op::INC_ZERO_PAGE => {
                self.increment_memory_zero_page(memory, None);
                true
            },
            op::INC_ZERO_PAGE_X => {
                self.increment_memory_zero_page(memory, Some(Registers::RegisterX));
                true
            },
            op::INC_ABSOLUTE => {
                self.increment_memory_absolute(memory, None);
                true
            },
            op::INC_ABSOLUTE_X => {
                self.increment_memory_absolute(memory, Some(Registers::RegisterX));
                true
            },
            op::DEX => {
                self.decrement_x();
                true
            },
            op::DEY => {
                self.decrement_y();
                true
            },
            op::DEC_ZERO_PAGE => {
                self.decrement_memory_zero_page(memory, None);
                true
            },
            op::DEC_ZERO_PAGE_X => {
                self.decrement_memory_zero_page(memory, Some(Registers::RegisterX));
                true
            },
            op::DEC_ABSOLUTE => {
                self.decrement_memory_absolute(memory, None);
                true
            },
            op::DEC_ABSOLUTE_X => {
                self.decrement_memory_absolute(memory, Some(Registers::RegisterX));
                true
            },
            op::BEQ => {
                let condition = self.fetch_status(ProcessorStatus::ZeroFlag);
                self.branch(memory, condition);
                true
            },
            op::BNE => {
                let condition = self.fetch_status(ProcessorStatus::ZeroFlag);
                self.branch(memory, !condition);
                true
            },
            op::BCS => {
                let condition = self.fetch_status(ProcessorStatus::CarryFlag);
                self.branch(memory, condition);
                true
            },
            op::BCC => {
                let condition = self.fetch_status(ProcessorStatus::CarryFlag);
                self.branch(memory, !condition);
                true
            },
            op::BMI => {
                let condition = self.fetch_status(ProcessorStatus::NegativeFlag);
                self.branch(memory, condition);
                true
            },
            op::BPL => {
                let condition = self.fetch_status(ProcessorStatus::NegativeFlag);
                self.branch(memory, !condition);
                true
            },
            op::BVS => {
                let condition = self.fetch_status(ProcessorStatus::OverflowFlag);
                self.branch(memory, condition);
                true
            },
            op::BVC => {
                let condition = self.fetch_status(ProcessorStatus::OverflowFlag);
                self.branch(memory, !condition);
                true
            },
            op::NOP => {
                self.decrement_cycles(1);
                true
            },
            op::CLC => {
                self.set_status(ProcessorStatus::CarryFlag, false);
                self.decrement_cycles(1);
                true
            },
            op::CLD => {
                self.set_status(ProcessorStatus::DecimalMode, false);
                self.decrement_cycles(1);
                true
            },
            op::CLI => {
                self.set_status(ProcessorStatus::InterruptDisable, false);
                self.decrement_cycles(1);
                true
            },
            op::CLV => {
                self.set_status(ProcessorStatus::OverflowFlag, false);
                self.decrement_cycles(1);
                true
            },
            op::SEC => {
                self.set_status(ProcessorStatus::CarryFlag, true);
                self.decrement_cycles(1);
                true
            },
            op::SED => {
                self.set_status(ProcessorStatus::DecimalMode, true);
                self.decrement_cycles(1);
                true
            },
            op::SEI => {
                self.set_status(ProcessorStatus::InterruptDisable, true);
                self.decrement_cycles(1);
                true
            },
            op::ADC_IMMEDIATE => {
                if self.fetch_status(ProcessorStatus::DecimalMode) {
                    false
                } else {
                    self.adc_immediate(memory);
                    true
                }
            },
            op::ADC_ABSOLUTE => {
                if self.fetch_status(ProcessorStatus::DecimalMode) {
                    false
                } else {
                    self.adc_absolute(memory, None);
                    true
                }
            },
            op::ADC_ABSOLUTE_X => {
                if self.fetch_status(ProcessorStatus::DecimalMode) {
                    false
                } else {
                    self.adc_absolute(memory, Some(Registers::RegisterX));
                    true
                }
            },
            op::ADC_ABSOLUTE_Y => {
                if self.fetch_status(ProcessorStatus::DecimalMode) {
                    false
                } else {
                    self.adc_absolute(memory, Some(Registers::RegisterY));
                    true
                }
            },
            op::ADC_ZERO_PAGE => {
                if self.fetch_status(ProcessorStatus::DecimalMode) {
                    false
                } else {
                    self.adc_zero_page(memory, None);
                    true
                }
            },
            op::ADC_ZERO_PAGE_X => {
                if self.fetch_status(ProcessorStatus::DecimalMode) {
                    false
                } else {
                    self.adc_zero_page(memory, Some(Registers::RegisterX));
                    true
                }
            },
            op::ADC_INDIRECT_X => {
                if self.fetch_status(ProcessorStatus::DecimalMode) {
                    false
                } else {
                    self.adc_indirect_x(memory);
                    true
                }
            },
            op::ADC_INDIRECT_Y => {
                if self.fetch_status(ProcessorStatus::DecimalMode) {
                    false
                } else {
                    self.adc_indirect_y(memory);
                    true
                }
            },
            op::CMP_IMMEDIATE => {
                self.cmp_immediate(memory, Registers::Accumulator);
                true
            },
            op::CMP_ABSOLUTE => {
                self.cmp_absolute(memory, Registers::Accumulator, None);
                true
            },
            op::CMP_ABSOLUTE_X => {
                self.cmp_absolute(memory, Registers::Accumulator, Some(Registers::RegisterX));
                true
            },
            op::CMP_ABSOLUTE_Y => {
                self.cmp_absolute(memory, Registers::Accumulator, Some(Registers::RegisterY));
                true
            },
            op::CMP_ZERO_PAGE => {
                self.cmp_zero_page(memory, Registers::Accumulator, None);
                true
            },
            op::CMP_ZERO_PAGE_X => {
                self.cmp_zero_page(memory, Registers::Accumulator, Some(Registers::RegisterX));
                true
            },
            op::CMP_INDIRECT_X => {
                self.cmp_indirect_x(memory, Registers::Accumulator);
                true
            },
            op::CMP_INDIRECT_Y => {
                self.cmp_indirect_y(memory, Registers::Accumulator);
                true
            },
            op::CPX_IMMEDIATE => {
                self.cmp_immediate(memory, Registers::RegisterX);
                true
            },
            op::CPX_ZERO_PAGE => {
                self.cmp_zero_page(memory, Registers::RegisterX, None);
                true
            },
            op::CPX_ABSOLUTE => {
                self.cmp_absolute(memory, Registers::RegisterX, None);
                true
            },
            op::CPY_IMMEDIATE => {
                self.cmp_immediate(memory, Registers::RegisterY);
                true
            },
            op::CPY_ZERO_PAGE => {
                self.cmp_zero_page(memory, Registers::RegisterY, None);
                true
            },
            op::CPY_ABSOLUTE => {
                self.cmp_absolute(memory, Registers::RegisterY, None);
                true
            },
            op::SBC_IMMEDIATE => {
                if self.fetch_status(ProcessorStatus::DecimalMode) {
                    false
                } else {
                    self.sbc_immediate(memory);
                    true
                }
            },
            op::SBC_ABSOLUTE => {
                if self.fetch_status(ProcessorStatus::DecimalMode) {
                    false
                } else {
                    self.sbc_absolute(memory, None);
                    true
                }
            },
            op::SBC_ABSOLUTE_X => {
                if self.fetch_status(ProcessorStatus::DecimalMode) {
                    false
                } else {
                    self.sbc_absolute(memory, Some(Registers::RegisterX));
                    true
                }
            },
            op::SBC_ABSOLUTE_Y => {
                if self.fetch_status(ProcessorStatus::DecimalMode) {
                    false
                } else {
                    self.sbc_absolute(memory, Some(Registers::RegisterY));
                    true
                }
            },
            op::SBC_ZERO_PAGE => {
                if self.fetch_status(ProcessorStatus::DecimalMode) {
                    false
                } else {
                    self.sbc_zero_page(memory, None);
                    true
                }
            },
            op::SBC_ZERO_PAGE_X => {
                if self.fetch_status(ProcessorStatus::DecimalMode) {
                    false
                } else {
                    self.sbc_zero_page(memory, Some(Registers::RegisterX));
                    true
                }
            },
            op::SBC_INDIRECT_X => {
                if self.fetch_status(ProcessorStatus::DecimalMode) {
                    false
                } else {
                    self.sbc_indirect_x(memory);
                    true
                }
            },
            op::SBC_INDIRECT_Y => {
                if self.fetch_status(ProcessorStatus::DecimalMode) {
                    false
                } else {
                    self.sbc_indirect_y(memory);
                    true
                }
            },
            op::ASL_ACCUMULATOR | op::ASL_ZERO_PAGE | op::ASL_ZERO_PAGE_X | op::ASL_ABSOLUTE
                | op::ASL_ABSOLUTE_X => {
                self.shift_left(memory, instruction);
                true
            },
            op::LSR_ACCUMULATOR | op::LSR_ZERO_PAGE | op::LSR_ZERO_PAGE_X | op::LSR_ABSOLUTE
                | op::LSR_ABSOLUTE_X => {
                self.shift_right(memory, instruction);
                true
            },
            op::ROL_ACCUMULATOR | op::ROL_ZERO_PAGE | op::ROL_ZERO_PAGE_X | op::ROL_ABSOLUTE
                | op::ROL_ABSOLUTE_X => {
                self.rotate_left(memory, instruction);
                true
            },
            op::ROR_ACCUMULATOR | op::ROR_ZERO_PAGE | op::ROR_ZERO_PAGE_X | op::ROR_ABSOLUTE
                | op::ROR_ABSOLUTE_X => {
                self.rotate_right(memory, instruction);
                true
            },
            op::BRK => {
                self.force_interrupt(memory);
                true
            },
            op::RTI => {
                self.return_from_interrupt(memory);
                true
            },
            _ => false,
        }
    }
}

} // verus!
