//! Shifts, rotates, and the increment and decrement of memory: operations
//! that change a byte in place. They share one course: read the operand,
//! change it, write it back where it came from, set the flags.
use crate::cpu::alu::{shift_left, shift_right};
use crate::cpu::decode::{mode_length, modifies, modify_cycles, Mode, Operation, BASE_CYCLES};
use crate::cpu::semantics::{
    execute_modify, handles, lemma_execute_modify, modify_carry, modify_result, outcome,
    written_cpu, written_sys,
};
use crate::cpu::CPU;
use crate::system::System;
use vstd::prelude::*;

verus! {

/// What an in-place operation makes of a byte, and the carry after it.
pub fn modify_value(operation: Operation, value: u8, carry: bool) -> (result: (u8, bool))
    ensures
        result.0 == modify_result(operation, value, carry),
        result.1 == modify_carry(operation, value, carry),
{
    match operation {
        Operation::Asl => shift_left(value, false),
        Operation::Rol => shift_left(value, carry),
        Operation::Lsr => shift_right(value, false),
        Operation::Ror => shift_right(value, carry),
        Operation::Inc => (value.wrapping_add(1), carry),
        Operation::Dec => (value.wrapping_sub(1), carry),
        _ => (value, carry),
    }
}

impl CPU {
    /// Puts the result of an in-place operation where its operand came
    /// from, the accumulator or the byte at `address`, and sets zero and
    /// negative from it.
    pub fn write_back(&mut self, system: &mut System, mode: Mode, address: u16, result: u8)
        requires
            old(system).wf(),
        ensures
            final(system).wf(),
            *final(self) == written_cpu(*old(self), mode, result),
            final(system)@ == written_sys(old(system)@, mode, address, result),
    {
        match mode {
            Mode::Accumulator => {
                self.a = result;
            },
            _ => {
                self.set_mapped_byte(system, address as usize, result);
            },
        }
        self.set_zn(result);
    }
}

/// Runs an in-place operation in the given mode: reads the operand,
/// changes it, writes it back where it came from, sets the flags and moves
/// the program counter on. Returns the cycles consumed.
pub fn run_modify(
    cpu: &mut CPU,
    system: &mut System,
    operation: Operation,
    mode: Mode,
    operand: u8,
    operand2: u8,
) -> (cycles: u64)
    requires
        old(system).wf(),
    ensures
        final(system).wf(),
        outcome(*final(cpu), final(system)@, cycles) == execute_modify(
            *old(cpu),
            old(system)@,
            modifies(operation, mode),
            operand,
            operand2,
        ),
{
    let place = cpu.operand_address(system, mode, operand, operand2);
    let (value, _) = cpu.read_operand(system, mode, operand, operand2);
    let (result, carry) = modify_value(operation, value, cpu.status.carry);
    cpu.set_carry(carry);
    cpu.write_back(system, mode, place.address, result);
    cpu.finish(mode_length(mode), modify_cycles(mode), place.crossed)
}

/// ASL: shifts the operand left; bit 7 goes to the carry.
pub fn asl(
    cpu: &mut CPU,
    instruction: u8,
    operand: u8,
    operand2: u8,
    system: &mut System,
) -> (cycles: u64)
    requires
        old(system).wf(),
    ensures
        final(system).wf(),
        handles(
            Operation::Asl,
            *old(cpu),
            old(system)@,
            instruction,
            operand,
            operand2,
            outcome(*final(cpu), final(system)@, cycles),
        ),
{
    let mode = match instruction {
        0x0A => Mode::Accumulator,
        0x06 => Mode::ZeroPage,
        0x16 => Mode::ZeroPageX,
        0x0E => Mode::Absolute,
        0x1E => Mode::AbsoluteX,
        _ => {
            return BASE_CYCLES;
        },
    };
    proof {
        lemma_execute_modify(*old(cpu), old(system)@, instruction, operand, operand2);
    }
    run_modify(cpu, system, Operation::Asl, mode, operand, operand2)
}

/// LSR: shifts the operand right; bit 0 goes to the carry.
pub fn lsr(
    cpu: &mut CPU,
    instruction: u8,
    operand: u8,
    operand2: u8,
    system: &mut System,
) -> (cycles: u64)
    requires
        old(system).wf(),
    ensures
        final(system).wf(),
        handles(
            Operation::Lsr,
            *old(cpu),
            old(system)@,
            instruction,
            operand,
            operand2,
            outcome(*final(cpu), final(system)@, cycles),
        ),
{
    let mode = match instruction {
        0x4A => Mode::Accumulator,
        0x46 => Mode::ZeroPage,
        0x56 => Mode::ZeroPageX,
        0x4E => Mode::Absolute,
        0x5E => Mode::AbsoluteX,
        _ => {
            return BASE_CYCLES;
        },
    };
    proof {
        lemma_execute_modify(*old(cpu), old(system)@, instruction, operand, operand2);
    }
    run_modify(cpu, system, Operation::Lsr, mode, operand, operand2)
}

/// ROL: rotates the operand left through the carry.
pub fn rol(
    cpu: &mut CPU,
    instruction: u8,
    operand: u8,
    operand2: u8,
    system: &mut System,
) -> (cycles: u64)
    requires
        old(system).wf(),
    ensures
        final(system).wf(),
        handles(
            Operation::Rol,
            *old(cpu),
            old(system)@,
            instruction,
            operand,
            operand2,
            outcome(*final(cpu), final(system)@, cycles),
        ),
{
    let mode = match instruction {
        0x2A => Mode::Accumulator,
        0x26 => Mode::ZeroPage,
        0x36 => Mode::ZeroPageX,
        0x2E => Mode::Absolute,
        0x3E => Mode::AbsoluteX,
        _ => {
            return BASE_CYCLES;
        },
    };
    proof {
        lemma_execute_modify(*old(cpu), old(system)@, instruction, operand, operand2);
    }
    run_modify(cpu, system, Operation::Rol, mode, operand, operand2)
}

/// ROR: rotates the operand right through the carry.
pub fn ror(
    cpu: &mut CPU,
    instruction: u8,
    operand: u8,
    operand2: u8,
    system: &mut System,
) -> (cycles: u64)
    requires
        old(system).wf(),
    ensures
        final(system).wf(),
        handles(
            Operation::Ror,
            *old(cpu),
            old(system)@,
            instruction,
            operand,
            operand2,
            outcome(*final(cpu), final(system)@, cycles),
        ),
{
    let mode = match instruction {
        0x6A => Mode::Accumulator,
        0x66 => Mode::ZeroPage,
        0x76 => Mode::ZeroPageX,
        0x6E => Mode::Absolute,
        0x7E => Mode::AbsoluteX,
        _ => {
            return BASE_CYCLES;
        },
    };
    proof {
        lemma_execute_modify(*old(cpu), old(system)@, instruction, operand, operand2);
    }
    run_modify(cpu, system, Operation::Ror, mode, operand, operand2)
}

/// INC: adds one to a byte of memory.
pub fn inc(
    cpu: &mut CPU,
    instruction: u8,
    operand: u8,
    operand2: u8,
    system: &mut System,
) -> (cycles: u64)
    requires
        old(system).wf(),
    ensures
        final(system).wf(),
        handles(
            Operation::Inc,
            *old(cpu),
            old(system)@,
            instruction,
            operand,
            operand2,
            outcome(*final(cpu), final(system)@, cycles),
        ),
{
    let mode = match instruction {
        0xE6 => Mode::ZeroPage,
        0xF6 => Mode::ZeroPageX,
        0xEE => Mode::Absolute,
        0xFE => Mode::AbsoluteX,
        _ => {
            return BASE_CYCLES;
        },
    };
    proof {
        lemma_execute_modify(*old(cpu), old(system)@, instruction, operand, operand2);
    }
    run_modify(cpu, system, Operation::Inc, mode, operand, operand2)
}

/// DEC: subtracts one from a byte of memory.
pub fn dec(
    cpu: &mut CPU,
    instruction: u8,
    operand: u8,
    operand2: u8,
    system: &mut System,
) -> (cycles: u64)
    requires
        old(system).wf(),
    ensures
        final(system).wf(),
        handles(
            Operation::Dec,
            *old(cpu),
            old(system)@,
            instruction,
            operand,
            operand2,
            outcome(*final(cpu), final(system)@, cycles),
        ),
{
    let mode = match instruction {
        0xC6 => Mode::ZeroPage,
        0xD6 => Mode::ZeroPageX,
        0xCE => Mode::Absolute,
        0xDE => Mode::AbsoluteX,
        _ => {
            return BASE_CYCLES;
        },
    };
    proof {
        lemma_execute_modify(*old(cpu), old(system)@, instruction, operand, operand2);
    }
    run_modify(cpu, system, Operation::Dec, mode, operand, operand2)
}

} // verus!
