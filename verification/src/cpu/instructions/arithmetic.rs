//! Addition, subtraction and the three comparisons.
use crate::cpu::decode::{mode_length, read_cycles, Mode, Operation, BASE_CYCLES};
use crate::cpu::semantics::{handles, lemma_execute_read, outcome};
use crate::cpu::CPU;
use crate::system::System;
use vstd::prelude::*;

verus! {

/// ADC: adds the operand and the carry to the accumulator.
pub fn adc(
    cpu: &mut CPU,
    instruction: u8,
    operand: u8,
    operand2: u8,
    system: &mut System,
) -> (cycles: u64)
    requires
        old(system).wf(),
    ensures
        *final(system) == *old(system),
        handles(
            Operation::Adc,
            *old(cpu),
            old(system)@,
            instruction,
            operand,
            operand2,
            outcome(*final(cpu), final(system)@, cycles),
        ),
{
    let mode = match instruction {
        0x69 => Mode::Immediate,
        0x65 => Mode::ZeroPage,
        0x75 => Mode::ZeroPageX,
        0x6D => Mode::Absolute,
        0x7D => Mode::AbsoluteX,
        0x79 => Mode::AbsoluteY,
        0x61 => Mode::IndirectX,
        0x71 => Mode::IndirectY,
        _ => {
            return BASE_CYCLES;
        },
    };
    proof {
        lemma_execute_read(*old(cpu), old(system)@, instruction, operand, operand2);
    }
    let (value, crossed) = cpu.read_operand(system, mode, operand, operand2);
    cpu.add_with_carry(value);
    cpu.finish(mode_length(mode), read_cycles(mode), crossed)
}

/// SBC: subtracts the operand and the borrow from the accumulator.
pub fn sbc(
    cpu: &mut CPU,
    instruction: u8,
    operand: u8,
    operand2: u8,
    system: &mut System,
) -> (cycles: u64)
    requires
        old(system).wf(),
    ensures
        *final(system) == *old(system),
        handles(
            Operation::Sbc,
            *old(cpu),
            old(system)@,
            instruction,
            operand,
            operand2,
            outcome(*final(cpu), final(system)@, cycles),
        ),
{
    let mode = match instruction {
        0xE9 => Mode::Immediate,
        0xE5 => Mode::ZeroPage,
        0xF5 => Mode::ZeroPageX,
        0xED => Mode::Absolute,
        0xFD => Mode::AbsoluteX,
        0xF9 => Mode::AbsoluteY,
        0xE1 => Mode::IndirectX,
        0xF1 => Mode::IndirectY,
        _ => {
            return BASE_CYCLES;
        },
    };
    proof {
        lemma_execute_read(*old(cpu), old(system)@, instruction, operand, operand2);
    }
    let (value, crossed) = cpu.read_operand(system, mode, operand, operand2);
    cpu.subtract_with_borrow(value);
    cpu.finish(mode_length(mode), read_cycles(mode), crossed)
}

/// CMP: compares the accumulator with the operand.
pub fn cmp(
    cpu: &mut CPU,
    instruction: u8,
    operand: u8,
    operand2: u8,
    system: &mut System,
) -> (cycles: u64)
    requires
        old(system).wf(),
    ensures
        *final(system) == *old(system),
        handles(
            Operation::Cmp,
            *old(cpu),
            old(system)@,
            instruction,
            operand,
            operand2,
            outcome(*final(cpu), final(system)@, cycles),
        ),
{
    let mode = match instruction {
        0xC9 => Mode::Immediate,
        0xC5 => Mode::ZeroPage,
        0xD5 => Mode::ZeroPageX,
        0xCD => Mode::Absolute,
        0xDD => Mode::AbsoluteX,
        0xD9 => Mode::AbsoluteY,
        0xC1 => Mode::IndirectX,
        0xD1 => Mode::IndirectY,
        _ => {
            return BASE_CYCLES;
        },
    };
    proof {
        lemma_execute_read(*old(cpu), old(system)@, instruction, operand, operand2);
    }
    let (value, crossed) = cpu.read_operand(system, mode, operand, operand2);
    cpu.compare(cpu.a, value);
    cpu.finish(mode_length(mode), read_cycles(mode), crossed)
}

/// CPX: compares X with the operand.
pub fn cpx(
    cpu: &mut CPU,
    instruction: u8,
    operand: u8,
    operand2: u8,
    system: &mut System,
) -> (cycles: u64)
    requires
        old(system).wf(),
    ensures
        *final(system) == *old(system),
        handles(
            Operation::Cpx,
            *old(cpu),
            old(system)@,
            instruction,
            operand,
            operand2,
            outcome(*final(cpu), final(system)@, cycles),
        ),
{
    let mode = match instruction {
        0xE0 => Mode::Immediate,
        0xE4 => Mode::ZeroPage,
        0xEC => Mode::Absolute,
        _ => {
            return BASE_CYCLES;
        },
    };
    proof {
        lemma_execute_read(*old(cpu), old(system)@, instruction, operand, operand2);
    }
    let (value, crossed) = cpu.read_operand(system, mode, operand, operand2);
    cpu.compare(cpu.x, value);
    cpu.finish(mode_length(mode), read_cycles(mode), crossed)
}

/// CPY: compares Y with the operand.
pub fn cpy(
    cpu: &mut CPU,
    instruction: u8,
    operand: u8,
    operand2: u8,
    system: &mut System,
) -> (cycles: u64)
    requires
        old(system).wf(),
    ensures
        *final(system) == *old(system),
        handles(
            Operation::Cpy,
            *old(cpu),
            old(system)@,
            instruction,
            operand,
            operand2,
            outcome(*final(cpu), final(system)@, cycles),
        ),
{
    let mode = match instruction {
        0xC0 => Mode::Immediate,
        0xC4 => Mode::ZeroPage,
        0xCC => Mode::Absolute,
        _ => {
            return BASE_CYCLES;
        },
    };
    proof {
        lemma_execute_read(*old(cpu), old(system)@, instruction, operand, operand2);
    }
    let (value, crossed) = cpu.read_operand(system, mode, operand, operand2);
    cpu.compare(cpu.y, value);
    cpu.finish(mode_length(mode), read_cycles(mode), crossed)
}

} // verus!
