//! Loads of the three registers from memory.
use crate::cpu::decode::{mode_length, read_cycles, Mode, Operation, BASE_CYCLES};
use crate::cpu::semantics::{handles, lemma_execute_read, outcome};
use crate::cpu::CPU;
use crate::system::System;
use vstd::prelude::*;

verus! {

/// LDA: loads the accumulator.
pub fn lda(
    cpu: &mut CPU,
    instruction: u8,
    operand: u8,
    operand2: u8,
    system: &mut System,
) -> (cycles: u64)
    requires
        old(system).wf(),
    ensures
        *final(system) == *old(system),
        handles(
            Operation::Lda,
            *old(cpu),
            old(system)@,
            instruction,
            operand,
            operand2,
            outcome(*final(cpu), final(system)@, cycles),
        ),
{
    let mode = match instruction {
        0xA9 => Mode::Immediate,
        0xA5 => Mode::ZeroPage,
        0xB5 => Mode::ZeroPageX,
        0xAD => Mode::Absolute,
        0xBD => Mode::AbsoluteX,
        0xB9 => Mode::AbsoluteY,
        0xA1 => Mode::IndirectX,
        0xB1 => Mode::IndirectY,
        _ => {
            return BASE_CYCLES;
        },
    };
    proof {
        lemma_execute_read(*old(cpu), old(system)@, instruction, operand, operand2);
    }
    let (value, crossed) = cpu.read_operand(system, mode, operand, operand2);
    cpu.load_a(value);
    cpu.finish(mode_length(mode), read_cycles(mode), crossed)
}

/// LDX: loads X.
pub fn ldx(
    cpu: &mut CPU,
    instruction: u8,
    operand: u8,
    operand2: u8,
    system: &mut System,
) -> (cycles: u64)
    requires
        old(system).wf(),
    ensures
        *final(system) == *old(system),
        handles(
            Operation::Ldx,
            *old(cpu),
            old(system)@,
            instruction,
            operand,
            operand2,
            outcome(*final(cpu), final(system)@, cycles),
        ),
{
    let mode = match instruction {
        0xA2 => Mode::Immediate,
        0xA6 => Mode::ZeroPage,
        0xB6 => Mode::ZeroPageY,
        0xAE => Mode::Absolute,
        0xBE => Mode::AbsoluteY,
        _ => {
            return BASE_CYCLES;
        },
    };
    proof {
        lemma_execute_read(*old(cpu), old(system)@, instruction, operand, operand2);
    }
    let (value, crossed) = cpu.read_operand(system, mode, operand, operand2);
    cpu.load_x(value);
    cpu.finish(mode_length(mode), read_cycles(mode), crossed)
}

/// LDY: loads Y.
pub fn ldy(
    cpu: &mut CPU,
    instruction: u8,
    operand: u8,
    operand2: u8,
    system: &mut System,
) -> (cycles: u64)
    requires
        old(system).wf(),
    ensures
        *final(system) == *old(system),
        handles(
            Operation::Ldy,
            *old(cpu),
            old(system)@,
            instruction,
            operand,
            operand2,
            outcome(*final(cpu), final(system)@, cycles),
        ),
{
    let mode = match instruction {
        0xA0 => Mode::Immediate,
        0xA4 => Mode::ZeroPage,
        0xB4 => Mode::ZeroPageX,
        0xAC => Mode::Absolute,
        0xBC => Mode::AbsoluteX,
        _ => {
            return BASE_CYCLES;
        },
    };
    proof {
        lemma_execute_read(*old(cpu), old(system)@, instruction, operand, operand2);
    }
    let (value, crossed) = cpu.read_operand(system, mode, operand, operand2);
    cpu.load_y(value);
    cpu.finish(mode_length(mode), read_cycles(mode), crossed)
}

} // verus!
