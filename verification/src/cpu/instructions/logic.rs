//! The bitwise operations on the accumulator and the bit test.
use crate::cpu::decode::{mode_length, read_cycles, Mode, Operation, BASE_CYCLES};
use crate::cpu::semantics::{handles, lemma_execute_read, outcome};
use crate::cpu::CPU;
use crate::system::System;
use vstd::prelude::*;

verus! {

/// AND: keeps the bits that the accumulator and the operand share.
pub fn and(
    cpu: &mut CPU,
    instruction: u8,
    operand: u8,
    operand2: u8,
    system: &mut System,
) -> (cycles: u64)
    requires
        old(system).wf(),
    ensures
        *final(system) == *old(system),
        handles(
            Operation::And,
            *old(cpu),
            old(system)@,
            instruction,
            operand,
            operand2,
            outcome(*final(cpu), final(system)@, cycles),
        ),
{
    let mode = match instruction {
        0x29 => Mode::Immediate,
        0x25 => Mode::ZeroPage,
        0x35 => Mode::ZeroPageX,
        0x2D => Mode::Absolute,
        0x3D => Mode::AbsoluteX,
        0x39 => Mode::AbsoluteY,
        0x21 => Mode::IndirectX,
        0x31 => Mode::IndirectY,
        _ => {
            return BASE_CYCLES;
        },
    };
    proof {
        lemma_execute_read(*old(cpu), old(system)@, instruction, operand, operand2);
    }
    let (value, crossed) = cpu.read_operand(system, mode, operand, operand2);
    cpu.load_a(cpu.a & value);
    cpu.finish(mode_length(mode), read_cycles(mode), crossed)
}

/// ORA: sets in the accumulator the bits of the operand.
pub fn ora(
    cpu: &mut CPU,
    instruction: u8,
    operand: u8,
    operand2: u8,
    system: &mut System,
) -> (cycles: u64)
    requires
        old(system).wf(),
    ensures
        *final(system) == *old(system),
        handles(
            Operation::Ora,
            *old(cpu),
            old(system)@,
            instruction,
            operand,
            operand2,
            outcome(*final(cpu), final(system)@, cycles),
        ),
{
    let mode = match instruction {
        0x09 => Mode::Immediate,
        0x05 => Mode::ZeroPage,
        0x15 => Mode::ZeroPageX,
        0x0D => Mode::Absolute,
        0x1D => Mode::AbsoluteX,
        0x19 => Mode::AbsoluteY,
        0x01 => Mode::IndirectX,
        0x11 => Mode::IndirectY,
        _ => {
            return BASE_CYCLES;
        },
    };
    proof {
        lemma_execute_read(*old(cpu), old(system)@, instruction, operand, operand2);
    }
    let (value, crossed) = cpu.read_operand(system, mode, operand, operand2);
    cpu.load_a(cpu.a | value);
    cpu.finish(mode_length(mode), read_cycles(mode), crossed)
}

/// EOR: flips in the accumulator the bits of the operand.
pub fn eor(
    cpu: &mut CPU,
    instruction: u8,
    operand: u8,
    operand2: u8,
    system: &mut System,
) -> (cycles: u64)
    requires
        old(system).wf(),
    ensures
        *final(system) == *old(system),
        handles(
            Operation::Eor,
            *old(cpu),
            old(system)@,
            instruction,
            operand,
            operand2,
            outcome(*final(cpu), final(system)@, cycles),
        ),
{
    let mode = match instruction {
        0x49 => Mode::Immediate,
        0x45 => Mode::ZeroPage,
        0x55 => Mode::ZeroPageX,
        0x4D => Mode::Absolute,
        0x5D => Mode::AbsoluteX,
        0x59 => Mode::AbsoluteY,
        0x41 => Mode::IndirectX,
        0x51 => Mode::IndirectY,
        _ => {
            return BASE_CYCLES;
        },
    };
    proof {
        lemma_execute_read(*old(cpu), old(system)@, instruction, operand, operand2);
    }
    let (value, crossed) = cpu.read_operand(system, mode, operand, operand2);
    cpu.load_a(cpu.a ^ value);
    cpu.finish(mode_length(mode), read_cycles(mode), crossed)
}

/// BIT: tests the bits of the operand against the accumulator.
pub fn bit(
    cpu: &mut CPU,
    instruction: u8,
    operand: u8,
    operand2: u8,
    system: &mut System,
) -> (cycles: u64)
    requires
        old(system).wf(),
    ensures
        *final(system) == *old(system),
        handles(
            Operation::Bit,
            *old(cpu),
            old(system)@,
            instruction,
            operand,
            operand2,
            outcome(*final(cpu), final(system)@, cycles),
        ),
{
    let mode = match instruction {
        0x24 => Mode::ZeroPage,
        0x2C => Mode::Absolute,
        _ => {
            return BASE_CYCLES;
        },
    };
    proof {
        lemma_execute_read(*old(cpu), old(system)@, instruction, operand, operand2);
    }
    let (value, crossed) = cpu.read_operand(system, mode, operand, operand2);
    cpu.test_bits(value);
    cpu.finish(mode_length(mode), read_cycles(mode), crossed)
}

} // verus!
