//! Stores of the three registers to memory.
use crate::cpu::decode::{mode_length, store_cycles, Mode, Operation, BASE_CYCLES};
use crate::cpu::semantics::{handles, lemma_execute_store, outcome};
use crate::cpu::CPU;
use crate::system::System;
use vstd::prelude::*;

verus! {

/// STA: stores the accumulator.
pub fn sta(
    cpu: &mut CPU,
    instruction: u8,
    operand: u8,
    operand2: u8,
    system: &mut System,
) -> (cycles: u64)
    requires
        old(system).wf(),
    ensures
        final(system).wf(),
        handles(
            Operation::Sta,
            *old(cpu),
            old(system)@,
            instruction,
            operand,
            operand2,
            outcome(*final(cpu), final(system)@, cycles),
        ),
{
    let mode = match instruction {
        0x85 => Mode::ZeroPage,
        0x95 => Mode::ZeroPageX,
        0x8D => Mode::Absolute,
        0x9D => Mode::AbsoluteX,
        0x99 => Mode::AbsoluteY,
        0x81 => Mode::IndirectX,
        0x91 => Mode::IndirectY,
        _ => {
            return BASE_CYCLES;
        },
    };
    proof {
        lemma_execute_store(*old(cpu), old(system)@, instruction, operand, operand2);
    }
    let place = cpu.operand_address(system, mode, operand, operand2);
    cpu.set_mapped_byte(system, place.address as usize, cpu.a);
    cpu.finish(mode_length(mode), store_cycles(mode), place.crossed)
}

/// STX: stores X.
pub fn stx(
    cpu: &mut CPU,
    instruction: u8,
    operand: u8,
    operand2: u8,
    system: &mut System,
) -> (cycles: u64)
    requires
        old(system).wf(),
    ensures
        final(system).wf(),
        handles(
            Operation::Stx,
            *old(cpu),
            old(system)@,
            instruction,
            operand,
            operand2,
            outcome(*final(cpu), final(system)@, cycles),
        ),
{
    let mode = match instruction {
        0x86 => Mode::ZeroPage,
        0x96 => Mode::ZeroPageY,
        0x8E => Mode::Absolute,
        _ => {
            return BASE_CYCLES;
        },
    };
    proof {
        lemma_execute_store(*old(cpu), old(system)@, instruction, operand, operand2);
    }
    let place = cpu.operand_address(system, mode, operand, operand2);
    cpu.set_mapped_byte(system, place.address as usize, cpu.x);
    cpu.finish(mode_length(mode), store_cycles(mode), place.crossed)
}

/// STY: stores Y.
pub fn sty(
    cpu: &mut CPU,
    instruction: u8,
    operand: u8,
    operand2: u8,
    system: &mut System,
) -> (cycles: u64)
    requires
        old(system).wf(),
    ensures
        final(system).wf(),
        handles(
            Operation::Sty,
            *old(cpu),
            old(system)@,
            instruction,
            operand,
            operand2,
            outcome(*final(cpu), final(system)@, cycles),
        ),
{
    let mode = match instruction {
        0x84 => Mode::ZeroPage,
        0x94 => Mode::ZeroPageX,
        0x8C => Mode::Absolute,
        _ => {
            return BASE_CYCLES;
        },
    };
    proof {
        lemma_execute_store(*old(cpu), old(system)@, instruction, operand, operand2);
    }
    let place = cpu.operand_address(system, mode, operand, operand2);
    cpu.set_mapped_byte(system, place.address as usize, cpu.y);
    cpu.finish(mode_length(mode), store_cycles(mode), place.crossed)
}

} // verus!
