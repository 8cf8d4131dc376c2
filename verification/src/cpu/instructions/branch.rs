//! The eight conditional branches.
use crate::cpu::decode::{Operation, BASE_CYCLES};
use crate::cpu::semantics::{handles, lemma_execute_branch, outcome};
use crate::cpu::CPU;
use crate::system::System;
use vstd::prelude::*;

verus! {

/// BCC: branches if the carry is clear.
pub fn bcc(cpu: &mut CPU, instruction: u8, operand: u8, system: &mut System) -> (cycles: u64)
    ensures
        *final(system) == *old(system),
        handles(
            Operation::Bcc,
            *old(cpu),
            old(system)@,
            instruction,
            operand,
            0,
            outcome(*final(cpu), final(system)@, cycles),
        ),
{
    match instruction {
        0x90 => {
            proof {
                lemma_execute_branch(*old(cpu), old(system)@, instruction, operand, 0);
            }
            let taken = !cpu.status.carry;
            cpu.branch(operand, taken)
        },
        _ => BASE_CYCLES,
    }
}

/// BCS: branches if the carry is set.
pub fn bcs(cpu: &mut CPU, instruction: u8, operand: u8, system: &mut System) -> (cycles: u64)
    ensures
        *final(system) == *old(system),
        handles(
            Operation::Bcs,
            *old(cpu),
            old(system)@,
            instruction,
            operand,
            0,
            outcome(*final(cpu), final(system)@, cycles),
        ),
{
    match instruction {
        0xB0 => {
            proof {
                lemma_execute_branch(*old(cpu), old(system)@, instruction, operand, 0);
            }
            let taken = cpu.status.carry;
            cpu.branch(operand, taken)
        },
        _ => BASE_CYCLES,
    }
}

/// BEQ: branches if zero is set.
pub fn beq(cpu: &mut CPU, instruction: u8, operand: u8, system: &mut System) -> (cycles: u64)
    ensures
        *final(system) == *old(system),
        handles(
            Operation::Beq,
            *old(cpu),
            old(system)@,
            instruction,
            operand,
            0,
            outcome(*final(cpu), final(system)@, cycles),
        ),
{
    match instruction {
        0xF0 => {
            proof {
                lemma_execute_branch(*old(cpu), old(system)@, instruction, operand, 0);
            }
            let taken = cpu.status.zero;
            cpu.branch(operand, taken)
        },
        _ => BASE_CYCLES,
    }
}

/// BNE: branches if zero is clear.
pub fn bne(cpu: &mut CPU, instruction: u8, operand: u8, system: &mut System) -> (cycles: u64)
    ensures
        *final(system) == *old(system),
        handles(
            Operation::Bne,
            *old(cpu),
            old(system)@,
            instruction,
            operand,
            0,
            outcome(*final(cpu), final(system)@, cycles),
        ),
{
    match instruction {
        0xD0 => {
            proof {
                lemma_execute_branch(*old(cpu), old(system)@, instruction, operand, 0);
            }
            let taken = !cpu.status.zero;
            cpu.branch(operand, taken)
        },
        _ => BASE_CYCLES,
    }
}

/// BMI: branches if negative is set.
pub fn bmi(cpu: &mut CPU, instruction: u8, operand: u8, system: &mut System) -> (cycles: u64)
    ensures
        *final(system) == *old(system),
        handles(
            Operation::Bmi,
            *old(cpu),
            old(system)@,
            instruction,
            operand,
            0,
            outcome(*final(cpu), final(system)@, cycles),
        ),
{
    match instruction {
        0x30 => {
            proof {
                lemma_execute_branch(*old(cpu), old(system)@, instruction, operand, 0);
            }
            let taken = cpu.status.negative;
            cpu.branch(operand, taken)
        },
        _ => BASE_CYCLES,
    }
}

/// BPL: branches if negative is clear.
pub fn bpl(cpu: &mut CPU, instruction: u8, operand: u8, system: &mut System) -> (cycles: u64)
    ensures
        *final(system) == *old(system),
        handles(
            Operation::Bpl,
            *old(cpu),
            old(system)@,
            instruction,
            operand,
            0,
            outcome(*final(cpu), final(system)@, cycles),
        ),
{
    match instruction {
        0x10 => {
            proof {
                lemma_execute_branch(*old(cpu), old(system)@, instruction, operand, 0);
            }
            let taken = !cpu.status.negative;
            cpu.branch(operand, taken)
        },
        _ => BASE_CYCLES,
    }
}

/// BVC: branches if overflow is clear.
pub fn bvc(cpu: &mut CPU, instruction: u8, operand: u8, system: &mut System) -> (cycles: u64)
    ensures
        *final(system) == *old(system),
        handles(
            Operation::Bvc,
            *old(cpu),
            old(system)@,
            instruction,
            operand,
            0,
            outcome(*final(cpu), final(system)@, cycles),
        ),
{
    match instruction {
        0x50 => {
            proof {
                lemma_execute_branch(*old(cpu), old(system)@, instruction, operand, 0);
            }
            let taken = !cpu.status.overflow;
            cpu.branch(operand, taken)
        },
        _ => BASE_CYCLES,
    }
}

/// BVS: branches if overflow is set.
pub fn bvs(cpu: &mut CPU, instruction: u8, operand: u8, system: &mut System) -> (cycles: u64)
    ensures
        *final(system) == *old(system),
        handles(
            Operation::Bvs,
            *old(cpu),
            old(system)@,
            instruction,
            operand,
            0,
            outcome(*final(cpu), final(system)@, cycles),
        ),
{
    match instruction {
        0x70 => {
            proof {
                lemma_execute_branch(*old(cpu), old(system)@, instruction, operand, 0);
            }
            let taken = cpu.status.overflow;
            cpu.branch(operand, taken)
        },
        _ => BASE_CYCLES,
    }
}

} // verus!
