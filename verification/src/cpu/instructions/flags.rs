//! Instructions that set or clear one status flag.
use crate::cpu::decode::{Operation, BASE_CYCLES};
use crate::cpu::semantics::{handles, lemma_execute_implied, outcome};
use crate::cpu::CPU;
use crate::system::System;
use vstd::prelude::*;

verus! {

/// CLC: clears the carry.
pub fn clc(cpu: &mut CPU, instruction: u8, system: &mut System) -> (cycles: u64)
    ensures
        *final(system) == *old(system),
        handles(
            Operation::Clc,
            *old(cpu),
            old(system)@,
            instruction,
            0,
            0,
            outcome(*final(cpu), final(system)@, cycles),
        ),
{
    match instruction {
        0x18 => {
            proof {
                lemma_execute_implied(*old(cpu), old(system)@, instruction, 0, 0);
            }
            cpu.status.carry = false;
            cpu.advance(1);
            2
        },
        _ => BASE_CYCLES,
    }
}

/// CLD: clears decimal mode.
pub fn cld(cpu: &mut CPU, instruction: u8, system: &mut System) -> (cycles: u64)
    ensures
        *final(system) == *old(system),
        handles(
            Operation::Cld,
            *old(cpu),
            old(system)@,
            instruction,
            0,
            0,
            outcome(*final(cpu), final(system)@, cycles),
        ),
{
    match instruction {
        0xD8 => {
            proof {
                lemma_execute_implied(*old(cpu), old(system)@, instruction, 0, 0);
            }
            cpu.status.decimal_mode = false;
            cpu.advance(1);
            2
        },
        _ => BASE_CYCLES,
    }
}

/// CLI: clears interrupt-disable.
pub fn cli(cpu: &mut CPU, instruction: u8, system: &mut System) -> (cycles: u64)
    ensures
        *final(system) == *old(system),
        handles(
            Operation::Cli,
            *old(cpu),
            old(system)@,
            instruction,
            0,
            0,
            outcome(*final(cpu), final(system)@, cycles),
        ),
{
    match instruction {
        0x58 => {
            proof {
                lemma_execute_implied(*old(cpu), old(system)@, instruction, 0, 0);
            }
            cpu.status.interrupt_disable = false;
            cpu.advance(1);
            2
        },
        _ => BASE_CYCLES,
    }
}

/// CLV: clears overflow.
pub fn clv(cpu: &mut CPU, instruction: u8, system: &mut System) -> (cycles: u64)
    ensures
        *final(system) == *old(system),
        handles(
            Operation::Clv,
            *old(cpu),
            old(system)@,
            instruction,
            0,
            0,
            outcome(*final(cpu), final(system)@, cycles),
        ),
{
    match instruction {
        0xB8 => {
            proof {
                lemma_execute_implied(*old(cpu), old(system)@, instruction, 0, 0);
            }
            cpu.status.overflow = false;
            cpu.advance(1);
            2
        },
        _ => BASE_CYCLES,
    }
}

/// SEC: sets the carry.
pub fn sec(cpu: &mut CPU, instruction: u8, system: &mut System) -> (cycles: u64)
    ensures
        *final(system) == *old(system),
        handles(
            Operation::Sec,
            *old(cpu),
            old(system)@,
            instruction,
            0,
            0,
            outcome(*final(cpu), final(system)@, cycles),
        ),
{
    match instruction {
        0x38 => {
            proof {
                lemma_execute_implied(*old(cpu), old(system)@, instruction, 0, 0);
            }
            cpu.status.carry = true;
            cpu.advance(1);
            2
        },
        _ => BASE_CYCLES,
    }
}

/// SED: sets decimal mode.
pub fn sed(cpu: &mut CPU, instruction: u8, system: &mut System) -> (cycles: u64)
    ensures
        *final(system) == *old(system),
        handles(
            Operation::Sed,
            *old(cpu),
            old(system)@,
            instruction,
            0,
            0,
            outcome(*final(cpu), final(system)@, cycles),
        ),
{
    match instruction {
        0xF8 => {
            proof {
                lemma_execute_implied(*old(cpu), old(system)@, instruction, 0, 0);
            }
            cpu.status.decimal_mode = true;
            cpu.advance(1);
            2
        },
        _ => BASE_CYCLES,
    }
}

/// SEI: sets interrupt-disable.
pub fn sei(cpu: &mut CPU, instruction: u8, system: &mut System) -> (cycles: u64)
    ensures
        *final(system) == *old(system),
        handles(
            Operation::Sei,
            *old(cpu),
            old(system)@,
            instruction,
            0,
            0,
            outcome(*final(cpu), final(system)@, cycles),
        ),
{
    match instruction {
        0x78 => {
            proof {
                lemma_execute_implied(*old(cpu), old(system)@, instruction, 0, 0);
            }
            cpu.status.interrupt_disable = true;
            cpu.advance(1);
            2
        },
        _ => BASE_CYCLES,
    }
}

} // verus!
