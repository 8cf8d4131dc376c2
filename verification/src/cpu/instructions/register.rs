//! Transfers between registers, and the counters on X and Y.
use crate::cpu::decode::{Operation, BASE_CYCLES};
use crate::cpu::semantics::{handles, lemma_execute_implied, outcome};
use crate::cpu::CPU;
use crate::system::System;
use vstd::prelude::*;

verus! {

/// DEX: subtracts one from X.
pub fn dex(cpu: &mut CPU, instruction: u8, system: &mut System) -> (cycles: u64)
    ensures
        *final(system) == *old(system),
        handles(
            Operation::Dex,
            *old(cpu),
            old(system)@,
            instruction,
            0,
            0,
            outcome(*final(cpu), final(system)@, cycles),
        ),
{
    match instruction {
        0xCA => {
            proof {
                lemma_execute_implied(*old(cpu), old(system)@, instruction, 0, 0);
            }
            cpu.load_x(cpu.x.wrapping_sub(1));
            cpu.advance(1);
            2
        },
        _ => BASE_CYCLES,
    }
}

/// DEY: subtracts one from Y.
pub fn dey(cpu: &mut CPU, instruction: u8, system: &mut System) -> (cycles: u64)
    ensures
        *final(system) == *old(system),
        handles(
            Operation::Dey,
            *old(cpu),
            old(system)@,
            instruction,
            0,
            0,
            outcome(*final(cpu), final(system)@, cycles),
        ),
{
    match instruction {
        0x88 => {
            proof {
                lemma_execute_implied(*old(cpu), old(system)@, instruction, 0, 0);
            }
            cpu.load_y(cpu.y.wrapping_sub(1));
            cpu.advance(1);
            2
        },
        _ => BASE_CYCLES,
    }
}

/// INX: adds one to X.
pub fn inx(cpu: &mut CPU, instruction: u8, system: &mut System) -> (cycles: u64)
    ensures
        *final(system) == *old(system),
        handles(
            Operation::Inx,
            *old(cpu),
            old(system)@,
            instruction,
            0,
            0,
            outcome(*final(cpu), final(system)@, cycles),
        ),
{
    match instruction {
        0xE8 => {
            proof {
                lemma_execute_implied(*old(cpu), old(system)@, instruction, 0, 0);
            }
            cpu.load_x(cpu.x.wrapping_add(1));
            cpu.advance(1);
            2
        },
        _ => BASE_CYCLES,
    }
}

/// INY: adds one to Y.
pub fn iny(cpu: &mut CPU, instruction: u8, system: &mut System) -> (cycles: u64)
    ensures
        *final(system) == *old(system),
        handles(
            Operation::Iny,
            *old(cpu),
            old(system)@,
            instruction,
            0,
            0,
            outcome(*final(cpu), final(system)@, cycles),
        ),
{
    match instruction {
        0xC8 => {
            proof {
                lemma_execute_implied(*old(cpu), old(system)@, instruction, 0, 0);
            }
            cpu.load_y(cpu.y.wrapping_add(1));
            cpu.advance(1);
            2
        },
        _ => BASE_CYCLES,
    }
}

/// TAX: copies the accumulator to X.
pub fn tax(cpu: &mut CPU, instruction: u8, system: &mut System) -> (cycles: u64)
    ensures
        *final(system) == *old(system),
        handles(
            Operation::Tax,
            *old(cpu),
            old(system)@,
            instruction,
            0,
            0,
            outcome(*final(cpu), final(system)@, cycles),
        ),
{
    match instruction {
        0xAA => {
            proof {
                lemma_execute_implied(*old(cpu), old(system)@, instruction, 0, 0);
            }
            cpu.load_x(cpu.a);
            cpu.advance(1);
            2
        },
        _ => BASE_CYCLES,
    }
}

/// TAY: copies the accumulator to Y.
pub fn tay(cpu: &mut CPU, instruction: u8, system: &mut System) -> (cycles: u64)
    ensures
        *final(system) == *old(system),
        handles(
            Operation::Tay,
            *old(cpu),
            old(system)@,
            instruction,
            0,
            0,
            outcome(*final(cpu), final(system)@, cycles),
        ),
{
    match instruction {
        0xA8 => {
            proof {
                lemma_execute_implied(*old(cpu), old(system)@, instruction, 0, 0);
            }
            cpu.load_y(cpu.a);
            cpu.advance(1);
            2
        },
        _ => BASE_CYCLES,
    }
}

/// TSX: copies the stack pointer to X.
pub fn tsx(cpu: &mut CPU, instruction: u8, system: &mut System) -> (cycles: u64)
    ensures
        *final(system) == *old(system),
        handles(
            Operation::Tsx,
            *old(cpu),
            old(system)@,
            instruction,
            0,
            0,
            outcome(*final(cpu), final(system)@, cycles),
        ),
{
    match instruction {
        0xBA => {
            proof {
                lemma_execute_implied(*old(cpu), old(system)@, instruction, 0, 0);
            }
            cpu.load_x(cpu.sp);
            cpu.advance(1);
            2
        },
        _ => BASE_CYCLES,
    }
}

/// TXA: copies X to the accumulator.
pub fn txa(cpu: &mut CPU, instruction: u8, system: &mut System) -> (cycles: u64)
    ensures
        *final(system) == *old(system),
        handles(
            Operation::Txa,
            *old(cpu),
            old(system)@,
            instruction,
            0,
            0,
            outcome(*final(cpu), final(system)@, cycles),
        ),
{
    match instruction {
        0x8A => {
            proof {
                lemma_execute_implied(*old(cpu), old(system)@, instruction, 0, 0);
            }
            cpu.load_a(cpu.x);
            cpu.advance(1);
            2
        },
        _ => BASE_CYCLES,
    }
}

/// TXS: copies X to the stack pointer; no flag changes.
pub fn txs(cpu: &mut CPU, instruction: u8, system: &mut System) -> (cycles: u64)
    ensures
        *final(system) == *old(system),
        handles(
            Operation::Txs,
            *old(cpu),
            old(system)@,
            instruction,
            0,
            0,
            outcome(*final(cpu), final(system)@, cycles),
        ),
{
    match instruction {
        0x9A => {
            proof {
                lemma_execute_implied(*old(cpu), old(system)@, instruction, 0, 0);
            }
            cpu.sp = cpu.x;
            cpu.advance(1);
            2
        },
        _ => BASE_CYCLES,
    }
}

/// TYA: copies Y to the accumulator.
pub fn tya(cpu: &mut CPU, instruction: u8, system: &mut System) -> (cycles: u64)
    ensures
        *final(system) == *old(system),
        handles(
            Operation::Tya,
            *old(cpu),
            old(system)@,
            instruction,
            0,
            0,
            outcome(*final(cpu), final(system)@, cycles),
        ),
{
    match instruction {
        0x98 => {
            proof {
                lemma_execute_implied(*old(cpu), old(system)@, instruction, 0, 0);
            }
            cpu.load_a(cpu.y);
            cpu.advance(1);
            2
        },
        _ => BASE_CYCLES,
    }
}

} // verus!
