//! Pushes and pulls of the accumulator and of the status byte.
use crate::cpu::decode::{Operation, BASE_CYCLES};
use crate::cpu::semantics::{handles, lemma_execute_stack, outcome};
use crate::cpu::CPU;
use crate::system::System;
use vstd::prelude::*;

verus! {

/// PHA: pushes the accumulator.
pub fn pha(cpu: &mut CPU, instruction: u8, system: &mut System) -> (cycles: u64)
    requires
        old(system).wf(),
    ensures
        final(system).wf(),
        handles(
            Operation::Pha,
            *old(cpu),
            old(system)@,
            instruction,
            0,
            0,
            outcome(*final(cpu), final(system)@, cycles),
        ),
{
    match instruction {
        0x48 => {
            proof {
                lemma_execute_stack(*old(cpu), old(system)@, instruction, 0, 0);
            }
            cpu.push_stack(&mut system.ram, cpu.a);
            cpu.advance(1);
            3
        },
        _ => BASE_CYCLES,
    }
}

/// PHP: pushes the packed status flags.
pub fn php(cpu: &mut CPU, instruction: u8, system: &mut System) -> (cycles: u64)
    requires
        old(system).wf(),
    ensures
        final(system).wf(),
        handles(
            Operation::Php,
            *old(cpu),
            old(system)@,
            instruction,
            0,
            0,
            outcome(*final(cpu), final(system)@, cycles),
        ),
{
    match instruction {
        0x08 => {
            proof {
                lemma_execute_stack(*old(cpu), old(system)@, instruction, 0, 0);
            }
            cpu.push_stack(&mut system.ram, cpu.status.get_byte());
            cpu.advance(1);
            3
        },
        _ => BASE_CYCLES,
    }
}

/// PLA: pulls the accumulator and sets zero and negative from it.
pub fn pla(cpu: &mut CPU, instruction: u8, system: &mut System) -> (cycles: u64)
    requires
        old(system).wf(),
    ensures
        *final(system) == *old(system),
        handles(
            Operation::Pla,
            *old(cpu),
            old(system)@,
            instruction,
            0,
            0,
            outcome(*final(cpu), final(system)@, cycles),
        ),
{
    match instruction {
        0x68 => {
            proof {
                lemma_execute_stack(*old(cpu), old(system)@, instruction, 0, 0);
            }
            let value = cpu.pop_stack(&system.ram);
            cpu.load_a(value);
            cpu.advance(1);
            4
        },
        _ => BASE_CYCLES,
    }
}

/// PLP: pulls the status flags.
pub fn plp(cpu: &mut CPU, instruction: u8, system: &mut System) -> (cycles: u64)
    requires
        old(system).wf(),
    ensures
        *final(system) == *old(system),
        handles(
            Operation::Plp,
            *old(cpu),
            old(system)@,
            instruction,
            0,
            0,
            outcome(*final(cpu), final(system)@, cycles),
        ),
{
    match instruction {
        0x28 => {
            proof {
                lemma_execute_stack(*old(cpu), old(system)@, instruction, 0, 0);
            }
            let packed = cpu.pop_stack(&system.ram);
            cpu.status.set_byte(packed);
            cpu.advance(1);
            4
        },
        _ => BASE_CYCLES,
    }
}

} // verus!
