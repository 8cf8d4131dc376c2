//! Jumps, subroutine linkage, the software break, the return from an
//! interrupt, and the no-operation.
use crate::cpu::decode::{Mode, Operation, BASE_CYCLES};
use crate::cpu::semantics::{
    handles, idle_cycles, lemma_execute_brk, lemma_execute_jmp, lemma_execute_jsr, lemma_execute_rti, lemma_execute_rts,
    outcome,
};
use crate::cpu::{CPU, IRQ_VECTOR};
use crate::system::System;
use crate::word::make_word;
use vstd::prelude::*;

verus! {

/// NOP: moves the program counter on by one byte, whatever the opcode, and
/// does nothing else. A no-operation opcode costs what the instruction
/// table says; every other opcode costs the base two cycles.
pub fn nop(cpu: &mut CPU, instruction: u8) -> (cycles: u64)
    ensures
        *final(cpu) == old(cpu).advanced(1),
        cycles == idle_cycles(instruction),
{
    cpu.advance(1);
    match instruction {
        0x1A | 0x3A | 0x5A | 0x7A | 0xDA | 0xFA | 0x80 | 0x82 | 0x89 | 0xC2 | 0xE2 => 2,
        0x04 | 0x44 | 0x64 => 3,
        0x14 | 0x34 | 0x54 | 0x74 | 0xD4 | 0xF4 | 0x0C | 0x1C | 0x3C | 0x5C | 0x7C | 0xDC | 0xFC => 4,
        _ => BASE_CYCLES,
    }
}

/// JMP: continues at the operand address, absolute or indirect.
pub fn jmp(
    cpu: &mut CPU,
    instruction: u8,
    operand: u8,
    operand2: u8,
    system: &mut System,
) -> (cycles: u64)
    requires
        old(system).wf(),
    ensures
        *final(system) == *old(system),
        handles(
            Operation::Jmp,
            *old(cpu),
            old(system)@,
            instruction,
            operand,
            operand2,
            outcome(*final(cpu), final(system)@, cycles),
        ),
{
    match instruction {
        0x4C => {
            proof {
                lemma_execute_jmp(*old(cpu), old(system)@, instruction, operand, operand2);
            }
            cpu.pc = cpu.operand_address(system, Mode::Absolute, operand, operand2).address;
            3
        },
        0x6C => {
            proof {
                lemma_execute_jmp(*old(cpu), old(system)@, instruction, operand, operand2);
            }
            cpu.pc = cpu.operand_address(system, Mode::Indirect, operand, operand2).address;
            5
        },
        _ => BASE_CYCLES,
    }
}

/// JSR: pushes the address of its own last byte and continues at the
/// absolute address.
pub fn jsr(
    cpu: &mut CPU,
    instruction: u8,
    operand: u8,
    operand2: u8,
    system: &mut System,
) -> (cycles: u64)
    requires
        old(system).wf(),
    ensures
        final(system).wf(),
        handles(
            Operation::Jsr,
            *old(cpu),
            old(system)@,
            instruction,
            operand,
            operand2,
            outcome(*final(cpu), final(system)@, cycles),
        ),
{
    match instruction {
        0x20 => {
            proof {
                lemma_execute_jsr(*old(cpu), old(system)@, instruction, operand, operand2);
            }
            let last = cpu.pc.wrapping_add(2);
            cpu.push_stack_word(&mut system.ram, last);
            cpu.pc = make_word(operand, operand2);
            6
        },
        _ => BASE_CYCLES,
    }
}

/// RTS: pulls an address and continues one byte after it.
pub fn rts(cpu: &mut CPU, instruction: u8, system: &mut System) -> (cycles: u64)
    requires
        old(system).wf(),
    ensures
        *final(system) == *old(system),
        handles(
            Operation::Rts,
            *old(cpu),
            old(system)@,
            instruction,
            0,
            0,
            outcome(*final(cpu), final(system)@, cycles),
        ),
{
    match instruction {
        0x60 => {
            proof {
                lemma_execute_rts(*old(cpu), old(system)@, instruction, 0, 0);
            }
            let address = cpu.pop_stack_word(&system.ram);
            cpu.pc = address.wrapping_add(1);
            6
        },
        _ => BASE_CYCLES,
    }
}

/// RTI: pulls the status flags, then the program counter.
pub fn rti(cpu: &mut CPU, instruction: u8, system: &mut System) -> (cycles: u64)
    requires
        old(system).wf(),
    ensures
        *final(system) == *old(system),
        handles(
            Operation::Rti,
            *old(cpu),
            old(system)@,
            instruction,
            0,
            0,
            outcome(*final(cpu), final(system)@, cycles),
        ),
{
    match instruction {
        0x40 => {
            proof {
                lemma_execute_rti(*old(cpu), old(system)@, instruction, 0, 0);
            }
            let packed = cpu.pop_stack(&system.ram);
            cpu.status.set_byte(packed);
            cpu.pc = cpu.pop_stack_word(&system.ram);
            6
        },
        _ => BASE_CYCLES,
    }
}

/// BRK: the software interrupt. Pushes the address two bytes after the
/// opcode and the status byte with the break flag set, sets
/// interrupt-disable, and continues at the address in the interrupt vector.
pub fn brk(cpu: &mut CPU, instruction: u8, system: &mut System) -> (cycles: u64)
    requires
        old(system).wf(),
    ensures
        final(system).wf(),
        handles(
            Operation::Brk,
            *old(cpu),
            old(system)@,
            instruction,
            0,
            0,
            outcome(*final(cpu), final(system)@, cycles),
        ),
{
    match instruction {
        0x00 => {
            proof {
                lemma_execute_brk(*old(cpu), old(system)@, instruction, 0, 0);
            }
            let return_to = cpu.pc.wrapping_add(2);
            cpu.set_flags();
            cpu.enter_interrupt(system, return_to, true, IRQ_VECTOR);
            7
        },
        _ => BASE_CYCLES,
    }
}

} // verus!
