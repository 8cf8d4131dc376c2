//! The instruction handlers, one function for each operation.
//!
//! A handler takes the processor, the opcode, the operand bytes that follow
//! it and the machine. Handed an opcode of its own operation it executes
//! the instruction, moves the program counter on and returns the cycles
//! consumed; handed any other opcode it changes nothing and returns the
//! base cost.
pub mod arithmetic;
pub mod branch;
pub mod control;
pub mod flags;
pub mod load;
pub mod logic;
pub mod modify;
pub mod register;
pub mod stack;
pub mod store;

pub use arithmetic::{adc, cmp, cpx, cpy, sbc};
pub use branch::{bcc, bcs, beq, bmi, bne, bpl, bvc, bvs};
pub use control::{brk, jmp, jsr, nop, rti, rts};
pub use flags::{clc, cld, cli, clv, sec, sed, sei};
pub use load::{lda, ldx, ldy};
pub use logic::{and, bit, eor, ora};
pub use modify::{asl, dec, inc, lsr, modify_value, rol, ror, run_modify};
pub use register::{dex, dey, inx, iny, tax, tay, tsx, txa, txs, tya};
pub use stack::{pha, php, pla, plp};
pub use store::{sta, stx, sty};

use crate::cpu::semantics::{branch_destination, enter_interrupt, with_penalty};
use crate::cpu::CPU;
use crate::system::System;
use crate::word::{lemma_split, page};
use vstd::prelude::*;

verus! {

impl CPU {
    /// Moves the program counter on by `length` bytes.
    pub fn advance(&mut self, length: u16)
        ensures
            *final(self) == old(self).advanced(length),
    {
        self.pc = self.pc.wrapping_add(length);
    }

    /// Ends an instruction: moves the program counter on by `length` bytes
    /// and returns `cycles`, with one more if a page boundary was crossed.
    pub fn finish(&mut self, length: u16, cycles: u64, crossed: bool) -> (total: u64)
        requires
            cycles < u64::MAX,
        ensures
            *final(self) == old(self).advanced(length),
            total == with_penalty(cycles, crossed),
    {
        self.advance(length);
        if crossed {
            cycles + 1
        } else {
            cycles
        }
    }

    /// Ends a branch with the given operand. Taken, the program counter
    /// goes to the destination for three cycles, or four if the destination
    /// lies on another page than the branch; not taken, it moves on to the
    /// next instruction for two.
    pub fn branch(&mut self, operand: u8, taken: bool) -> (cycles: u64)
        ensures
            taken ==> *final(self) == old(self).at(branch_destination(old(self).pc, operand))
                && cycles == with_penalty(
                3,
                page(branch_destination(old(self).pc, operand) as int) != page(
                    old(self).pc as int,
                ),
            ),
            !taken ==> *final(self) == old(self).advanced(2) && cycles == 2,
    {
        let next = self.pc.wrapping_add(2);
        if taken {
            let destination = if operand < 0x80 {
                next.wrapping_add(operand as u16)
            } else {
                next.wrapping_sub(0x100 - operand as u16)
            };
            proof {
                lemma_split(destination);
                lemma_split(self.pc);
            }
            let crossed = (destination >> 8) != (self.pc >> 8);
            self.pc = destination;
            if crossed {
                4
            } else {
                3
            }
        } else {
            self.pc = next;
            2
        }
    }

    /// Enters an interrupt handler: pushes `return_to`, high byte first,
    /// and the status byte with the break flag as given, sets
    /// interrupt-disable and loads the program counter from `vector`.
    pub fn enter_interrupt(
        &mut self,
        system: &mut System,
        return_to: u16,
        break_flag: bool,
        vector: u16,
    )
        requires
            old(system).wf(),
        ensures
            final(system).wf(),
            (*final(self), final(system)@) == enter_interrupt(
                *old(self),
                old(system)@,
                return_to,
                break_flag,
                vector,
            ),
    {
        let mut pushed = self.status;
        pushed.break_mode = break_flag;
        self.push_stack_word(&mut system.ram, return_to);
        self.push_stack(&mut system.ram, pushed.get_byte());
        self.status.interrupt_disable = true;
        self.pc = self.get_mapped_word(system, vector as usize);
    }
}

} // verus!
