//! Addressing modes: how an instruction finds the address and the value of
//! its operand from the two bytes that follow the opcode.
//!
//! | mode          | effective address                                  | extra cycle        |
//! |---------------|----------------------------------------------------|--------------------|
//! | Zero Page     | `operand`                                          | none               |
//! | Zero Page,X/Y | `(operand + index) mod 256`                        | none               |
//! | Absolute      | `operand + 256 * operand2`                         | none               |
//! | Absolute,X/Y  | absolute address plus index                        | if the page changes|
//! | Indirect      | word stored at the absolute address                | none               |
//! | (Indirect,X)  | word stored in page zero at `(operand + X) mod 256`| none               |
//! | (Indirect),Y  | word stored in page zero at `operand`, plus Y      | if the page changes|
//!
//! Addresses are sixteen bits wide: an index that carries past `0xFFFF`
//! wraps to the bottom of the address space. A pointer in page zero is read
//! within page zero: the high byte of a pointer at `0xFF` lies at `0x00`.
//! The indirect jump reads its pointer with two ordinary bus reads, so the
//! high byte of a pointer at `0x..FF` comes from the next page.
use crate::cpu::bus::{read_byte, read_word};
use crate::cpu::decode::Mode;
use crate::cpu::CPU;
use crate::system::{System, SystemView};
use crate::word::{lemma_split, make_word, page, word, wrap16, wrap8};
use vstd::prelude::*;

verus! {

/// Where an operand lies, and whether finding it crossed a page boundary.
#[derive(Clone, Copy, Debug, PartialEq, Eq, Structural)]
pub struct Target {
    pub address: u16,
    pub crossed: bool,
}

/// An address reached without indexing.
pub open spec fn fixed(address: u16) -> Target {
    Target { address, crossed: false }
}

/// The address `index` bytes after `base`. A page boundary is crossed when
/// the high byte of the result differs from that of `base`.
pub open spec fn indexed(base: u16, index: u8) -> Target {
    let address = wrap16(base + index);
    Target { address, crossed: page(address as int) != page(base as int) }
}

/// The word that a pointer in page zero holds: the low byte at `pointer`,
/// the high byte at the next address of page zero.
pub open spec fn zero_page_word(sys: SystemView, pointer: u8) -> u16 {
    word(read_byte(sys, pointer as int), read_byte(sys, wrap8(pointer + 1) as int))
}

/// The effective address of an operand. Modes without an operand in memory
/// have the fixed address zero.
#[verifier::opaque]
pub open spec fn target(cpu: CPU, sys: SystemView, mode: Mode, operand: u8, operand2: u8) -> Target {
    match mode {
        Mode::ZeroPage => fixed(operand as u16),
        Mode::ZeroPageX => fixed(wrap8(operand + cpu.x) as u16),
        Mode::ZeroPageY => fixed(wrap8(operand + cpu.y) as u16),
        Mode::Absolute => fixed(word(operand, operand2)),
        Mode::AbsoluteX => indexed(word(operand, operand2), cpu.x),
        Mode::AbsoluteY => indexed(word(operand, operand2), cpu.y),
        Mode::Indirect => fixed(read_word(sys, word(operand, operand2) as int)),
        Mode::IndirectX => fixed(zero_page_word(sys, wrap8(operand + cpu.x))),
        Mode::IndirectY => indexed(zero_page_word(sys, operand), cpu.y),
        Mode::Implied | Mode::Accumulator | Mode::Immediate | Mode::Relative => fixed(0),
    }
}

/// The value of an operand: the byte after the opcode, the accumulator, or
/// the byte that the bus shows at the effective address.
#[verifier::opaque]
pub open spec fn operand_value(
    cpu: CPU,
    sys: SystemView,
    mode: Mode,
    operand: u8,
    operand2: u8,
) -> u8 {
    match mode {
        Mode::Immediate => operand,
        Mode::Accumulator => cpu.a,
        _ => read_byte(sys, target(cpu, sys, mode, operand, operand2).address as int),
    }
}

/// The address `index` bytes after `base`, and whether the page changed.
pub fn index_address(base: u16, index: u8) -> (result: Target)
    ensures
        result == indexed(base, index),
{
    let address = base.wrapping_add(index as u16);
    proof {
        lemma_split(base);
        lemma_split(address);
    }
    Target { address, crossed: (address >> 8) != (base >> 8) }
}

impl CPU {
    /// Reads the word that a pointer in page zero holds.
    pub fn get_zero_page_word(&self, system: &System, pointer: u8) -> (value: u16)
        requires
            system.wf(),
        ensures
            value == zero_page_word(system@, pointer),
    {
        let low = self.get_mapped_byte(system, pointer as usize);
        let high = self.get_mapped_byte(system, pointer.wrapping_add(1) as usize);
        make_word(low, high)
    }

    /// The effective address of the operand of an instruction in `mode`.
    pub fn operand_address(
        &self,
        system: &System,
        mode: Mode,
        operand: u8,
        operand2: u8,
    ) -> (result: Target)
        requires
            system.wf(),
        ensures
            result == target(*self, system@, mode, operand, operand2),
    {
        reveal(target);
        match mode {
            Mode::ZeroPage => Target { address: operand as u16, crossed: false },
            Mode::ZeroPageX => Target {
                address: operand.wrapping_add(self.x) as u16,
                crossed: false,
            },
            Mode::ZeroPageY => Target {
                address: operand.wrapping_add(self.y) as u16,
                crossed: false,
            },
            Mode::Absolute => Target { address: make_word(operand, operand2), crossed: false },
            Mode::AbsoluteX => index_address(make_word(operand, operand2), self.x),
            Mode::AbsoluteY => index_address(make_word(operand, operand2), self.y),
            Mode::Indirect => Target {
                address: self.get_mapped_word(system, make_word(operand, operand2) as usize),
                crossed: false,
            },
            Mode::IndirectX => Target {
                address: self.get_zero_page_word(system, operand.wrapping_add(self.x)),
                crossed: false,
            },
            Mode::IndirectY => index_address(self.get_zero_page_word(system, operand), self.y),
            _ => Target { address: 0, crossed: false },
        }
    }

    /// The value of the operand of an instruction in `mode`, and whether
    /// finding it crossed a page boundary.
    pub fn read_operand(
        &self,
        system: &System,
        mode: Mode,
        operand: u8,
        operand2: u8,
    ) -> (result: (u8, bool))
        requires
            system.wf(),
        ensures
            result.0 == operand_value(*self, system@, mode, operand, operand2),
            result.1 == target(*self, system@, mode, operand, operand2).crossed,
    {
        reveal(target);
        reveal(operand_value);
        match mode {
            Mode::Immediate => (operand, false),
            Mode::Accumulator => (self.a, false),
            _ => {
                let place = self.operand_address(system, mode, operand, operand2);
                (self.get_mapped_byte(system, place.address as usize), place.crossed)
            },
        }
    }

    /// The effective address of an indirect operand: with `xy_val` zero the
    /// word stored in page zero at `operand + X`; otherwise the word stored
    /// in page zero at `operand`, plus Y.
    pub fn get_indirect_address(&self, system: &System, operand: u8, xy_val: u8) -> (address: u16)
        requires
            system.wf(),
        ensures
            xy_val == 0 ==> address == target(
                *self,
                system@,
                Mode::IndirectX,
                operand,
                0,
            ).address,
            xy_val != 0 ==> address == target(
                *self,
                system@,
                Mode::IndirectY,
                operand,
                0,
            ).address,
    {
        if xy_val == 0 {
            self.operand_address(system, Mode::IndirectX, operand, 0).address
        } else {
            self.operand_address(system, Mode::IndirectY, operand, 0).address
        }
    }
}

} // verus!
