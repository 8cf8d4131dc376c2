//! The processor: registers, status flags, bus access, stack and the
//! instruction engine.
pub mod addressing;
pub mod alu;
pub mod bus;
pub mod decode;
pub mod instructions;
pub mod laws;
pub mod semantics;
pub mod status;

use crate::system::{System, RAM_SIZE};
use crate::word::{high_byte, low_byte, make_word, split_word, word};
use bus::{
    lemma_mirror_masks, read_byte, read_word, write_byte, write_word, ADDRESS_LAST, PPU_LAST,
    RAM_LAST, SRAM_LAST,
};
use instructions::{
    adc, and, asl, bcc, bcs, beq, bit, bmi, bne, bpl, brk, bvc, bvs, clc, cld, cli, clv, cmp, cpx,
    cpy, dec, dex, dey, eor, inc, inx, iny, jmp, jsr, lda, ldx, ldy, lsr, nop, ora, pha, php, pla,
    plp, rol, ror, rti, rts, sbc, sec, sed, sei, sta, stx, sty, tax, tay, tsx, txa, txs, tya,
};
use semantics::{interrupt, lemma_execute_nop, lemma_unread_operands, outcome, reset, step};
pub use status::Status;
use vstd::prelude::*;

verus! {

/// Address of the little-endian word that holds the reset entry point.
pub const RESET_VECTOR: u16 = 0xFFFC;

/// Address of the word that holds the entry point of the non-maskable interrupt.
pub const NMI_VECTOR: u16 = 0xFFFA;

/// Address of the word that holds the entry point of the maskable interrupt
/// and of the break instruction.
pub const IRQ_VECTOR: u16 = 0xFFFE;

/// First address of the page that holds the stack.
pub const STACK_BASE: usize = 0x100;

/// The state of the processor.
#[derive(Clone, Copy, Debug, PartialEq, Eq, Structural)]
pub struct CPU {
    /// Accumulator.
    pub a: u8,
    /// Index register X.
    pub x: u8,
    /// Index register Y.
    pub y: u8,
    /// Program counter.
    pub pc: u16,
    /// Stack pointer: the low byte of the next free address in page one.
    pub sp: u8,
    /// The packed status byte as it stood when the current instruction began.
    pub s: u8,
    /// The status flags.
    pub status: Status,
    /// A reset is pending.
    pub reset_requested: bool,
    /// A maskable interrupt is pending.
    pub irq_requested: bool,
    /// A non-maskable interrupt is pending.
    pub nmi_requested: bool,
    /// The processor has halted for good.
    pub jammed: bool,
}

/// The address in page one that the stack pointer `sp` designates.
pub open spec fn stack_address(sp: u8) -> int {
    STACK_BASE + sp
}

/// The stack pointer after one byte was pushed: one less, wrapping from 0 to 0xFF.
pub open spec fn sp_after_push(sp: u8) -> u8 {
    if sp == 0 {
        0xFF
    } else {
        (sp - 1) as u8
    }
}

/// The stack pointer after one byte was popped: one more, wrapping from 0xFF to 0.
pub open spec fn sp_after_pop(sp: u8) -> u8 {
    if sp == 0xFF {
        0
    } else {
        (sp + 1) as u8
    }
}

impl CPU {
    /// The processor at power-on: registers zero, stack pointer `0xFF`, the
    /// power-on flags, and a reset pending.
    pub open spec fn power_on() -> CPU {
        CPU {
            a: 0,
            x: 0,
            y: 0,
            pc: 0,
            sp: 0xFF,
            s: 0,
            status: Status::power_on(),
            reset_requested: true,
            irq_requested: false,
            nmi_requested: false,
            jammed: false,
        }
    }

    /// This processor and stack page after `value` was pushed: the byte is
    /// stored where the stack pointer designates, then the pointer goes down.
    pub open spec fn pushed(self, ram: Seq<u8>, value: u8) -> (CPU, Seq<u8>) {
        (CPU { sp: sp_after_push(self.sp), ..self }, ram.update(stack_address(self.sp), value))
    }

    /// This processor and stack page after a word was pushed, high byte first.
    pub open spec fn pushed_word(self, ram: Seq<u8>, value: u16) -> (CPU, Seq<u8>) {
        let (cpu, ram) = self.pushed(ram, high_byte(value));
        cpu.pushed(ram, low_byte(value))
    }

    /// This processor after a byte was popped, and that byte: the pointer
    /// goes up, then the byte is read where it designates.
    pub open spec fn popped(self, ram: Seq<u8>) -> (CPU, u8) {
        (CPU { sp: sp_after_pop(self.sp), ..self }, ram[stack_address(sp_after_pop(self.sp))])
    }

    /// This processor after a word was popped, low byte first, and that word.
    pub open spec fn popped_word(self, ram: Seq<u8>) -> (CPU, u16) {
        let (cpu, low) = self.popped(ram);
        let (cpu, high) = cpu.popped(ram);
        (cpu, word(low, high))
    }

    /// A processor at power-on.
    pub fn new() -> (cpu: CPU)
        ensures
            cpu == CPU::power_on(),
    {
        CPU {
            a: 0,
            x: 0,
            y: 0,
            pc: 0,
            sp: 0xFF,
            s: 0,
            status: Status {
                negative: false,
                overflow: false,
                reserved: true,
                break_mode: true,
                decimal_mode: false,
                interrupt_disable: true,
                zero: false,
                carry: false,
            },
            reset_requested: true,
            irq_requested: false,
            nmi_requested: false,
            jammed: false,
        }
    }

    /// Reads the byte that the bus shows at `address`.
    pub fn get_mapped_byte(&self, system: &System, address: usize) -> (value: u8)
        requires
            system.wf(),
        ensures
            value == read_byte(system@, address as int),
    {
        proof {
            reveal(read_byte);
            lemma_mirror_masks(address);
        }
        if address <= RAM_LAST {
            return system.ram[address & 0x7FF];
        }
        if address <= PPU_LAST {
            let addr = 0x2000 | (address & 0x7);
            if addr == 0x2000 {
                return system.ppu.ctrl;
            }
            if addr == 0x2001 {
                return system.ppu.mask;
            }
            if addr == 0x2002 {
                return system.ppu.status;
            }
            if addr == 0x2003 {
                return system.ppu.oam_addr;
            }
            if addr == 0x2004 {
                return system.ppu.oam_data;
            }
            if addr == 0x2005 {
                return system.ppu.scroll;
            }
            if addr == 0x2006 {
                return system.ppu.addr;
            }
            if addr == 0x2007 {
                return system.ppu.data;
            }
            return 0;
        }
        if address <= SRAM_LAST {
            return 0;
        }
        if address <= ADDRESS_LAST {
            return system.rom.get_prg_from_address(address as u16);
        }
        0
    }

    /// Hands a write of `value` at `address` to the bus.
    pub fn set_mapped_byte(&self, system: &mut System, address: usize, value: u8)
        requires
            old(system).wf(),
        ensures
            final(system)@ == write_byte(old(system)@, address as int, value),
            final(system).wf(),
    {
        proof {
            reveal(write_byte);
            lemma_mirror_masks(address);
        }
        if address <= RAM_LAST {
            system.ram[address & 0x7FF] = value;
            return ;
        }
        if address <= PPU_LAST {
            let addr = 0x2000 | (address & 0x7);
            if addr == 0x2000 {
                system.ppu.ctrl = value;
                return ;
            }
            if addr == 0x2001 {
                system.ppu.mask = value;
                return ;
            }
            if addr == 0x2002 {
                system.ppu.status = value;
                return ;
            }
            if addr == 0x2003 {
                system.ppu.oam_addr = value;
                return ;
            }
            if addr == 0x2004 {
                system.ppu.oam_data = value;
                return ;
            }
            if addr == 0x2005 {
                system.ppu.scroll = value;
                return ;
            }
            if addr == 0x2006 {
                system.ppu.addr = value;
                return ;
            }
            if addr == 0x2007 {
                system.ppu.data = value;
                return ;
            }
        }
    }

    /// Reads the little-endian word at `address` and `address + 1`.
    pub fn get_mapped_word(&self, system: &System, address: usize) -> (value: u16)
        requires
            system.wf(),
            address < usize::MAX,
        ensures
            value == read_word(system@, address as int),
    {
        let low = self.get_mapped_byte(system, address);
        let high = self.get_mapped_byte(system, address + 1);
        make_word(low, high)
    }

    /// Writes a little-endian word at `address` and `address + 1`.
    pub fn set_mapped_word(&self, system: &mut System, address: usize, value: u16)
        requires
            old(system).wf(),
            address < usize::MAX,
        ensures
            final(system)@ == write_word(old(system)@, address as int, value),
            final(system).wf(),
    {
        let (low, high) = split_word(value);
        self.set_mapped_byte(system, address, low);
        self.set_mapped_byte(system, address + 1, high);
    }

    /// Pushes a byte on the stack.
    pub fn push_stack(&mut self, ram: &mut Vec<u8>, value: u8)
        requires
            old(ram).len() == RAM_SIZE,
        ensures
            (*final(self), final(ram)@) == old(self).pushed(old(ram)@, value),
            final(ram).len() == RAM_SIZE,
    {
        proof {
            lemma_stack_slot(self.sp);
        }
        ram[STACK_BASE | self.sp as usize] = value;
        self.sp = self.sp.wrapping_sub(1);
    }

    /// Pushes a word on the stack, high byte first.
    pub fn push_stack_word(&mut self, ram: &mut Vec<u8>, value: u16)
        requires
            old(ram).len() == RAM_SIZE,
        ensures
            (*final(self), final(ram)@) == old(self).pushed_word(old(ram)@, value),
            final(ram).len() == RAM_SIZE,
    {
        let (low, high) = split_word(value);
        self.push_stack(ram, high);
        self.push_stack(ram, low);
    }

    /// Pops a byte off the stack.
    pub fn pop_stack(&mut self, ram: &Vec<u8>) -> (value: u8)
        requires
            ram.len() == RAM_SIZE,
        ensures
            (*final(self), value) == old(self).popped(ram@),
    {
        self.sp = self.sp.wrapping_add(1);
        proof {
            lemma_stack_slot(self.sp);
        }
        ram[STACK_BASE | self.sp as usize]
    }

    /// Pops a word off the stack, low byte first.
    pub fn pop_stack_word(&mut self, ram: &Vec<u8>) -> (value: u16)
        requires
            ram.len() == RAM_SIZE,
        ensures
            (*final(self), value) == old(self).popped_word(ram@),
    {
        let low = self.pop_stack(ram);
        let high = self.pop_stack(ram);
        make_word(low, high)
    }

    /// Copies the packed status flags into the `s` register.
    pub fn set_flags(&mut self)
        ensures
            *final(self) == (CPU { s: old(self).status.byte(), ..*old(self) }),
    {
        self.s = self.status.get_byte();
    }

    /// Whether the processor has halted for good.
    pub fn is_jammed(&self) -> (jammed: bool)
        ensures
            jammed == self.jammed,
    {
        self.jammed
    }

    /// Serves a reset: loads the program counter from the reset vector,
    /// restores the stack pointer and the flags, and clears the latch.
    pub fn serve_reset(&mut self, system: &System)
        requires
            system.wf(),
        ensures
            outcome(*final(self), system@, 0) == reset(*old(self), system@),
    {
        self.pc = self.get_mapped_word(system, RESET_VECTOR as usize);
        self.sp = 0xFF;
        self.status = Status {
            negative: false,
            overflow: false,
            reserved: true,
            break_mode: true,
            decimal_mode: false,
            interrupt_disable: true,
            zero: false,
            carry: false,
        };
        self.reset_requested = false;
    }

    /// Serves a hardware interrupt through `vector`: pushes the program
    /// counter and the status byte with the break flag clear, sets
    /// interrupt-disable, clears the break flag and loads the program
    /// counter from the vector.
    pub fn serve_interrupt(&mut self, system: &mut System, vector: u16)
        requires
            old(system).wf(),
        ensures
            final(system).wf(),
            outcome(*final(self), final(system)@, 0) == interrupt(
                *old(self),
                old(system)@,
                vector,
            ),
    {
        let return_to = self.pc;
        self.enter_interrupt(system, return_to, false, vector);
        self.status.break_mode = false;
    }

    /// Reads the opcode at the program counter and the two bytes after it.
    pub fn fetch(&self, system: &System) -> (bytes: (u8, u8, u8))
        requires
            system.wf(),
        ensures
            bytes.0 == read_byte(system@, self.pc as int),
            bytes.1 == read_byte(system@, self.pc + 1),
            bytes.2 == read_byte(system@, self.pc + 2),
    {
        let at = self.pc as usize;
        (
            self.get_mapped_byte(system, at),
            self.get_mapped_byte(system, at + 1),
            self.get_mapped_byte(system, at + 2),
        )
    }

    /// Performs one step of the processor and returns the cycles it
    /// consumed. A pending reset is served first, then a pending
    /// non-maskable interrupt, then a pending interrupt request unless
    /// interrupts are disabled; each costs no cycle. Otherwise the
    /// instruction at the program counter is fetched and executed; an
    /// opcode outside the supported set is a no-operation.
    pub fn tick(&mut self, system: &mut System) -> (cycles: u64)
        requires
            old(system).wf(),
        ensures
            final(system).wf(),
            outcome(*final(self), final(system)@, cycles) == step(*old(self), old(system)@),
    {
        if self.reset_requested {
            self.serve_reset(system);
            return 0;
        }
        if self.nmi_requested {
            self.nmi_requested = false;
            self.serve_interrupt(system, NMI_VECTOR);
            return 0;
        }
        if self.irq_requested && !self.status.interrupt_disable {
            self.irq_requested = false;
            self.serve_interrupt(system, IRQ_VECTOR);
            return 0;
        }
        let (instruction, operand, operand2) = self.fetch(system);

        // The `s` register follows the flags before every instruction.
        self.set_flags();
        proof {
            lemma_unread_operands(*self, system@, instruction, operand, operand2);
        }

        match instruction {
            0x01 | 0x11 | 0x05 | 0x15 | 0x09 | 0x19 | 0x0D | 0x1D => ora(
                self,
                instruction,
                operand,
                operand2,
                system,
            ),
            0xA1 | 0xB1 | 0xA5 | 0xB5 | 0xA9 | 0xB9 | 0xAD | 0xBD => lda(
                self,
                instruction,
                operand,
                operand2,
                system,
            ),
            0xA2 | 0xA6 | 0xB6 | 0xAE | 0xBE => ldx(self, instruction, operand, operand2, system),
            0xA0 | 0xA4 | 0xB4 | 0xAC | 0xBC => ldy(self, instruction, operand, operand2, system),
            0x85 | 0x95 | 0x8D | 0x9D | 0x99 | 0x81 | 0x91 => sta(
                self,
                instruction,
                operand,
                operand2,
                system,
            ),
            0x86 | 0x96 | 0x8E => stx(self, instruction, operand, operand2, system),
            0x84 | 0x94 | 0x8C => sty(self, instruction, operand, operand2, system),
            0x4C | 0x6C => jmp(self, instruction, operand, operand2, system),
            0x20 => jsr(self, instruction, operand, operand2, system),
            0x69 | 0x65 | 0x75 | 0x6D | 0x7D | 0x79 | 0x61 | 0x71 => adc(
                self,
                instruction,
                operand,
                operand2,
                system,
            ),
            0xE9 | 0xE5 | 0xF5 | 0xED | 0xFD | 0xF9 | 0xE1 | 0xF1 => sbc(
                self,
                instruction,
                operand,
                operand2,
                system,
            ),
            0x29 | 0x25 | 0x35 | 0x2D | 0x3D | 0x39 | 0x21 | 0x31 => and(
                self,
                instruction,
                operand,
                operand2,
                system,
            ),
            0x49 | 0x45 | 0x55 | 0x4D | 0x5D | 0x59 | 0x41 | 0x51 => eor(
                self,
                instruction,
                operand,
                operand2,
                system,
            ),
            0xC9 | 0xC5 | 0xD5 | 0xCD | 0xDD | 0xD9 | 0xC1 | 0xD1 => cmp(
                self,
                instruction,
                operand,
                operand2,
                system,
            ),
            0xE0 | 0xE4 | 0xEC => cpx(self, instruction, operand, operand2, system),
            0xC0 | 0xC4 | 0xCC => cpy(self, instruction, operand, operand2, system),
            0x24 | 0x2C => bit(self, instruction, operand, operand2, system),
            0x0A | 0x06 | 0x16 | 0x0E | 0x1E => asl(self, instruction, operand, operand2, system),
            0x4A | 0x46 | 0x56 | 0x4E | 0x5E => lsr(self, instruction, operand, operand2, system),
            0x2A | 0x26 | 0x36 | 0x2E | 0x3E => rol(self, instruction, operand, operand2, system),
            0x6A | 0x66 | 0x76 | 0x6E | 0x7E => ror(self, instruction, operand, operand2, system),
            0xC6 | 0xD6 | 0xCE | 0xDE => dec(self, instruction, operand, operand2, system),
            0xE6 | 0xF6 | 0xEE | 0xFE => inc(self, instruction, operand, operand2, system),
            0x90 => bcc(self, instruction, operand, system),
            0xB0 => bcs(self, instruction, operand, system),
            0xF0 => beq(self, instruction, operand, system),
            0xD0 => bne(self, instruction, operand, system),
            0x30 => bmi(self, instruction, operand, system),
            0x10 => bpl(self, instruction, operand, system),
            0x50 => bvc(self, instruction, operand, system),
            0x70 => bvs(self, instruction, operand, system),
            0x00 => brk(self, instruction, system),
            0x40 => rti(self, instruction, system),
            0x60 => rts(self, instruction, system),
            0x18 => clc(self, instruction, system),
            0xD8 => cld(self, instruction, system),
            0x58 => cli(self, instruction, system),
            0xB8 => clv(self, instruction, system),
            0x38 => sec(self, instruction, system),
            0xF8 => sed(self, instruction, system),
            0x78 => sei(self, instruction, system),
            0xCA => dex(self, instruction, system),
            0x88 => dey(self, instruction, system),
            0xE8 => inx(self, instruction, system),
            0xC8 => iny(self, instruction, system),
            0x48 => pha(self, instruction, system),
            0x68 => pla(self, instruction, system),
            0x08 => php(self, instruction, system),
            0x28 => plp(self, instruction, system),
            0xAA => tax(self, instruction, system),
            0xA8 => tay(self, instruction, system),
            0xBA => tsx(self, instruction, system),
            0x8A => txa(self, instruction, system),
            0x9A => txs(self, instruction, system),
            0x98 => tya(self, instruction, system),
            _ => {
                proof {
                    lemma_execute_nop(*self, system@, instruction, operand, operand2);
                }
                nop(self, instruction)
            },
        }
    }

    /// Raises the maskable interrupt line. Raising it again before it is
    /// serviced changes nothing.
    pub fn request_irq_interrupt(&mut self)
        ensures
            *final(self) == (CPU { irq_requested: true, ..*old(self) }),
    {
        self.irq_requested = true;
    }

    /// Raises the non-maskable interrupt line. Raising it again before it is
    /// serviced changes nothing.
    pub fn request_nmi_interrupt(&mut self)
        ensures
            *final(self) == (CPU { nmi_requested: true, ..*old(self) }),
    {
        self.nmi_requested = true;
    }
}

/// Or-ing a stack pointer into the stack base adds it.
pub proof fn lemma_stack_slot(sp: u8)
    by (bit_vector)
    ensures
        0x100usize | (sp as usize) == 0x100 + sp,
{
}

} // verus!
