//! The instruction set as a table: for each opcode byte the operation, the
//! addressing mode, the base cycle count and the number of bytes by which
//! the program counter moves on.
use vstd::prelude::*;

verus! {

/// How an instruction finds its operand.
#[derive(Clone, Copy, Debug, PartialEq, Eq, Structural)]
pub enum Mode {
    /// No operand.
    Implied,
    /// The accumulator is the operand.
    Accumulator,
    /// The byte after the opcode is the operand.
    Immediate,
    /// The byte after the opcode is an address in page zero.
    ZeroPage,
    /// Page-zero address plus X, wrapping within page zero.
    ZeroPageX,
    /// Page-zero address plus Y, wrapping within page zero.
    ZeroPageY,
    /// The two bytes after the opcode are the address, low byte first.
    Absolute,
    /// Absolute address plus X.
    AbsoluteX,
    /// Absolute address plus Y.
    AbsoluteY,
    /// The address is the word stored at the absolute address.
    Indirect,
    /// The address is the word stored in page zero at the operand plus X.
    IndirectX,
    /// The address is the word stored in page zero at the operand, plus Y.
    IndirectY,
    /// The byte after the opcode is a signed distance from the next instruction.
    Relative,
}

/// What an instruction does.
#[derive(Clone, Copy, Debug, PartialEq, Eq, Structural)]
pub enum Operation {
    Adc,
    And,
    Asl,
    Bcc,
    Bcs,
    Beq,
    Bit,
    Bmi,
    Bne,
    Bpl,
    Brk,
    Bvc,
    Bvs,
    Clc,
    Cld,
    Cli,
    Clv,
    Cmp,
    Cpx,
    Cpy,
    Dec,
    Dex,
    Dey,
    Eor,
    Inc,
    Inx,
    Iny,
    Jmp,
    Jsr,
    Lda,
    Ldx,
    Ldy,
    Lsr,
    Nop,
    Ora,
    Pha,
    Php,
    Pla,
    Plp,
    Rol,
    Ror,
    Rti,
    Rts,
    Sbc,
    Sec,
    Sed,
    Sei,
    Sta,
    Stx,
    Sty,
    Tax,
    Tay,
    Tsx,
    Txa,
    Txs,
    Tya,
}

/// One row of the instruction table.
pub struct Decoded {
    pub operation: Operation,
    pub mode: Mode,
    /// Cycles the instruction takes before any page-crossing or branch penalty.
    pub cycles: u64,
    /// Bytes by which the program counter moves past the instruction.
    pub length: u16,
}

/// Cycles that every instruction costs at the least, and that an opcode
/// handed to the wrong handler reports.
pub const BASE_CYCLES: u64 = 2;

/// Bytes that an instruction of the given mode occupies.
pub open spec fn length_of(mode: Mode) -> u16 {
    match mode {
        Mode::Implied | Mode::Accumulator => 1,
        Mode::Absolute | Mode::AbsoluteX | Mode::AbsoluteY | Mode::Indirect => 3,
        _ => 2,
    }
}

/// Base cycles of an instruction that reads its operand.
pub open spec fn read_cycles_of(mode: Mode) -> u64 {
    match mode {
        Mode::ZeroPage => 3,
        Mode::ZeroPageX | Mode::ZeroPageY | Mode::Absolute | Mode::AbsoluteX | Mode::AbsoluteY => 4,
        Mode::IndirectX => 6,
        Mode::IndirectY => 5,
        _ => 2,
    }
}

/// Base cycles of an instruction that stores a register.
pub open spec fn store_cycles_of(mode: Mode) -> u64 {
    match mode {
        Mode::ZeroPage => 3,
        Mode::ZeroPageX | Mode::ZeroPageY | Mode::Absolute => 4,
        Mode::AbsoluteX | Mode::AbsoluteY => 5,
        Mode::IndirectX | Mode::IndirectY => 6,
        _ => 2,
    }
}

/// Base cycles of an instruction that reads, changes and writes back its operand.
pub open spec fn modify_cycles_of(mode: Mode) -> u64 {
    match mode {
        Mode::ZeroPage => 5,
        Mode::ZeroPageX | Mode::Absolute => 6,
        Mode::AbsoluteX => 7,
        _ => 2,
    }
}

/// The row of an instruction that reads its operand.
pub open spec fn reads(operation: Operation, mode: Mode) -> Decoded {
    Decoded { operation, mode, cycles: read_cycles_of(mode), length: length_of(mode) }
}

/// The row of an instruction that stores a register.
pub open spec fn stores(operation: Operation, mode: Mode) -> Decoded {
    Decoded { operation, mode, cycles: store_cycles_of(mode), length: length_of(mode) }
}

/// The row of an instruction that changes its operand in place.
pub open spec fn modifies(operation: Operation, mode: Mode) -> Decoded {
    Decoded { operation, mode, cycles: modify_cycles_of(mode), length: length_of(mode) }
}

/// The row of a one-byte instruction.
pub open spec fn implied(operation: Operation, cycles: u64) -> Decoded {
    Decoded { operation, mode: Mode::Implied, cycles, length: 1 }
}

/// The row of a branch.
pub open spec fn branches(operation: Operation) -> Decoded {
    Decoded { operation, mode: Mode::Relative, cycles: 2, length: 2 }
}

/// The row of an instruction that sets the program counter itself.
pub open spec fn jumps(operation: Operation, mode: Mode, cycles: u64) -> Decoded {
    Decoded { operation, mode, cycles, length: length_of(mode) }
}

/// The row of a no-operation, which moves on by one byte in every mode.
pub open spec fn idles(mode: Mode, cycles: u64) -> Decoded {
    Decoded { operation: Operation::Nop, mode, cycles, length: 1 }
}

/// The instruction table. An opcode outside the supported set is a
/// no-operation of one byte and two cycles.
pub open spec fn decode(opcode: u8) -> Decoded {
    match opcode {
        0x00 => implied(Operation::Brk, 7),
        0x01 => reads(Operation::Ora, Mode::IndirectX),
        0x04 => idles(Mode::ZeroPage, 3),
        0x05 => reads(Operation::Ora, Mode::ZeroPage),
        0x06 => modifies(Operation::Asl, Mode::ZeroPage),
        0x08 => implied(Operation::Php, 3),
        0x09 => reads(Operation::Ora, Mode::Immediate),
        0x0A => modifies(Operation::Asl, Mode::Accumulator),
        0x0C => idles(Mode::Absolute, 4),
        0x0D => reads(Operation::Ora, Mode::Absolute),
        0x0E => modifies(Operation::Asl, Mode::Absolute),
        0x10 => branches(Operation::Bpl),
        0x11 => reads(Operation::Ora, Mode::IndirectY),
        0x14 => idles(Mode::ZeroPageX, 4),
        0x15 => reads(Operation::Ora, Mode::ZeroPageX),
        0x16 => modifies(Operation::Asl, Mode::ZeroPageX),
        0x18 => implied(Operation::Clc, 2),
        0x19 => reads(Operation::Ora, Mode::AbsoluteY),
        0x1A => idles(Mode::Implied, 2),
        0x1C => idles(Mode::AbsoluteX, 4),
        0x1D => reads(Operation::Ora, Mode::AbsoluteX),
        0x1E => modifies(Operation::Asl, Mode::AbsoluteX),
        0x20 => jumps(Operation::Jsr, Mode::Absolute, 6),
        0x21 => reads(Operation::And, Mode::IndirectX),
        0x24 => reads(Operation::Bit, Mode::ZeroPage),
        0x25 => reads(Operation::And, Mode::ZeroPage),
        0x26 => modifies(Operation::Rol, Mode::ZeroPage),
        0x28 => implied(Operation::Plp, 4),
        0x29 => reads(Operation::And, Mode::Immediate),
        0x2A => modifies(Operation::Rol, Mode::Accumulator),
        0x2C => reads(Operation::Bit, Mode::Absolute),
        0x2D => reads(Operation::And, Mode::Absolute),
        0x2E => modifies(Operation::Rol, Mode::Absolute),
        0x30 => branches(Operation::Bmi),
        0x31 => reads(Operation::And, Mode::IndirectY),
        0x34 => idles(Mode::ZeroPageX, 4),
        0x35 => reads(Operation::And, Mode::ZeroPageX),
        0x36 => modifies(Operation::Rol, Mode::ZeroPageX),
        0x38 => implied(Operation::Sec, 2),
        0x39 => reads(Operation::And, Mode::AbsoluteY),
        0x3A => idles(Mode::Implied, 2),
        0x3C => idles(Mode::AbsoluteX, 4),
        0x3D => reads(Operation::And, Mode::AbsoluteX),
        0x3E => modifies(Operation::Rol, Mode::AbsoluteX),
        0x40 => implied(Operation::Rti, 6),
        0x41 => reads(Operation::Eor, Mode::IndirectX),
        0x44 => idles(Mode::ZeroPage, 3),
        0x45 => reads(Operation::Eor, Mode::ZeroPage),
        0x46 => modifies(Operation::Lsr, Mode::ZeroPage),
        0x48 => implied(Operation::Pha, 3),
        0x49 => reads(Operation::Eor, Mode::Immediate),
        0x4A => modifies(Operation::Lsr, Mode::Accumulator),
        0x4C => jumps(Operation::Jmp, Mode::Absolute, 3),
        0x4D => reads(Operation::Eor, Mode::Absolute),
        0x4E => modifies(Operation::Lsr, Mode::Absolute),
        0x50 => branches(Operation::Bvc),
        0x51 => reads(Operation::Eor, Mode::IndirectY),
        0x54 => idles(Mode::ZeroPageX, 4),
        0x55 => reads(Operation::Eor, Mode::ZeroPageX),
        0x56 => modifies(Operation::Lsr, Mode::ZeroPageX),
        0x58 => implied(Operation::Cli, 2),
        0x59 => reads(Operation::Eor, Mode::AbsoluteY),
        0x5A => idles(Mode::Implied, 2),
        0x5C => idles(Mode::AbsoluteX, 4),
        0x5D => reads(Operation::Eor, Mode::AbsoluteX),
        0x5E => modifies(Operation::Lsr, Mode::AbsoluteX),
        0x60 => implied(Operation::Rts, 6),
        0x61 => reads(Operation::Adc, Mode::IndirectX),
        0x64 => idles(Mode::ZeroPage, 3),
        0x65 => reads(Operation::Adc, Mode::ZeroPage),
        0x66 => modifies(Operation::Ror, Mode::ZeroPage),
        0x68 => implied(Operation::Pla, 4),
        0x69 => reads(Operation::Adc, Mode::Immediate),
        0x6A => modifies(Operation::Ror, Mode::Accumulator),
        0x6C => jumps(Operation::Jmp, Mode::Indirect, 5),
        0x6D => reads(Operation::Adc, Mode::Absolute),
        0x6E => modifies(Operation::Ror, Mode::Absolute),
        0x70 => branches(Operation::Bvs),
        0x71 => reads(Operation::Adc, Mode::IndirectY),
        0x74 => idles(Mode::ZeroPageX, 4),
        0x75 => reads(Operation::Adc, Mode::ZeroPageX),
        0x76 => modifies(Operation::Ror, Mode::ZeroPageX),
        0x78 => implied(Operation::Sei, 2),
        0x79 => reads(Operation::Adc, Mode::AbsoluteY),
        0x7A => idles(Mode::Implied, 2),
        0x7C => idles(Mode::AbsoluteX, 4),
        0x7D => reads(Operation::Adc, Mode::AbsoluteX),
        0x7E => modifies(Operation::Ror, Mode::AbsoluteX),
        0x80 => idles(Mode::Immediate, 2),
        0x81 => stores(Operation::Sta, Mode::IndirectX),
        0x82 => idles(Mode::Immediate, 2),
        0x84 => stores(Operation::Sty, Mode::ZeroPage),
        0x85 => stores(Operation::Sta, Mode::ZeroPage),
        0x86 => stores(Operation::Stx, Mode::ZeroPage),
        0x88 => implied(Operation::Dey, 2),
        0x89 => idles(Mode::Immediate, 2),
        0x8A => implied(Operation::Txa, 2),
        0x8C => stores(Operation::Sty, Mode::Absolute),
        0x8D => stores(Operation::Sta, Mode::Absolute),
        0x8E => stores(Operation::Stx, Mode::Absolute),
        0x90 => branches(Operation::Bcc),
        0x91 => stores(Operation::Sta, Mode::IndirectY),
        0x94 => stores(Operation::Sty, Mode::ZeroPageX),
        0x95 => stores(Operation::Sta, Mode::ZeroPageX),
        0x96 => stores(Operation::Stx, Mode::ZeroPageY),
        0x98 => implied(Operation::Tya, 2),
        0x99 => stores(Operation::Sta, Mode::AbsoluteY),
        0x9A => implied(Operation::Txs, 2),
        0x9D => stores(Operation::Sta, Mode::AbsoluteX),
        0xA0 => reads(Operation::Ldy, Mode::Immediate),
        0xA1 => reads(Operation::Lda, Mode::IndirectX),
        0xA2 => reads(Operation::Ldx, Mode::Immediate),
        0xA4 => reads(Operation::Ldy, Mode::ZeroPage),
        0xA5 => reads(Operation::Lda, Mode::ZeroPage),
        0xA6 => reads(Operation::Ldx, Mode::ZeroPage),
        0xA8 => implied(Operation::Tay, 2),
        0xA9 => reads(Operation::Lda, Mode::Immediate),
        0xAA => implied(Operation::Tax, 2),
        0xAC => reads(Operation::Ldy, Mode::Absolute),
        0xAD => reads(Operation::Lda, Mode::Absolute),
        0xAE => reads(Operation::Ldx, Mode::Absolute),
        0xB0 => branches(Operation::Bcs),
        0xB1 => reads(Operation::Lda, Mode::IndirectY),
        0xB4 => reads(Operation::Ldy, Mode::ZeroPageX),
        0xB5 => reads(Operation::Lda, Mode::ZeroPageX),
        0xB6 => reads(Operation::Ldx, Mode::ZeroPageY),
        0xB8 => implied(Operation::Clv, 2),
        0xB9 => reads(Operation::Lda, Mode::AbsoluteY),
        0xBA => implied(Operation::Tsx, 2),
        0xBC => reads(Operation::Ldy, Mode::AbsoluteX),
        0xBD => reads(Operation::Lda, Mode::AbsoluteX),
        0xBE => reads(Operation::Ldx, Mode::AbsoluteY),
        0xC0 => reads(Operation::Cpy, Mode::Immediate),
        0xC1 => reads(Operation::Cmp, Mode::IndirectX),
        0xC2 => idles(Mode::Immediate, 2),
        0xC4 => reads(Operation::Cpy, Mode::ZeroPage),
        0xC5 => reads(Operation::Cmp, Mode::ZeroPage),
        0xC6 => modifies(Operation::Dec, Mode::ZeroPage),
        0xC8 => implied(Operation::Iny, 2),
        0xC9 => reads(Operation::Cmp, Mode::Immediate),
        0xCA => implied(Operation::Dex, 2),
        0xCC => reads(Operation::Cpy, Mode::Absolute),
        0xCD => reads(Operation::Cmp, Mode::Absolute),
        0xCE => modifies(Operation::Dec, Mode::Absolute),
        0xD0 => branches(Operation::Bne),
        0xD1 => reads(Operation::Cmp, Mode::IndirectY),
        0xD4 => idles(Mode::ZeroPageX, 4),
        0xD5 => reads(Operation::Cmp, Mode::ZeroPageX),
        0xD6 => modifies(Operation::Dec, Mode::ZeroPageX),
        0xD8 => implied(Operation::Cld, 2),
        0xD9 => reads(Operation::Cmp, Mode::AbsoluteY),
        0xDA => idles(Mode::Implied, 2),
        0xDC => idles(Mode::AbsoluteX, 4),
        0xDD => reads(Operation::Cmp, Mode::AbsoluteX),
        0xDE => modifies(Operation::Dec, Mode::AbsoluteX),
        0xE0 => reads(Operation::Cpx, Mode::Immediate),
        0xE1 => reads(Operation::Sbc, Mode::IndirectX),
        0xE2 => idles(Mode::Immediate, 2),
        0xE4 => reads(Operation::Cpx, Mode::ZeroPage),
        0xE5 => reads(Operation::Sbc, Mode::ZeroPage),
        0xE6 => modifies(Operation::Inc, Mode::ZeroPage),
        0xE8 => implied(Operation::Inx, 2),
        0xE9 => reads(Operation::Sbc, Mode::Immediate),
        0xEA => idles(Mode::Implied, 2),
        0xEC => reads(Operation::Cpx, Mode::Absolute),
        0xED => reads(Operation::Sbc, Mode::Absolute),
        0xEE => modifies(Operation::Inc, Mode::Absolute),
        0xF0 => branches(Operation::Beq),
        0xF1 => reads(Operation::Sbc, Mode::IndirectY),
        0xF4 => idles(Mode::ZeroPageX, 4),
        0xF5 => reads(Operation::Sbc, Mode::ZeroPageX),
        0xF6 => modifies(Operation::Inc, Mode::ZeroPageX),
        0xF8 => implied(Operation::Sed, 2),
        0xF9 => reads(Operation::Sbc, Mode::AbsoluteY),
        0xFA => idles(Mode::Implied, 2),
        0xFC => idles(Mode::AbsoluteX, 4),
        0xFD => reads(Operation::Sbc, Mode::AbsoluteX),
        0xFE => modifies(Operation::Inc, Mode::AbsoluteX),
        _ => idles(Mode::Implied, 2),
    }
}

/// Bytes that an instruction of the given mode occupies.
pub fn mode_length(mode: Mode) -> (length: u16)
    ensures
        length == length_of(mode),
{
    match mode {
        Mode::Implied | Mode::Accumulator => 1,
        Mode::Absolute | Mode::AbsoluteX | Mode::AbsoluteY | Mode::Indirect => 3,
        _ => 2,
    }
}

/// Base cycles of an instruction that reads its operand in the given mode.
pub fn read_cycles(mode: Mode) -> (cycles: u64)
    ensures
        cycles == read_cycles_of(mode),
{
    match mode {
        Mode::ZeroPage => 3,
        Mode::ZeroPageX | Mode::ZeroPageY | Mode::Absolute | Mode::AbsoluteX | Mode::AbsoluteY => 4,
        Mode::IndirectX => 6,
        Mode::IndirectY => 5,
        _ => 2,
    }
}

/// Base cycles of an instruction that stores a register in the given mode.
pub fn store_cycles(mode: Mode) -> (cycles: u64)
    ensures
        cycles == store_cycles_of(mode),
{
    match mode {
        Mode::ZeroPage => 3,
        Mode::ZeroPageX | Mode::ZeroPageY | Mode::Absolute => 4,
        Mode::AbsoluteX | Mode::AbsoluteY => 5,
        Mode::IndirectX | Mode::IndirectY => 6,
        _ => 2,
    }
}

/// Base cycles of an instruction that changes its operand in place.
pub fn modify_cycles(mode: Mode) -> (cycles: u64)
    ensures
        cycles == modify_cycles_of(mode),
{
    match mode {
        Mode::ZeroPage => 5,
        Mode::ZeroPageX | Mode::Absolute => 6,
        Mode::AbsoluteX => 7,
        _ => 2,
    }
}

} // verus!
