//! The memory map: which part of the machine owns each address, and what a
//! read or a write at that address does.
//!
//! | addresses         | owner                | read                      | write     |
//! |-------------------|----------------------|---------------------------|-----------|
//! | `0x0000..=0x1FFF` | system RAM           | `ram[address % 0x800]`    | stored    |
//! | `0x2000..=0x3FFF` | picture registers    | register `address % 8`    | stored    |
//! | `0x4000..=0x401F` | sound and I/O        | zero                      | discarded |
//! | `0x4020..=0x5FFF` | expansion            | zero                      | discarded |
//! | `0x6000..=0x7FFF` | cartridge RAM        | zero                      | discarded |
//! | `0x8000..=0xFFFF` | cartridge program ROM| byte at the wrapped offset| discarded |
//!
//! An address above `0xFFFF` has no owner: it reads as zero and a write to
//! it is discarded.
use crate::ppu::PPU;
use crate::system::{SystemView, RAM_SIZE};
use crate::word::{high_byte, low_byte, word};
use vstd::prelude::*;

verus! {

/// Last address that system RAM answers to.
pub const RAM_LAST: usize = 0x1FFF;

/// Last address that the picture registers answer to.
pub const PPU_LAST: usize = 0x3FFF;

/// Last address of the sound and I/O registers.
pub const IO_LAST: usize = 0x401F;

/// Last address of the expansion area.
pub const EXPANSION_LAST: usize = 0x5FFF;

/// Last address of cartridge RAM.
pub const SRAM_LAST: usize = 0x7FFF;

/// Last address of the address space.
pub const ADDRESS_LAST: usize = 0xFFFF;

/// The part of the machine that owns an address.
pub enum Region {
    Ram,
    PpuRegisters,
    Io,
    Expansion,
    CartridgeRam,
    PrgRom,
    Unmapped,
}

/// The owner of an address: the first range of the memory map that holds it.
pub open spec fn region_of(address: int) -> Region {
    if address < 0 {
        Region::Unmapped
    } else if address <= RAM_LAST {
        Region::Ram
    } else if address <= PPU_LAST {
        Region::PpuRegisters
    } else if address <= IO_LAST {
        Region::Io
    } else if address <= EXPANSION_LAST {
        Region::Expansion
    } else if address <= SRAM_LAST {
        Region::CartridgeRam
    } else if address <= ADDRESS_LAST {
        Region::PrgRom
    } else {
        Region::Unmapped
    }
}

/// The picture register with the given index: control, mask, status, sprite
/// address, sprite data, scroll, address, data.
pub open spec fn ppu_register(ppu: PPU, index: int) -> u8 {
    if index == 0 {
        ppu.ctrl
    } else if index == 1 {
        ppu.mask
    } else if index == 2 {
        ppu.status
    } else if index == 3 {
        ppu.oam_addr
    } else if index == 4 {
        ppu.oam_data
    } else if index == 5 {
        ppu.scroll
    } else if index == 6 {
        ppu.addr
    } else if index == 7 {
        ppu.data
    } else {
        0
    }
}

/// The picture unit after `value` is stored in the register with the given index.
pub open spec fn with_ppu_register(ppu: PPU, index: int, value: u8) -> PPU {
    if index == 0 {
        PPU { ctrl: value, ..ppu }
    } else if index == 1 {
        PPU { mask: value, ..ppu }
    } else if index == 2 {
        PPU { status: value, ..ppu }
    } else if index == 3 {
        PPU { oam_addr: value, ..ppu }
    } else if index == 4 {
        PPU { oam_data: value, ..ppu }
    } else if index == 5 {
        PPU { scroll: value, ..ppu }
    } else if index == 6 {
        PPU { addr: value, ..ppu }
    } else if index == 7 {
        PPU { data: value, ..ppu }
    } else {
        ppu
    }
}

/// The byte that the bus returns for a read at `address`.
#[verifier::opaque]
pub open spec fn read_byte(sys: SystemView, address: int) -> u8 {
    match region_of(address) {
        Region::Ram => sys.ram[address % (RAM_SIZE as int)],
        Region::PpuRegisters => ppu_register(sys.ppu, address % 8),
        Region::PrgRom => sys.rom.prg_byte(address),
        _ => 0,
    }
}

/// The machine after the bus has taken a write of `value` at `address`.
#[verifier::opaque]
pub open spec fn write_byte(sys: SystemView, address: int, value: u8) -> SystemView {
    match region_of(address) {
        Region::Ram => sys.with_ram(sys.ram.update(address % (RAM_SIZE as int), value)),
        Region::PpuRegisters => sys.with_ppu(with_ppu_register(sys.ppu, address % 8, value)),
        _ => sys,
    }
}

/// The little-endian word that two reads return: the low byte at `address`,
/// the high byte at `address + 1`.
pub open spec fn read_word(sys: SystemView, address: int) -> u16 {
    word(read_byte(sys, address), read_byte(sys, address + 1))
}

/// The machine after a little-endian word was written: the low byte at
/// `address`, then the high byte at `address + 1`.
pub open spec fn write_word(sys: SystemView, address: int, value: u16) -> SystemView {
    write_byte(write_byte(sys, address, low_byte(value)), address + 1, high_byte(value))
}

/// Masking an address selects its place in RAM and its picture register.
pub proof fn lemma_mirror_masks(address: usize)
    by (bit_vector)
    ensures
        address & 0x7FF == address % 0x800,
        address & 0x7 == address % 8,
        0x2000 | (address & 0x7) == 0x2000 + address % 8,
{
}

} // verus!
