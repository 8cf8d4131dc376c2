//! The cartridge: the header of a ROM image and its program and character
//! data, with the address-mapped reads that the rest of the machine uses.
use crate::word::{make_word, word};
use vstd::prelude::*;
use vstd::slice::{slice_subrange, slice_to_vec};

verus! {

/// Bytes in one bank of program ROM.
pub const PRG_BANK_SIZE: usize = 0x4000;

/// Bytes in one bank of character ROM.
pub const CHR_BANK_SIZE: usize = 0x2000;

/// Bytes in the header of a ROM image.
pub const HEADER_SIZE: usize = 16;

/// First address of the window through which the processor sees program ROM.
pub const PRG_WINDOW: u16 = 0x8000;

/// First address of the window through which character ROM is read.
pub const CHR_WINDOW: u16 = 0x2000;

/// The fields of the sixteen-byte header of a ROM image.
#[derive(Clone, Copy, Debug, PartialEq, Eq, Structural)]
pub struct CartridgeHeader {
    pub ines: bool,
    pub nes2: bool,
    pub prg_rom_size: u8,
    pub chr_rom_size: u8,
    pub flags: u16,
    pub mapper: u8,
    pub submapper: u8,
    pub prg_msb_rom_size: u8,
    pub chr_msb_rom_size: u8,
    pub prg_ram_size: u8,
    pub chr_ram_size: u8,
    pub cpu_ppu_timing: u8,
    pub is_vs_unisystem: bool,
    pub vs_unisystem: u8,
    pub is_extended_console: bool,
    pub extended_console: u8,
    pub misc_roms: u8,
    pub default_expansion_device: u8,
}

/// A loaded cartridge: its header and its two ROM regions.
#[derive(Clone, Debug)]
pub struct Cartridge {
    pub header: CartridgeHeader,
    pub prg_rom: Vec<u8>,
    pub chr_rom: Vec<u8>,
}

/// The mathematical content of a cartridge.
pub struct CartridgeView {
    pub header: CartridgeHeader,
    pub prg_rom: Seq<u8>,
    pub chr_rom: Seq<u8>,
}

/// Why a ROM image was rejected.
#[derive(Clone, Copy, Debug, PartialEq, Eq, Structural)]
pub enum RomError {
    /// The image does not start with the signature `N E S 0x1A`.
    BadSignature,
    /// The image is shorter than its header and the banks the header announces.
    Truncated,
}

impl View for Cartridge {
    type V = CartridgeView;

    open spec fn view(&self) -> CartridgeView {
        CartridgeView { header: self.header, prg_rom: self.prg_rom@, chr_rom: self.chr_rom@ }
    }
}

/// Whether an image starts with the four signature bytes.
pub open spec fn has_signature(image: Seq<u8>) -> bool {
    &&& image.len() >= 4
    &&& image[0] == 0x4E
    &&& image[1] == 0x45
    &&& image[2] == 0x53
    &&& image[3] == 0x1A
}

/// The header fields that the first sixteen bytes of an image encode.
pub open spec fn header_of(image: Seq<u8>) -> CartridgeHeader
    recommends
        image.len() >= HEADER_SIZE,
{
    CartridgeHeader {
        ines: true,
        nes2: image[7] & 0x0C == 0x08,
        prg_rom_size: image[4],
        chr_rom_size: image[5],
        flags: word(image[7], image[6]),
        mapper: (image[6] & 0xF0) | (image[7] >> 4),
        submapper: (image[8] & 0xF0) | (image[9] >> 4),
        prg_msb_rom_size: image[9] & 0x0F,
        chr_msb_rom_size: image[10] & 0x0F,
        prg_ram_size: image[10] >> 4,
        chr_ram_size: image[10] & 0x0F,
        cpu_ppu_timing: image[11] & 0x03,
        is_vs_unisystem: image[7] & 0x01 == 0x01,
        vs_unisystem: image[8] & 0x0F,
        is_extended_console: image[12] & 0x0C == 0x08,
        extended_console: image[12] & 0x0C,
        misc_roms: image[12] & 0x03,
        default_expansion_device: image[13],
    }
}

/// Bytes of program ROM that an image announces in its header.
pub open spec fn prg_len_of(image: Seq<u8>) -> int {
    image[4] * PRG_BANK_SIZE
}

/// Bytes of character ROM that an image announces in its header.
pub open spec fn chr_len_of(image: Seq<u8>) -> int {
    image[5] * CHR_BANK_SIZE
}

/// Whether an image holds its header and every bank that the header announces.
pub open spec fn is_complete(image: Seq<u8>) -> bool {
    &&& image.len() >= HEADER_SIZE
    &&& image.len() >= HEADER_SIZE + prg_len_of(image) + chr_len_of(image)
}

/// The cartridge that a well-formed image holds: the header, then the
/// program banks, then the character banks.
pub open spec fn cartridge_of(image: Seq<u8>) -> CartridgeView
    recommends
        is_complete(image),
{
    CartridgeView {
        header: header_of(image),
        prg_rom: image.subrange(HEADER_SIZE as int, HEADER_SIZE + prg_len_of(image)),
        chr_rom: image.subrange(
            HEADER_SIZE + prg_len_of(image),
            HEADER_SIZE + prg_len_of(image) + chr_len_of(image),
        ),
    }
}

impl CartridgeView {
    /// The ROM regions are exactly as long as the bank counts of the header say.
    pub open spec fn wf(self) -> bool {
        &&& self.prg_rom.len() == self.header.prg_rom_size * PRG_BANK_SIZE
        &&& self.chr_rom.len() == self.header.chr_rom_size * CHR_BANK_SIZE
    }

    /// Where in program ROM a processor address falls: the offset into the
    /// window, wrapped by the size that the header announces.
    pub open spec fn prg_offset(self, address: int) -> int
        recommends
            address >= PRG_WINDOW,
            self.header.prg_rom_size > 0,
    {
        (address - PRG_WINDOW) % (self.header.prg_rom_size * PRG_BANK_SIZE)
    }

    /// The byte that program ROM shows at a processor address. Below the
    /// window, with no bank, or past the end of the data it is zero.
    pub open spec fn prg_byte(self, address: int) -> u8 {
        if address < PRG_WINDOW || self.header.prg_rom_size == 0 {
            0
        } else if self.prg_offset(address) < self.prg_rom.len() {
            self.prg_rom[self.prg_offset(address)]
        } else {
            0
        }
    }

    /// The byte that character ROM shows at an address. Below the window or
    /// past the end of the data it is zero.
    pub open spec fn chr_byte(self, address: int) -> u8 {
        if CHR_WINDOW <= address && address - CHR_WINDOW < self.chr_rom.len() {
            self.chr_rom[address - CHR_WINDOW]
        } else {
            0
        }
    }

    /// The little-endian word of program ROM at an address; the address of
    /// the high byte wraps at the top of the address space.
    pub open spec fn prg_word(self, address: int) -> u16 {
        word(self.prg_byte(address), self.prg_byte((address + 1) % 0x10000))
    }
}

impl Cartridge {
    /// The ROM regions are exactly as long as the bank counts of the header say.
    pub open spec fn wf(&self) -> bool {
        self@.wf()
    }

    /// Whether the ROM regions are as long as the header says.
    pub fn is_well_formed(&self) -> (ok: bool)
        ensures
            ok == self.wf(),
    {
        self.prg_rom.len() == self.header.prg_rom_size as usize * PRG_BANK_SIZE
            && self.chr_rom.len() == self.header.chr_rom_size as usize * CHR_BANK_SIZE
    }

    /// Reads a ROM image. It is accepted when it starts with the signature
    /// and holds the header and all the banks that the header announces.
    pub fn from_bytes(image: &[u8]) -> (result: Result<Cartridge, RomError>)
        ensures
            result is Ok <==> has_signature(image@) && is_complete(image@),
            result matches Ok(cartridge) ==> cartridge@ == cartridge_of(image@) && cartridge.wf(),
            result == Err::<Cartridge, RomError>(RomError::BadSignature) <==> !has_signature(
                image@,
            ),
            result == Err::<Cartridge, RomError>(RomError::Truncated) <==> has_signature(image@)
                && !is_complete(image@),
    {
        if image.len() < 4 || image[0] != 0x4E || image[1] != 0x45 || image[2] != 0x53 || image[3]
            != 0x1A {
            return Err(RomError::BadSignature);
        }
        if image.len() < HEADER_SIZE {
            return Err(RomError::Truncated);
        }
        let prg_len: usize = image[4] as usize * PRG_BANK_SIZE;
        let chr_len: usize = image[5] as usize * CHR_BANK_SIZE;
        if image.len() - HEADER_SIZE < prg_len || image.len() - HEADER_SIZE - prg_len < chr_len {
            return Err(RomError::Truncated);
        }
        let header = CartridgeHeader {
            ines: true,
            nes2: image[7] & 0x0C == 0x08,
            prg_rom_size: image[4],
            chr_rom_size: image[5],
            flags: make_word(image[7], image[6]),
            mapper: (image[6] & 0xF0) | (image[7] >> 4),
            submapper: (image[8] & 0xF0) | (image[9] >> 4),
            prg_msb_rom_size: image[9] & 0x0F,
            chr_msb_rom_size: image[10] & 0x0F,
            prg_ram_size: image[10] >> 4,
            chr_ram_size: image[10] & 0x0F,
            cpu_ppu_timing: image[11] & 0x03,
            is_vs_unisystem: image[7] & 0x01 == 0x01,
            vs_unisystem: image[8] & 0x0F,
            is_extended_console: image[12] & 0x0C == 0x08,
            extended_console: image[12] & 0x0C,
            misc_roms: image[12] & 0x03,
            default_expansion_device: image[13],
        };
        let prg_end: usize = HEADER_SIZE + prg_len;
        let prg_rom = slice_to_vec(slice_subrange(image, HEADER_SIZE, prg_end));
        let chr_rom = slice_to_vec(slice_subrange(image, prg_end, prg_end + chr_len));
        Ok(Cartridge { header, prg_rom, chr_rom })
    }

    /// The byte of program ROM that the processor sees at `address`.
    pub fn get_prg_from_address(&self, address: u16) -> (value: u8)
        ensures
            value == self@.prg_byte(address as int),
    {
        if address < PRG_WINDOW || self.header.prg_rom_size == 0 {
            return 0;
        }
        let size: usize = self.header.prg_rom_size as usize * PRG_BANK_SIZE;
        let offset: usize = (address - PRG_WINDOW) as usize % size;
        if offset < self.prg_rom.len() {
            self.prg_rom[offset]
        } else {
            0
        }
    }

    /// The byte of character ROM at `address`.
    pub fn get_chr_from_address(&self, address: u16) -> (value: u8)
        ensures
            value == self@.chr_byte(address as int),
    {
        if address < CHR_WINDOW {
            return 0;
        }
        let offset: usize = (address - CHR_WINDOW) as usize;
        if offset < self.chr_rom.len() {
            self.chr_rom[offset]
        } else {
            0
        }
    }

    /// The little-endian word of program ROM at `addr`.
    pub fn read_prg_word(&self, addr: u16) -> (value: u16)
        ensures
            value == self@.prg_word(addr as int),
    {
        let low = self.get_prg_from_address(addr);
        let high = self.get_prg_from_address(addr.wrapping_add(1));
        make_word(low, high)
    }
}

/// In a cartridge whose regions match its header, every address of the
/// program window with a bank behind it shows a byte of program ROM.
pub proof fn lemma_prg_window_is_mapped(cartridge: CartridgeView, address: int)
    requires
        cartridge.wf(),
        cartridge.header.prg_rom_size > 0,
        PRG_WINDOW <= address <= 0xFFFF,
    ensures
        0 <= cartridge.prg_offset(address) < cartridge.prg_rom.len(),
        cartridge.prg_byte(address) == cartridge.prg_rom[cartridge.prg_offset(address)],
{
}

} // verus!
