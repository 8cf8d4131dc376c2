//! The machine as a whole: the processor, the picture unit, the cartridge
//! and the three byte buffers that they share.
use crate::cartridge::{Cartridge, CartridgeView};
use crate::cpu::CPU;
use crate::ppu::PPU;
use vstd::prelude::*;

verus! {

/// Bytes of system RAM.
pub const RAM_SIZE: usize = 0x800;

/// Bytes of video RAM.
pub const VRAM_SIZE: usize = 0x800;

/// Bytes of object attribute memory.
pub const OAM_SIZE: usize = 0x100;

/// The shared state of the machine. Whoever drives the machine owns it and
/// lends it to one component at a time.
pub struct System {
    pub cpu: CPU,
    pub ppu: PPU,
    pub rom: Cartridge,
    pub ram: Vec<u8>,
    pub vram: Vec<u8>,
    pub oam: Vec<u8>,
}

/// The mathematical content of the shared state.
pub struct SystemView {
    pub cpu: CPU,
    pub ppu: PPU,
    pub rom: CartridgeView,
    pub ram: Seq<u8>,
    pub vram: Seq<u8>,
    pub oam: Seq<u8>,
}

impl View for System {
    type V = SystemView;

    open spec fn view(&self) -> SystemView {
        SystemView {
            cpu: self.cpu,
            ppu: self.ppu,
            rom: self.rom@,
            ram: self.ram@,
            vram: self.vram@,
            oam: self.oam@,
        }
    }
}

impl SystemView {
    /// The three buffers have their fixed sizes.
    pub open spec fn wf(self) -> bool {
        &&& self.ram.len() == RAM_SIZE
        &&& self.vram.len() == VRAM_SIZE
        &&& self.oam.len() == OAM_SIZE
    }

    /// This state with `ram` in place of its system RAM.
    pub open spec fn with_ram(self, ram: Seq<u8>) -> SystemView {
        SystemView { ram, ..self }
    }

    /// This state with `ppu` in place of its picture unit.
    pub open spec fn with_ppu(self, ppu: PPU) -> SystemView {
        SystemView { ppu, ..self }
    }
}

impl System {
    /// The three buffers have their fixed sizes.
    pub open spec fn wf(&self) -> bool {
        self@.wf()
    }

    /// Whether the three buffers have their fixed sizes.
    pub fn is_well_formed(&self) -> (ok: bool)
        ensures
            ok == self.wf(),
    {
        self.ram.len() == RAM_SIZE && self.vram.len() == VRAM_SIZE && self.oam.len() == OAM_SIZE
    }

    /// A machine at power-on around the given cartridge: a fresh processor
    /// and picture unit, and zeroed buffers.
    pub fn new(rom: Cartridge) -> (system: System)
        ensures
            system.wf(),
            system.cpu == CPU::power_on(),
            system.ppu == PPU::power_on(),
            system.rom == rom,
            system.ram@ == Seq::new(RAM_SIZE as nat, |i: int| 0u8),
            system.vram@ == Seq::new(VRAM_SIZE as nat, |i: int| 0u8),
            system.oam@ == Seq::new(OAM_SIZE as nat, |i: int| 0u8),
    {
        let ram = vec![0u8; RAM_SIZE];
        let vram = vec![0u8; VRAM_SIZE];
        let oam = vec![0u8; OAM_SIZE];
        assert(ram@ =~= Seq::new(RAM_SIZE as nat, |i: int| 0u8));
        assert(vram@ =~= Seq::new(VRAM_SIZE as nat, |i: int| 0u8));
        assert(oam@ =~= Seq::new(OAM_SIZE as nat, |i: int| 0u8));
        System { cpu: CPU::new(), ppu: PPU::new(), rom, ram, vram, oam }
    }
}

} // verus!
