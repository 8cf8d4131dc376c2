//! The picture unit: its eight bus-visible registers, the scanline
//! counter, and the reading of sprites and tiles.
pub mod screen;

use crate::cartridge::Cartridge;
use crate::system::System;
pub use screen::{Color, Screen};
use screen::{black, tile_rows, BUFFER_SIDE, SCREEN_HEIGHT, SCREEN_WIDTH, TILE_SIDE};
use vstd::prelude::*;

verus! {

/// The registers of the picture unit, as the processor sees them at
/// `0x2000` to `0x2007`, and the scanline being drawn.
#[derive(Clone, Copy, Debug, PartialEq, Eq, Structural)]
pub struct PPU {
    pub ctrl: u8,
    pub mask: u8,
    pub status: u8,
    pub oam_addr: u8,
    pub oam_data: u8,
    pub scroll: u8,
    pub addr: u8,
    pub data: u8,
    pub scanline: u16,
}

/// One entry of object attribute memory.
#[derive(Clone, Copy, Debug, PartialEq, Eq, Structural)]
pub struct Sprite {
    pub y: u8,
    pub tile: u8,
    pub attr: u8,
    pub x: u8,
}

/// Last dot of a scanline.
pub const LAST_DOT: u64 = 340;

/// Last scanline of a frame.
pub const LAST_SCANLINE: u16 = 261;

/// Sprites that object attribute memory holds.
pub const SPRITE_COUNT: u8 = 64;

/// The dot after `dot`: the next one on the scanline, or the first of the
/// next scanline after the last.
pub open spec fn next_dot(dot: u64) -> u64 {
    if dot >= LAST_DOT {
        0
    } else {
        (dot + 1) as u64
    }
}

/// The scanline on which the dot after `dot` lies: the same one, the next
/// one after the last dot, or the first of the next frame after the last
/// scanline.
pub open spec fn next_scanline(scanline: u16, dot: u64) -> u16 {
    if dot < LAST_DOT {
        scanline
    } else if scanline >= LAST_SCANLINE {
        0
    } else {
        (scanline + 1) as u16
    }
}

/// The sprite that object attribute memory holds at the given number: four
/// bytes, row, tile, attributes and column.
pub open spec fn sprite_at(oam: Seq<u8>, sprite_num: int) -> Sprite {
    Sprite {
        y: oam[4 * sprite_num],
        tile: oam[4 * sprite_num + 1],
        attr: oam[4 * sprite_num + 2],
        x: oam[4 * sprite_num + 3],
    }
}

impl PPU {
    /// The picture unit at power-on: every register and the scanline are zero.
    pub open spec fn power_on() -> PPU {
        PPU {
            ctrl: 0,
            mask: 0,
            status: 0,
            oam_addr: 0,
            oam_data: 0,
            scroll: 0,
            addr: 0,
            data: 0,
            scanline: 0,
        }
    }

    /// A picture unit at power-on.
    pub fn new() -> (ppu: PPU)
        ensures
            ppu == PPU::power_on(),
    {
        PPU {
            ctrl: 0,
            mask: 0,
            status: 0,
            oam_addr: 0,
            oam_data: 0,
            scroll: 0,
            addr: 0,
            data: 0,
            scanline: 0,
        }
    }

    /// Moves the picture unit on by one dot. `cycles` is the dot that the
    /// unit is at; the dot after it is returned, and the scanline moves on
    /// when the dot wraps. Neither the machine nor `cycles` is changed.
    pub fn tick(&mut self, system: &mut System, cycles: &mut u64) -> (next: u64)
        ensures
            *final(system) == *old(system),
            *final(cycles) == *old(cycles),
            next == next_dot(*old(cycles)),
            *final(self) == (PPU {
                scanline: next_scanline(old(self).scanline, *old(cycles)),
                ..*old(self)
            }),
    {
        let cycle = *cycles;
        if self.scanline <= 239 {
            self.render_scanline(cycle);
        } else if self.scanline == 240 {
            self.post_render();
        } else if self.scanline <= 260 {
            self.vertical_blank();
        }
        if cycle >= LAST_DOT {
            if self.scanline >= LAST_SCANLINE {
                self.scanline = 0;
            } else {
                self.scanline += 1;
            }
            0
        } else {
            cycle + 1
        }
    }

    /// What the unit does at a dot of a visible scanline: nothing yet.
    pub fn render_scanline(&self, cycles: u64) {
    }

    /// What the unit does on the scanline after the picture: nothing yet.
    pub fn post_render(&self) {
    }

    /// What the unit does during vertical blank: nothing yet.
    pub fn vertical_blank(&self) {
    }

    /// Reads a sprite from object attribute memory.
    pub fn fetch(&self, system: &System, sprite_num: u8) -> (sprite: Sprite)
        requires
            system.wf(),
            sprite_num < SPRITE_COUNT,
        ensures
            sprite == sprite_at(system.oam@, sprite_num as int),
    {
        let sprite_addr: usize = sprite_num as usize * 4;
        Sprite {
            y: system.oam[sprite_addr],
            tile: system.oam[sprite_addr + 1],
            attr: system.oam[sprite_addr + 2],
            x: system.oam[sprite_addr + 3],
        }
    }

    /// The picture of the cartridge's tiles: a black screen with the tile
    /// map of character ROM drawn from the top left corner. Without
    /// character ROM the screen stays black.
    pub fn get_screen(&self, rom: Cartridge) -> (screen: Screen)
        requires
            TILE_SIDE * tile_rows(rom.chr_rom.len() as int) <= BUFFER_SIDE,
        ensures
            screen.width == SCREEN_WIDTH,
            screen.height == SCREEN_HEIGHT,
            forall|px: int, py: int|
                0 <= px < BUFFER_SIDE && 0 <= py < BUFFER_SIDE ==> #[trigger] screen.pixels[px][py]
                    == if Screen::in_map(rom.chr_rom.len() as int, 0, 0, px, py) {
                    Screen::map_color(rom.chr_rom@, 0, 0, px, py)
                } else {
                    black()
                },
    {
        if rom.chr_rom.len() == 0 {
            return Screen::new();
        }
        let mut screen = Screen::new();
        screen.draw_entire_sprite_map(rom, 0, 0);
        screen
    }
}

} // verus!
