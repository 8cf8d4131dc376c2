//! Colours, the master palette, and the screen with the drawing of tiles
//! from character ROM onto it.
use crate::cartridge::Cartridge;
use vstd::prelude::*;

verus! {

/// Pixels in a row of the picture.
pub const SCREEN_WIDTH: usize = 256;

/// Rows of the picture.
pub const SCREEN_HEIGHT: usize = 240;

/// Pixels along each side of the pixel buffer.
pub const BUFFER_SIDE: usize = 256;

/// Pixels along each side of a tile.
pub const TILE_SIDE: usize = 8;

/// Bytes that a tile occupies in character ROM: two planes of eight rows.
pub const TILE_BYTES: usize = 16;

/// Tiles in one row of the tile map.
pub const TILES_PER_ROW: usize = 32;

/// A colour in red, green and blue.
#[derive(Clone, Copy, Debug, PartialEq, Eq, Structural)]
pub struct Color {
    pub r: u8,
    pub g: u8,
    pub b: u8,
}

/// The picture: a buffer of pixels indexed by column, then by row.
pub struct Screen {
    pub width: usize,
    pub height: usize,
    pub pixels: [[Color; 256]; 256],
}

/// The colour with the given parts.
pub open spec fn rgb(r: u8, g: u8, b: u8) -> Color {
    Color { r, g, b }
}

/// Black, the colour of a cleared screen.
pub open spec fn black() -> Color {
    rgb(0, 0, 0)
}

/// The master palette: the colour of each of the 64 palette entries. Only
/// the low six bits of the index count.
pub open spec fn palette_color(palette: u8) -> Color {
    match palette & 0x3F {
        0x00 => rgb(0x75, 0x75, 0x75),
        0x01 => rgb(0x27, 0x1B, 0x8F),
        0x02 => rgb(0x00, 0x00, 0xAB),
        0x03 => rgb(0x47, 0x00, 0x9F),
        0x04 => rgb(0x8F, 0x00, 0x77),
        0x05 => rgb(0xAB, 0x00, 0x13),
        0x06 => rgb(0xA7, 0x00, 0x00),
        0x07 => rgb(0x7F, 0x0B, 0x00),
        0x08 => rgb(0x43, 0x2F, 0x00),
        0x09 => rgb(0x00, 0x47, 0x00),
        0x0A => rgb(0x00, 0x51, 0x00),
        0x0B => rgb(0x00, 0x3F, 0x17),
        0x0C => rgb(0x1B, 0x3F, 0x5F),
        0x0D => rgb(0x00, 0x00, 0x00),
        0x0E => rgb(0x00, 0x00, 0x00),
        0x0F => rgb(0x00, 0x00, 0x00),
        0x10 => rgb(0xBC, 0xBC, 0xBC),
        0x11 => rgb(0x00, 0x73, 0xEF),
        0x12 => rgb(0x23, 0x3B, 0xEF),
        0x13 => rgb(0x83, 0x00, 0xF3),
        0x14 => rgb(0xBF, 0x00, 0xBF),
        0x15 => rgb(0xE7, 0x00, 0x5B),
        0x16 => rgb(0xDB, 0x2B, 0x00),
        0x17 => rgb(0xCB, 0x4F, 0x0F),
        0x18 => rgb(0x8B, 0x73, 0x00),
        0x19 => rgb(0x00, 0x97, 0x00),
        0x1A => rgb(0x00, 0xAB, 0x00),
        0x1B => rgb(0x00, 0x93, 0x3B),
        0x1C => rgb(0x00, 0x83, 0x8B),
        0x1D => rgb(0x00, 0x00, 0x00),
        0x1E => rgb(0x00, 0x00, 0x00),
        0x1F => rgb(0x00, 0x00, 0x00),
        0x20 => rgb(0xFF, 0xFF, 0xFF),
        0x21 => rgb(0x3F, 0xBF, 0xFF),
        0x22 => rgb(0x5F, 0x97, 0xFF),
        0x23 => rgb(0xA7, 0x8B, 0xFD),
        0x24 => rgb(0xF7, 0x7B, 0xFF),
        0x25 => rgb(0xFF, 0x77, 0xB7),
        0x26 => rgb(0xFF, 0x77, 0x63),
        0x27 => rgb(0xFF, 0x9B, 0x3B),
        0x28 => rgb(0xF3, 0xBF, 0x3F),
        0x29 => rgb(0x83, 0xD3, 0x13),
        0x2A => rgb(0x4F, 0xDF, 0x4B),
        0x2B => rgb(0x58, 0xF8, 0x98),
        0x2C => rgb(0x00, 0xEB, 0xDB),
        0x2D => rgb(0x00, 0x00, 0x00),
        0x2E => rgb(0x00, 0x00, 0x00),
        0x2F => rgb(0x00, 0x00, 0x00),
        0x30 => rgb(0xFF, 0xFF, 0xFF),
        0x31 => rgb(0xAB, 0xE7, 0xFF),
        0x32 => rgb(0xC7, 0xD7, 0xFF),
        0x33 => rgb(0xD7, 0xCB, 0xFF),
        0x34 => rgb(0xFF, 0xC7, 0xFF),
        0x35 => rgb(0xFF, 0xC7, 0xDB),
        0x36 => rgb(0xFF, 0xBF, 0xB3),
        0x37 => rgb(0xFF, 0xDB, 0xAB),
        0x38 => rgb(0xFF, 0xE7, 0xA3),
        0x39 => rgb(0xE3, 0xFF, 0xA3),
        0x3A => rgb(0xAB, 0xF3, 0xBF),
        0x3B => rgb(0xB3, 0xFF, 0xCF),
        0x3C => rgb(0x9F, 0xFF, 0xF3),
        0x3D => rgb(0x00, 0x00, 0x00),
        0x3E => rgb(0x00, 0x00, 0x00),
        0x3F => rgb(0x00, 0x00, 0x00),
        _ => rgb(0x69, 0x69, 0x69),
    }
}

/// The first byte of the tile in column `x` and row `y` of the tile map.
pub open spec fn tile_offset(x: int, y: int) -> int {
    y * TILES_PER_ROW * TILE_BYTES + x * TILE_BYTES
}

/// The two-bit colour index of a pixel of a tile: bit 0 comes from the
/// first plane of the tile, bit 1 from the second, each at the byte of the
/// pixel's row and at the bit of its column, leftmost column in bit 7.
pub open spec fn pixel_index(chr: Seq<u8>, offset: int, col: int, row: int) -> u8
    recommends
        0 <= col < 8,
        0 <= row < 8,
        0 <= offset,
        offset + TILE_BYTES <= chr.len(),
{
    (((chr[offset + row + 8] >> ((7 - col) as usize)) & 1) << 1) | ((chr[offset + row] >> ((7
        - col) as usize)) & 1)
}

/// The colour of a pixel of the tile in column `x` and row `y` of the tile map.
pub open spec fn tile_pixel(chr: Seq<u8>, x: int, y: int, col: int, row: int) -> Color {
    palette_color(pixel_index(chr, tile_offset(x, y), col, row))
}

/// Rows of tiles that character ROM of the given length fills in the tile map.
pub open spec fn tile_rows(chr_len: int) -> int {
    chr_len / 32 / TILES_PER_ROW as int
}

/// Whether a sprite holds the given tile.
pub open spec fn is_tile(sprite: [[Color; 8]; 8], chr: Seq<u8>, x: int, y: int) -> bool {
    forall|col: int, row: int|
        0 <= col < 8 && 0 <= row < 8 ==> #[trigger] sprite[col][row] == tile_pixel(
            chr,
            x,
            y,
            col,
            row,
        )
}

impl Color {
    /// The colour with the given parts.
    pub fn new(r: u8, g: u8, b: u8) -> (color: Color)
        ensures
            color == rgb(r, g, b),
    {
        Color { r, g, b }
    }

    /// The colour of an entry of the master palette.
    pub fn from_palette(palette: u8) -> (color: Color)
        ensures
            color == palette_color(palette),
    {
        match palette & 0x3F {
            0x00 => Color::new(0x75, 0x75, 0x75),
            0x01 => Color::new(0x27, 0x1B, 0x8F),
            0x02 => Color::new(0x00, 0x00, 0xAB),
            0x03 => Color::new(0x47, 0x00, 0x9F),
            0x04 => Color::new(0x8F, 0x00, 0x77),
            0x05 => Color::new(0xAB, 0x00, 0x13),
            0x06 => Color::new(0xA7, 0x00, 0x00),
            0x07 => Color::new(0x7F, 0x0B, 0x00),
            0x08 => Color::new(0x43, 0x2F, 0x00),
            0x09 => Color::new(0x00, 0x47, 0x00),
            0x0A => Color::new(0x00, 0x51, 0x00),
            0x0B => Color::new(0x00, 0x3F, 0x17),
            0x0C => Color::new(0x1B, 0x3F, 0x5F),
            0x0D => Color::new(0x00, 0x00, 0x00),
            0x0E => Color::new(0x00, 0x00, 0x00),
            0x0F => Color::new(0x00, 0x00, 0x00),
            0x10 => Color::new(0xBC, 0xBC, 0xBC),
            0x11 => Color::new(0x00, 0x73, 0xEF),
            0x12 => Color::new(0x23, 0x3B, 0xEF),
            0x13 => Color::new(0x83, 0x00, 0xF3),
            0x14 => Color::new(0xBF, 0x00, 0xBF),
            0x15 => Color::new(0xE7, 0x00, 0x5B),
            0x16 => Color::new(0xDB, 0x2B, 0x00),
            0x17 => Color::new(0xCB, 0x4F, 0x0F),
            0x18 => Color::new(0x8B, 0x73, 0x00),
            0x19 => Color::new(0x00, 0x97, 0x00),
            0x1A => Color::new(0x00, 0xAB, 0x00),
            0x1B => Color::new(0x00, 0x93, 0x3B),
            0x1C => Color::new(0x00, 0x83, 0x8B),
            0x1D => Color::new(0x00, 0x00, 0x00),
            0x1E => Color::new(0x00, 0x00, 0x00),
            0x1F => Color::new(0x00, 0x00, 0x00),
            0x20 => Color::new(0xFF, 0xFF, 0xFF),
            0x21 => Color::new(0x3F, 0xBF, 0xFF),
            0x22 => Color::new(0x5F, 0x97, 0xFF),
            0x23 => Color::new(0xA7, 0x8B, 0xFD),
            0x24 => Color::new(0xF7, 0x7B, 0xFF),
            0x25 => Color::new(0xFF, 0x77, 0xB7),
            0x26 => Color::new(0xFF, 0x77, 0x63),
            0x27 => Color::new(0xFF, 0x9B, 0x3B),
            0x28 => Color::new(0xF3, 0xBF, 0x3F),
            0x29 => Color::new(0x83, 0xD3, 0x13),
            0x2A => Color::new(0x4F, 0xDF, 0x4B),
            0x2B => Color::new(0x58, 0xF8, 0x98),
            0x2C => Color::new(0x00, 0xEB, 0xDB),
            0x2D => Color::new(0x00, 0x00, 0x00),
            0x2E => Color::new(0x00, 0x00, 0x00),
            0x2F => Color::new(0x00, 0x00, 0x00),
            0x30 => Color::new(0xFF, 0xFF, 0xFF),
            0x31 => Color::new(0xAB, 0xE7, 0xFF),
            0x32 => Color::new(0xC7, 0xD7, 0xFF),
            0x33 => Color::new(0xD7, 0xCB, 0xFF),
            0x34 => Color::new(0xFF, 0xC7, 0xFF),
            0x35 => Color::new(0xFF, 0xC7, 0xDB),
            0x36 => Color::new(0xFF, 0xBF, 0xB3),
            0x37 => Color::new(0xFF, 0xDB, 0xAB),
            0x38 => Color::new(0xFF, 0xE7, 0xA3),
            0x39 => Color::new(0xE3, 0xFF, 0xA3),
            0x3A => Color::new(0xAB, 0xF3, 0xBF),
            0x3B => Color::new(0xB3, 0xFF, 0xCF),
            0x3C => Color::new(0x9F, 0xFF, 0xF3),
            0x3D => Color::new(0x00, 0x00, 0x00),
            0x3E => Color::new(0x00, 0x00, 0x00),
            0x3F => Color::new(0x00, 0x00, 0x00),
            _ => Color::new(0x69, 0x69, 0x69),
        }
    }
}

impl Screen {
    /// The pixel in column `x` and row `y`.
    pub open spec fn pixel(&self, x: int, y: int) -> Color {
        self.pixels[x][y]
    }

    /// Every pixel in the given columns and rows is black.
    pub open spec fn is_black(&self, width: int, height: int) -> bool {
        forall|x: int, y: int|
            0 <= x < width && 0 <= y < height ==> #[trigger] self.pixels[x][y] == black()
    }

    /// The pixel that a screen shows at `(px, py)` after `sprite` was drawn
    /// with its corner at `(x, y)` over the pixels of `before`.
    pub open spec fn drawn_pixel(
        before: Screen,
        x: int,
        y: int,
        sprite: [[Color; 8]; 8],
        px: int,
        py: int,
    ) -> Color {
        if x <= px < x + 8 && y <= py < y + 8 {
            sprite[px - x][py - y]
        } else {
            before.pixels[px][py]
        }
    }

    /// Whether the pixel at `(px, py)` lies inside the tile map of character
    /// ROM of the given length, drawn with its corner at `(x, y)`.
    pub open spec fn in_map(chr_len: int, x: int, y: int, px: int, py: int) -> bool {
        x <= px < x + 8 * TILES_PER_ROW && y <= py < y + 8 * tile_rows(chr_len)
    }

    /// The colour that the tile map of `chr`, drawn with its corner at
    /// `(x, y)`, has at the pixel `(px, py)` inside it.
    pub open spec fn map_color(chr: Seq<u8>, x: int, y: int, px: int, py: int) -> Color {
        tile_pixel(chr, (px - x) / 8, (py - y) / 8, (px - x) % 8, (py - y) % 8)
    }

    /// The pixel that a screen shows at `(px, py)` after the tile map of
    /// `chr` was drawn with its corner at `(x, y)` over the pixels of
    /// `before`: inside the map the pixel of its tile, outside what was there.
    pub open spec fn map_pixel(
        before: Screen,
        chr: Seq<u8>,
        x: int,
        y: int,
        px: int,
        py: int,
    ) -> Color {
        if Screen::in_map(chr.len() as int, x, y, px, py) {
            Screen::map_color(chr, x, y, px, py)
        } else {
            before.pixels[px][py]
        }
    }

    /// A black screen of 256 by 240 pixels.
    pub fn new() -> (screen: Screen)
        ensures
            screen.width == SCREEN_WIDTH,
            screen.height == SCREEN_HEIGHT,
            screen.is_black(BUFFER_SIDE as int, BUFFER_SIDE as int),
    {
        Screen { width: 256, height: 240, pixels: [[Color { r: 0, g: 0, b: 0 }; 256]; 256] }
    }

    /// The pixel in column `x` and row `y`.
    pub fn get_pixel(&self, x: usize, y: usize) -> (color: Color)
        requires
            x < BUFFER_SIDE,
            y < BUFFER_SIDE,
        ensures
            color == self.pixel(x as int, y as int),
    {
        self.pixels[x][y]
    }

    /// Draws a sprite of eight by eight pixels with its corner at `(x, y)`.
    pub fn draw_sprite(&mut self, x: usize, y: usize, sprite: [[Color; 8]; 8])
        requires
            x + TILE_SIDE <= BUFFER_SIDE,
            y + TILE_SIDE <= BUFFER_SIDE,
        ensures
            final(self).width == old(self).width,
            final(self).height == old(self).height,
            forall|px: int, py: int|
                0 <= px < BUFFER_SIDE && 0 <= py < BUFFER_SIDE ==> #[trigger] final(self).pixels[px][py] == Screen::drawn_pixel(
                    *old(self),
                    x as int,
                    y as int,
                    sprite,
                    px,
                    py,
                ),
    {
        let ghost before = *self;
        for i in 0..8usize
            invariant
                x + TILE_SIDE <= BUFFER_SIDE,
                y + TILE_SIDE <= BUFFER_SIDE,
                self.width == before.width,
                self.height == before.height,
                forall|px: int, py: int|
                    0 <= px < BUFFER_SIDE && 0 <= py < BUFFER_SIDE ==> #[trigger] self.pixels[px][py]
                        == if px < x + i {
                        Screen::drawn_pixel(before, x as int, y as int, sprite, px, py)
                    } else {
                        before.pixels[px][py]
                    },
        {
            for j in 0..8usize
                invariant
                    i < 8,
                    x + TILE_SIDE <= BUFFER_SIDE,
                    y + TILE_SIDE <= BUFFER_SIDE,
                    self.width == before.width,
                    self.height == before.height,
                    forall|px: int, py: int|
                        0 <= px < BUFFER_SIDE && 0 <= py < BUFFER_SIDE
                            ==> #[trigger] self.pixels[px][py] == if px < x + i || (px == x + i
                            && py < y + j) {
                            Screen::drawn_pixel(before, x as int, y as int, sprite, px, py)
                        } else {
                            before.pixels[px][py]
                        },
            {
                self.pixels[x + i][y + j] = sprite[i][j];
            }
        }
    }

    /// Reads the tile in column `x` and row `y` of the tile map from
    /// character ROM and returns it as a sprite in palette colours.
    pub fn get_sprite(&self, chr: Vec<u8>, x: usize, y: usize) -> (sprite: [[Color; 8]; 8])
        requires
            tile_offset(x as int, y as int) + TILE_BYTES <= chr.len(),
        ensures
            is_tile(sprite, chr@, x as int, y as int),
    {
        let mut sprite = [[Color { r: 0, g: 0, b: 0 }; 8]; 8];
        let first: usize = y * 32 * 16 + x * 16;
        for col in 0..8usize
            invariant
                first == tile_offset(x as int, y as int),
                first + TILE_BYTES <= chr.len(),
                forall|c: int, r: int|
                    0 <= c < col && 0 <= r < 8 ==> #[trigger] sprite[c][r] == tile_pixel(
                        chr@,
                        x as int,
                        y as int,
                        c,
                        r,
                    ),
        {
            for row in 0..8usize
                invariant
                    col < 8,
                    first == tile_offset(x as int, y as int),
                    first + TILE_BYTES <= chr.len(),
                    forall|c: int, r: int|
                        (0 <= c < col && 0 <= r < 8) || (c == col && 0 <= r < row)
                            ==> #[trigger] sprite[c][r] == tile_pixel(
                            chr@,
                            x as int,
                            y as int,
                            c,
                            r,
                        ),
            {
                let byte1 = chr[first + row];
                let byte2 = chr[first + row + 8];
                let bit1 = (byte1 >> (7 - col)) & 1;
                let bit2 = (byte2 >> (7 - col)) & 1;
                let color = (bit2 << 1) | bit1;
                sprite[col][row] = Color::from_palette(color);
            }
        }
        sprite
    }

    /// Draws every tile of the cartridge's character ROM as a map of 32
    /// tiles per row with its corner at `(x, y)`.
    pub fn draw_entire_sprite_map(&mut self, rom: Cartridge, x: usize, y: usize)
        requires
            x + TILE_SIDE * TILES_PER_ROW <= BUFFER_SIDE,
            y + TILE_SIDE * tile_rows(rom.chr_rom.len() as int) <= BUFFER_SIDE,
        ensures
            final(self).width == old(self).width,
            final(self).height == old(self).height,
            forall|px: int, py: int|
                0 <= px < BUFFER_SIDE && 0 <= py < BUFFER_SIDE ==> #[trigger] final(self).pixels[px][py] == Screen::map_pixel(
                    *old(self),
                    rom.chr_rom@,
                    x as int,
                    y as int,
                    px,
                    py,
                ),
    {
        let ghost before = *self;
        let chr = rom.chr_rom;
        let tiles_per_row: usize = 32;
        let tiles_per_column: usize = chr.len() / 32 / tiles_per_row;
        for i in 0..tiles_per_row
            invariant
                tiles_per_row == TILES_PER_ROW,
                tiles_per_column == tile_rows(chr.len() as int),
                x + TILE_SIDE * TILES_PER_ROW <= BUFFER_SIDE,
                y + TILE_SIDE * tiles_per_column <= BUFFER_SIDE,
                self.width == before.width,
                self.height == before.height,
                forall|px: int, py: int|
                    0 <= px < BUFFER_SIDE && 0 <= py < BUFFER_SIDE ==> #[trigger] self.pixels[px][py]
                        == if px < x + 8 * i {
                        Screen::map_pixel(before, chr@, x as int, y as int, px, py)
                    } else {
                        before.pixels[px][py]
                    },
        {
            for j in 0..tiles_per_column
                invariant
                    i < tiles_per_row,
                    tiles_per_row == TILES_PER_ROW,
                    tiles_per_column == tile_rows(chr.len() as int),
                    x + TILE_SIDE * TILES_PER_ROW <= BUFFER_SIDE,
                    y + TILE_SIDE * tiles_per_column <= BUFFER_SIDE,
                    self.width == before.width,
                    self.height == before.height,
                    forall|px: int, py: int|
                        0 <= px < BUFFER_SIDE && 0 <= py < BUFFER_SIDE
                            ==> #[trigger] self.pixels[px][py] == if px < x + 8 * i || (px < x + 8
                            * i + 8 && py < y + 8 * j) {
                            Screen::map_pixel(before, chr@, x as int, y as int, px, py)
                        } else {
                            before.pixels[px][py]
                        },
            {
                let sprite = self.get_sprite(chr.clone(), i, j);
                let ghost shown = *self;
                self.draw_sprite(x + i * 8, y + j * 8, sprite);
                assert forall|px: int, py: int|
                    0 <= px < BUFFER_SIDE && 0 <= py < BUFFER_SIDE implies #[trigger] self.pixels[px][py]
                    == if px < x + 8 * i || (px < x + 8 * i + 8 && py < y + 8 * (j + 1)) {
                    Screen::map_pixel(before, chr@, x as int, y as int, px, py)
                } else {
                    before.pixels[px][py]
                } by {
                    if x + 8 * i <= px < x + 8 * i + 8 && y + 8 * j <= py < y + 8 * j + 8 {
                        assert((px - x) / 8 == i && (px - x) % 8 == px - (x + i * 8));
                        assert((py - y) / 8 == j && (py - y) % 8 == py - (y + j * 8));
                        assert(sprite[px - (x + i * 8)][py - (y + j * 8)] == tile_pixel(
                            chr@,
                            i as int,
                            j as int,
                            px - (x + i * 8),
                            py - (y + j * 8),
                        ));
                    }
                }
            }
        }
    }

    /// Paints every pixel of the picture black.
    pub fn clear(&mut self)
        requires
            old(self).width <= BUFFER_SIDE,
            old(self).height <= BUFFER_SIDE,
        ensures
            final(self).width == old(self).width,
            final(self).height == old(self).height,
            forall|px: int, py: int|
                0 <= px < BUFFER_SIDE && 0 <= py < BUFFER_SIDE ==> #[trigger] final(self).pixels[px][py] == if px < old(self).width && py < old(self).height {
                    black()
                } else {
                    old(self).pixels[px][py]
                },
    {
        let ghost before = *self;
        let width = self.width;
        let height = self.height;
        for i in 0..width
            invariant
                width == before.width,
                height == before.height,
                width <= BUFFER_SIDE,
                height <= BUFFER_SIDE,
                self.width == before.width,
                self.height == before.height,
                forall|px: int, py: int|
                    0 <= px < BUFFER_SIDE && 0 <= py < BUFFER_SIDE ==> #[trigger] self.pixels[px][py]
                        == if px < i && py < height {
                        black()
                    } else {
                        before.pixels[px][py]
                    },
        {
            for j in 0..height
                invariant
                    i < width,
                    width == before.width,
                    height == before.height,
                    width <= BUFFER_SIDE,
                    height <= BUFFER_SIDE,
                    self.width == before.width,
                    self.height == before.height,
                    forall|px: int, py: int|
                        0 <= px < BUFFER_SIDE && 0 <= py < BUFFER_SIDE
                            ==> #[trigger] self.pixels[px][py] == if (px < i && py < height) || (px
                            == i && py < j) {
                            black()
                        } else {
                            before.pixels[px][py]
                        },
            {
                self.pixels[i][j] = Color::new(0, 0, 0);
            }
        }
    }
}

} // verus!
