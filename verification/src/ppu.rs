//! The picture unit: its registers, its video memory, the rendering of
//! scanlines into a frame buffer, and the scanline clock that follows the
//! processor's cycle count.

use vstd::prelude::*;
use crate::bits::lemma_color_bytes;
use crate::bits::lemma_field_bounds;
use crate::bits::lemma_mirror_masks;
use crate::bits::lemma_replace_byte;
use crate::bits::lemma_top_bit;
use crate::cartridge::Cartridge;
use crate::cartridge::CartridgeView;

verus! {

/// Pixels in a scanline.
pub const SCREEN_WIDTH: usize = 256;

/// Visible scanlines in a frame.
pub const SCREEN_HEIGHT: usize = 240;

/// Bytes in the frame buffer: three for each pixel.
pub const FRAME_SIZE: usize = 184320;

/// Processor cycles that one scanline lasts.
pub const SCANLINE_CYCLES: u64 = 114;

/// Scanlines in a frame, the invisible ones included.
pub const SCANLINES_PER_FRAME: u16 = 262;

/// The scanline on which the vertical blank begins.
pub const VBLANK_SCANLINE: u16 = 241;

/// The colors that the picture unit can show, as 0xRRGGBB.
pub const PALETTE_RGB: [u32; 64] = [
    0x666666, 0x002A88, 0x1412A7, 0x3B00A4, 0x5C007E,
    0x6E0040, 0x6C0600, 0x561D00, 0x333500, 0x0B4800,
    0x005200, 0x004F08, 0x00404D, 0x000000, 0x000000,
    0x000000, 0xADADAD, 0x155FD9, 0x4240FF, 0x7527FE,
    0xA01ACC, 0xB71E7B, 0xB53120, 0x994E00, 0x6B6D00,
    0x388700, 0x0C9300, 0x008F32, 0x007C8D, 0x000000,
    0x000000, 0x000000, 0xFFFEFF, 0x64B0FF, 0x9290FF,
    0xC676FF, 0xF36AFF, 0xFE6ECC, 0xFE8170, 0xEA9E22,
    0xBCBE00, 0x88D800, 0x5CE430, 0x45E082, 0x48CDDE,
    0x4F4F4F, 0x000000, 0x000000, 0xFFFEFF, 0xC0DFFF,
    0xD3D2FF, 0xE8C8FF, 0xFBC2FF, 0xFEC4EA, 0xFECCC5,
    0xF7D8A5, 0xE4E594, 0xCFEF96, 0xBDF4AB, 0xB3F3CC,
    0xB5EBF2, 0xB8B8B8, 0x000000, 0x000000,
];

/// What a call of [`Ppu::step`] tells the driver.
#[derive(Clone, Copy, Debug)]
pub struct PpuResult {
    /// A frame was completed.
    pub new_frame: bool,
    /// The processor is to be interrupted.
    pub nmi: bool,
}

/// One entry of object-attribute memory.
#[derive(Clone, Copy, Debug)]
pub struct Sprite {
    pub x: u8,
    pub y: u8,
    pub index: u8,
    /// Flip vertically (bit 7), flip horizontally (bit 6), palette (bits 1
    /// and 0).
    pub attributes: u8,
}

/// The tiles of a sprite. A tile is named by its number, 0 to 255, plus
/// 0x1000 when it lies in the upper pattern table.
#[derive(Clone, Copy, Debug)]
pub enum Tiles {
    /// The one tile of an 8x8 sprite.
    Tiles8(u16),
    /// The upper and the lower tile of an 8x16 sprite.
    Tiles16(u16, u16),
}

/// Where the sixteen bytes of a tile begin in pattern memory.
pub open spec fn spec_tile_address(tile: u16) -> u16 {
    ((if tile >= 0x1000 {
        0x1000int
    } else {
        0int
    }) + (tile % 256) * 16) as u16
}

/// Where the sixteen bytes of a tile begin in pattern memory.
#[verifier::when_used_as_spec(spec_tile_address)]
pub fn tile_address(tile: u16) -> (address: u16)
    ensures
        address == spec_tile_address(tile),
        address % 16 == 0,
        address <= 0x1FF0,
{
    let table: u16 = if tile >= 0x1000 {
        0x1000
    } else {
        0
    };
    table + (tile % 256) * 16
}

impl Sprite {
    /// The palette of the sprite: one of the four sprite palettes, 4 to 7.
    pub open spec fn spec_palette(&self) -> u8 {
        ((self.attributes & 0x03) + 4) as u8
    }

    /// The palette of the sprite: one of the four sprite palettes, 4 to 7.
    #[verifier::when_used_as_spec(spec_palette)]
    pub fn palette(&self) -> (palette: u8)
        ensures
            palette == self.spec_palette(),
            4 <= palette <= 7,
    {
        proof {
            lemma_field_bounds(self.attributes, 0);
        }
        (self.attributes & 0x03) + 4
    }

    /// Whether the sprite is mirrored left to right.
    pub open spec fn spec_horizontal_flip(&self) -> bool {
        (self.attributes & 0x40) != 0
    }

    /// Whether the sprite is mirrored left to right.
    #[verifier::when_used_as_spec(spec_horizontal_flip)]
    pub fn horizontal_flip(&self) -> (flip: bool)
        ensures
            flip == self.spec_horizontal_flip(),
    {
        (self.attributes & 0x40) != 0
    }

    /// Whether the sprite is mirrored top to bottom.
    pub open spec fn spec_vertical_flip(&self) -> bool {
        (self.attributes & 0x80) != 0
    }

    /// Whether the sprite is mirrored top to bottom.
    #[verifier::when_used_as_spec(spec_vertical_flip)]
    pub fn vertical_flip(&self) -> (flip: bool)
        ensures
            flip == self.spec_vertical_flip(),
    {
        (self.attributes & 0x80) != 0
    }

    /// The tiles of the sprite under the control register `control`. An 8x8
    /// sprite takes its pattern table from bit 3 of the register. An 8x16
    /// sprite takes it from bit 0 of its own tile number, whatever the
    /// register says, and its two tiles are the even number below its tile
    /// number and the odd one after that.
    pub open spec fn tiles(&self, control: u8) -> Tiles {
        if control & 0x20 == 0 {
            Tiles::Tiles8(
                (self.index + (if control & 0x08 == 0 {
                    0int
                } else {
                    0x1000int
                })) as u16,
            )
        } else {
            let top = self.index - self.index % 2 + (if self.index % 2 == 1 {
                0x1000int
            } else {
                0int
            });
            Tiles::Tiles16(top as u16, (top + 1) as u16)
        }
    }

    /// Whether the sprite, `height` pixels high, covers the pixel in column
    /// `x` of scanline `y`.
    pub open spec fn covers(&self, x: u8, y: u16, height: u8) -> bool {
        &&& self.x <= x < self.x + 8
        &&& self.y <= y < self.y + height
    }

    /// The tiles of the sprite as the picture unit `ppu` is set up.
    pub fn get_tiles(&self, ppu: &Ppu) -> (tiles: Tiles)
        ensures
            tiles == self.tiles(ppu.regs.control),
    {
        if ppu.sprite_size() == 8 {
            Tiles::Tiles8(self.index as u16 + ppu.sprite_pattern_table_address())
        } else {
            let mut address: u16 = (self.index - self.index % 2) as u16;
            if self.index % 2 == 1 {
                address += 0x1000;
            }
            Tiles::Tiles16(address, address + 1)
        }
    }
}

/// What decides the color of a pixel: pattern memory, the name tables, the
/// palettes, object-attribute memory, and the control and mask registers.
pub struct Picture {
    pub chr: Seq<u8>,
    pub names: Seq<u8>,
    pub palettes: Seq<u8>,
    pub oam: Seq<u8>,
    pub control: u8,
    pub mask: u8,
}

/// Bit `7 - column` of a byte of a bit plane: the pixel in that column.
pub open spec fn plane_bit(plane: u8, column: u8) -> u8 {
    (plane >> ((7 - column % 8) as u8)) & 0x01
}

/// The palette group, 0 to 3, that an attribute byte gives to one quadrant
/// of the 4x4 tiles it covers: two bits for each quadrant, from the top
/// left in the low bits to the bottom right in the high bits.
pub open spec fn attribute_group(attributes: u8, right: bool, bottom: bool) -> u8 {
    if !right && !bottom {
        attributes & 0x03
    } else if right && !bottom {
        (attributes >> 2u8) & 0x03
    } else if !right && bottom {
        (attributes >> 4u8) & 0x03
    } else {
        (attributes >> 6u8) & 0x03
    }
}

/// One byte of a color: 0 is blue, 1 is green, 2 is red.
pub open spec fn color_byte(color: u32, channel: int) -> u8 {
    if channel == 0 {
        (color % 256) as u8
    } else if channel == 1 {
        ((color / 256) % 256) as u8
    } else {
        ((color / 65536) % 256) as u8
    }
}

impl Picture {
    /// Every memory has its size, and pattern memory holds both tables.
    pub open spec fn wf(self) -> bool {
        &&& self.chr.len() >= 0x2000
        &&& self.names.len() == 0x800
        &&& self.palettes.len() == 0x20
        &&& self.oam.len() == 0x100
    }

    /// The byte of video memory at `address`: pattern memory below 0x2000,
    /// then the name tables, 2 KB shown over and over, and from 0x3F00 the
    /// palettes, 32 bytes shown over and over.
    pub open spec fn load(self, address: u16) -> u8
        recommends
            address < 0x4000,
    {
        if address < 0x2000 {
            self.chr[address as int]
        } else if address < 0x3F00 {
            self.names[address as int % 0x800]
        } else {
            self.palettes[address as int % 0x20]
        }
    }

    /// Where the pattern table of the background begins.
    pub open spec fn background_table(self) -> u16 {
        if self.control & 0x10 == 0 {
            0
        } else {
            0x1000
        }
    }

    /// Where the pattern table of 8x8 sprites begins.
    pub open spec fn sprite_table(self) -> u16 {
        if self.control & 0x08 == 0 {
            0
        } else {
            0x1000
        }
    }

    /// The height of sprites: 8 or 16.
    pub open spec fn sprite_size(self) -> u8 {
        if self.control & 0x20 == 0 {
            8
        } else {
            16
        }
    }

    /// The color index, 0 to 3, of the pixel in column `x` of the tile row
    /// whose low bit plane is at `offset` and whose high one is eight bytes
    /// further on.
    pub open spec fn pattern_pixel(self, x: u8, offset: u16) -> u8
        recommends
            offset + 8 < 0x4000,
    {
        (2 * plane_bit(self.load((offset + 8) as u16), x) + plane_bit(self.load(offset), x)) as u8
    }

    /// The color of the background at column `x` of scanline `y`: the
    /// name table says which tile lies there, the pattern table of the
    /// background gives the color index of the pixel within the tile, the
    /// attribute table gives the palette group of the tile, and the palette
    /// entry of the two together is looked up among the colors that the unit
    /// can show.
    pub open spec fn background_color(self, x: u8, y: u16) -> u32
        recommends
            y < SCANLINES_PER_FRAME,
    {
        let column = x as int / 8;
        let row = y as int / 8;
        let tile = self.load((0x2000 + 32 * row + column) as u16);
        let offset = (tile * 16 + y % 8 + self.background_table()) as u16;
        let pixel = self.pattern_pixel(x % 8, offset);
        let attributes = self.load((0x23C0 + row / 4 * 8 + column / 4) as u16);
        let group = attribute_group(attributes, column % 4 >= 2, row % 4 >= 2);
        let entry = self.load((0x3F00 + group * 4 + pixel) as u16);
        PALETTE_RGB[(entry & 0x3F) as int]
    }

    /// Entry `n` of object-attribute memory.
    pub open spec fn sprite(self, n: int) -> Sprite
        recommends
            0 <= n < 64,
    {
        Sprite {
            y: self.oam[4 * n],
            index: self.oam[4 * n + 1],
            attributes: self.oam[4 * n + 2],
            x: self.oam[4 * n + 3],
        }
    }

    /// The color index, 0 to 3, that `sprite` has at column `x` of
    /// scanline `y`, which it covers; 0 is transparent.
    pub open spec fn sprite_pixel(self, sprite: Sprite, x: u8, y: u16) -> u8
        recommends
            sprite.covers(x, y, self.sprite_size()),
    {
        let column = if sprite.spec_horizontal_flip() {
            7 - (x - sprite.x)
        } else {
            x - sprite.x
        };
        let row = if sprite.spec_vertical_flip() {
            self.sprite_size() - 1 - (y - sprite.y)
        } else {
            y - sprite.y
        };
        let tile = match sprite.tiles(self.control) {
            Tiles::Tiles8(tile) => tile,
            Tiles::Tiles16(top, bottom) => if row < 8 {
                top
            } else {
                bottom
            },
        };
        self.pattern_pixel(column as u8, (spec_tile_address(tile) + row % 8) as u16)
    }

    /// The color that `sprite` gives to a pixel whose color index is
    /// `pixel`.
    pub open spec fn sprite_entry_color(self, sprite: Sprite, pixel: u8) -> u32 {
        let entry = self.load((0x3F00 + sprite.spec_palette() * 4 + pixel) as u16);
        PALETTE_RGB[(entry & 0x3F) as int]
    }

    /// The color that the sprites from entry `n` on give to the pixel at
    /// column `x` of scanline `y`, when `seen` earlier sprites cover it. The
    /// first sprite that covers the pixel and is not transparent there
    /// decides; the search ends with the eighth sprite that covers the pixel.
    pub open spec fn sprite_scan(self, x: u8, y: u16, n: int, seen: int) -> Option<u32>
        decreases 64 - n,
    {
        if n < 0 || n >= 64 || seen >= 8 {
            None
        } else if self.sprite(n).covers(x, y, self.sprite_size()) {
            let pixel = self.sprite_pixel(self.sprite(n), x, y);
            if pixel != 0 {
                Some(self.sprite_entry_color(self.sprite(n), pixel))
            } else {
                self.sprite_scan(x, y, n + 1, seen + 1)
            }
        } else {
            self.sprite_scan(x, y, n + 1, seen)
        }
    }

    /// The color that the sprites give to the pixel at column `x` of
    /// scanline `y`, if any does.
    pub open spec fn sprite_color(self, x: u8, y: u16) -> Option<u32> {
        self.sprite_scan(x, y, 0, 0)
    }

    /// Whether sprites are shown.
    pub open spec fn show_sprites(self) -> bool {
        self.mask & 0x08 != 0
    }

    /// Whether the background is shown.
    pub open spec fn show_background(self) -> bool {
        self.mask & 0x10 != 0
    }

    /// The color of the pixel at column `x` of scanline `y`: that of a
    /// sprite where sprites are shown and one is opaque there, else that of
    /// the background where it is shown, else black.
    pub open spec fn pixel_color(self, x: u8, y: u16) -> u32
        recommends
            y < SCREEN_HEIGHT,
    {
        let under = if self.show_background() {
            self.background_color(x, y)
        } else {
            0
        };
        if self.show_sprites() {
            match self.sprite_color(x, y) {
                Some(color) => color,
                None => under,
            }
        } else {
            under
        }
    }
}

/// The memory of the name tables: 2 KB, shown over and over.
pub struct Vram {
    pub val: [u8; 0x800],
}

impl View for Vram {
    type V = Seq<u8>;

    open spec fn view(&self) -> Seq<u8> {
        self.val@
    }
}

impl Vram {
    /// The byte at `address`, taken modulo the 2 KB that there are.
    pub fn load(&self, address: u16) -> (value: u8)
        ensures
            value == self@[address as int % 0x800],
    {
        proof {
            lemma_mirror_masks(address);
        }
        self.val[(address & 0x07FF) as usize]
    }

    /// Puts `value` at `address`, taken modulo the 2 KB that there are.
    pub fn store(&mut self, address: u16, value: u8)
        ensures
            final(self)@ == old(self)@.update(address as int % 0x800, value),
    {
        proof {
            lemma_mirror_masks(address);
        }
        self.val[(address & 0x07FF) as usize] = value;
    }
}

/// The registers that the processor reaches through the bus.
#[derive(Clone, Copy, Debug)]
pub struct Registers {
    /// 0x2000: interrupt at vertical blank (bit 7), sprite height (bit 5),
    /// background table (bit 4), sprite table (bit 3), address step (bit 2).
    pub control: u8,
    /// 0x2001: show sprites (bit 3), show background (bit 4).
    pub mask: u8,
    /// 0x2002: vertical blank (bit 7).
    pub status: u8,
    /// 0x2003
    pub oam_address: u8,
    /// 0x2004
    pub oam_data: u8,
    /// 0x2005
    pub scroll: u8,
    /// 0x2006
    pub address: u16,
}

impl Registers {
    /// The registers at power-on: all clear but for the vertical blank.
    pub fn new() -> (regs: Registers)
        ensures
            regs == (Registers {
                control: 0,
                mask: 0,
                status: 0x80,
                oam_address: 0,
                oam_data: 0,
                scroll: 0,
                address: 0,
            }),
    {
        Registers {
            control: 0,
            mask: 0,
            status: 0x80,
            oam_address: 0,
            oam_data: 0,
            scroll: 0,
            address: 0,
        }
    }
}

/// The picture unit.
pub struct Ppu {
    pub cartridge: Cartridge,
    pub regs: Registers,
    pub vram: Vram,
    /// Whether the next write to the scroll or the address register is the
    /// first of a pair. The two registers share this one toggle.
    pub first_write: bool,
    pub scroll_x: u8,
    pub scroll_y: u8,
    pub data_buffer: u8,
    pub cycle: u64,
    /// Three bytes for each pixel, blue first, row after row.
    pub frame_content: Vec<u8>,
    /// 0 to 239 are visible, 240 follows them, 241 to 260 are the vertical
    /// blank, 261 comes before the next frame.
    pub scanline: u16,
    pub frames: u64,
    pub palettes: [u8; 32],
    pub oam_data: [u8; 256],
}

/// The mathematical content of a picture unit.
pub struct PpuView {
    pub cartridge: CartridgeView,
    pub regs: Registers,
    pub vram: Seq<u8>,
    pub first_write: bool,
    pub scroll_x: u8,
    pub scroll_y: u8,
    pub data_buffer: u8,
    pub cycle: u64,
    pub frame: Seq<u8>,
    pub scanline: u16,
    pub frames: u64,
    pub palettes: Seq<u8>,
    pub oam: Seq<u8>,
}

impl View for Ppu {
    type V = PpuView;

    open spec fn view(&self) -> PpuView {
        PpuView {
            cartridge: self.cartridge@,
            regs: self.regs,
            vram: self.vram@,
            first_write: self.first_write,
            scroll_x: self.scroll_x,
            scroll_y: self.scroll_y,
            data_buffer: self.data_buffer,
            cycle: self.cycle,
            frame: self.frame_content@,
            scanline: self.scanline,
            frames: self.frames,
            palettes: self.palettes@,
            oam: self.oam_data@,
        }
    }
}

impl PpuView {
    /// The cartridge is well formed and has pattern memory for both tables,
    /// every memory has its size, and the scanline is one of the 262.
    pub open spec fn wf(self) -> bool {
        &&& self.cartridge.wf()
        &&& self.cartridge.header.chr_size >= 1
        &&& self.vram.len() == 0x800
        &&& self.palettes.len() == 0x20
        &&& self.oam.len() == 0x100
        &&& self.frame.len() == FRAME_SIZE
        &&& self.scanline < SCANLINES_PER_FRAME
    }

    /// What decides the colors of the pixels.
    pub open spec fn picture(self) -> Picture {
        Picture {
            chr: self.cartridge.chr,
            names: self.vram,
            palettes: self.palettes,
            oam: self.oam,
            control: self.regs.control,
            mask: self.regs.mask,
        }
    }

    /// The byte of video memory at `address`.
    pub open spec fn vram_load(self, address: u16) -> u8
        recommends
            address < 0x4000,
    {
        self.picture().load(address)
    }

    /// The unit after a write of `value` to video memory at `address`.
    /// Pattern memory takes no writes.
    pub open spec fn vram_store(self, address: u16, value: u8) -> PpuView
        recommends
            address < 0x4000,
    {
        if address < 0x2000 {
            self
        } else if address < 0x3F00 {
            PpuView { vram: self.vram.update(address as int % 0x800, value), ..self }
        } else {
            PpuView { palettes: self.palettes.update(address as int % 0x20, value), ..self }
        }
    }

    /// By how much the video address moves on after an access through the
    /// data register: 1, or 32 when bit 2 of the control register is set.
    pub open spec fn address_increment(self) -> u16 {
        if self.regs.control & 0x04 == 0 {
            1
        } else {
            32
        }
    }

    /// The video address, cut down to the 14 bits that video memory has.
    pub open spec fn data_address(self) -> u16 {
        self.regs.address % 0x4000
    }

    /// The unit with the video address moved on.
    pub open spec fn advance_address(self) -> PpuView {
        PpuView {
            regs: Registers {
                address: self.regs.address.wrapping_add(self.address_increment()),
                ..self.regs
            },
            ..self
        }
    }

    /// The unit after a read of the status register: the vertical blank
    /// bit is clear.
    pub open spec fn read_status(self) -> PpuView {
        PpuView { regs: Registers { status: self.regs.status & 0x7F, ..self.regs }, ..self }
    }

    /// The byte that a read of the OAM data register returns.
    pub open spec fn read_oam_data_value(self) -> u8 {
        self.oam[self.regs.oam_address as int]
    }

    /// The unit after a write to the OAM data register. The OAM address
    /// stays where it is.
    pub open spec fn write_oam_data(self, value: u8) -> PpuView {
        PpuView { oam: self.oam.update(self.regs.oam_address as int, value), ..self }
    }

    /// The unit after a write to the scroll register: the first write of a
    /// pair sets the horizontal scroll, the second the vertical one.
    pub open spec fn write_scroll(self, value: u8) -> PpuView {
        if self.first_write {
            PpuView { scroll_x: value, first_write: false, ..self }
        } else {
            PpuView { scroll_y: value, first_write: true, ..self }
        }
    }

    /// The unit after a write to the address register: the first write of
    /// a pair sets the high byte of the video address, the second the low
    /// one.
    pub open spec fn write_address(self, value: u8) -> PpuView {
        if self.first_write {
            PpuView {
                regs: Registers {
                    address: (value * 256 + self.regs.address % 256) as u16,
                    ..self.regs
                },
                first_write: false,
                ..self
            }
        } else {
            PpuView {
                regs: Registers {
                    address: (self.regs.address / 256 * 256 + value) as u16,
                    ..self.regs
                },
                first_write: true,
                ..self
            }
        }
    }

    /// The byte that a read of the data register returns: a palette entry
    /// at once, anything else one read late, out of the buffer.
    pub open spec fn read_data_value(self) -> u8 {
        if self.data_address() < 0x3F00 {
            self.data_buffer
        } else {
            self.vram_load(self.data_address())
        }
    }

    /// The unit after a read of the data register: the video address has
    /// moved on, and a byte read below the palettes waits in the buffer.
    pub open spec fn read_data(self) -> PpuView {
        let moved = self.advance_address();
        if self.data_address() < 0x3F00 {
            PpuView { data_buffer: self.vram_load(self.data_address()), ..moved }
        } else {
            moved
        }
    }

    /// The unit after a write to the data register: the byte is in video
    /// memory and the video address has moved on.
    pub open spec fn write_data(self, value: u8) -> PpuView {
        self.vram_store(self.data_address(), value).advance_address()
    }

    /// The byte that a read of the register at `address` returns. Status,
    /// OAM data and data can be read; any other address reads as 0.
    pub open spec fn load_value(self, address: u16) -> u8 {
        if address == 0x2002 {
            self.regs.status
        } else if address == 0x2004 {
            self.read_oam_data_value()
        } else if address == 0x2007 {
            self.read_data_value()
        } else {
            0
        }
    }

    /// The unit after a read of the register at `address`.
    pub open spec fn load(self, address: u16) -> PpuView {
        if address == 0x2002 {
            self.read_status()
        } else if address == 0x2007 {
            self.read_data()
        } else {
            self
        }
    }

    /// The unit after a write of `value` to the register at `address`. A
    /// write to any address that is no writable register is dropped.
    pub open spec fn store(self, address: u16, value: u8) -> PpuView {
        if address == 0x2000 {
            PpuView { regs: Registers { control: value, ..self.regs }, ..self }
        } else if address == 0x2001 {
            PpuView { regs: Registers { mask: value, ..self.regs }, ..self }
        } else if address == 0x2003 {
            PpuView { regs: Registers { oam_address: value, ..self.regs }, ..self }
        } else if address == 0x2004 {
            self.write_oam_data(value)
        } else if address == 0x2005 {
            self.write_scroll(value)
        } else if address == 0x2006 {
            self.write_address(value)
        } else if address == 0x2007 {
            self.write_data(value)
        } else {
            self
        }
    }
}

impl Ppu {
    /// See [`PpuView::wf`].
    pub open spec fn wf(&self) -> bool {
        self@.wf()
    }

    /// Whether the unit is well formed. A unit that [`Ppu::new`] made and
    /// that only the functions of this crate have changed always is; this is
    /// for a caller who has written to its fields.
    pub fn is_well_formed(&self) -> (ok: bool)
        ensures
            ok == self.wf(),
    {
        self.cartridge.is_well_formed() && self.cartridge.header.chr_size >= 1
            && self.frame_content.len() == FRAME_SIZE && self.scanline < SCANLINES_PER_FRAME
    }

    /// A picture unit at power-on, wired to the pattern memory of
    /// `cartridge`: memories and frame buffer cleared, the first scanline of
    /// the vertical blank 114 cycles away.
    pub fn new(cartridge: Cartridge) -> (ppu: Ppu)
        requires
            cartridge.wf(),
            cartridge.header.chr_size >= 1,
        ensures
            ppu.wf(),
            ppu@ == (PpuView {
                cartridge: cartridge@,
                regs: Registers {
                    control: 0,
                    mask: 0,
                    status: 0x80,
                    oam_address: 0,
                    oam_data: 0,
                    scroll: 0,
                    address: 0,
                },
                vram: Seq::new(0x800, |i: int| 0u8),
                first_write: true,
                scroll_x: 0,
                scroll_y: 0,
                data_buffer: 0,
                cycle: 340,
                frame: Seq::new(FRAME_SIZE as nat, |i: int| 0u8),
                scanline: 240,
                frames: 0,
                palettes: Seq::new(0x20, |i: int| 0u8),
                oam: Seq::new(0x100, |i: int| 0u8),
            }),
    {
        let ppu = Ppu {
            cartridge: cartridge,
            regs: Registers::new(),
            vram: Vram { val: [0u8; 0x800] },
            first_write: true,
            scroll_x: 0,
            scroll_y: 0,
            data_buffer: 0,
            cycle: 340,
            frame_content: vec![0u8; FRAME_SIZE],
            scanline: 240,
            frames: 0,
            palettes: [0u8; 32],
            oam_data: [0u8; 256],
        };
        assert(ppu@.vram =~= Seq::new(0x800, |i: int| 0u8));
        assert(ppu@.frame =~= Seq::new(FRAME_SIZE as nat, |i: int| 0u8));
        assert(ppu@.palettes =~= Seq::new(0x20, |i: int| 0u8));
        assert(ppu@.oam =~= Seq::new(0x100, |i: int| 0u8));
        ppu
    }

    /// Puts the scanline clock and the control, mask and OAM address
    /// registers back to their power-on values.
    pub fn reset(&mut self)
        ensures
            final(self)@ == (PpuView {
                cycle: 340,
                scanline: 240,
                regs: Registers { control: 0, mask: 0, oam_address: 0, ..old(self)@.regs },
                ..old(self)@
            }),
    {
        self.cycle = 340;
        self.scanline = 240;
        self.regs.control = 0;
        self.regs.mask = 0;
        self.regs.oam_address = 0;
    }

    /// Reads video memory at `address`.
    pub fn vram_load(&self, address: u16) -> (value: u8)
        requires
            self.wf(),
            address < 0x4000,
        ensures
            value == self@.vram_load(address),
    {
        if address < 0x2000 {
            self.cartridge.chr[address as usize]
        } else if address < 0x3F00 {
            self.vram.load(address)
        } else {
            proof {
                lemma_mirror_masks(address);
            }
            self.palettes[(address & 0x1F) as usize]
        }
    }

    /// Writes `value` to video memory at `address`.
    pub fn vram_store(&mut self, address: u16, value: u8)
        requires
            old(self).wf(),
            address < 0x4000,
        ensures
            final(self).wf(),
            final(self)@ == old(self)@.vram_store(address, value),
    {
        if address < 0x2000 {
        } else if address < 0x3F00 {
            self.vram.store(address, value);
        } else {
            proof {
                lemma_mirror_masks(address);
            }
            self.palettes[(address & 0x1F) as usize] = value;
        }
    }

    /// Reads the register at `address`.
    pub fn load(&mut self, address: u16) -> (value: u8)
        requires
            old(self).wf(),
        ensures
            final(self).wf(),
            value == old(self)@.load_value(address),
            final(self)@ == old(self)@.load(address),
    {
        if address == 0x2002 {
            self.read_status()
        } else if address == 0x2004 {
            self.read_oam_data()
        } else if address == 0x2007 {
            self.read_data()
        } else {
            0
        }
    }

    /// Writes `value` to the register at `address`.
    pub fn store(&mut self, address: u16, value: u8)
        requires
            old(self).wf(),
        ensures
            final(self).wf(),
            final(self)@ == old(self)@.store(address, value),
    {
        if address == 0x2000 {
            self.regs.control = value;
        } else if address == 0x2001 {
            self.regs.mask = value;
        } else if address == 0x2003 {
            self.regs.oam_address = value;
        } else if address == 0x2004 {
            self.write_oam_data(value);
        } else if address == 0x2005 {
            self.write_scroll(value);
        } else if address == 0x2006 {
            self.write_address(value);
        } else if address == 0x2007 {
            self.write_data(value);
        }
    }

    /// By how much the video address moves on after an access through the
    /// data register.
    pub fn address_increment(&self) -> (step: u16)
        ensures
            step == self@.address_increment(),
    {
        if self.regs.control & 0x04 == 0 {
            1
        } else {
            32
        }
    }

    /// Reads the status register, which clears its vertical blank bit.
    pub fn read_status(&mut self) -> (status: u8)
        ensures
            status == old(self).regs.status,
            final(self)@ == old(self)@.read_status(),
    {
        let status = self.regs.status;
        self.regs.status = self.regs.status & 0x7F;
        status
    }

    /// Reads the OAM data register: the byte of object-attribute memory at
    /// the OAM address.
    pub fn read_oam_data(&self) -> (value: u8)
        ensures
            value == self@.read_oam_data_value(),
    {
        self.oam_data[self.regs.oam_address as usize]
    }

    /// Writes the OAM data register: `value` goes to object-attribute
    /// memory at the OAM address.
    pub fn write_oam_data(&mut self, value: u8)
        ensures
            final(self)@ == old(self)@.write_oam_data(value),
    {
        self.oam_data[self.regs.oam_address as usize] = value;
    }

    /// Writes the scroll register.
    pub fn write_scroll(&mut self, value: u8)
        ensures
            final(self)@ == old(self)@.write_scroll(value),
    {
        if self.first_write {
            self.scroll_x = value;
            self.first_write = false;
        } else {
            self.scroll_y = value;
            self.first_write = true;
        }
    }

    /// Writes the address register.
    pub fn write_address(&mut self, address: u8)
        ensures
            final(self)@ == old(self)@.write_address(address),
    {
        proof {
            lemma_replace_byte(self.regs.address, address);
        }
        if self.first_write {
            self.regs.address = (self.regs.address & 0x00FF) | ((address as u16) << 8);
            self.first_write = false;
        } else {
            self.regs.address = (self.regs.address & 0xFF00) | (address as u16);
            self.first_write = true;
        }
    }

    /// Reads the data register.
    pub fn read_data(&mut self) -> (value: u8)
        requires
            old(self).wf(),
        ensures
            final(self).wf(),
            value == old(self)@.read_data_value(),
            final(self)@ == old(self)@.read_data(),
    {
        proof {
            lemma_mirror_masks(self.regs.address);
        }
        let address: u16 = self.regs.address & 0x3FFF;
        let value = self.vram_load(address);
        self.regs.address = self.regs.address.wrapping_add(self.address_increment());
        if address < 0x3F00 {
            let buffered = self.data_buffer;
            self.data_buffer = value;
            buffered
        } else {
            value
        }
    }

    /// Writes the data register.
    pub fn write_data(&mut self, value: u8)
        requires
            old(self).wf(),
        ensures
            final(self).wf(),
            final(self)@ == old(self)@.write_data(value),
    {
        proof {
            lemma_mirror_masks(self.regs.address);
        }
        let address: u16 = self.regs.address & 0x3FFF;
        self.vram_store(address, value);
        self.regs.address = self.regs.address.wrapping_add(self.address_increment());
    }

    /// Where the pattern table of the background begins.
    pub fn background_pattern_table_address(&self) -> (table: u16)
        ensures
            table == self@.picture().background_table(),
    {
        if self.regs.control & 0x10 == 0 {
            0
        } else {
            0x1000
        }
    }

    /// Where the pattern table of 8x8 sprites begins.
    pub fn sprite_pattern_table_address(&self) -> (table: u16)
        ensures
            table == self@.picture().sprite_table(),
    {
        if self.regs.control & 0x08 == 0 {
            0
        } else {
            0x1000
        }
    }

    /// Whether sprites are shown.
    pub fn show_sprites(&self) -> (shown: bool)
        ensures
            shown == self@.picture().show_sprites(),
    {
        self.regs.mask & 0x08 != 0
    }

    /// Whether the background is shown.
    pub fn show_background(&self) -> (shown: bool)
        ensures
            shown == self@.picture().show_background(),
    {
        self.regs.mask & 0x10 != 0
    }

    /// The height of sprites.
    pub fn sprite_size(&self) -> (size: u8)
        ensures
            size == self@.picture().sprite_size(),
    {
        if self.regs.control & 0x20 == 0 {
            8
        } else {
            16
        }
    }
}

/// Where the three bytes of the pixel at column `x` of scanline `y` begin
/// in the frame buffer.
pub open spec fn pixel_offset(x: int, y: int) -> int {
    (y * 256 + x) * 3
}

impl PpuView {
    /// The unit with the pixel at column `x` of scanline `y` set to `color`.
    pub open spec fn set_pixel(self, x: int, y: int, color: u32) -> PpuView
        recommends
            0 <= x < SCREEN_WIDTH,
            0 <= y < SCREEN_HEIGHT,
    {
        PpuView {
            frame: self.frame.update(pixel_offset(x, y), color_byte(color, 0)).update(
                pixel_offset(x, y) + 1,
                color_byte(color, 1),
            ).update(pixel_offset(x, y) + 2, color_byte(color, 2)),
            ..self
        }
    }

    /// The frame buffer once the current scanline is drawn: its 256 pixels
    /// have the colors that the picture gives them, and every other pixel is
    /// as it was.
    pub open spec fn drawn_frame(self) -> Seq<u8>
        recommends
            self.scanline < SCREEN_HEIGHT,
    {
        let start = pixel_offset(0, self.scanline as int);
        Seq::new(
            self.frame.len(),
            |i: int|
                if start <= i < start + 3 * SCREEN_WIDTH {
                    color_byte(
                        self.picture().pixel_color(((i - start) / 3) as u8, self.scanline),
                        (i - start) % 3,
                    )
                } else {
                    self.frame[i]
                },
        )
    }

    /// The unit once the current scanline is drawn.
    pub open spec fn make_scanline(self) -> PpuView
        recommends
            self.scanline < SCREEN_HEIGHT,
    {
        PpuView { frame: self.drawn_frame(), ..self }
    }

    /// Whether the scanline that is about to pass is the last of its frame.
    pub open spec fn tick_completes_frame(self) -> bool {
        self.scanline + 1 == SCANLINES_PER_FRAME
    }

    /// Whether the scanline that is about to pass ends with a request to
    /// interrupt the processor: the vertical blank begins and bit 7 of the
    /// control register asks for the interrupt.
    pub open spec fn tick_raises_nmi(self) -> bool {
        self.scanline + 1 == VBLANK_SCANLINE && self.regs.control & 0x80 != 0
    }

    /// The unit one scanline later. A visible scanline is drawn. Entering
    /// scanline 241 sets the vertical blank bit of the status register.
    /// Leaving scanline 261 clears it, counts a frame and starts over at
    /// scanline 0.
    pub open spec fn tick(self) -> PpuView
        recommends
            self.cycle + SCANLINE_CYCLES <= u64::MAX,
    {
        let drawn = if self.scanline < SCREEN_HEIGHT {
            self.make_scanline()
        } else {
            self
        };
        let cycle = (self.cycle + SCANLINE_CYCLES) as u64;
        if self.scanline + 1 == VBLANK_SCANLINE {
            PpuView {
                scanline: VBLANK_SCANLINE,
                regs: Registers { status: self.regs.status | 0x80, ..self.regs },
                cycle,
                ..drawn
            }
        } else if self.scanline + 1 == SCANLINES_PER_FRAME {
            PpuView {
                scanline: 0,
                frames: self.frames.wrapping_add(1),
                regs: Registers { status: self.regs.status & 0x7F, ..self.regs },
                cycle,
                ..drawn
            }
        } else {
            PpuView { scanline: (self.scanline + 1) as u16, cycle, ..drawn }
        }
    }

    /// Whether the unit is a whole scanline or more behind a processor that
    /// has got to `cpu_cycle`.
    pub open spec fn is_behind(self, cpu_cycle: u64) -> bool {
        self.cycle + SCANLINE_CYCLES <= cpu_cycle
    }

    /// The unit once it has caught up with a processor that has got to
    /// `cpu_cycle`: scanlines have passed, one after the other, until the
    /// next one would end after `cpu_cycle`.
    pub open spec fn step(self, cpu_cycle: u64) -> PpuView
        decreases cpu_cycle - self.cycle,
    {
        if self.is_behind(cpu_cycle) {
            self.tick().step(cpu_cycle)
        } else {
            self
        }
    }

    /// Whether a frame is completed while the unit catches up with
    /// `cpu_cycle`.
    pub open spec fn step_completes_frame(self, cpu_cycle: u64) -> bool
        decreases cpu_cycle - self.cycle,
    {
        if self.is_behind(cpu_cycle) {
            self.tick_completes_frame() || self.tick().step_completes_frame(cpu_cycle)
        } else {
            false
        }
    }

    /// Whether an interrupt is asked for while the unit catches up with
    /// `cpu_cycle`.
    pub open spec fn step_raises_nmi(self, cpu_cycle: u64) -> bool
        decreases cpu_cycle - self.cycle,
    {
        if self.is_behind(cpu_cycle) {
            self.tick_raises_nmi() || self.tick().step_raises_nmi(cpu_cycle)
        } else {
            false
        }
    }
}

impl Ppu {
    /// The color index of the pixel in column `x` of the tile row whose
    /// bit planes are at `offset` and `offset + 8`.
    pub fn get_pixel(&self, x: u8, offset: u16) -> (pixel: u8)
        requires
            self.wf(),
            offset + 8 < 0x4000,
        ensures
            pixel == self@.picture().pattern_pixel(x, offset),
            pixel < 4,
    {
        let low_plane = self.vram_load(offset);
        let high_plane = self.vram_load(offset + 8);
        let shift: u8 = 7 - x % 8;
        proof {
            lemma_field_bounds(low_plane, shift);
            lemma_field_bounds(high_plane, shift);
        }
        let low_bit: u8 = (low_plane >> shift) & 0x01;
        let high_bit: u8 = (high_plane >> shift) & 0x01;
        2 * high_bit + low_bit
    }

    /// The color of the background at column `x` of the current scanline.
    pub fn get_background_pixel(&self, x: u8) -> (color: u32)
        requires
            self.wf(),
        ensures
            color == self@.picture().background_color(x, self.scanline),
    {
        let x_offset: u16 = x as u16 / 8;
        let y_offset: u16 = self.scanline / 8;
        let x2: u8 = x % 8;
        let y2: u16 = self.scanline % 8;

        let tile_address: u16 = 0x2000 + 32 * y_offset + x_offset;
        let tile: u16 = self.vram_load(tile_address) as u16;

        let offset: u16 = tile * 16 + y2 + self.background_pattern_table_address();
        let pixel = self.get_pixel(x2, offset);

        let block: u16 = y_offset / 4 * 8 + x_offset / 4;
        let attributes = self.vram_load(0x23C0 + block);
        let left = x_offset % 4 < 2;
        let top = y_offset % 4 < 2;

        let mut attribute_color: u8 = attributes;
        if !left && top {
            attribute_color = attributes >> 2u8;
        } else if left && !top {
            attribute_color = attributes >> 4u8;
        } else if !left && !top {
            attribute_color = attributes >> 6u8;
        }
        proof {
            lemma_field_bounds(attribute_color, 0);
        }
        attribute_color = attribute_color & 0x03;

        let color: u8 = attribute_color * 4 + pixel;
        let entry = self.vram_load(0x3F00 + color as u16);
        proof {
            lemma_field_bounds(entry, 0);
        }
        PALETTE_RGB[(entry & 0x3F) as usize]
    }

    /// The color that the sprites give to the pixel at column `x` of the
    /// current scanline, if any does. `_background` is not looked at.
    pub fn get_sprite_pixel(&self, x: u8, _background: bool) -> (color: Option<u32>)
        requires
            self.wf(),
        ensures
            color == self@.picture().sprite_color(x, self.scanline),
    {
        let size = self.sprite_size();
        let mut visible_count: u8 = 0;
        let mut n: usize = 0;
        while n < 64 && visible_count < 8
            invariant
                self.wf(),
                size == self@.picture().sprite_size(),
                n <= 64,
                visible_count <= 8,
                self@.picture().sprite_color(x, self.scanline) == self@.picture().sprite_scan(
                    x,
                    self.scanline,
                    n as int,
                    visible_count as int,
                ),
            decreases 64 - n,
        {
            let sprite = Sprite {
                y: self.oam_data[n * 4],
                index: self.oam_data[n * 4 + 1],
                attributes: self.oam_data[n * 4 + 2],
                x: self.oam_data[n * 4 + 3],
            };

            let in_box = x >= sprite.x && (x as u16) < sprite.x as u16 + 8;
            let on_scanline = self.scanline >= sprite.y as u16 && self.scanline < sprite.y as u16
                + size as u16;

            if in_box && on_scanline {
                visible_count += 1;

                let mut sprite_x: u8 = x - sprite.x;
                let mut sprite_y: u8 = (self.scanline - sprite.y as u16) as u8;
                if sprite.horizontal_flip() {
                    sprite_x = 7 - sprite_x;
                }
                if sprite.vertical_flip() {
                    sprite_y = size - 1 - sprite_y;
                }
                let tile = match sprite.get_tiles(self) {
                    Tiles::Tiles8(tile) => tile,
                    Tiles::Tiles16(top, bottom) => if sprite_y < 8 {
                        top
                    } else {
                        bottom
                    },
                };
                let offset: u16 = tile_address(tile) + (sprite_y % 8) as u16;
                let pixel = self.get_pixel(sprite_x, offset);

                if pixel != 0 {
                    let color: u8 = sprite.palette() * 4 + pixel;
                    let entry = self.vram_load(0x3F00 + color as u16);
                    proof {
                        lemma_field_bounds(entry, 0);
                    }
                    return Some(PALETTE_RGB[(entry & 0x3F) as usize]);
                }
            }
            n += 1;
        }
        None
    }

    /// Sets the pixel at column `x` of scanline `y` to `color`: blue, green
    /// and red go to three bytes of the frame buffer, in this order.
    pub fn set_pixel(&mut self, x: u32, y: u32, color: u32)
        requires
            old(self).wf(),
            x < SCREEN_WIDTH,
            y < SCREEN_HEIGHT,
        ensures
            final(self).wf(),
            final(self)@ == old(self)@.set_pixel(x as int, y as int, color),
    {
        proof {
            lemma_color_bytes(color);
        }
        let offset: usize = ((y * 256 + x) * 3) as usize;
        self.frame_content[offset + 2] = (color >> 16) as u8;
        self.frame_content[offset + 1] = (color >> 8) as u8;
        self.frame_content[offset] = color as u8;
        assert(self@.frame =~= old(self)@.set_pixel(x as int, y as int, color).frame);
    }

    /// Draws the current scanline into the frame buffer.
    pub fn make_scanline(&mut self)
        requires
            old(self).wf(),
            old(self).scanline < SCREEN_HEIGHT,
        ensures
            final(self).wf(),
            final(self)@ == old(self)@.make_scanline(),
    {
        let scanline = self.scanline;
        let ghost start = pixel_offset(0, scanline as int);
        let mut x: u32 = 0;
        while x < 256
            invariant
                x <= 256,
                self.wf(),
                old(self)@.frame.len() == FRAME_SIZE,
                scanline == old(self).scanline,
                scanline < SCREEN_HEIGHT,
                start == pixel_offset(0, scanline as int),
                self@ == (PpuView { frame: self@.frame, ..old(self)@ }),
                forall|i: int|
                    0 <= i < FRAME_SIZE ==> #[trigger] self@.frame[i] == if start <= i < start + 3
                        * x {
                        old(self)@.drawn_frame()[i]
                    } else {
                        old(self)@.frame[i]
                    },
            decreases 256 - x,
        {
            let mut color: u32 = 0;
            let mut background = false;
            if self.show_background() {
                color = self.get_background_pixel(x as u8);
                background = true;
            }
            if self.show_sprites() {
                match self.get_sprite_pixel(x as u8, background) {
                    Some(c) => {
                        color = c;
                    },
                    None => {},
                }
            }
            self.set_pixel(x, scanline as u32, color);
            x += 1;
        }
        assert(self@.frame =~= old(self)@.drawn_frame());
    }

    /// Lets the unit catch up with a processor that has got to `cpu_cycle`,
    /// one scanline of 114 cycles at a time, and never past the processor.
    /// The result says whether a frame was completed on the way, and whether
    /// the processor is to be interrupted.
    pub fn step(&mut self, cpu_cycle: u64) -> (result: PpuResult)
        requires
            old(self).wf(),
        ensures
            final(self).wf(),
            final(self)@ == old(self)@.step(cpu_cycle),
            result.new_frame == old(self)@.step_completes_frame(cpu_cycle),
            result.nmi == old(self)@.step_raises_nmi(cpu_cycle),
    {
        let mut result = PpuResult { new_frame: false, nmi: false };
        while cpu_cycle >= SCANLINE_CYCLES && self.cycle <= cpu_cycle - SCANLINE_CYCLES
            invariant
                self.wf(),
                old(self)@.step(cpu_cycle) == self@.step(cpu_cycle),
                old(self)@.step_completes_frame(cpu_cycle) == (result.new_frame
                    || self@.step_completes_frame(cpu_cycle)),
                old(self)@.step_raises_nmi(cpu_cycle) == (result.nmi || self@.step_raises_nmi(
                    cpu_cycle,
                )),
            decreases cpu_cycle - self.cycle,
        {
            if self.scanline < 240 {
                self.make_scanline();
            }
            self.scanline += 1;

            if self.scanline == VBLANK_SCANLINE {
                self.regs.status = self.regs.status | 0x80;
                if self.regs.control & 0x80 != 0 {
                    result.nmi = true;
                }
            } else if self.scanline == SCANLINES_PER_FRAME {
                result.new_frame = true;
                self.frames = self.frames.wrapping_add(1);
                self.scanline = 0;
                self.regs.status = self.regs.status & 0x7F;
            }
            self.cycle += SCANLINE_CYCLES;
        }
        result
    }
}

impl PpuView {
    /// How many scanlines pass while the unit catches up with `cpu_cycle`:
    /// as many as fit, whole, between its own cycle count and `cpu_cycle`.
    pub open spec fn scanlines_due(self, cpu_cycle: u64) -> int {
        if self.is_behind(cpu_cycle) {
            (cpu_cycle - self.cycle) / (SCANLINE_CYCLES as int)
        } else {
            0
        }
    }
}

/// A read of the status register returns the register as it is and
/// clears its vertical blank bit: a second read finds the bit clear. The
/// seven bits below stay as they are.
pub proof fn lemma_status_read_clears_vblank(ppu: PpuView)
    ensures
        ppu.load_value(0x2002) == ppu.regs.status,
        ppu.load(0x2002).regs.status & 0x80 == 0,
        ppu.load(0x2002).load_value(0x2002) & 0x80 == 0,
        ppu.load(0x2002).regs.status == ppu.regs.status % 128,
{
    lemma_top_bit(ppu.regs.status);
}

/// Every write to the scroll register or to the address register turns
/// the one toggle that the two share, so that first and second writes
/// alternate whatever the order of the registers written to.
pub proof fn lemma_shared_write_toggle(ppu: PpuView, value: u8)
    ensures
        ppu.store(0x2005, value).first_write == !ppu.first_write,
        ppu.store(0x2006, value).first_write == !ppu.first_write,
{
}

/// One scanline on, the scanline counter is one more, and after 261
/// comes 0. The frame counter grows by one when the counter goes from 261
/// to 0, and at no other time. The vertical blank bit of the status
/// register is set on entering scanline 241 and clear on leaving scanline
/// 261.
pub proof fn lemma_tick_scanline(ppu: PpuView)
    requires
        ppu.wf(),
        ppu.cycle + SCANLINE_CYCLES <= u64::MAX,
    ensures
        ppu.tick().wf(),
        ppu.tick().cycle == ppu.cycle + SCANLINE_CYCLES,
        ppu.tick().scanline == (ppu.scanline + 1) % (SCANLINES_PER_FRAME as int),
        ppu.scanline == 261 ==> ppu.tick().scanline == 0 && ppu.tick().frames == (ppu.frames + 1)
            % 0x1_0000_0000_0000_0000,
        ppu.scanline != 261 ==> ppu.tick().frames == ppu.frames,
        ppu.tick_completes_frame() == (ppu.scanline == 261),
        ppu.scanline == 240 ==> ppu.tick().regs.status & 0x80 != 0,
        ppu.scanline == 261 ==> ppu.tick().regs.status & 0x80 == 0,
{
    lemma_top_bit(ppu.regs.status);
}

/// Where the unit stands once it has caught up with `cpu_cycle`. It has
/// not run past the processor, and it is less than a scanline behind. With
/// `n` the number of scanlines that were due, the scanline counter has gone
/// round modulo 262, and the frame counter has grown by one for each time
/// that the scanline counter went from 261 to 0, and by nothing else. A
/// frame is reported when that happened at least once.
pub proof fn lemma_step_scanlines(ppu: PpuView, cpu_cycle: u64)
    requires
        ppu.wf(),
    ensures
        ppu.step(cpu_cycle).wf(),
        ppu.step(cpu_cycle).cycle == ppu.cycle + SCANLINE_CYCLES * ppu.scanlines_due(cpu_cycle),
        !ppu.step(cpu_cycle).is_behind(cpu_cycle),
        ppu.cycle <= cpu_cycle ==> ppu.step(cpu_cycle).cycle <= cpu_cycle,
        ppu.step(cpu_cycle).scanline == (ppu.scanline + ppu.scanlines_due(cpu_cycle)) % 262,
        ppu.step(cpu_cycle).frames == (ppu.frames + (ppu.scanline + ppu.scanlines_due(cpu_cycle))
            / 262) % 0x1_0000_0000_0000_0000,
        ppu.step_completes_frame(cpu_cycle) == ((ppu.scanline + ppu.scanlines_due(cpu_cycle)) / 262
            >= 1),
    decreases cpu_cycle - ppu.cycle,
{
    if ppu.is_behind(cpu_cycle) {
        lemma_tick_scanline(ppu);
        lemma_step_scanlines(ppu.tick(), cpu_cycle);
    }
}

/// Catching up in two calls is catching up in one: the unit ends in the
/// same state, and a frame or an interrupt is reported by the one call
/// exactly when one of the two calls reports it.
pub proof fn lemma_step_in_stages(ppu: PpuView, first: u64, then: u64)
    requires
        ppu.wf(),
        first <= then,
    ensures
        ppu.step(first).step(then) == ppu.step(then),
        ppu.step_completes_frame(then) == (ppu.step_completes_frame(first) || ppu.step(
            first,
        ).step_completes_frame(then)),
        ppu.step_raises_nmi(then) == (ppu.step_raises_nmi(first) || ppu.step(first).step_raises_nmi(
            then,
        )),
    decreases first - ppu.cycle,
{
    if ppu.is_behind(first) {
        lemma_tick_scanline(ppu);
        lemma_step_in_stages(ppu.tick(), first, then);
    }
}

} // verus!
