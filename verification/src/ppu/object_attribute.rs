//! Object attribute memory: the 64 sprites of the PPU, four bytes each.
//! See https://www.nesdev.org/wiki/PPU_OAM

use crate::util::{bit_of, nth_bit};
use vstd::prelude::*;

verus! {

/// Size of the object attribute memory.
pub const MEMORY_SIZE: usize = 0x100;

/// Size of a tile side in pixels.
pub const PIXELS_PER_TILE: usize = 8;

/// https://www.nesdev.org/wiki/PPU_OAM
pub struct ObjectAttributeMemory {
    pub memory: [u8; MEMORY_SIZE],
    pub address: u8,
}

impl ObjectAttributeMemory {
    /// Cleared memory, address 0.
    pub fn default() -> (r: ObjectAttributeMemory)
        ensures
            r.address == 0,
            forall|i: int| 0 <= i < MEMORY_SIZE ==> r.memory@[i] == 0,
    {
        ObjectAttributeMemory { memory: [0;MEMORY_SIZE], address: 0 }
    }

    /// Set the address of the next data access.
    pub fn write_address(&mut self, data: u8)
        ensures
            final(self).address == data,
            final(self).memory == old(self).memory,
    {
        self.address = data;
    }

    /// Store a byte at the current address and move to the next one.
    pub fn write_data(&mut self, data: u8)
        ensures
            final(self).memory@ == old(self).memory@.update(old(self).address as int, data),
            final(self).address == old(self).address.wrapping_add(1),
    {
        self.memory[self.address as usize] = data;
        self.address = self.address.wrapping_add(1);
    }

    /// The byte at the current address.
    pub fn read_data(&self) -> (r: u8)
        ensures
            r == self.memory@[self.address as int],
    {
        self.memory[self.address as usize]
    }

    /// The CPU addresses a DMA transfer from page `addr` copies: `$XX00` up to, not
    /// including, `$XX00 + $100`.
    pub fn dma(&self, addr: u8) -> (r: std::ops::Range<usize>)
        ensures
            r.start == addr as int * 256,
            r.end == addr as int * 256 + MEMORY_SIZE,
    {
        // Convert to a page index: $XX -> $XX00
        let begin = (addr as usize) * 256;
        let end = begin + MEMORY_SIZE;
        begin..end
    }

    /// An iterator over the 64 sprites, in memory order.
    pub fn iter(&self) -> (r: OamIterator<'_>)
        ensures
            r.index == 0,
            r.oam == self,
    {
        OamIterator { index: 0, oam: self }
    }

    /// The byte at `index`.
    pub fn index(&self, index: usize) -> (r: u8)
        requires
            index < MEMORY_SIZE,
        ensures
            r == self.memory@[index as int],
    {
        self.memory[index]
    }
}

/// Byte 2 of a sprite:
///
/// ```text
/// 76543210
/// ||||||++- Palette (4 to 7) of sprite
/// |||+++--- Unimplemented (read 0)
/// ||+------ Priority (0: in front of background; 1: behind background)
/// |+------- Flip sprite horizontally
/// +-------- Flip sprite vertically
/// ```
/// https://www.nesdev.org/wiki/PPU_OAM#Byte_2
#[derive(Clone, Copy, Debug, PartialEq, Eq, Structural)]
pub struct ObjectAttributes(pub u8);

impl ObjectAttributes {
    /// The sprite palette, 0 to 3.
    pub fn palette(&self) -> (r: u8)
        ensures
            r == self.0 & 3,
            r <= 3,
    {
        let v = self.0;
        assert(v & 3 <= 3) by (bit_vector);
        v & 3
    }

    pub fn behind_background(&self) -> (r: bool)
        ensures
            r == bit_of(self.0, 5),
    {
        nth_bit(self.0, 5)
    }

    pub fn flip_horizontal(&self) -> (r: bool)
        ensures
            r == bit_of(self.0, 6),
    {
        nth_bit(self.0, 6)
    }

    pub fn flip_vertical(&self) -> (r: bool)
        ensures
            r == bit_of(self.0, 7),
    {
        nth_bit(self.0, 7)
    }
}

/// One sprite.
#[derive(Clone, Copy, Debug, PartialEq, Eq, Structural)]
pub struct Object {
    pub x: usize,
    pub y: usize,
    pub attrs: ObjectAttributes,
    pub tile_index: usize,
}

impl Object {
    /// The sprite stored in the four bytes: Y position, tile index, attributes,
    /// X position.
    pub fn from(data: &[u8]) -> (r: Object)
        requires
            data@.len() >= 4,
        ensures
            r.y == data@[0] as usize,
            r.tile_index == data@[1] as usize,
            r.attrs.0 == data@[2],
            r.x == data@[3] as usize,
    {
        Object {
            attrs: ObjectAttributes(data[2]),
            tile_index: data[1] as usize,
            x: data[3] as usize,
            y: data[0] as usize,
        }
    }

    /// The sprite held by four bytes, in the order of `from`.
    pub fn from_bytes(y: u8, tile_index: u8, attrs: u8, x: u8) -> (r: Object)
        ensures
            r == (Object {
                x: x as usize,
                y: y as usize,
                attrs: ObjectAttributes(attrs),
                tile_index: tile_index as usize,
            }),
    {
        Object { attrs: ObjectAttributes(attrs), tile_index: tile_index as usize, x: x as usize, y: y as usize }
    }

    /// For an 8x16 sprite, bit 0 of the tile index picks the pattern table.
    pub fn bank_8x16(&self) -> (r: usize)
        ensures
            r == (if self.tile_index % 2 == 1 {
                0x1000usize
            } else {
                0
            }),
    {
        if self.tile_index % 2 == 1 {
            0x1000
        } else {
            0
        }
    }

    /// For an 8x16 sprite, the tile of the top half.
    pub fn tile_index_8x16(&self) -> (r: usize)
        ensures
            r == self.tile_index % 256 - self.tile_index % 2,
    {
        let t = self.tile_index;
        let r = t & 0b1111_1110;
        assert(t & 0b1111_1110 == (t % 256) - (t % 2)) by (bit_vector);
        r
    }

    /// The screen position of pixel (`x`, `y`) of the sprite's tile, flipped as the
    /// attributes say.
    pub fn pixel_position(&self, x: usize, y: usize) -> (r: (usize, usize))
        requires
            self.x + PIXELS_PER_TILE - 1 <= usize::MAX,
            self.y + PIXELS_PER_TILE - 1 <= usize::MAX,
            bit_of(self.attrs.0, 6) ==> x <= self.x + PIXELS_PER_TILE - 1,
            !bit_of(self.attrs.0, 6) ==> self.x + x <= usize::MAX,
            bit_of(self.attrs.0, 7) ==> y <= self.y + PIXELS_PER_TILE - 1,
            !bit_of(self.attrs.0, 7) ==> self.y + y <= usize::MAX,
        ensures
            r.0 == (if bit_of(self.attrs.0, 6) {
                self.x + PIXELS_PER_TILE - 1 - x
            } else {
                self.x + x
            }),
            r.1 == (if bit_of(self.attrs.0, 7) {
                self.y + PIXELS_PER_TILE - 1 - y
            } else {
                self.y + y
            }),
    {
        let len = PIXELS_PER_TILE - 1;
        let px = if self.attrs.flip_horizontal() {
            (self.x + len) - x
        } else {
            self.x + x
        };
        let py = if self.attrs.flip_vertical() {
            (self.y + len) - y
        } else {
            self.y + y
        };
        (px, py)
    }
}

/// Walks the sprites of an object attribute memory.
pub struct OamIterator<'a> {
    pub oam: &'a ObjectAttributeMemory,
    pub index: usize,
}

impl<'a> OamIterator<'a> {
    /// The next sprite, or `None` after the last one.
    pub fn next(&mut self) -> (r: Option<Object>)
        ensures
            final(self).oam == old(self).oam,
            old(self).index >= MEMORY_SIZE ==> r is None && final(self).index == old(self).index,
            old(self).index < MEMORY_SIZE && old(self).index + 4 > MEMORY_SIZE ==> r is None,
            old(self).index + 4 <= MEMORY_SIZE ==> final(self).index == old(self).index + 4
                && r == Some(
                Object {
                    y: old(self).oam.memory@[old(self).index as int] as usize,
                    tile_index: old(self).oam.memory@[old(self).index + 1] as usize,
                    attrs: ObjectAttributes(old(self).oam.memory@[old(self).index + 2]),
                    x: old(self).oam.memory@[old(self).index + 3] as usize,
                },
            ),
    {
        if self.index >= MEMORY_SIZE {
            return None;
        }
        if self.index + 4 > MEMORY_SIZE {
            return None;
        }
        let i = self.index;
        self.index = self.index + 4;
        let m = &self.oam.memory;
        Some(Object::from_bytes(m[i], m[i + 1], m[i + 2], m[i + 3]))
    }
}

} // verus!
