//! Nametables: the tile maps of the background.
//! See https://www.nesdev.org/wiki/PPU_nametables

use crate::cartridge::Mirroring;
use vstd::prelude::*;

verus! {

/// Size of one nametable, attribute table included.
pub const NAMETABLE_LEN: usize = 0x400;

/// Size of the attribute table at the end of a nametable.
pub const ATTRIBUTE_TABLE_LEN: usize = 64;

/// Tiles in a row of a nametable.
pub const TILES_PER_ROW: usize = 32;

/// Tile rows in a nametable.
pub const TILES_PER_COLUMN: usize = 30;

/// Size of the video RAM: two nametables.
pub const VIDEO_RAM_SIZE: usize = 0x800;

/// Where the nametables start on the PPU bus.
pub const VRAM_BASE: u16 = 0x2000;

/// The four nametables of the PPU address space, by their offset from `$2000`.
#[derive(Clone, Copy, Debug, PartialEq, Eq, Structural)]
pub enum NametableAddr {
    TopLeft,
    TopRight,
    BottomLeft,
    BottomRight,
}

impl NametableAddr {
    /// The offset of the nametable from `$2000`.
    pub open spec fn offset_of(self) -> u16 {
        match self {
            NametableAddr::TopLeft => 0,
            NametableAddr::TopRight => 0x400,
            NametableAddr::BottomLeft => 0x800,
            NametableAddr::BottomRight => 0xC00,
        }
    }

    /// The nametable with index `value` (0 to 3).
    pub open spec fn nth(value: u16) -> NametableAddr {
        if value == 0 {
            NametableAddr::TopLeft
        } else if value == 1 {
            NametableAddr::TopRight
        } else if value == 2 {
            NametableAddr::BottomLeft
        } else {
            NametableAddr::BottomRight
        }
    }

    /// The offset of the nametable from `$2000`.
    pub fn offset(&self) -> (r: u16)
        ensures
            r == self.offset_of(),
    {
        match self {
            NametableAddr::TopLeft => 0,
            NametableAddr::TopRight => 0x400,
            NametableAddr::BottomLeft => 0x800,
            NametableAddr::BottomRight => 0xC00,
        }
    }

    /// The nametable with index `value`, 0 to 3.
    pub fn from(value: u16) -> (r: NametableAddr)
        requires
            value < 4,
        ensures
            r == NametableAddr::nth(value),
    {
        match value {
            0 => Self::TopLeft,
            1 => Self::TopRight,
            2 => Self::BottomLeft,
            _ => Self::BottomRight,
        }
    }

    /// Horizontal and vertical mirroring are the ones that fold the four nametables onto
    /// the two stored in VRAM.
    pub open spec fn supported(mirroring: Mirroring) -> bool {
        mirroring == Mirroring::Vertical || mirroring == Mirroring::Horizontal
    }

    /// Which of the two stored nametables a nametable shows under `mirroring`: vertical
    /// mirroring folds the bottom row onto the top one, horizontal mirroring folds the
    /// right column onto the left one.
    pub open spec fn mirrored(self, mirroring: Mirroring) -> NametableAddr {
        match (mirroring, self) {
            (Mirroring::Vertical, NametableAddr::TopLeft)
            | (Mirroring::Vertical, NametableAddr::BottomLeft)
            | (Mirroring::Horizontal, NametableAddr::TopLeft)
            | (Mirroring::Horizontal, NametableAddr::TopRight) => NametableAddr::TopLeft,
            _ => NametableAddr::TopRight,
        }
    }

    /// https://www.nesdev.org/wiki/Mirroring#Nametable_Mirroring
    /// Only two nametables are stored in VRAM, the other two are mirrored.
    fn mirror(self, mirroring: Mirroring) -> (r: NametableAddr)
        requires
            NametableAddr::supported(mirroring),
        ensures
            r == self.mirrored(mirroring),
    {
        match (mirroring, &self) {
            (Mirroring::Vertical, Self::TopLeft)
            | (Mirroring::Vertical, Self::BottomLeft)
            | (Mirroring::Horizontal, Self::TopLeft)
            | (Mirroring::Horizontal, Self::TopRight) => Self::TopLeft,
            _ => Self::TopRight,
        }
    }

    /// The VRAM index that a nametable address shows under `mirroring`.
    pub open spec fn vram_index(addr: u16, mirroring: Mirroring) -> u16 {
        let offset = (addr - VRAM_BASE) as u16;
        (NametableAddr::nth(offset / NAMETABLE_LEN as u16).mirrored(mirroring).offset_of() + offset
            % NAMETABLE_LEN as u16) as u16
    }

    /// Normalize an address of the nametable area (`$2000-$2FFF`) to an index in VRAM.
    pub fn mirror_vram_index(addr: u16, mirroring: Mirroring) -> (r: u16)
        requires
            VRAM_BASE <= addr < VRAM_BASE + 0x1000,
            NametableAddr::supported(mirroring),
        ensures
            r == NametableAddr::vram_index(addr, mirroring),
            r < VIDEO_RAM_SIZE,
    {
        let offset = addr - VRAM_BASE;
        assert(offset / 0x400 < 4);
        let nametable = Self::from(offset / NAMETABLE_LEN as u16);
        nametable.mirror(mirroring).offset() + (offset % NAMETABLE_LEN as u16)
    }
}

/// One nametable: 960 tile indices followed by 64 attribute bytes.
pub struct Nametable {
    pub data: Vec<u8>,
}

impl Nametable {
    /// The two nametables stored in VRAM, the one that `address` shows first.
    pub fn from(vram: &[u8; VIDEO_RAM_SIZE], address: NametableAddr, mirroring: Mirroring) -> (r: (
        Nametable,
        Nametable,
    ))
        requires
            NametableAddr::supported(mirroring),
        ensures
            r.0.data@.len() == NAMETABLE_LEN,
            r.1.data@.len() == NAMETABLE_LEN,
            address.mirrored(mirroring) == NametableAddr::TopLeft ==> r.0.data@ == vram@.subrange(
                0,
                0x400,
            ) && r.1.data@ == vram@.subrange(0x400, 0x800),
            address.mirrored(mirroring) != NametableAddr::TopLeft ==> r.0.data@ == vram@.subrange(
                0x400,
                0x800,
            ) && r.1.data@ == vram@.subrange(0, 0x400),
    {
        let first = Nametable { data: copy_range(vram, 0, NAMETABLE_LEN) };
        let second = Nametable { data: copy_range(vram, NAMETABLE_LEN, 2 * NAMETABLE_LEN) };
        // The mirrored address gives us the first nametable, so we can swap them if needed.
        if address.mirror(mirroring) == NametableAddr::TopLeft {
            (first, second)
        } else {
            (second, first)
        }
    }

    /// Byte `index` of the attribute table.
    pub fn get_attribute(&self, index: usize) -> (r: u8)
        requires
            self.data@.len() == NAMETABLE_LEN,
            index < ATTRIBUTE_TABLE_LEN,
        ensures
            r == self.data@[(NAMETABLE_LEN - ATTRIBUTE_TABLE_LEN) + index],
    {
        self.data[(NAMETABLE_LEN - ATTRIBUTE_TABLE_LEN) + index]
    }

    /// Byte `index` of the nametable.
    pub fn index(&self, index: usize) -> (r: u8)
        requires
            index < self.data@.len(),
        ensures
            r == self.data@[index as int],
    {
        self.data[index]
    }

    /// The tile shown at column `x` and row `y`.
    pub fn get_tile_index(&self, x: usize, y: usize) -> (r: u8)
        requires
            self.data@.len() == NAMETABLE_LEN,
            x < TILES_PER_ROW,
            y < 32,
        ensures
            r == self.data@[y * TILES_PER_ROW + x],
    {
        self.data[y * TILES_PER_ROW + x]
    }

    /// The background palette, 0 to 3, of the tile at column `x` and row `y`: each
    /// attribute byte covers 4x4 tiles, two bits for each 2x2 quadrant.
    pub open spec fn palette_index_of(self, x: int, y: int) -> u8 {
        palette_index_in(self.data@, x, y)
    }

    /// The background palette, 0 to 3, of the tile at column `x` and row `y`.
    pub fn get_palette_index(&self, x: usize, y: usize) -> (r: u8)
        requires
            self.data@.len() == NAMETABLE_LEN,
            x < TILES_PER_ROW,
            y < 32,
        ensures
            r == self.palette_index_of(x as int, y as int),
            r <= 3,
    {
        let attribute = self.get_attribute((y / 4) * 8 + x / 4);
        let shift = ((((y % 4) / 2) * 2 + (x % 4) / 2) * 2) as u8;
        assert((attribute >> shift) & 3 <= 3) by (bit_vector);
        (attribute >> shift) & 3
    }
}

/// The background palette of the tile at column `x` and row `y` of the nametable bytes
/// `data`: two bits of the attribute byte of its 4x4 block of tiles, chosen by the 2x2
/// quadrant that the tile lies in.
pub open spec fn palette_index_in(data: Seq<u8>, x: int, y: int) -> u8 {
    let attribute = data[(NAMETABLE_LEN - ATTRIBUTE_TABLE_LEN) + (y / 4) * 8 + x / 4];
    let shift = (((y % 4) / 2) * 2 + (x % 4) / 2) * 2;
    (attribute >> (shift as u8)) & 3
}

/// The bytes `start..end` of the video RAM.
fn copy_range(vram: &[u8; VIDEO_RAM_SIZE], start: usize, end: usize) -> (r: Vec<u8>)
    requires
        start <= end <= VIDEO_RAM_SIZE,
    ensures
        r@ == vram@.subrange(start as int, end as int),
{
    let mut out: Vec<u8> = Vec::new();
    let mut i = start;
    while i < end
        invariant
            start <= i <= end <= VIDEO_RAM_SIZE,
            out@ == vram@.subrange(start as int, i as int),
        decreases end - i,
    {
        out.push(vram[i]);
        i += 1;
    }
    out
}

} // verus!
