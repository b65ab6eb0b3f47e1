//! The palettes: the 64 colours the PPU can output, and the palette RAM that picks four
//! of them for each background and sprite palette.
//! See https://www.nesdev.org/wiki/PPU_palettes

use vstd::prelude::*;

verus! {

/// An RGB colour.
#[derive(Clone, Copy, Debug, PartialEq, Eq, Structural)]
pub struct Color(pub u8, pub u8, pub u8);

/// The system palette: the colour of each of the 64 colour indices.
pub open spec fn system_color(index: u8) -> Color {
    match index & 0x3F {
        0 => Color(0x80, 0x80, 0x80),
        1 => Color(0x00, 0x3D, 0xA6),
        2 => Color(0x00, 0x12, 0xB0),
        3 => Color(0x44, 0x00, 0x96),
        4 => Color(0xA1, 0x00, 0x5E),
        5 => Color(0xC7, 0x00, 0x28),
        6 => Color(0xBA, 0x06, 0x00),
        7 => Color(0x8C, 0x17, 0x00),
        8 => Color(0x5C, 0x2F, 0x00),
        9 => Color(0x10, 0x45, 0x00),
        10 => Color(0x05, 0x4A, 0x00),
        11 => Color(0x00, 0x47, 0x2E),
        12 => Color(0x00, 0x41, 0x66),
        13 => Color(0x00, 0x00, 0x00),
        14 => Color(0x05, 0x05, 0x05),
        15 => Color(0x05, 0x05, 0x05),
        16 => Color(0xC7, 0xC7, 0xC7),
        17 => Color(0x00, 0x77, 0xFF),
        18 => Color(0x21, 0x55, 0xFF),
        19 => Color(0x82, 0x37, 0xFA),
        20 => Color(0xEB, 0x2F, 0xB5),
        21 => Color(0xFF, 0x29, 0x50),
        22 => Color(0xFF, 0x22, 0x00),
        23 => Color(0xD6, 0x32, 0x00),
        24 => Color(0xC4, 0x62, 0x00),
        25 => Color(0x35, 0x80, 0x00),
        26 => Color(0x05, 0x8F, 0x00),
        27 => Color(0x00, 0x8A, 0x55),
        28 => Color(0x00, 0x99, 0xCC),
        29 => Color(0x21, 0x21, 0x21),
        30 => Color(0x09, 0x09, 0x09),
        31 => Color(0x09, 0x09, 0x09),
        32 => Color(0xFF, 0xFF, 0xFF),
        33 => Color(0x0F, 0xD7, 0xFF),
        34 => Color(0x69, 0xA2, 0xFF),
        35 => Color(0xD4, 0x80, 0xFF),
        36 => Color(0xFF, 0x45, 0xF3),
        37 => Color(0xFF, 0x61, 0x8B),
        38 => Color(0xFF, 0x88, 0x33),
        39 => Color(0xFF, 0x9C, 0x12),
        40 => Color(0xFA, 0xBC, 0x20),
        41 => Color(0x9F, 0xE3, 0x0E),
        42 => Color(0x2B, 0xF0, 0x35),
        43 => Color(0x0C, 0xF0, 0xA4),
        44 => Color(0x05, 0xFB, 0xFF),
        45 => Color(0x5E, 0x5E, 0x5E),
        46 => Color(0x0D, 0x0D, 0x0D),
        47 => Color(0x0D, 0x0D, 0x0D),
        48 => Color(0xFF, 0xFF, 0xFF),
        49 => Color(0xA6, 0xFC, 0xFF),
        50 => Color(0xB3, 0xEC, 0xFF),
        51 => Color(0xDA, 0xAB, 0xEB),
        52 => Color(0xFF, 0xA8, 0xF9),
        53 => Color(0xFF, 0xAB, 0xB3),
        54 => Color(0xFF, 0xD2, 0xB0),
        55 => Color(0xFF, 0xEF, 0xA6),
        56 => Color(0xFF, 0xF7, 0x9C),
        57 => Color(0xD7, 0xE8, 0x95),
        58 => Color(0xA6, 0xED, 0xAF),
        59 => Color(0xA2, 0xF2, 0xDA),
        60 => Color(0x99, 0xFF, 0xFC),
        61 => Color(0xDD, 0xDD, 0xDD),
        62 => Color(0x11, 0x11, 0x11),
        _ => Color(0x11, 0x11, 0x11),
    }
}

/// The colour of a colour index; only its low six bits count.
pub fn palette_color(index: u8) -> (r: Color)
    ensures
        r == system_color(index),
{
    let i = index & 0x3F;
    assert(i < 64) by (bit_vector)
        requires
            i == index & 0x3F,
    ;
    match i {
        0 => Color(0x80, 0x80, 0x80),
        1 => Color(0x00, 0x3D, 0xA6),
        2 => Color(0x00, 0x12, 0xB0),
        3 => Color(0x44, 0x00, 0x96),
        4 => Color(0xA1, 0x00, 0x5E),
        5 => Color(0xC7, 0x00, 0x28),
        6 => Color(0xBA, 0x06, 0x00),
        7 => Color(0x8C, 0x17, 0x00),
        8 => Color(0x5C, 0x2F, 0x00),
        9 => Color(0x10, 0x45, 0x00),
        10 => Color(0x05, 0x4A, 0x00),
        11 => Color(0x00, 0x47, 0x2E),
        12 => Color(0x00, 0x41, 0x66),
        13 => Color(0x00, 0x00, 0x00),
        14 => Color(0x05, 0x05, 0x05),
        15 => Color(0x05, 0x05, 0x05),
        16 => Color(0xC7, 0xC7, 0xC7),
        17 => Color(0x00, 0x77, 0xFF),
        18 => Color(0x21, 0x55, 0xFF),
        19 => Color(0x82, 0x37, 0xFA),
        20 => Color(0xEB, 0x2F, 0xB5),
        21 => Color(0xFF, 0x29, 0x50),
        22 => Color(0xFF, 0x22, 0x00),
        23 => Color(0xD6, 0x32, 0x00),
        24 => Color(0xC4, 0x62, 0x00),
        25 => Color(0x35, 0x80, 0x00),
        26 => Color(0x05, 0x8F, 0x00),
        27 => Color(0x00, 0x8A, 0x55),
        28 => Color(0x00, 0x99, 0xCC),
        29 => Color(0x21, 0x21, 0x21),
        30 => Color(0x09, 0x09, 0x09),
        31 => Color(0x09, 0x09, 0x09),
        32 => Color(0xFF, 0xFF, 0xFF),
        33 => Color(0x0F, 0xD7, 0xFF),
        34 => Color(0x69, 0xA2, 0xFF),
        35 => Color(0xD4, 0x80, 0xFF),
        36 => Color(0xFF, 0x45, 0xF3),
        37 => Color(0xFF, 0x61, 0x8B),
        38 => Color(0xFF, 0x88, 0x33),
        39 => Color(0xFF, 0x9C, 0x12),
        40 => Color(0xFA, 0xBC, 0x20),
        41 => Color(0x9F, 0xE3, 0x0E),
        42 => Color(0x2B, 0xF0, 0x35),
        43 => Color(0x0C, 0xF0, 0xA4),
        44 => Color(0x05, 0xFB, 0xFF),
        45 => Color(0x5E, 0x5E, 0x5E),
        46 => Color(0x0D, 0x0D, 0x0D),
        47 => Color(0x0D, 0x0D, 0x0D),
        48 => Color(0xFF, 0xFF, 0xFF),
        49 => Color(0xA6, 0xFC, 0xFF),
        50 => Color(0xB3, 0xEC, 0xFF),
        51 => Color(0xDA, 0xAB, 0xEB),
        52 => Color(0xFF, 0xA8, 0xF9),
        53 => Color(0xFF, 0xAB, 0xB3),
        54 => Color(0xFF, 0xD2, 0xB0),
        55 => Color(0xFF, 0xEF, 0xA6),
        56 => Color(0xFF, 0xF7, 0x9C),
        57 => Color(0xD7, 0xE8, 0x95),
        58 => Color(0xA6, 0xED, 0xAF),
        59 => Color(0xA2, 0xF2, 0xDA),
        60 => Color(0x99, 0xFF, 0xFC),
        61 => Color(0xDD, 0xDD, 0xDD),
        62 => Color(0x11, 0x11, 0x11),
        _ => Color(0x11, 0x11, 0x11),
    }
}

/// Size of the palette RAM.
pub const PALETTE_SIZE: usize = 32;

/// Four colour indices: a background or sprite palette.
#[derive(Clone, Copy, Debug, PartialEq, Eq, Structural)]
pub struct PaletteEntry(pub u8, pub u8, pub u8, pub u8);

/// The palette RAM at `$3F00-$3F1F`: four background palettes, then four sprite
/// palettes.
pub struct Palette {
    pub data: [u8; PALETTE_SIZE],
}

/// The palette RAM slot that a PPU address selects: addresses repeat every 32 bytes,
/// and the first entry of each sprite palette is the one of the background palette.
pub open spec fn palette_slot(address: u16) -> int {
    let i = address as int % 32;
    if i >= 16 && i % 4 == 0 {
        i - 16
    } else {
        i
    }
}

impl Palette {
    /// Every entry 0.
    pub fn default() -> (r: Palette)
        ensures
            forall|i: int| 0 <= i < PALETTE_SIZE ==> r.data@[i] == 0,
    {
        Palette { data: [0; PALETTE_SIZE] }
    }

    fn slot(address: u16) -> (r: usize)
        ensures
            r == palette_slot(address),
            r < PALETTE_SIZE,
    {
        let i = (address % 32) as usize;
        if i >= 16 && i % 4 == 0 {
            i - 16
        } else {
            i
        }
    }

    /// The colour index stored for a PPU address in `$3F00-$3FFF`.
    pub fn index(&self, address: u16) -> (r: u8)
        ensures
            r == self.data@[palette_slot(address)],
    {
        self.data[Self::slot(address)]
    }

    /// Store a colour index for a PPU address in `$3F00-$3FFF`.
    pub fn set(&mut self, address: u16, value: u8)
        ensures
            final(self).data@ == old(self).data@.update(palette_slot(address), value),
    {
        let i = Self::slot(address);
        self.data[i] = value;
    }

    /// The four colour indices of palette `base / 4`, starting at slot `base`.
    fn entry_at(&self, base: usize) -> (r: PaletteEntry)
        requires
            base + 4 <= PALETTE_SIZE,
        ensures
            r == PaletteEntry(
                self.data@[base as int],
                self.data@[base + 1],
                self.data@[base + 2],
                self.data@[base + 3],
            ),
    {
        PaletteEntry(self.data[base], self.data[base + 1], self.data[base + 2], self.data[base + 3])
    }

    /// Background palette `index` (0 to 3); its first colour is the shared backdrop.
    pub fn background_entry(&self, index: usize) -> (r: PaletteEntry)
        requires
            index < 4,
        ensures
            r == PaletteEntry(
                self.data@[0],
                self.data@[index * 4 + 1],
                self.data@[index * 4 + 2],
                self.data@[index * 4 + 3],
            ),
    {
        let e = self.entry_at(index * 4);
        PaletteEntry(self.data[0], e.1, e.2, e.3)
    }

    /// Sprite palette `index` (0 to 3); its first colour is the shared backdrop.
    pub fn sprite_entry(&self, index: usize) -> (r: PaletteEntry)
        requires
            index < 4,
        ensures
            r == PaletteEntry(
                self.data@[0],
                self.data@[16 + index * 4 + 1],
                self.data@[16 + index * 4 + 2],
                self.data@[16 + index * 4 + 3],
            ),
    {
        let e = self.entry_at(16 + index * 4);
        PaletteEntry(self.data[0], e.1, e.2, e.3)
    }

    /// The colour at position `index` (0 to 3) of a palette.
    pub fn get(entry: PaletteEntry, index: usize) -> (r: Color)
        requires
            index < 4,
        ensures
            r == system_color(entry_index(entry, index as int)),
    {
        let color_index = if index == 0 {
            entry.0
        } else if index == 1 {
            entry.1
        } else if index == 2 {
            entry.2
        } else {
            entry.3
        };
        palette_color(color_index)
    }
}

/// The colour index at position `index` of a palette.
pub open spec fn entry_index(entry: PaletteEntry, index: int) -> u8 {
    if index == 0 {
        entry.0
    } else if index == 1 {
        entry.1
    } else if index == 2 {
        entry.2
    } else {
        entry.3
    }
}

} // verus!
