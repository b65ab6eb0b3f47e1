//! The memory-mapped registers of the picture processing unit.
//! See https://www.nesdev.org/wiki/PPU_registers

use crate::cpu::flags::flag_char;
use crate::util::{bit_of, nth_bit, set_bit, string_of_chars, with_bit};
use vstd::prelude::*;

verus! {

/// Whether the CPU may read or write a register.
#[derive(Clone, Copy, Debug, PartialEq, Eq, Structural)]
pub enum Mutability {
    Read,
    Write,
    ReadWrite,
}

impl Mutability {
    /// The CPU may read the register.
    pub fn readable(&self) -> (r: bool)
        ensures
            r == (*self != Mutability::Write),
    {
        match self {
            Self::ReadWrite | Self::Read => true,
            Self::Write => false,
        }
    }

    /// The CPU may write the register.
    pub fn writable(&self) -> (r: bool)
        ensures
            r == (*self != Mutability::Read),
    {
        match self {
            Self::ReadWrite | Self::Write => true,
            Self::Read => false,
        }
    }
}

/// The registers of the PPU, and the OAM DMA port.
#[derive(Clone, Copy, Debug, PartialEq, Eq, Structural)]
pub enum Register {
    Control,
    Mask,
    Status,
    ObjectAttributeAddress,
    ObjectAttributeData,
    Scroll,
    Address,
    Data,
    ObjectAttributeDirectMemoryAccess,
}

/// The register at `address` and how it may be accessed: the eight registers sit at
/// `$2000-$2007` and repeat every eight bytes up to `$3FFF`; `$4014` is the OAM DMA port.
pub open spec fn register_at(address: u16) -> Option<(Register, Mutability)> {
    if 0x2000 <= address <= 0x3FFF {
        let r = address % 8;
        if r == 0 {
            Some((Register::Control, Mutability::Write))
        } else if r == 1 {
            Some((Register::Mask, Mutability::Write))
        } else if r == 2 {
            Some((Register::Status, Mutability::Read))
        } else if r == 3 {
            Some((Register::ObjectAttributeAddress, Mutability::Write))
        } else if r == 4 {
            Some((Register::ObjectAttributeData, Mutability::ReadWrite))
        } else if r == 5 {
            Some((Register::Scroll, Mutability::Write))
        } else if r == 6 {
            Some((Register::Address, Mutability::Write))
        } else {
            Some((Register::Data, Mutability::ReadWrite))
        }
    } else if address == 0x4014 {
        Some((Register::ObjectAttributeDirectMemoryAccess, Mutability::Write))
    } else {
        None
    }
}

/// The register mapped at `address`, with its access rights.
pub fn get_register(address: u16) -> (r: Option<(Register, Mutability)>)
    ensures
        r == register_at(address),
{
    if !(0x2000 <= address && address <= 0x3FFF) {
        if address == 0x4014 {
            return Some((Register::ObjectAttributeDirectMemoryAccess, Mutability::Write));
        } else {
            return None;
        }
    }
    // Registers are mirrored every 8 bytes
    let mirrored = address % 8;
    if mirrored == 0 {
        Some((Register::Control, Mutability::Write))
    } else if mirrored == 1 {
        Some((Register::Mask, Mutability::Write))
    } else if mirrored == 2 {
        Some((Register::Status, Mutability::Read))
    } else if mirrored == 3 {
        Some((Register::ObjectAttributeAddress, Mutability::Write))
    } else if mirrored == 4 {
        Some((Register::ObjectAttributeData, Mutability::ReadWrite))
    } else if mirrored == 5 {
        Some((Register::Scroll, Mutability::Write))
    } else if mirrored == 6 {
        Some((Register::Address, Mutability::Write))
    } else {
        Some((Register::Data, Mutability::ReadWrite))
    }
}

/// PPUCTRL:
///
/// ```text
/// 7  bit  0
/// VPHB SINN
/// ```
/// base nametable (NN), VRAM increment (I), sprite pattern table (S), background
/// pattern table (B), sprite size (H), parent/child select (P), NMI at vblank (V).
/// https://www.nesdev.org/wiki/PPU_registers#PPUCTRL
#[derive(Clone, Copy, Debug, PartialEq, Eq, Structural)]
pub struct Control(pub u8);

impl Control {
    /// A register with every bit clear.
    pub fn default() -> (r: Control)
        ensures
            r.0 == 0,
    {
        Control(0)
    }

    /// The register holding `value`.
    pub fn from(value: u8) -> (r: Control)
        ensures
            r.0 == value,
    {
        Control(value)
    }

    /// Base nametable: 0 = $2000, 1 = $2400, 2 = $2800, 3 = $2C00.
    pub fn nametable_address(&self) -> (r: u8)
        ensures
            r == self.0 & 3,
            r <= 3,
    {
        let v = self.0;
        assert(v & 3 <= 3) by (bit_vector);
        v & 3
    }

    /// VRAM address increment per access of PPUDATA: clear adds 1, set adds 32.
    pub fn vram_address_increment_bit(&self) -> (r: bool)
        ensures
            r == bit_of(self.0, 2),
    {
        nth_bit(self.0, 2)
    }

    /// Sprite pattern table for 8x8 sprites: clear $0000, set $1000.
    pub fn sprite_pattern_table_bank(&self) -> (r: bool)
        ensures
            r == bit_of(self.0, 3),
    {
        nth_bit(self.0, 3)
    }

    /// Background pattern table: clear $0000, set $1000.
    pub fn background_pattern_table_bank(&self) -> (r: bool)
        ensures
            r == bit_of(self.0, 4),
    {
        nth_bit(self.0, 4)
    }

    /// Sprite size: clear 8x8, set 8x16.
    pub fn sprite_size(&self) -> (r: bool)
        ensures
            r == bit_of(self.0, 5),
    {
        nth_bit(self.0, 5)
    }

    /// PPU parent/child select.
    pub fn parent_child_select(&self) -> (r: bool)
        ensures
            r == bit_of(self.0, 6),
    {
        nth_bit(self.0, 6)
    }

    /// Generate an NMI at the start of vertical blanking.
    pub fn non_maskable_interrupt_at_vblank(&self) -> (r: bool)
        ensures
            r == bit_of(self.0, 7),
    {
        nth_bit(self.0, 7)
    }

    /// How far the VRAM address moves after each access of PPUDATA.
    pub open spec fn increment_of(self) -> u8 {
        if bit_of(self.0, 2) {
            32
        } else {
            1
        }
    }

    /// How far the VRAM address moves after each access of PPUDATA: 32 (going down) when
    /// the increment bit is set, 1 (going across) otherwise.
    pub fn vram_address_increment(&self) -> (r: u8)
        ensures
            r == self.increment_of(),
    {
        if self.vram_address_increment_bit() {
            32
        } else {
            1
        }
    }

    /// The address of the background pattern table.
    pub fn background_bank(&self) -> (r: usize)
        ensures
            r == (if bit_of(self.0, 4) {
                0x1000usize
            } else {
                0
            }),
    {
        if self.background_pattern_table_bank() {
            0x1000
        } else {
            0
        }
    }

    /// The address of the pattern table of 8x8 sprites; `None` for 8x16 sprites, whose
    /// bank comes from their tile index.
    pub fn sprite_bank(&self) -> (r: Option<usize>)
        ensures
            r == (if bit_of(self.0, 5) {
                None
            } else if bit_of(self.0, 3) {
                Some(0x1000usize)
            } else {
                Some(0usize)
            }),
    {
        if self.sprite_size() {
            // 8x16 sprite, bank will be ignored
            None
        } else if self.sprite_pattern_table_bank() {
            Some(0x1000)
        } else {
            Some(0)
        }
    }

    /// The address of the base nametable.
    pub fn nametable_start(&self) -> (r: u16)
        ensures
            r == 0x2000 + 0x400 * (self.0 & 3),
    {
        0x2000 + 0x400 * (self.nametable_address() as u16)
    }

    /// Generate an NMI at the start of vertical blanking.
    pub fn nmi_at_vblank(&self) -> (r: bool)
        ensures
            r == bit_of(self.0, 7),
    {
        self.non_maskable_interrupt_at_vblank()
    }

    /// Write the register: it takes the written value.
    pub fn update(&mut self, value: u8)
        ensures
            *final(self) == Control(value),
    {
        *self = Control::from(value);
    }
}

/// PPUMASK: greyscale, leftmost column visibility, background and sprite visibility,
/// colour emphasis.
/// https://www.nesdev.org/wiki/PPU_registers#PPUMASK
#[derive(Clone, Copy, Debug, PartialEq, Eq, Structural)]
pub struct Mask(pub u8);

impl Mask {
    /// A register with every bit clear.
    pub fn default() -> (r: Mask)
        ensures
            r.0 == 0,
    {
        Mask(0)
    }

    /// The register holding `value`.
    pub fn from(value: u8) -> (r: Mask)
        ensures
            r.0 == value,
    {
        Mask(value)
    }

    pub fn greyscale(&self) -> (r: bool)
        ensures
            r == bit_of(self.0, 0),
    {
        nth_bit(self.0, 0)
    }

    pub fn show_leftmost_background(&self) -> (r: bool)
        ensures
            r == bit_of(self.0, 1),
    {
        nth_bit(self.0, 1)
    }

    pub fn show_leftmost_sprites(&self) -> (r: bool)
        ensures
            r == bit_of(self.0, 2),
    {
        nth_bit(self.0, 2)
    }

    pub fn show_background(&self) -> (r: bool)
        ensures
            r == bit_of(self.0, 3),
    {
        nth_bit(self.0, 3)
    }

    pub fn show_sprites(&self) -> (r: bool)
        ensures
            r == bit_of(self.0, 4),
    {
        nth_bit(self.0, 4)
    }

    pub fn emphasize_red(&self) -> (r: bool)
        ensures
            r == bit_of(self.0, 5),
    {
        nth_bit(self.0, 5)
    }

    pub fn emphasize_green(&self) -> (r: bool)
        ensures
            r == bit_of(self.0, 6),
    {
        nth_bit(self.0, 6)
    }

    pub fn emphasize_blue(&self) -> (r: bool)
        ensures
            r == bit_of(self.0, 7),
    {
        nth_bit(self.0, 7)
    }

    /// Write the register: it takes the written value.
    pub fn update(&mut self, value: u8)
        ensures
            *final(self) == Mask(value),
    {
        *self = Mask::from(value);
    }
}

/// PPUSTATUS: sprite overflow (bit 5), sprite 0 hit (bit 6), vertical blank started
/// (bit 7).
/// https://www.nesdev.org/wiki/PPU_registers#PPUSTATUS
#[derive(Clone, Copy, Debug, PartialEq, Eq, Structural)]
pub struct Status(pub u8);

impl Status {
    /// A register with every bit clear.
    pub fn default() -> (r: Status)
        ensures
            r.0 == 0,
    {
        Status(0)
    }

    pub fn sprite_overflow(&self) -> (r: bool)
        ensures
            r == bit_of(self.0, 5),
    {
        nth_bit(self.0, 5)
    }

    pub fn sprite_zero_hit(&self) -> (r: bool)
        ensures
            r == bit_of(self.0, 6),
    {
        nth_bit(self.0, 6)
    }

    pub fn vblank_started(&self) -> (r: bool)
        ensures
            r == bit_of(self.0, 7),
    {
        nth_bit(self.0, 7)
    }

    /// Whether the PPU is in vertical blank.
    pub fn in_vblank(&self) -> (r: bool)
        ensures
            r == bit_of(self.0, 7),
    {
        self.vblank_started()
    }

    /// Set or clear the sprite 0 hit flag.
    pub fn set_sprite_zero(&mut self, value: bool)
        ensures
            final(self).0 == with_bit(old(self).0, 6, value),
    {
        self.0 = set_bit(self.0, 6, value);
    }

    /// Mark the start of vertical blank.
    pub fn set_vblank(&mut self)
        ensures
            final(self).0 == with_bit(old(self).0, 7, true),
    {
        self.0 = set_bit(self.0, 7, true);
    }

    /// Mark the end of vertical blank.
    pub fn reset_vblank(&mut self)
        ensures
            final(self).0 == with_bit(old(self).0, 7, false),
    {
        self.0 = set_bit(self.0, 7, false);
    }

    /// The raw register value.
    pub fn read(&self) -> (r: u8)
        ensures
            r == self.0,
    {
        self.0
    }

    /// The character for a flag: its letter when set, a dash otherwise.
    fn format(&self, flag: bool, c: char) -> (r: char)
        ensures
            r == flag_char(flag, c),
    {
        if flag {
            c
        } else {
            '-'
        }
    }

    /// The flags as three characters: `V` for vertical blank, `Z` for a sprite 0 hit,
    /// `O` for a sprite overflow, with a dash for each clear flag.
    pub open spec fn text(self) -> Seq<char> {
        seq![
            flag_char(bit_of(self.0, 7), 'V'),
            flag_char(bit_of(self.0, 6), 'Z'),
            flag_char(bit_of(self.0, 5), 'O'),
        ]
    }

    /// The flags as text (see `text`).
    pub fn to_string(&self) -> (r: String)
        ensures
            r@ == self.text(),
    {
        let mut chars: Vec<char> = Vec::new();
        chars.push(self.format(self.vblank_started(), 'V'));
        chars.push(self.format(self.sprite_zero_hit(), 'Z'));
        chars.push(self.format(self.sprite_overflow(), 'O'));
        string_of_chars(&chars)
    }
}

/// OAMADDR.
/// https://www.nesdev.org/wiki/PPU_registers#OAMADDR
pub struct ObjectAttributeAddress {
    pub value: u8,
}

impl ObjectAttributeAddress {
    /// The address 0.
    pub fn default() -> (r: ObjectAttributeAddress)
        ensures
            r.value == 0,
    {
        ObjectAttributeAddress { value: 0 }
    }

    /// Set the address.
    pub fn update(&mut self, data: u8)
        ensures
            final(self).value == data,
    {
        self.value = data;
    }

    /// Move to the next address, wrapping after `$FF`.
    pub fn increment(&mut self)
        ensures
            final(self).value == old(self).value.wrapping_add(1),
    {
        self.value = self.value.wrapping_add(1);
    }
}

/// PPUSCROLL: two writes set the horizontal then the vertical scroll.
/// https://www.nesdev.org/wiki/PPU_registers#PPUSCROLL
#[derive(Clone, Copy, Debug, PartialEq, Eq, Structural)]
pub struct Scroll {
    pub x: u8,
    pub y: u8,
    pub horizontal_latch: bool,
}

impl Scroll {
    /// No scroll; the next write sets the horizontal scroll.
    pub fn default() -> (r: Scroll)
        ensures
            r == (Scroll { x: 0, y: 0, horizontal_latch: true }),
    {
        Scroll { x: 0, y: 0, horizontal_latch: true }
    }

    /// Write the horizontal or the vertical scroll, alternately.
    pub fn update(&mut self, data: u8)
        ensures
            old(self).horizontal_latch ==> final(self).x == data && final(self).y == old(self).y,
            !old(self).horizontal_latch ==> final(self).y == data && final(self).x == old(self).x,
            final(self).horizontal_latch == !old(self).horizontal_latch,
    {
        if self.horizontal_latch {
            self.x = data;
        } else {
            self.y = data;
        }
        self.horizontal_latch = !self.horizontal_latch;
    }

    /// The next write sets the horizontal scroll.
    pub fn reset_latch(&mut self)
        ensures
            *final(self) == (Scroll { horizontal_latch: true, ..*old(self) }),
    {
        self.horizontal_latch = true;
    }
}

/// The highest address of the PPU bus plus one; addresses wrap below it.
pub const HIGHEST_VALID_ADDR: u16 = 0x4000;

/// PPUADDR: two writes set the high then the low byte of the VRAM address.
/// https://www.nesdev.org/wiki/PPU_registers#PPUADDR
#[derive(Clone, Copy, Debug, PartialEq, Eq, Structural)]
pub struct Address {
    pub value: u16,
    pub latch_high: bool,
}

impl Address {
    /// Address 0; the next write sets the high byte.
    pub fn default() -> (r: Address)
        ensures
            r == (Address { value: 0, latch_high: true }),
    {
        // Since this is big-endian we want to write the high byte first
        Address { value: 0, latch_high: true }
    }

    /// Wrap the address into the PPU address space.
    fn mirror(&mut self)
        ensures
            final(self).value == old(self).value % HIGHEST_VALID_ADDR,
            final(self).latch_high == old(self).latch_high,
    {
        if self.value >= HIGHEST_VALID_ADDR {
            self.value = self.value % HIGHEST_VALID_ADDR;
        }
    }

    /// Write the high byte or the low byte of the address, alternately; the result wraps
    /// below `$4000`.
    pub fn update(&mut self, data: u8)
        ensures
            old(self).latch_high ==> final(self).value == (data as int * 256 + old(self).value
                % 256) % 0x4000,
            !old(self).latch_high ==> final(self).value == ((old(self).value / 256) * 256
                + data as int) % 0x4000,
            final(self).latch_high == !old(self).latch_high,
    {
        let current = self.value;
        let hi = if self.latch_high { data } else { crate::util::high_byte_of(current) };
        let lo = if self.latch_high { crate::util::low_byte_of(current) } else { data };
        self.value = crate::util::word_from_bytes(lo, hi);
        self.mirror();
        self.latch_high = !self.latch_high;
    }

    /// Move the address by `increment`, wrapping below `$4000`.
    pub fn increment(&mut self, increment: u8)
        ensures
            final(self).value == (old(self).value.wrapping_add(increment as u16)) % 0x4000,
            final(self).latch_high == old(self).latch_high,
    {
        self.value = self.value.wrapping_add(increment as u16);
        self.mirror();
    }

    /// The next write sets the high byte.
    pub fn reset_latch(&mut self)
        ensures
            *final(self) == (Address { latch_high: true, ..*old(self) }),
    {
        self.latch_high = true;
    }
}

/// The read buffer of PPUDATA: a read returns the byte fetched by the previous read.
/// https://www.nesdev.org/wiki/PPU_registers#PPUDATA
pub struct Data {
    pub buffer: u8,
}

impl Data {
    /// An empty buffer.
    pub fn default() -> (r: Data)
        ensures
            r.buffer == 0,
    {
        Data { buffer: 0 }
    }

    /// Updates the internal data buffer, used for reading. Returns the previous contents.
    pub fn update_buffer(&mut self, value: u8) -> (r: u8)
        ensures
            r == old(self).buffer,
            final(self).buffer == value,
    {
        let result = self.buffer;
        self.buffer = value;
        result
    }
}

/// The eight PPU registers repeat every eight bytes through `$2000-$3FFF`.
pub proof fn lemma_register_mirrors(address: u16)
    requires
        0x2000 <= address <= 0x3FF7,
    ensures
        register_at(address) == register_at((address + 8) as u16),
        register_at(address) is Some,
{
}

} // verus!
