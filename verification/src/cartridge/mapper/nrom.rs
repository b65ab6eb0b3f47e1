//! NROM: fixed program and character ROM.
//! See https://www.nesdev.org/wiki/NROM

use super::{Cartridge, Mapper, Mirroring, PROGRAM_ROM_PAGE_SIZE, PROGRAM_ROM_START};
use vstd::prelude::*;

verus! {

/// https://www.nesdev.org/wiki/NROM
pub struct NROM {
    pub cartridge: Cartridge,
}

impl NROM {
    /// The mapper holding `cartridge`.
    pub fn new(cartridge: Cartridge) -> (r: NROM)
        ensures
            r == (NROM { cartridge }),
    {
        Self { cartridge }
    }

    /// The program ROM index of a CPU address: one page is mirrored at `$C000`.
    pub open spec fn program_index(&self, address: u16) -> int {
        let offset = address - PROGRAM_ROM_START;
        if self.cartridge.header.program_rom_pages == 1 {
            offset % PROGRAM_ROM_PAGE_SIZE as int
        } else {
            offset
        }
    }
}

impl Mapper for NROM {
    open spec fn mirroring_of(&self) -> Mirroring {
        self.cartridge.header.mirroring
    }

    open spec fn cpu_readable(&self, address: u16) -> bool {
        address >= PROGRAM_ROM_START && self.program_index(address) < self.cartridge.program_rom@.len()
    }

    open spec fn cpu_read(&self, address: u16) -> u8 {
        self.cartridge.program_rom@[self.program_index(address)]
    }

    /// The program ROM is read-only.
    open spec fn cpu_writable(&self, address: u16, data: u8) -> bool {
        false
    }

    open spec fn cpu_written(&self, address: u16, data: u8) -> Self {
        *self
    }

    open spec fn ppu_readable(&self, address: u16) -> bool {
        (address as int) < self.cartridge.character_rom@.len()
    }

    open spec fn ppu_read(&self, address: u16) -> u8 {
        self.cartridge.character_rom@[address as int]
    }

    /// The character ROM is read-only.
    open spec fn ppu_writable(&self, address: u16, data: u8) -> bool {
        false
    }

    open spec fn ppu_write_effect(&self, address: u16, data: u8, next: Self) -> bool {
        next == *self
    }

    open spec fn program_ram(&self) -> bool {
        false
    }

    fn mirroring(&self) -> (r: Mirroring) {
        self.cartridge.header.mirroring
    }

    fn read_cpu(&mut self, address: u16) -> (r: u8) {
        let mut offset = address - PROGRAM_ROM_START;
        if self.cartridge.header.program_rom_pages == 1 {
            offset = offset % (PROGRAM_ROM_PAGE_SIZE as u16);
        }
        self.cartridge.program_rom[offset as usize]
    }

    fn read_ppu(&mut self, address: u16) -> (r: u8) {
        self.cartridge.character_rom[address as usize]
    }

    /// The character ROM is read-only: no write is defined.
    fn write_ppu(&mut self, _address: u16, _value: u8) {
    }

    /// The program ROM is read-only: no write is defined.
    fn write_cpu(&mut self, _address: u16, _value: u8) {
    }

    fn has_program_ram(&self) -> (r: bool) {
        false
    }
}

/// NROM's CPU window: with one 16 KiB page of program ROM, `$C000-$FFFF` mirrors
/// `$8000-$BFFF`; with two, `$8000-$FFFF` reads the 32 KiB straight through.
pub proof fn lemma_program_window(m: NROM, address: u16)
    requires
        m.cpu_readable(address),
    ensures
        m.cartridge.header.program_rom_pages == 1 && address < 0xC000 ==> m.cpu_readable(
            (address + 0x4000) as u16,
        ) && m.cpu_read((address + 0x4000) as u16) == m.cpu_read(address),
        m.cartridge.header.program_rom_pages != 1 ==> m.cpu_read(address)
            == m.cartridge.program_rom@[address - 0x8000],
{
}

} // verus!
