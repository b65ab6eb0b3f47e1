//! UxROM: a switchable 16 KiB program ROM bank at `$8000`, the last bank fixed at `$C000`.
//! See https://www.nesdev.org/wiki/UxROM

use super::{Cartridge, Mapper, Mirroring, PROGRAM_ROM_PAGE_SIZE, PROGRAM_ROM_START};
use vstd::prelude::*;

verus! {

/// Start of the fixed last bank.
pub const LAST_BANK: u16 = 0xC000;

/// https://www.nesdev.org/wiki/UxROM
pub struct UxROM {
    pub cartridge: Cartridge,
    pub bank_select: u8,
}

impl UxROM {
    /// The mapper holding `cartridge`, bank 0 selected.
    pub fn new(cartridge: Cartridge) -> (r: UxROM)
        ensures
            r == (UxROM { cartridge, bank_select: 0 }),
    {
        Self { cartridge, bank_select: 0 }
    }

    /// The start of 16 KiB bank `index` in the program ROM.
    fn bank(&self, index: usize) -> (r: usize)
        requires
            index * PROGRAM_ROM_PAGE_SIZE <= usize::MAX,
        ensures
            r == index * PROGRAM_ROM_PAGE_SIZE,
    {
        index * PROGRAM_ROM_PAGE_SIZE
    }

    /// The program ROM index of a CPU address: the selected bank below `$C000`, the last
    /// bank above.
    pub open spec fn program_index(&self, address: u16) -> int {
        if address < LAST_BANK {
            self.bank_select * PROGRAM_ROM_PAGE_SIZE + (address - PROGRAM_ROM_START)
        } else {
            (self.cartridge.header.program_rom_pages - 1) * PROGRAM_ROM_PAGE_SIZE + (address
                - LAST_BANK)
        }
    }
}

impl Mapper for UxROM {
    open spec fn mirroring_of(&self) -> Mirroring {
        self.cartridge.header.mirroring
    }

    open spec fn cpu_readable(&self, address: u16) -> bool {
        &&& address >= PROGRAM_ROM_START
        &&& address >= LAST_BANK ==> self.cartridge.header.program_rom_pages >= 1
            && self.cartridge.header.program_rom_pages * PROGRAM_ROM_PAGE_SIZE <= usize::MAX
        &&& self.program_index(address) < self.cartridge.program_rom@.len()
    }

    open spec fn cpu_read(&self, address: u16) -> u8 {
        self.cartridge.program_rom@[self.program_index(address)]
    }

    open spec fn cpu_writable(&self, address: u16, data: u8) -> bool {
        true
    }

    /// Any write selects the bank: the low four bits of the value.
    open spec fn cpu_written(&self, address: u16, data: u8) -> Self {
        UxROM { bank_select: data & 0b0000_1111, ..*self }
    }

    open spec fn ppu_readable(&self, address: u16) -> bool {
        (address as int) < self.cartridge.character_rom@.len()
    }

    open spec fn ppu_read(&self, address: u16) -> u8 {
        self.cartridge.character_rom@[address as int]
    }

    open spec fn ppu_writable(&self, address: u16, data: u8) -> bool {
        (address as int) < self.cartridge.character_rom@.len()
    }

    /// Writes go to the character memory.
    open spec fn ppu_write_effect(&self, address: u16, data: u8, next: Self) -> bool {
        &&& next.cartridge.character_rom@ == self.cartridge.character_rom@.update(address as int, data)
        &&& next.cartridge.program_rom == self.cartridge.program_rom
        &&& next.cartridge.header == self.cartridge.header
        &&& next.bank_select == self.bank_select
    }

    open spec fn program_ram(&self) -> bool {
        false
    }

    fn mirroring(&self) -> (r: Mirroring) {
        self.cartridge.header.mirroring
    }

    fn read_cpu(&mut self, address: u16) -> (r: u8) {
        if PROGRAM_ROM_START <= address && address < LAST_BANK {
            // Variable bank of program ROM
            let bank = self.bank(self.bank_select as usize);
            let offset = address - PROGRAM_ROM_START;
            self.cartridge.program_rom[bank + offset as usize]
        } else {
            // Last 16KB of program ROM
            let bank = self.bank(self.cartridge.header.program_rom_pages - 1);
            let offset = address - LAST_BANK;
            self.cartridge.program_rom[bank + offset as usize]
        }
    }

    fn write_cpu(&mut self, _address: u16, value: u8) {
        self.bank_select = value & 0b0000_1111;
    }

    fn read_ppu(&mut self, address: u16) -> (r: u8) {
        self.cartridge.character_rom[address as usize]
    }

    fn write_ppu(&mut self, address: u16, value: u8) {
        self.cartridge.character_rom.set(address as usize, value);
    }

    fn has_program_ram(&self) -> (r: bool) {
        false
    }
}

/// UxROM's CPU windows: `$8000-$BFFF` holds the selected 16 KiB bank and `$C000-$FFFF`
/// the last one. A write anywhere selects the bank named by the low four bits of the
/// byte and leaves the fixed window as it was.
pub proof fn lemma_bank_windows(m: UxROM, address: u16, at: u16, data: u8)
    requires
        m.cpu_readable(address),
    ensures
        address < 0xC000 ==> m.cpu_read(address) == m.cartridge.program_rom@[m.bank_select
            * 0x4000 + (address - 0x8000)],
        address >= 0xC000 ==> m.cpu_read(address) == m.cartridge.program_rom@[(
        m.cartridge.header.program_rom_pages - 1) * 0x4000 + (address - 0xC000)],
        m.cpu_written(at, data).bank_select == data & 0x0F,
        address >= 0xC000 ==> m.cpu_written(at, data).cpu_read(address) == m.cpu_read(address),
{
}

} // verus!
