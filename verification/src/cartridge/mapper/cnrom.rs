//! CNROM: fixed program ROM, switchable 8 KiB character ROM bank.
//! See https://www.nesdev.org/wiki/INES_Mapper_003

use super::{Cartridge, Mapper, Mirroring, PROGRAM_ROM_START};
use vstd::prelude::*;

verus! {

/// https://www.nesdev.org/wiki/INES_Mapper_003
pub struct CnROM {
    pub cartridge: Cartridge,
    pub bank_select: u8,
}

impl CnROM {
    /// The mapper holding `cartridge`, character bank 0 selected.
    pub fn new(cartridge: Cartridge) -> (r: CnROM)
        ensures
            r == (CnROM { cartridge, bank_select: 0 }),
    {
        Self { cartridge, bank_select: 0 }
    }
}

impl Mapper for CnROM {
    open spec fn mirroring_of(&self) -> Mirroring {
        self.cartridge.header.mirroring
    }

    open spec fn cpu_readable(&self, address: u16) -> bool {
        address >= PROGRAM_ROM_START && address - PROGRAM_ROM_START
            < self.cartridge.program_rom@.len()
    }

    open spec fn cpu_read(&self, address: u16) -> u8 {
        self.cartridge.program_rom@[address - PROGRAM_ROM_START]
    }

    open spec fn cpu_writable(&self, address: u16, data: u8) -> bool {
        true
    }

    /// Any write selects the character ROM bank mapped to `$0000-$1FFF`.
    open spec fn cpu_written(&self, address: u16, data: u8) -> Self {
        CnROM { bank_select: data, ..*self }
    }

    open spec fn ppu_readable(&self, address: u16) -> bool {
        self.bank_select * 0x2000 + address < self.cartridge.character_rom@.len()
    }

    open spec fn ppu_read(&self, address: u16) -> u8 {
        self.cartridge.character_rom@[self.bank_select * 0x2000 + address]
    }

    /// Writes to the character ROM are not implemented.
    open spec fn ppu_writable(&self, address: u16, data: u8) -> bool {
        false
    }

    open spec fn ppu_write_effect(&self, address: u16, data: u8, next: Self) -> bool {
        next == *self
    }

    open spec fn program_ram(&self) -> bool {
        false
    }

    fn mirroring(&self) -> (r: Mirroring) {
        self.cartridge.header.mirroring
    }

    fn read_cpu(&mut self, address: u16) -> (r: u8) {
        self.cartridge.program_rom[(address - PROGRAM_ROM_START) as usize]
    }

    fn write_cpu(&mut self, _address: u16, value: u8) {
        // Select a character ROM bank mapped to $0000-$1FFF
        self.bank_select = value;
    }

    fn read_ppu(&mut self, address: u16) -> (r: u8) {
        let address = (self.bank_select as usize * 0x2000) + address as usize;
        self.cartridge.character_rom[address]
    }

    /// Not implemented: no write is defined.
    fn write_ppu(&mut self, _address: u16, _value: u8) {
    }

    fn has_program_ram(&self) -> (r: bool) {
        false
    }
}

/// CnROM's windows: the PPU sees the selected 8 KiB character bank at `$0000-$1FFF`; a
/// CPU write selects the bank named by the byte, and the program ROM the CPU reads stays
/// as it was.
pub proof fn lemma_bank_windows(m: CnROM, address: u16, at: u16, data: u8)
    ensures
        m.ppu_readable(address) ==> m.ppu_read(address) == m.cartridge.character_rom@[
        m.bank_select * 0x2000 + address],
        m.cpu_written(at, data).ppu_readable(address) ==> m.cpu_written(at, data).ppu_read(address)
            == m.cartridge.character_rom@[data * 0x2000 + address],
        m.cpu_readable(address) ==> m.cpu_written(at, data).cpu_read(address) == m.cpu_read(
            address,
        ),
{
}

} // verus!
