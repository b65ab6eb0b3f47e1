//! MMC3: eight bank registers for 8 KiB program and 1-2 KiB character banks, and
//! program RAM.
//! See https://www.nesdev.org/wiki/MMC3

use super::{Cartridge, Mapper, Mirroring};
use crate::util::{bit_of, nth_bit};
use vstd::prelude::*;

verus! {

/// Size of the program RAM.
pub const PROGRAM_RAM_SIZE: usize = 0x2000;

/// Size of a program ROM bank.
pub const BANK_SIZE: usize = 0x2000;

/// https://www.nesdev.org/wiki/MMC3
pub struct MMC3 {
    pub cartridge: Cartridge,
    pub program_ram: [u8; PROGRAM_RAM_SIZE],
    pub program_ram_enabled: bool,
    pub program_ram_write_protected: bool,
    pub registers: [u8; 8],
    pub bank_index: u8,
    pub program_rom_bank_mode: bool,
    pub character_rom_bank_mode: bool,
    pub interrupt_enable: bool,
    pub interrupt_flag: bool,
    pub interrupt_reset: bool,
    pub interrupt_counter: u8,
}

impl MMC3 {
    /// The power-on state with `cart`.
    pub open spec fn initial(cart: Cartridge) -> MMC3 {
        MMC3 {
            cartridge: cart,
            program_ram: vstd::array::spec_array_fill_for_copy_type(0u8),
            program_ram_enabled: false,
            program_ram_write_protected: false,
            registers: vstd::array::spec_array_fill_for_copy_type(0u8),
            bank_index: 0,
            program_rom_bank_mode: false,
            character_rom_bank_mode: false,
            interrupt_enable: false,
            interrupt_reset: false,
            interrupt_flag: false,
            interrupt_counter: 0,
        }
    }

    /// The mapper holding `cartridge`, with cleared RAM and registers.
    pub fn new(cartridge: Cartridge) -> (r: MMC3)
        ensures
            r == MMC3::initial(cartridge),
    {
        Self {
            cartridge,
            program_ram: [0;PROGRAM_RAM_SIZE],
            program_ram_enabled: false,
            program_ram_write_protected: false,
            registers: [0;8],
            bank_index: 0,
            program_rom_bank_mode: false,
            character_rom_bank_mode: false,
            interrupt_enable: false,
            interrupt_reset: false,
            interrupt_flag: false,
            interrupt_counter: 0,
        }
    }

    /// The start of 8 KiB bank `index`.
    fn bank(&self, index: usize) -> (r: usize)
        requires
            index <= 0xFF || index <= self.total_banks(),
        ensures
            r == index * BANK_SIZE,
    {
        let _len = self.cartridge.program_rom.len();
        proof {
            let len = self.cartridge.program_rom@.len() as int;
            if index > 0xFF {
                assert(index * BANK_SIZE <= len) by (nonlinear_arith)
                    requires index <= len / (BANK_SIZE as int), len >= 0;
            }
        }
        index * BANK_SIZE
    }

    /// The number of 8 KiB program ROM banks.
    pub open spec fn total_banks(self) -> int {
        self.cartridge.program_rom@.len() as int / BANK_SIZE as int
    }

    fn total_program_rom_banks(&self) -> (r: usize)
        ensures
            r == self.total_banks(),
    {
        self.cartridge.program_rom.len() / BANK_SIZE
    }

    /// The 8 KiB bank number mapped at a CPU address of `$8000-$FFFF`.
    pub open spec fn bank_at(self, address: u16) -> int {
        if address <= 0x9FFF {
            if self.program_rom_bank_mode {
                self.total_banks() - 2
            } else {
                self.registers@[6] as int
            }
        } else if address <= 0xBFFF {
            self.registers@[7] as int
        } else if address <= 0xDFFF {
            if self.program_rom_bank_mode {
                self.registers@[6] as int
            } else {
                self.total_banks() - 2
            }
        } else {
            self.total_banks() - 1
        }
    }

    /// The program ROM index of a CPU address of `$8000-$FFFF`.
    pub open spec fn program_index(self, address: u16) -> int {
        self.bank_at(address) * BANK_SIZE + (address as int % BANK_SIZE as int)
    }

    /// The 1 KiB character bank mapped at a PPU address of `$0000-$1FFF`.
    pub open spec fn character_bank(self, address: u16) -> u8 {
        let block = (address / 0x400) as int;
        let r = self.registers@;
        let slot: int = if self.character_rom_bank_mode {
            (block + 4) % 8
        } else {
            block
        };
        if slot == 0 {
            r[0] & 0b1111_1110
        } else if slot == 1 {
            r[0] | 1
        } else if slot == 2 {
            r[1] & 0b1111_1110
        } else if slot == 3 {
            r[1] | 1
        } else {
            r[slot - 2]
        }
    }
}

impl Mapper for MMC3 {
    open spec fn mirroring_of(&self) -> Mirroring {
        self.cartridge.header.mirroring
    }

    open spec fn cpu_readable(&self, address: u16) -> bool {
        ||| 0x6000 <= address <= 0x7FFF
        ||| address >= 0x8000 && self.bank_at(address) >= 0 && self.program_index(address)
            < self.cartridge.program_rom@.len()
    }

    open spec fn cpu_read(&self, address: u16) -> u8 {
        if address <= 0x7FFF {
            if self.program_ram_enabled {
                self.program_ram@[address - 0x6000]
            } else {
                0
            }
        } else {
            self.cartridge.program_rom@[self.program_index(address)]
        }
    }

    open spec fn cpu_writable(&self, address: u16, data: u8) -> bool {
        &&& address >= 0x6000
        &&& 0x8000 <= address <= 0x9FFF && address % 2 == 1 ==> self.bank_index < 8
    }

    open spec fn cpu_written(&self, address: u16, data: u8) -> Self {
        let even = address % 2 == 0;
        if address <= 0x7FFF {
            if self.program_ram_enabled && !self.program_ram_write_protected {
                MMC3 {
                    program_ram: vstd::array::spec_array_update(
                        self.program_ram,
                        address - 0x6000,
                        data,
                    ),
                    ..*self
                }
            } else {
                *self
            }
        } else if address <= 0x9FFF {
            if even {
                MMC3 {
                    bank_index: data & 0b0000_0111,
                    program_rom_bank_mode: bit_of(data, 6),
                    character_rom_bank_mode: bit_of(data, 7),
                    ..*self
                }
            } else {
                let value = if self.bank_index <= 1 {
                    data & 0b1111_1110
                } else if 6 <= self.bank_index <= 7 {
                    data & 0b0011_1111
                } else {
                    data
                };
                MMC3 {
                    registers: vstd::array::spec_array_update(
                        self.registers,
                        self.bank_index as int,
                        value,
                    ),
                    ..*self
                }
            }
        } else if address <= 0xBFFF {
            if even {
                MMC3 {
                    cartridge: Cartridge {
                        header: crate::cartridge::Header {
                            mirroring: if bit_of(data, 0) {
                                Mirroring::Horizontal
                            } else {
                                Mirroring::Vertical
                            },
                            ..self.cartridge.header
                        },
                        ..self.cartridge
                    },
                    ..*self
                }
            } else {
                MMC3 {
                    program_ram_write_protected: bit_of(data, 6),
                    program_ram_enabled: bit_of(data, 7),
                    ..*self
                }
            }
        } else if address <= 0xDFFF {
            if even {
                MMC3 { interrupt_counter: data, ..*self }
            } else {
                MMC3 { interrupt_reset: true, ..*self }
            }
        } else {
            if even {
                MMC3 { interrupt_enable: false, interrupt_flag: false, ..*self }
            } else {
                MMC3 { interrupt_enable: true, ..*self }
            }
        }
    }

    open spec fn ppu_readable(&self, address: u16) -> bool {
        address <= 0x1FFF && self.character_bank(address) * 0x400 + address % 0x400
            < self.cartridge.character_rom@.len()
    }

    open spec fn ppu_read(&self, address: u16) -> u8 {
        self.cartridge.character_rom@[self.character_bank(address) * 0x400 + address % 0x400]
    }

    /// Writes to the character ROM are not implemented.
    open spec fn ppu_writable(&self, address: u16, data: u8) -> bool {
        false
    }

    open spec fn ppu_write_effect(&self, address: u16, data: u8, next: Self) -> bool {
        next == *self
    }

    open spec fn program_ram(&self) -> bool {
        false
    }

    fn mirroring(&self) -> (r: Mirroring) {
        self.cartridge.header.mirroring
    }

    fn read_cpu(&mut self, address: u16) -> (r: u8) {
        if address <= 0x7FFF {
            if self.program_ram_enabled {
                let address = address - 0x6000;
                self.program_ram[address as usize]
            } else {
                // Open bus
                0
            }
        } else if address <= 0x9FFF {
            let bank = if self.program_rom_bank_mode {
                self.bank(self.total_program_rom_banks() - 2)
            } else {
                self.bank(self.registers[6] as usize)
            };
            let address = address - 0x8000;
            self.cartridge.program_rom[bank + address as usize]
        } else if address <= 0xBFFF {
            let bank = self.bank(self.registers[7] as usize);
            let address = address - 0xA000;
            self.cartridge.program_rom[bank + address as usize]
        } else if address <= 0xDFFF {
            let bank = if self.program_rom_bank_mode {
                self.bank(self.registers[6] as usize)
            } else {
                self.bank(self.total_program_rom_banks() - 2)
            };
            let address = address - 0xC000;
            self.cartridge.program_rom[bank + address as usize]
        } else {
            let bank = self.bank(self.total_program_rom_banks() - 1);
            let address = address - 0xE000;
            self.cartridge.program_rom[bank + address as usize]
        }
    }

    fn write_cpu(&mut self, address: u16, value: u8) {
        let even = address % 2 == 0;
        if address <= 0x7FFF {
            if self.program_ram_enabled && !self.program_ram_write_protected {
                let address = address - 0x6000;
                self.program_ram[address as usize] = value;
            }
        } else if address <= 0x9FFF {
            if even {
                self.bank_index = value & 0b0000_0111;
                self.program_rom_bank_mode = nth_bit(value, 6);
                self.character_rom_bank_mode = nth_bit(value, 7);
            } else {
                let value = if self.bank_index <= 1 {
                    value & 0b1111_1110
                } else if 6 <= self.bank_index && self.bank_index <= 7 {
                    value & 0b0011_1111
                } else {
                    value
                };
                self.registers[self.bank_index as usize] = value;
            }
        } else if address <= 0xBFFF {
            if even {
                self.cartridge.header.mirroring = if nth_bit(value, 0) {
                    Mirroring::Horizontal
                } else {
                    Mirroring::Vertical
                };
            } else {
                self.program_ram_write_protected = nth_bit(value, 6);
                self.program_ram_enabled = nth_bit(value, 7);
            }
        } else if address <= 0xDFFF {
            if even {
                self.interrupt_counter = value;
            } else {
                self.interrupt_reset = true;
            }
        } else {
            if even {
                self.interrupt_enable = false;
                self.interrupt_flag = false;
            } else {
                self.interrupt_enable = true;
            }
        }
    }

    fn read_ppu(&mut self, address: u16) -> (r: u8) {
        let block = address / 0x400;
        let slot = if self.character_rom_bank_mode {
            (block + 4) % 8
        } else {
            block
        };
        let bank = if slot == 0 {
            self.registers[0] & 0b1111_1110
        } else if slot == 1 {
            self.registers[0] | 1
        } else if slot == 2 {
            self.registers[1] & 0b1111_1110
        } else if slot == 3 {
            self.registers[1] | 1
        } else {
            self.registers[(slot - 2) as usize]
        } as usize;
        let address = (bank * 0x400) + (address as usize % 0x400);
        self.cartridge.character_rom[address]
    }

    /// Not implemented: no write is defined.
    fn write_ppu(&mut self, _address: u16, _value: u8) {
    }

    fn has_program_ram(&self) -> (r: bool) {
        false
    }
}

/// The CPU windows of MMC3: `$6000-$7FFF` is the program RAM (open bus, 0, while it is
/// disabled); R7 selects the 8 KiB program bank at `$A000-$BFFF`; R6 selects the bank at
/// `$8000-$9FFF`, or at `$C000-$DFFF` in the swapped program bank mode, where the
/// second-to-last bank takes the other window; `$E000-$FFFF` always holds the last bank.
pub proof fn lemma_program_windows(m: MMC3, address: u16)
    requires
        m.cpu_readable(address),
    ensures
        ({
            let rom = m.cartridge.program_rom@;
            let banks = rom.len() as int / 0x2000;
            let r = m.registers@;
            let read = m.cpu_read(address);
            &&& 0x6000 <= address <= 0x7FFF ==> read == (if m.program_ram_enabled {
                m.program_ram@[address - 0x6000]
            } else {
                0
            })
            &&& 0x8000 <= address <= 0x9FFF ==> read == rom[(if m.program_rom_bank_mode {
                banks - 2
            } else {
                r[6] as int
            }) * 0x2000 + (address - 0x8000)]
            &&& 0xA000 <= address <= 0xBFFF ==> read == rom[r[7] as int * 0x2000 + (address
                - 0xA000)]
            &&& 0xC000 <= address <= 0xDFFF ==> read == rom[(if m.program_rom_bank_mode {
                r[6] as int
            } else {
                banks - 2
            }) * 0x2000 + (address - 0xC000)]
            &&& 0xE000 <= address ==> read == rom[(banks - 1) * 0x2000 + (address - 0xE000)]
        }),
{
}

/// Selecting R7 through `$8000` and writing `b` through `$8001` maps the 8 KiB program
/// bank `b` (its six low bits) at `$A000-$BFFF`: a read there returns the byte of that
/// bank.
pub proof fn lemma_select_r7_then_read(m: MMC3, select: u8, b: u8, address: u16)
    requires
        select & 0x07 == 7,
        0xA000 <= address <= 0xBFFF,
        m.cpu_written(0x8000, select).cpu_written(0x8001, b).cpu_readable(address),
    ensures
        m.cpu_written(0x8000, select).cpu_written(0x8001, b).cpu_read(address)
            == m.cartridge.program_rom@[(b & 0x3F) * 0x2000 + (address - 0xA000)],
{
    let m1 = m.cpu_written(0x8000, select);
    assert(m1.bank_index == 7);
    let m2 = m1.cpu_written(0x8001, b);
    assert(m2.registers@[7] == b & 0x3F);
}

} // verus!
