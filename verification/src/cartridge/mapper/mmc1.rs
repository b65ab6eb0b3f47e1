//! MMC1: a serial shift register sets the control register and the bank numbers.
//! See https://www.nesdev.org/wiki/MMC1

use super::{Cartridge, Mapper, Mirroring, PROGRAM_ROM_PAGE_SIZE, PROGRAM_ROM_START};
use crate::util::{bit_of, nth_bit};
use vstd::prelude::*;

verus! {

/// Start of the upper program ROM bank.
pub const LAST_BANK: u16 = 0xC000;

/// How the program ROM is banked.
enum ProgramRomBank {
    Consecutive,
    FixFirst,
    FixLast,
}

/// How the character ROM is banked.
enum CharacterRomBank {
    Consecutive,
    Split,
}

/// The control register:
///
/// ```text
/// 4bit0
/// -----
/// CPPMM
/// |||||
/// |||++- Mirroring (0: one-screen, lower bank; 1: one-screen, upper bank;
/// |||               2: vertical; 3: horizontal)
/// |++--- PRG ROM bank mode (0, 1: switch 32 KB at $8000, ignoring low bit of bank number;
/// |                         2: fix first bank at $8000 and switch 16 KB bank at $C000;
/// |                         3: fix last bank at $C000 and switch 16 KB bank at $8000)
/// +----- CHR ROM bank mode (0: switch 8 KB at a time; 1: switch two separate 4 KB banks)
/// ```
/// https://www.nesdev.org/wiki/MMC1#Control_(internal,_$8000-$9FFF)
#[derive(Clone, Copy, Debug, PartialEq, Eq, Structural)]
pub struct ControlRegister(pub u8);

impl ControlRegister {
    /// Bits 0 and 1.
    pub fn mirroring_mode(&self) -> (r: u8)
        ensures
            r == self.0 & 3,
            r <= 3,
    {
        let v = self.0;
        assert(v & 3 <= 3) by (bit_vector);
        v & 3
    }

    /// Bits 2 and 3.
    pub fn program_rom_bank_mode(&self) -> (r: u8)
        ensures
            r == (self.0 >> 2) & 3,
            r <= 3,
    {
        let v = self.0;
        assert((v >> 2) & 3 <= 3) by (bit_vector);
        (v >> 2) & 3
    }

    /// Bit 4.
    pub fn character_rom_bank_mode(&self) -> (r: bool)
        ensures
            r == bit_of(self.0, 4),
    {
        nth_bit(self.0, 4)
    }

    /// The mirroring that the mirroring bits select.
    pub open spec fn mirroring_of(self) -> Mirroring {
        let m = self.0 & 3;
        if m == 2 {
            Mirroring::Vertical
        } else if m == 3 {
            Mirroring::Horizontal
        } else {
            Mirroring::OneScreen
        }
    }

    fn mirroring(&self) -> (r: Mirroring)
        ensures
            r == self.mirroring_of(),
    {
        match self.mirroring_mode() {
            2 => Mirroring::Vertical,
            3 => Mirroring::Horizontal,
            _ => Mirroring::OneScreen,
        }
    }

    fn program_rom_bank(&self) -> (r: ProgramRomBank)
        ensures
            (self.0 >> 2) & 3 <= 3,
            (self.0 >> 2) & 3 <= 1 ==> r is Consecutive,
            (self.0 >> 2) & 3 == 2 ==> r is FixFirst,
            (self.0 >> 2) & 3 == 3 ==> r is FixLast,
    {
        let v = self.0;
        assert((v >> 2) & 3 <= 3) by (bit_vector);
        match self.program_rom_bank_mode() {
            2 => ProgramRomBank::FixFirst,
            3 => ProgramRomBank::FixLast,
            _ => ProgramRomBank::Consecutive,
        }
    }

    fn character_rom_bank(&self) -> (r: CharacterRomBank)
        ensures
            bit_of(self.0, 4) ==> r is Split,
            !bit_of(self.0, 4) ==> r is Consecutive,
    {
        if self.character_rom_bank_mode() {
            CharacterRomBank::Split
        } else {
            CharacterRomBank::Consecutive
        }
    }
}

/// https://www.nesdev.org/wiki/MMC1
pub struct MMC1 {
    pub cartridge: Cartridge,
    pub shift_count: u8,
    pub shift_register: u8,
    pub control: ControlRegister,
    pub character_bank_0: u8,
    pub character_bank_1: u8,
    pub program_bank: u8,
}

impl MMC1 {
    /// The power-on state with `cart`.
    pub open spec fn initial(cart: Cartridge) -> MMC1 {
        MMC1 {
            cartridge: cart,
            shift_count: 0,
            shift_register: 0,
            control: ControlRegister(0),
            character_bank_0: 0,
            character_bank_1: 0,
            program_bank: 0,
        }
    }

    /// The shift register holds only the bits written since it was last emptied: fewer
    /// than five, and nothing at or above bit `shift_count`. `new` establishes this and
    /// every write keeps it (`lemma_write_keeps_shift_wf`).
    pub open spec fn shift_wf(self) -> bool {
        &&& self.shift_count < 5
        &&& (self.shift_register as int) < shift_bound(self.shift_count)
    }

    /// The mapper holding `cartridge`, every register cleared.
    pub fn new(cartridge: Cartridge) -> (r: MMC1)
        ensures
            r == MMC1::initial(cartridge),
            r.shift_wf(),
    {
        Self {
            cartridge,
            shift_count: 0,
            shift_register: 0,
            control: ControlRegister(0),
            character_bank_0: 0,
            character_bank_1: 0,
            program_bank: 0,
        }
    }

    /// The state after a write with bit 7 set: the shift register is emptied and the
    /// program ROM bank mode becomes 3.
    pub open spec fn reset_state(self) -> MMC1 {
        MMC1 { shift_count: 0, shift_register: 0, control: ControlRegister(self.control.0 | 0x0C), ..self }
    }

    fn reset_shift(&mut self)
        ensures
            *final(self) == old(self).reset_state(),
    {
        self.shift_count = 0;
        self.shift_register = 0;
        self.control = ControlRegister(self.control.0 | 0x0C);
    }

    fn read_shift(&self) -> (r: u8)
        ensures
            r == self.shift_register & 0b0001_1111,
    {
        self.shift_register & 0b0001_1111
    }

    /// The start of 16 KiB bank `index`.
    fn bank(&self, index: u8) -> (r: usize)
        ensures
            r == index * PROGRAM_ROM_PAGE_SIZE,
    {
        index as usize * PROGRAM_ROM_PAGE_SIZE
    }

    /// The bank number of the program ROM at `$8000-$BFFF`: the first bank is fixed
    /// there in mode 2, and the program bank is switched in there in mode 3.
    pub open spec fn low_bank(self) -> int {
        let mode = (self.control.0 >> 2) & 3;
        if mode <= 1 {
            (self.program_bank & 0b1111_1110) as int
        } else if mode == 2 {
            0
        } else {
            self.program_bank as int
        }
    }

    /// The bank number of the program ROM at `$C000-$FFFF`.
    pub open spec fn high_bank(self) -> int {
        let mode = (self.control.0 >> 2) & 3;
        if mode <= 1 {
            ((self.program_bank & 0b1111_1110) | 1) as int
        } else if mode == 2 {
            self.program_bank as int
        } else {
            (self.cartridge.header.program_rom_pages as u8) - 1
        }
    }

    /// The program ROM index of a CPU address.
    pub open spec fn program_index(self, address: u16) -> int {
        if address < LAST_BANK {
            self.low_bank() * PROGRAM_ROM_PAGE_SIZE + (address - PROGRAM_ROM_START)
        } else {
            self.high_bank() * PROGRAM_ROM_PAGE_SIZE + (address - LAST_BANK)
        }
    }

    /// The character bank value that covers a PPU address.
    pub open spec fn ppu_bank_of(self, address: u16) -> int {
        let bank = if address <= 0x0FFF {
            self.character_bank_0
        } else {
            self.character_bank_1
        };
        if bit_of(self.control.0, 4) {
            bank as int
        } else {
            (bank & 0b1111_1110) as int
        }
    }

    fn ppu_bank(&self, address: u16) -> (r: usize)
        requires
            address <= 0x1FFF,
        ensures
            r == self.ppu_bank_of(address),
    {
        let bank = if address <= 0x0FFF {
            match self.control.character_rom_bank() {
                CharacterRomBank::Consecutive => self.character_bank_0 & 0b1111_1110,
                CharacterRomBank::Split => self.character_bank_0,
            }
        } else {
            match self.control.character_rom_bank() {
                CharacterRomBank::Consecutive => self.character_bank_1 & 0b1111_1110,
                CharacterRomBank::Split => self.character_bank_1,
            }
        };
        bank as usize
    }

    /// The mapper with `value` in the register that `address` selects: the control
    /// register, either character bank, or (its low four bits) the program bank.
    pub open spec fn with_register(self, address: u16, value: u8) -> MMC1 {
        if address <= 0x9FFF {
            MMC1 { control: ControlRegister(value), ..self }
        } else if address <= 0xBFFF {
            MMC1 { character_bank_0: value, ..self }
        } else if address <= 0xDFFF {
            MMC1 { character_bank_1: value, ..self }
        } else {
            MMC1 { program_bank: value & 0b0000_1111, ..self }
        }
    }

    /// The shift register state before a write adds its bit.
    pub open spec fn before_shift(self, data: u8) -> MMC1 {
        if bit_of(data, 7) {
            self.reset_state()
        } else {
            self
        }
    }
}

impl Mapper for MMC1 {
    open spec fn mirroring_of(&self) -> Mirroring {
        self.control.mirroring_of()
    }

    open spec fn cpu_readable(&self, address: u16) -> bool {
        &&& address >= PROGRAM_ROM_START
        &&& address >= LAST_BANK && (self.control.0 >> 2) & 3 == 3 ==> (
        self.cartridge.header.program_rom_pages as u8) >= 1
        &&& self.program_index(address) < self.cartridge.program_rom@.len()
    }

    open spec fn cpu_read(&self, address: u16) -> u8 {
        self.cartridge.program_rom@[self.program_index(address)]
    }

    /// Writes shift bit 0 of the value in; the fifth write lands in the register that
    /// the address selects.
    open spec fn cpu_writable(&self, address: u16, data: u8) -> bool {
        let s = self.before_shift(data);
        &&& s.shift_count < 8
        &&& s.shift_count + 1 == 5 ==> address >= 0x8000
    }

    open spec fn cpu_written(&self, address: u16, data: u8) -> Self {
        let s = self.before_shift(data);
        let shifted = s.shift_register | (((data & 1) as u8) << s.shift_count);
        let count = (s.shift_count + 1) as u8;
        if count == 5 {
            MMC1 { shift_count: 0, shift_register: 0, ..s }.with_register(
                address,
                shifted & 0b0001_1111,
            )
        } else {
            MMC1 { shift_count: count, shift_register: shifted, ..s }
        }
    }

    open spec fn ppu_readable(&self, address: u16) -> bool {
        address <= 0x1FFF && self.ppu_bank_of(address) + address < self.cartridge.character_rom@.len()
    }

    open spec fn ppu_read(&self, address: u16) -> u8 {
        self.cartridge.character_rom@[self.ppu_bank_of(address) + address]
    }

    open spec fn ppu_writable(&self, address: u16, data: u8) -> bool {
        self.ppu_readable(address)
    }

    open spec fn ppu_write_effect(&self, address: u16, data: u8, next: Self) -> bool {
        &&& next.cartridge.character_rom@ == self.cartridge.character_rom@.update(
            self.ppu_bank_of(address) + address,
            data,
        )
        &&& next.cartridge.program_rom == self.cartridge.program_rom
        &&& next.cartridge.header == self.cartridge.header
        &&& next.shift_count == self.shift_count
        &&& next.shift_register == self.shift_register
        &&& next.control == self.control
        &&& next.character_bank_0 == self.character_bank_0
        &&& next.character_bank_1 == self.character_bank_1
        &&& next.program_bank == self.program_bank
    }

    open spec fn program_ram(&self) -> bool {
        false
    }

    fn mirroring(&self) -> (r: Mirroring) {
        self.control.mirroring()
    }

    fn read_cpu(&mut self, address: u16) -> (r: u8) {
        if PROGRAM_ROM_START <= address && address < LAST_BANK {
            let number: u8 = match self.control.program_rom_bank() {
                ProgramRomBank::Consecutive => self.program_bank & 0b1111_1110,
                ProgramRomBank::FixFirst => 0,
                ProgramRomBank::FixLast => self.program_bank,
            };
            assert(number == self.low_bank());
            let bank = self.bank(number);
            self.cartridge.program_rom[bank + (address - PROGRAM_ROM_START) as usize]
        } else {
            let number: u8 = match self.control.program_rom_bank() {
                ProgramRomBank::Consecutive => (self.program_bank & 0b1111_1110) | 1,
                ProgramRomBank::FixFirst => self.program_bank,
                ProgramRomBank::FixLast => {
                    assert((self.control.0 >> 2) & 3 == 3);
                    self.cartridge.header.program_rom_pages as u8 - 1
                },
            };
            assert(number == self.high_bank());
            let bank = self.bank(number);
            self.cartridge.program_rom[bank + (address - LAST_BANK) as usize]
        }
    }

    fn write_cpu(&mut self, address: u16, value: u8) {
        if nth_bit(value, 7) {
            self.reset_shift()
        }
        let bit: u8 = if nth_bit(value, 0) { 1 } else { 0 };
        assert(bit == (value & 1) as u8) by (bit_vector)
            requires bit == (if value & (1u8 << 0u8) != 0 { 1u8 } else { 0u8 });
        self.shift_register = self.shift_register | (bit << self.shift_count);
        self.shift_count = self.shift_count + 1;
        if self.shift_count == 5 {
            self.shift_count = 0;
            if address <= 0x9FFF {
                self.control = ControlRegister(self.read_shift());
            } else if address <= 0xBFFF {
                self.character_bank_0 = self.read_shift();
            } else if address <= 0xDFFF {
                self.character_bank_1 = self.read_shift();
            } else {
                self.program_bank = self.read_shift() & 0b0000_1111;
            }
            self.shift_register = 0;
        }
    }

    fn read_ppu(&mut self, address: u16) -> (r: u8) {
        self.cartridge.character_rom[(self.ppu_bank(address)) + address as usize]
    }

    fn write_ppu(&mut self, address: u16, value: u8) {
        let bank = self.ppu_bank(address);
        self.cartridge.character_rom.set(bank + address as usize, value);
    }

    fn has_program_ram(&self) -> (r: bool) {
        false
    }
}

/// Two to the power `count`: the shift register of a count holds less than this.
pub open spec fn shift_bound(count: u8) -> int {
    if count == 0 {
        1
    } else if count == 1 {
        2
    } else if count == 2 {
        4
    } else if count == 3 {
        8
    } else {
        16
    }
}

/// The value that five writes through the serial port deliver: bit 0 of each, the
/// first write's bit lowest.
pub open spec fn serial_value(d0: u8, d1: u8, d2: u8, d3: u8, d4: u8) -> u8 {
    (d0 & 1) | ((d1 & 1) << 1u8) | ((d2 & 1) << 2u8) | ((d3 & 1) << 3u8) | ((d4 & 1) << 4u8)
}

/// Every CPU write keeps the shift register well formed: a write with bit 7 set empties
/// it, the fifth bit empties it again, and otherwise the new bit lands just above the
/// bits already there.
pub proof fn lemma_write_keeps_shift_wf(m: MMC1, address: u16, data: u8)
    requires
        m.shift_wf(),
    ensures
        m.cpu_written(address, data).shift_wf(),
{
    let s = m.before_shift(data);
    let c = s.shift_count;
    let reg = s.shift_register;
    assert(s.shift_wf());
    if c + 1 != 5 {
        let shifted = reg | (((data & 1) as u8) << c);
        let next = (c + 1) as u8;
        assert((shifted as int) < (if next == 1 {
            2int
        } else if next == 2 {
            4int
        } else if next == 3 {
            8int
        } else {
            16int
        })) by (bit_vector)
            requires
                c < 4,
                (reg as int) < (if c == 0 {
                    1int
                } else if c == 1 {
                    2int
                } else if c == 2 {
                    4int
                } else {
                    8int
                }),
                shifted == reg | (((data & 1) as u8) << c),
                next == c + 1,
        ;
    }
}

/// Loading a register through the serial port: with the shift register empty (its
/// count zero; being well formed, it then holds no bits), five writes whose values have
/// bit 7 clear are each accepted, the first four change no bank register, and the
/// fifth puts bit 0 of the five values, the first one lowest, into the register that
/// its own address selects, leaving the shift register empty and every other register
/// as it was.
pub proof fn lemma_serial_load(
    m: MMC1,
    a0: u16,
    a1: u16,
    a2: u16,
    a3: u16,
    a4: u16,
    d0: u8,
    d1: u8,
    d2: u8,
    d3: u8,
    d4: u8,
)
    requires
        m.shift_wf(),
        m.shift_count == 0,
        !bit_of(d0, 7),
        !bit_of(d1, 7),
        !bit_of(d2, 7),
        !bit_of(d3, 7),
        !bit_of(d4, 7),
        a4 >= 0x8000,
    ensures
        ({
            let m1 = m.cpu_written(a0, d0);
            let m2 = m1.cpu_written(a1, d1);
            let m3 = m2.cpu_written(a2, d2);
            let m4 = m3.cpu_written(a3, d3);
            &&& m.cpu_writable(a0, d0)
            &&& m1.cpu_writable(a1, d1)
            &&& m2.cpu_writable(a2, d2)
            &&& m3.cpu_writable(a3, d3)
            &&& m4.cpu_writable(a4, d4)
            &&& m4.control == m.control && m4.character_bank_0 == m.character_bank_0
                && m4.character_bank_1 == m.character_bank_1 && m4.program_bank == m.program_bank
            &&& m3.control == m.control && m3.character_bank_0 == m.character_bank_0
                && m3.character_bank_1 == m.character_bank_1 && m3.program_bank == m.program_bank
            &&& m2.control == m.control && m2.character_bank_0 == m.character_bank_0
                && m2.character_bank_1 == m.character_bank_1 && m2.program_bank == m.program_bank
            &&& m1.control == m.control && m1.character_bank_0 == m.character_bank_0
                && m1.character_bank_1 == m.character_bank_1 && m1.program_bank == m.program_bank
            &&& m4.cpu_written(a4, d4) == m.with_register(a4, serial_value(d0, d1, d2, d3, d4))
            &&& m4.cpu_written(a4, d4).shift_count == 0
            &&& m4.cpu_written(a4, d4).shift_register == 0
        }),
{
    assert(m.shift_register == 0);
    let b0 = ((d0 & 1) as u8) << 0u8;
    let r1 = 0u8 | b0;
    let r2 = r1 | (((d1 & 1) as u8) << 1u8);
    let r3 = r2 | (((d2 & 1) as u8) << 2u8);
    let r4 = r3 | (((d3 & 1) as u8) << 3u8);
    let r5 = r4 | (((d4 & 1) as u8) << 4u8);
    assert(r5 & 0b0001_1111 == serial_value(d0, d1, d2, d3, d4)) by (bit_vector)
        requires
            r1 == 0u8 | (((d0 & 1) as u8) << 0u8),
            r2 == r1 | (((d1 & 1) as u8) << 1u8),
            r3 == r2 | (((d2 & 1) as u8) << 2u8),
            r4 == r3 | (((d3 & 1) as u8) << 3u8),
            r5 == r4 | (((d4 & 1) as u8) << 4u8),
    ;
    let m1 = m.cpu_written(a0, d0);
    let m2 = m1.cpu_written(a1, d1);
    let m3 = m2.cpu_written(a2, d2);
    let m4 = m3.cpu_written(a3, d3);
    assert(m1 == MMC1 { shift_count: 1, shift_register: r1, ..m });
    assert(m2 == MMC1 { shift_count: 2, shift_register: r2, ..m });
    assert(m3 == MMC1 { shift_count: 3, shift_register: r3, ..m });
    assert(m4 == MMC1 { shift_count: 4, shift_register: r4, ..m });
}

/// MMC1's windows, by the bank modes of the control register. PRG mode (bits 2-3): 0 or
/// 1 switch 32 KiB at `$8000` (the program bank without its low bit, then with it);
/// 2 fixes the first bank at `$8000` and switches 16 KiB at `$C000`; 3 switches 16 KiB at
/// `$8000` and fixes the last bank at `$C000`. CHR mode (bit 4): clear switches 8 KiB
/// (bank 0 without its low bit), set switches two 4 KiB banks.
pub proof fn lemma_bank_windows(m: MMC1, address: u16)
    ensures
        ({
            let mode = (m.control.0 >> 2u8) & 3;
            let p = m.program_bank as int;
            let even = (m.program_bank & 0xFE) as int;
            let rom = m.cartridge.program_rom@;
            m.cpu_readable(address) ==> {
                &&& address < 0xC000 ==> m.cpu_read(address) == rom[(if mode <= 1 {
                    even
                } else if mode == 2 {
                    0
                } else {
                    p
                }) * 0x4000 + (address - 0x8000)]
                &&& address >= 0xC000 ==> m.cpu_read(address) == rom[(if mode <= 1 {
                    ((m.program_bank & 0xFE) | 1) as int
                } else if mode == 2 {
                    p
                } else {
                    (m.cartridge.header.program_rom_pages as u8) - 1
                }) * 0x4000 + (address - 0xC000)]
            }
        }),
        m.ppu_readable(address) ==> m.ppu_read(address) == m.cartridge.character_rom@[({
            let bank = if address < 0x1000 {
                m.character_bank_0
            } else {
                m.character_bank_1
            };
            if m.control.0 & 0x10 != 0 {
                bank as int
            } else {
                (bank & 0xFE) as int
            }
        }) + address],
{
    crate::util::lemma_bit_masks(m.control.0);
}

/// The fifth serial write lands by its address: `$8000-$9FFF` the control register,
/// `$A000-$BFFF` CHR bank 0, `$C000-$DFFF` CHR bank 1, `$E000-$FFFF` the program bank
/// (its low four bits); the other registers stay.
pub proof fn lemma_register_windows(m: MMC1, address: u16, value: u8)
    requires
        address >= 0x8000,
    ensures
        ({
            let r = m.with_register(address, value);
            &&& address <= 0x9FFF ==> r.control.0 == value && r.character_bank_0
                == m.character_bank_0 && r.character_bank_1 == m.character_bank_1
                && r.program_bank == m.program_bank
            &&& 0xA000 <= address <= 0xBFFF ==> r.character_bank_0 == value && r.control
                == m.control && r.character_bank_1 == m.character_bank_1 && r.program_bank
                == m.program_bank
            &&& 0xC000 <= address <= 0xDFFF ==> r.character_bank_1 == value && r.control
                == m.control && r.character_bank_0 == m.character_bank_0 && r.program_bank
                == m.program_bank
            &&& 0xE000 <= address ==> r.program_bank == value & 0x0F && r.control == m.control
                && r.character_bank_0 == m.character_bank_0 && r.character_bank_1
                == m.character_bank_1
        }),
{
}

} // verus!
