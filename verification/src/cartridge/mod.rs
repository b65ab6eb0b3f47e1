//! Cartridges in the iNES format: header parsing and the program and character ROMs.
//! See https://www.nesdev.org/wiki/INES

pub mod mapper;

pub use mapper::MapperInstance;
use vstd::prelude::*;

verus! {

/// Where the program ROM is mapped in the CPU address space.
pub const PROGRAM_ROM_START: u16 = 0x8000;

/// Size of a program ROM page.
pub const PROGRAM_ROM_PAGE_SIZE: usize = 16 * 1024;

/// Size of a character ROM page.
pub const CHARACTER_ROM_PAGE_SIZE: usize = 8 * 1024;

/// Size of the optional trainer that follows the header.
pub const TRAINER_SIZE: usize = 512;

/// Size of the iNES header.
pub const HEADER_SIZE: usize = 16;

/// How the nametables are mirrored.
#[derive(Clone, Copy, Debug, PartialEq, Eq, Structural)]
pub enum Mirroring {
    Horizontal,
    Vertical,
    FourScreen,
    OneScreen,
}

impl Mirroring {
    /// The name of the mirroring, as shown to users.
    pub open spec fn name(self) -> Seq<char> {
        match self {
            Mirroring::Horizontal => "horizontal"@,
            Mirroring::Vertical => "vertical"@,
            Mirroring::FourScreen => "four-screen"@,
            Mirroring::OneScreen => "one-screen"@,
        }
    }

    /// The name of the mirroring, as shown to users.
    pub fn to_string(&self) -> (r: String)
        ensures
            r@ == self.name(),
    {
        match self {
            Self::Horizontal => String::from_str("horizontal"),
            Self::Vertical => String::from_str("vertical"),
            Self::FourScreen => String::from_str("four-screen"),
            Self::OneScreen => String::from_str("one-screen"),
        }
    }
}

/// Flags 6 (low byte) and 7 (high byte) of the iNES header.
/// https://www.nesdev.org/wiki/INES#Flags_6
#[derive(Clone, Copy, Debug, PartialEq, Eq, Structural)]
pub struct Flags(pub u16);

/// Bit `n` of a 16-bit value.
pub open spec fn bit16(value: u16, n: u16) -> bool {
    (value >> n) & 1 == 1
}

/// Bits `lsb` to `lsb + width - 1` of a 16-bit value, shifted down.
pub open spec fn bits16(value: u16, lsb: u16, mask: u16) -> u8 {
    ((value >> lsb) & mask) as u8
}

impl Flags {
    /// The flags of the two header bytes.
    pub fn from(value: u16) -> (r: Flags)
        ensures
            r.0 == value,
    {
        Flags(value)
    }

    /// Nametable arrangement: set for vertical mirroring, clear for horizontal.
    pub fn mirroring(&self) -> (r: bool)
        ensures
            r == bit16(self.0, 0),
    {
        (self.0 >> 0) & 1 == 1
    }

    /// Battery-backed program RAM.
    pub fn persistent_memory(&self) -> (r: bool)
        ensures
            r == bit16(self.0, 1),
    {
        (self.0 >> 1) & 1 == 1
    }

    /// A 512-byte trainer sits between the header and the program ROM.
    pub fn trainer(&self) -> (r: bool)
        ensures
            r == bit16(self.0, 2),
    {
        (self.0 >> 2) & 1 == 1
    }

    /// Four-screen VRAM.
    pub fn four_screen(&self) -> (r: bool)
        ensures
            r == bit16(self.0, 3),
    {
        (self.0 >> 3) & 1 == 1
    }

    /// Bits 4 to 7: the low nibble of the mapper number.
    pub fn mapper_id_low(&self) -> (r: u8)
        ensures
            r == bits16(self.0, 4, 0xF),
    {
        ((self.0 >> 4) & 0xF) as u8
    }

    /// Bits 12 to 15 (the upper nibble of flags 7): the high nibble of the mapper
    /// number.
    pub fn mapper_id_high(&self) -> (r: u8)
        ensures
            r == bits16(self.0, 12, 0xF),
    {
        ((self.0 >> 12) & 0xF) as u8
    }

    /// Bits 10 and 11 (bits 2 and 3 of flags 7): 2 marks the NES 2.0 format.
    pub fn ines(&self) -> (r: u8)
        ensures
            r == bits16(self.0, 10, 0x3),
    {
        ((self.0 >> 10) & 0x3) as u8
    }

    /// VS Unisystem (bit 0 of flags 7).
    pub fn vs_unisystem(&self) -> (r: bool)
        ensures
            r == bit16(self.0, 8),
    {
        (self.0 >> 8) & 1 == 1
    }

    /// PlayChoice-10 (bit 1 of flags 7).
    pub fn playchoice_10(&self) -> (r: bool)
        ensures
            r == bit16(self.0, 9),
    {
        (self.0 >> 9) & 1 == 1
    }

    /// The mapper number: its high nibble is the upper nibble of flags 7, its low
    /// nibble the upper nibble of flags 6.
    pub open spec fn mapper_id_of(self) -> u8 {
        ((bits16(self.0, 12, 0xF) as int) * 16 + bits16(self.0, 4, 0xF) as int) as u8
    }

    /// The mapper number.
    pub fn mapper_id(&self) -> (r: u8)
        ensures
            r == self.mapper_id_of(),
    {
        let high = self.mapper_id_high();
        let low = self.mapper_id_low();
        let v = self.0;
        assert(((v >> 12u16) & 0xFu16) < 16 && ((v >> 4u16) & 0xFu16) < 16) by (bit_vector);
        high * 16 + low
    }

    /// The iNES version that the version bits name.
    pub open spec fn ines_version_of(self) -> Option<u8> {
        let v = bits16(self.0, 10, 0x3);
        if v == 0 {
            Some(1)
        } else if v == 2 {
            Some(2)
        } else {
            None
        }
    }

    /// The iNES version: 1 when the version bits are 0, 2 when they are 2, unknown
    /// otherwise.
    pub fn ines_version(&self) -> (r: Option<u8>)
        ensures
            r == self.ines_version_of(),
    {
        match self.ines() {
            0 => Some(1),
            2 => Some(2),
            _ => None,
        }
    }
}

/// The parts of the iNES header that the emulator uses.
#[derive(Clone, Copy, Debug, PartialEq, Eq, Structural)]
pub struct Header {
    pub mirroring: Mirroring,
    pub program_rom_pages: usize,
    pub character_rom_pages: usize,
    pub has_trainer: bool,
    pub mapper_id: u8,
}

/// The bytes that open every iNES file: `NES` followed by `$1A`.
pub open spec fn has_signature(data: Seq<u8>) -> bool {
    data[0] == 0x4E && data[1] == 0x45 && data[2] == 0x53 && data[3] == 0x1A
}

/// The flags word of a header: byte 6 low, byte 7 high.
pub open spec fn flags_of(data: Seq<u8>) -> Flags {
    Flags((data[6] as int + data[7] as int * 256) as u16)
}

/// The header that a valid first 16 bytes describe.
pub open spec fn header_of(data: Seq<u8>) -> Header {
    let flags = flags_of(data);
    Header {
        has_trainer: bit16(flags.0, 2),
        program_rom_pages: data[4] as usize,
        character_rom_pages: data[5] as usize,
        mapper_id: flags.mapper_id_of(),
        mirroring: if bit16(flags.0, 3) {
            Mirroring::FourScreen
        } else if bit16(flags.0, 0) {
            Mirroring::Vertical
        } else {
            Mirroring::Horizontal
        },
    }
}

/// The error a header is refused with, if it is refused: a wrong signature first, then
/// an iNES version other than 1.
pub open spec fn header_error(data: Seq<u8>) -> Option<Seq<char>> {
    if !has_signature(data) {
        Some("Invalid ROM file"@)
    } else if flags_of(data).ines_version_of() == Some(2u8) {
        Some("Unsupported iNES version: 2"@)
    } else if flags_of(data).ines_version_of() != Some(1u8) {
        Some("Unsupported iNES version: unknown"@)
    } else {
        None
    }
}

/// The bits of the flags word, read from its two bytes: flags 6 is the low byte and
/// flags 7 the high byte.
proof fn lemma_flag_bytes(f: u16, lo: u8, hi: u8)
    by (bit_vector)
    requires
        f == (hi as u16) * 256 + (lo as u16),
    ensures
        bit16(f, 0) == (lo & 0x01 != 0),
        bit16(f, 2) == (lo & 0x04 != 0),
        bit16(f, 3) == (lo & 0x08 != 0),
        bits16(f, 4, 0xF) == lo / 16,
        bits16(f, 12, 0xF) == hi / 16,
        bits16(f, 10, 0x3) == (hi / 4) % 4,
{
}

/// The header fields, read from the bytes of the file: bytes 4 and 5 count the 16 KiB
/// program and 8 KiB character pages; in flags 6 (byte 6) bit 0 selects vertical
/// mirroring, bit 2 a trainer, bit 3 four-screen VRAM (over either mirroring), and the
/// upper nibble is the low nibble of the mapper number, whose high nibble is the upper
/// nibble of flags 7 (byte 7). A file with the signature is refused exactly when bits 2
/// and 3 of flags 7 are not 0 (iNES 1), and named as NES 2.0 when they are 2.
pub proof fn lemma_header_fields(data: Seq<u8>)
    requires
        data.len() >= 16,
    ensures
        header_of(data).program_rom_pages == data[4],
        header_of(data).character_rom_pages == data[5],
        header_of(data).mapper_id == (data[7] / 16) * 16 + data[6] / 16,
        header_of(data).has_trainer == (data[6] & 0x04 != 0),
        header_of(data).mirroring == (if data[6] & 0x08 != 0 {
            Mirroring::FourScreen
        } else if data[6] & 0x01 != 0 {
            Mirroring::Vertical
        } else {
            Mirroring::Horizontal
        }),
        has_signature(data) ==> (header_error(data) is None <==> (data[7] / 4) % 4 == 0),
        has_signature(data) && (data[7] / 4) % 4 == 2 ==> header_error(data) == Some(
            "Unsupported iNES version: 2"@,
        ),
{
    let f = flags_of(data).0;
    assert(f == (data[7] as u16) * 256 + (data[6] as u16));
    lemma_flag_bytes(f, data[6], data[7]);
}

/// https://www.nesdev.org/wiki/INES
impl Header {
    /// Parse the 16 header bytes.
    pub fn new(data: [u8; 16]) -> (r: Result<Header, String>)
        ensures
            header_error(data@) is None ==> r == Ok::<Header, String>(header_of(data@)),
            header_error(data@) matches Some(e) ==> r is Err && r->Err_0@ == e,
    {
        if !(data[0] == 0x4E && data[1] == 0x45 && data[2] == 0x53 && data[3] == 0x1A) {
            return Err(String::from_str("Invalid ROM file"));
        }
        let flags = Flags::from(crate::util::word_from_bytes(data[6], data[7]));
        let version = flags.ines_version();
        match version {
            Some(1) => {},
            Some(2) => {
                return Err(String::from_str("Unsupported iNES version: 2"));
            },
            _ => {
                return Err(String::from_str("Unsupported iNES version: unknown"));
            },
        }
        let mirroring = if flags.four_screen() {
            Mirroring::FourScreen
        } else {
            match flags.mirroring() {
                true => Mirroring::Vertical,
                false => Mirroring::Horizontal,
            }
        };
        Ok(
            Header {
                has_trainer: flags.trainer(),
                program_rom_pages: data[4] as usize,
                character_rom_pages: data[5] as usize,
                mapper_id: flags.mapper_id(),
                mirroring,
            },
        )
    }

    /// The header of a cartridge for test programs: one page of program ROM, no
    /// character ROM, every flag cleared.
    pub fn generate() -> (r: [u8; 16])
        ensures
            r@ == seq![0x4Eu8, 0x45u8, 0x53u8, 0x1Au8, 1u8, 0u8, 0u8, 0u8, 0u8, 0u8, 0u8, 0u8, 0u8, 0u8, 0u8, 0u8],
    {
        let r: [u8; 16] = [
            0x4E, 0x45, 0x53, 0x1A,  // NES\x1a
            1,  // program ROM pages
            0,  // character ROM pages
            0,  // flags 6
            0,  // flags 7
            0,  // flags 8
            0,  // flags 9
            0,  // flags 10
            0, 0, 0, 0, 0,
        ];
        assert(r@ =~= seq![0x4Eu8, 0x45u8, 0x53u8, 0x1Au8, 1u8, 0u8, 0u8, 0u8, 0u8, 0u8, 0u8, 0u8, 0u8, 0u8, 0u8, 0u8]);
        r
    }
}

/// A cartridge: its header and its ROM contents.
pub struct Cartridge {
    pub header: Header,
    pub program_rom: Vec<u8>,
    pub character_rom: Vec<u8>,
}

/// Where the program ROM starts in a file with this header.
pub open spec fn program_rom_start(h: Header) -> int {
    HEADER_SIZE + if h.has_trainer {
        TRAINER_SIZE
    } else {
        0
    }
}

/// Where the character ROM ends in a file with this header.
pub open spec fn character_rom_end(h: Header) -> int {
    program_rom_start(h) + h.program_rom_pages * PROGRAM_ROM_PAGE_SIZE + h.character_rom_pages
        * CHARACTER_ROM_PAGE_SIZE
}

/// The file holds a header, and all the ROM the header announces when the header is
/// accepted.
pub open spec fn complete_file(data: Seq<u8>) -> bool {
    &&& data.len() >= HEADER_SIZE
    &&& header_error(data) is None ==> data.len() >= character_rom_end(header_of(data))
}

/// A cartridge's ROM sizes agree with its header, and there is at least one page of
/// character memory.
pub open spec fn cartridge_wf(c: Cartridge) -> bool {
    &&& c.program_rom@.len() == c.header.program_rom_pages * PROGRAM_ROM_PAGE_SIZE
    &&& c.character_rom@.len() == (if c.header.character_rom_pages == 0 {
        CHARACTER_ROM_PAGE_SIZE as int
    } else {
        c.header.character_rom_pages * CHARACTER_ROM_PAGE_SIZE
    })
}

/// The bytes `start..end` of `data`.
fn copy_slice(data: &[u8], start: usize, end: usize) -> (r: Vec<u8>)
    requires
        start <= end <= data@.len(),
    ensures
        r@ == data@.subrange(start as int, end as int),
{
    let mut out: Vec<u8> = Vec::new();
    let mut i = start;
    while i < end
        invariant
            start <= i <= end <= data@.len(),
            out@ == data@.subrange(start as int, i as int),
        decreases end - i,
    {
        out.push(data[i]);
        i += 1;
    }
    out
}

impl Cartridge {
    /// Parse an iNES file. Without character ROM the cartridge gets one page of
    /// zeroed character RAM.
    pub fn from_bytes(data: &[u8]) -> (r: Result<Cartridge, String>)
        requires
            complete_file(data@),
        ensures
            header_error(data@) matches Some(e) ==> r is Err && r->Err_0@ == e,
            header_error(data@) is None ==> r is Ok && ({
                let c = r->Ok_0;
                let h = header_of(data@);
                let start = program_rom_start(h);
                let size = h.program_rom_pages * PROGRAM_ROM_PAGE_SIZE;
                let chr = h.character_rom_pages * CHARACTER_ROM_PAGE_SIZE;
                &&& c.header == h
                &&& c.program_rom@ == data@.subrange(start, start + size)
                &&& h.character_rom_pages > 0 ==> c.character_rom@ == data@.subrange(
                    start + size,
                    start + size + chr,
                )
                &&& h.character_rom_pages == 0 ==> c.character_rom@ == Seq::new(
                    CHARACTER_ROM_PAGE_SIZE as nat,
                    |i: int| 0u8,
                )
                &&& cartridge_wf(c)
            }),
    {
        let mut bytes: [u8; 16] = [0;16];
        let mut i: usize = 0;
        while i < HEADER_SIZE
            invariant
                i <= HEADER_SIZE,
                data@.len() >= HEADER_SIZE,
                forall|j: int| 0 <= j < i ==> bytes@[j] == data@[j],
            decreases HEADER_SIZE - i,
        {
            bytes[i] = data[i];
            i += 1;
        }
        assert(bytes@ =~= data@.subrange(0, 16));
        let header = match Header::new(bytes) {
            Ok(h) => h,
            Err(e) => {
                return Err(e);
            },
        };
        let program_rom_size = header.program_rom_pages * PROGRAM_ROM_PAGE_SIZE;
        let character_rom_size = header.character_rom_pages * CHARACTER_ROM_PAGE_SIZE;
        let program_rom_start = HEADER_SIZE + if header.has_trainer {
            TRAINER_SIZE
        } else {
            0
        };
        let character_rom_start = program_rom_start + program_rom_size;
        let program_rom = copy_slice(data, program_rom_start, program_rom_start + program_rom_size);
        let mut character_rom = copy_slice(
            data,
            character_rom_start,
            character_rom_start + character_rom_size,
        );
        // Character RAM is used when there is none provided by the cartridge
        if header.character_rom_pages == 0 {
            let mut k: usize = 0;
            while k < CHARACTER_ROM_PAGE_SIZE
                invariant
                    k <= CHARACTER_ROM_PAGE_SIZE,
                    character_rom@ == Seq::new(k as nat, |i: int| 0u8),
                decreases CHARACTER_ROM_PAGE_SIZE - k,
            {
                character_rom.push(0);
                k += 1;
                assert(character_rom@ =~= Seq::new(k as nat, |i: int| 0u8));
            }
        }
        Ok(Cartridge { program_rom, character_rom, header })
    }

    /// A cartridge holding `data` as program ROM, for running test programs: one page
    /// of program ROM with `data` at its start followed by `BRK` and `NOP`s, and no
    /// character ROM.
    pub fn new(data: Vec<u8>) -> (r: Result<Cartridge, String>)
        requires
            data@.len() <= usize::MAX - HEADER_SIZE - PROGRAM_ROM_PAGE_SIZE - 1,
        ensures
            r is Ok,
            cartridge_wf(r->Ok_0),
            r->Ok_0.header.program_rom_pages == 1,
            r->Ok_0.header.character_rom_pages == 0,
            r->Ok_0.header.mapper_id == 0,
            r->Ok_0.header.mirroring == Mirroring::Horizontal,
            forall|i: int|
                0 <= i < PROGRAM_ROM_PAGE_SIZE ==> r->Ok_0.program_rom@[i] == (if i < data@.len() {
                    data@[i]
                } else if i == data@.len() {
                    0x00u8
                } else {
                    0xEAu8
                }),
    {
        let header = Header::generate();
        let mut program: Vec<u8> = Vec::new();
        let mut k: usize = 0;
        while k < HEADER_SIZE
            invariant
                k <= HEADER_SIZE,
                program@ == header@.take(k as int),
            decreases HEADER_SIZE - k,
        {
            program.push(header[k]);
            k += 1;
            assert(program@ =~= header@.take(k as int));
        }
        assert(program@ == header@);
        let mut i: usize = 0;
        while i < data.len()
            invariant
                i <= data@.len(),
                data@.len() <= usize::MAX - HEADER_SIZE - PROGRAM_ROM_PAGE_SIZE - 1,
                program@.len() == HEADER_SIZE + i,
                program@[0] == 0x4E && program@[1] == 0x45 && program@[2] == 0x53 && program@[3]
                    == 0x1A && program@[4] == 1,
                forall|j: int| 5 <= j < HEADER_SIZE ==> program@[j] == 0,
                forall|j: int| 0 <= j < i ==> program@[HEADER_SIZE + j] == data@[j],
            decreases data@.len() - i,
        {
            program.push(data[i]);
            i += 1;
        }
        let len = program.len();
        program.push(0x00);  // BRK
        let mut n: usize = 1;
        while n < PROGRAM_ROM_PAGE_SIZE
            invariant
                1 <= n <= PROGRAM_ROM_PAGE_SIZE,
                len == HEADER_SIZE + data@.len(),
                data@.len() <= usize::MAX - HEADER_SIZE - PROGRAM_ROM_PAGE_SIZE - 1,
                program@.len() == len + n,
                program@[0] == 0x4E && program@[1] == 0x45 && program@[2] == 0x53 && program@[3]
                    == 0x1A && program@[4] == 1,
                forall|j: int| 5 <= j < HEADER_SIZE ==> program@[j] == 0,
                forall|j: int| 0 <= j < data@.len() ==> program@[HEADER_SIZE + j] == data@[j],
                program@[len as int] == 0x00,
                forall|j: int| len < j < len + n ==> program@[j] == 0xEA,
            decreases PROGRAM_ROM_PAGE_SIZE - n,
        {
            program.push(0xEA);  // NOP
            n += 1;
        }
        let ghost p = program@;
        assert(has_signature(p));
        assert(p[6] == 0 && p[7] == 0);
        assert(flags_of(p).0 == 0);
        assert(bits16(0, 10, 0x3) == 0) by (bit_vector);
        assert(bits16(0, 4, 0xF) == 0 && bits16(0, 12, 0xF) == 0) by (bit_vector);
        assert(!bit16(0, 0) && !bit16(0, 2) && !bit16(0, 3)) by (bit_vector);
        let r = Self::from_bytes(program.as_slice());
        assert(header_of(p).program_rom_pages == 1);
        assert(!header_of(p).has_trainer);
        assert(r->Ok_0.program_rom@ == p.subrange(16int, 16int + 16384int));
        assert forall|i: int| 0 <= i < PROGRAM_ROM_PAGE_SIZE implies r->Ok_0.program_rom@[i] == (
        if i < data@.len() {
            data@[i]
        } else if i == data@.len() {
            0x00u8
        } else {
            0xEAu8
        }) by {
            assert(r->Ok_0.program_rom@[i] == p[HEADER_SIZE + i]);
        }
        r
    }
}

} // verus!
