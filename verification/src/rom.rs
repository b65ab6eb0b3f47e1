//! An earlier reader of iNES files: the header flags and the ROM areas they describe.

use crate::cartridge::has_signature;
use crate::util::bit_of;
use vstd::prelude::*;

verus! {

/// Size of the iNES header.
pub const HEADER_END: usize = 16;

/// Size of the optional trainer.
pub const TRAINER_SIZE: usize = 512;

/// What the header describes.
#[derive(Clone, Copy, Debug, PartialEq, Eq, Structural)]
pub struct Header {
    pub program_rom_size: usize,
    pub character_rom_size: usize,
    pub mapper: u8,
    pub mirroring_vertical: bool,
    pub battery_ram: bool,
    pub has_trainer: bool,
    pub four_screen: bool,
}

/// The header that the first 16 bytes describe: ROM sizes from bytes 4 and 5 (16 KiB and
/// 8 KiB units), flags from byte 6, and the mapper number, whose high nibble is the
/// upper nibble of byte 7 and whose low nibble is the upper nibble of byte 6.
pub open spec fn header_of(data: Seq<u8>) -> Header {
    Header {
        program_rom_size: (16 * (data[4] as int * 1024)) as usize,
        character_rom_size: (8 * (data[5] as int * 1024)) as usize,
        mapper: (data[7] & 0xF0) | (data[6] >> 4u8),
        mirroring_vertical: bit_of(data[6], 0),
        battery_ram: bit_of(data[6], 1),
        has_trainer: bit_of(data[6], 2),
        four_screen: bit_of(data[6], 3),
    }
}

impl Header {
    /// Read the header; the file must start with `NES` and `$1A`.
    pub fn new(data: [u8; 16]) -> (r: Header)
        requires
            has_signature(data@),
        ensures
            r == header_of(data@),
    {
        let flags_6 = data[6];
        let flags_7 = data[7];
        // The high nibble comes from flags 7, the low nibble from flags 6
        let mapper = (flags_7 & 0b1111_0000) | (flags_6 >> 4);
        Header {
            program_rom_size: Self::program_rom_size(data[4]),
            character_rom_size: Self::character_rom_size(data[5]),
            mirroring_vertical: crate::util::nth_bit(flags_6, 0),
            battery_ram: crate::util::nth_bit(flags_6, 1),
            has_trainer: crate::util::nth_bit(flags_6, 2),
            four_screen: crate::util::nth_bit(flags_6, 3),
            mapper,
        }
    }

    /// `units` KiB blocks of `value` KiB: `units * value * 1024` bytes.
    pub fn into_kb(units: usize, value: usize) -> (r: usize)
        requires
            value * 1024 <= usize::MAX,
            units * (value * 1024) <= usize::MAX,
        ensures
            r == units * (value * 1024),
    {
        units * (value * 1024)
    }

    /// The program ROM size for a count of 16 KiB pages.
    pub fn program_rom_size(size: u8) -> (r: usize)
        ensures
            r == 16 * (size as int * 1024),
    {
        Header::into_kb(16, size as usize)
    }

    /// The character ROM size for a count of 8 KiB pages.
    pub fn character_rom_size(size: u8) -> (r: usize)
        ensures
            r == 8 * (size as int * 1024),
    {
        Header::into_kb(8, size as usize)
    }
}

/// Where the program ROM starts: after the trainer when there is one, otherwise right
/// after the header. The character ROM follows the program ROM.
pub open spec fn areas_start(h: Header) -> int {
    if h.has_trainer {
        HEADER_END + TRAINER_SIZE
    } else {
        HEADER_END as int
    }
}

/// A file this reader can take apart: a valid header and every area it reads inside
/// the data.
pub open spec fn readable_rom(data: Seq<u8>) -> bool {
    &&& data.len() >= HEADER_END
    &&& has_signature(data)
    &&& {
        let h = header_of(data);
        let start = areas_start(h);
        &&& (h.has_trainer ==> data.len() >= HEADER_END + TRAINER_SIZE)
        &&& (h.character_rom_size != 0 ==> start + h.program_rom_size + h.character_rom_size
            <= data.len())
        &&& start + h.program_rom_size <= data.len()
    }
}

/// An iNES file taken apart.
pub struct Rom {
    pub header: Header,
    pub program_rom: Vec<u8>,
    pub character_rom: Option<Vec<u8>>,
    pub trainer: Option<[u8; TRAINER_SIZE]>,
}

/// The bytes `start..end`.
fn copy_slice(data: &[u8], start: usize, end: usize) -> (r: Vec<u8>)
    requires
        start <= end <= data@.len(),
    ensures
        r@ == data@.subrange(start as int, end as int),
{
    let mut out: Vec<u8> = Vec::new();
    let mut i = start;
    while i < end
        invariant
            start <= i <= end <= data@.len(),
            out@ == data@.subrange(start as int, i as int),
        decreases end - i,
    {
        out.push(data[i]);
        i += 1;
    }
    out
}

impl Rom {
    /// Take a file apart: the header, the trainer if there is one, the program ROM, and
    /// the character ROM after it (only when its size is not zero).
    pub fn from_bytes(data: &[u8]) -> (r: Rom)
        requires
            readable_rom(data@),
        ensures
            r.header == header_of(data@),
            r.header.has_trainer ==> (r.trainer matches Some(t) && t@ == data@.subrange(
                HEADER_END as int,
                (HEADER_END + TRAINER_SIZE) as int,
            )),
            !r.header.has_trainer ==> r.trainer is None,
            r.header.character_rom_size != 0 ==> (r.character_rom matches Some(c) && c@
                == data@.subrange(
                areas_start(r.header) + r.header.program_rom_size,
                areas_start(r.header) + r.header.program_rom_size + r.header.character_rom_size,
            )),
            r.header.character_rom_size == 0 ==> r.character_rom is None,
            r.program_rom@ == data@.subrange(
                areas_start(r.header),
                areas_start(r.header) + r.header.program_rom_size,
            ),
    {
        let mut head: [u8; 16] = [0;16];
        let mut k: usize = 0;
        while k < 16
            invariant
                k <= 16,
                data@.len() >= 16,
                forall|j: int| 0 <= j < k ==> head@[j] == data@[j],
            decreases 16 - k,
        {
            head[k] = data[k];
            k += 1;
        }
        assert(head@ =~= data@.subrange(0, 16));
        assert(has_signature(head@));
        let header = Header::new(head);
        assert(header == header_of(data@));
        let trainer_end: usize;
        let trainer = if header.has_trainer {
            let mut t: [u8; TRAINER_SIZE] = [0;TRAINER_SIZE];
            let mut i: usize = 0;
            while i < TRAINER_SIZE
                invariant
                    i <= TRAINER_SIZE,
                    data@.len() >= HEADER_END + TRAINER_SIZE,
                    forall|j: int| 0 <= j < i ==> t@[j] == data@[HEADER_END + j],
                decreases TRAINER_SIZE - i,
            {
                t[i] = data[HEADER_END + i];
                i += 1;
            }
            assert(t@ =~= data@.subrange(HEADER_END as int, (HEADER_END + TRAINER_SIZE) as int));
            trainer_end = HEADER_END + TRAINER_SIZE;
            Some(t)
        } else {
            trainer_end = HEADER_END;
            None
        };
        let program_end = trainer_end + header.program_rom_size;
        let character_rom = if header.character_rom_size != 0 {
            Some(copy_slice(data, program_end, program_end + header.character_rom_size))
        } else {
            None
        };
        let program_rom = copy_slice(data, trainer_end, program_end);
        Rom { header, trainer, character_rom, program_rom }
    }
}

} // verus!
