//! Cartridge mappers: how the CPU and the PPU see the cartridge's memory.

pub mod cnrom;
pub mod mmc1;
pub mod mmc3;
pub mod nrom;
pub mod uxrom;

pub use super::{Cartridge, Mirroring, PROGRAM_ROM_PAGE_SIZE, PROGRAM_ROM_START};
use crate::bus::Device;
use vstd::prelude::*;

verus! {

/// A cartridge mapper. Reads have no effect on the mapper; the `*_readable` and
/// `*_writable` predicates hold for the accesses that the mapper defines.
pub trait Mapper: Sized {
    /// How the nametables are mirrored.
    spec fn mirroring_of(&self) -> Mirroring;

    /// A CPU read of `address` is defined.
    spec fn cpu_readable(&self, address: u16) -> bool;

    /// The byte a CPU read of `address` returns.
    spec fn cpu_read(&self, address: u16) -> u8;

    /// A CPU write of `data` at `address` is defined.
    spec fn cpu_writable(&self, address: u16, data: u8) -> bool;

    /// The mapper after a CPU write.
    spec fn cpu_written(&self, address: u16, data: u8) -> Self;

    /// A PPU read of `address` is defined.
    spec fn ppu_readable(&self, address: u16) -> bool;

    /// The byte a PPU read of `address` returns.
    spec fn ppu_read(&self, address: u16) -> u8;

    /// A PPU write of `data` at `address` is defined.
    spec fn ppu_writable(&self, address: u16, data: u8) -> bool;

    /// `next` is the mapper after a PPU write of `data` at `address`.
    spec fn ppu_write_effect(&self, address: u16, data: u8, next: Self) -> bool;

    /// The cartridge has RAM at `$6000-$7FFF`.
    spec fn program_ram(&self) -> bool;

    fn mirroring(&self) -> (r: Mirroring)
        ensures
            r == self.mirroring_of(),
    ;

    fn read_cpu(&mut self, address: u16) -> (r: u8)
        requires
            old(self).cpu_readable(address),
        ensures
            r == old(self).cpu_read(address),
            *final(self) == *old(self),
    ;

    fn write_cpu(&mut self, address: u16, data: u8)
        requires
            old(self).cpu_writable(address, data),
        ensures
            *final(self) == old(self).cpu_written(address, data),
    ;

    fn read_ppu(&mut self, address: u16) -> (r: u8)
        requires
            old(self).ppu_readable(address),
        ensures
            r == old(self).ppu_read(address),
            *final(self) == *old(self),
    ;

    fn write_ppu(&mut self, address: u16, data: u8)
        requires
            old(self).ppu_writable(address, data),
        ensures
            old(self).ppu_write_effect(address, data, *final(self)),
    ;

    fn has_program_ram(&self) -> (r: bool)
        ensures
            r == self.program_ram(),
    ;
}

/// The mapper of a loaded cartridge, by mapper number.
pub enum MapperInstance {
    Nrom(nrom::NROM),
    Mmc1(mmc1::MMC1),
    Uxrom(uxrom::UxROM),
    Cnrom(cnrom::CnROM),
    Mmc3(mmc3::MMC3),
}

impl Mapper for MapperInstance {
    open spec fn mirroring_of(&self) -> Mirroring {
        match self {
            MapperInstance::Nrom(m) => m.mirroring_of(),
            MapperInstance::Mmc1(m) => m.mirroring_of(),
            MapperInstance::Uxrom(m) => m.mirroring_of(),
            MapperInstance::Cnrom(m) => m.mirroring_of(),
            MapperInstance::Mmc3(m) => m.mirroring_of(),
        }
    }

    open spec fn cpu_readable(&self, address: u16) -> bool {
        match self {
            MapperInstance::Nrom(m) => m.cpu_readable(address),
            MapperInstance::Mmc1(m) => m.cpu_readable(address),
            MapperInstance::Uxrom(m) => m.cpu_readable(address),
            MapperInstance::Cnrom(m) => m.cpu_readable(address),
            MapperInstance::Mmc3(m) => m.cpu_readable(address),
        }
    }

    open spec fn cpu_read(&self, address: u16) -> u8 {
        match self {
            MapperInstance::Nrom(m) => m.cpu_read(address),
            MapperInstance::Mmc1(m) => m.cpu_read(address),
            MapperInstance::Uxrom(m) => m.cpu_read(address),
            MapperInstance::Cnrom(m) => m.cpu_read(address),
            MapperInstance::Mmc3(m) => m.cpu_read(address),
        }
    }

    open spec fn cpu_writable(&self, address: u16, data: u8) -> bool {
        match self {
            MapperInstance::Nrom(m) => m.cpu_writable(address, data),
            MapperInstance::Mmc1(m) => m.cpu_writable(address, data),
            MapperInstance::Uxrom(m) => m.cpu_writable(address, data),
            MapperInstance::Cnrom(m) => m.cpu_writable(address, data),
            MapperInstance::Mmc3(m) => m.cpu_writable(address, data),
        }
    }

    open spec fn cpu_written(&self, address: u16, data: u8) -> Self {
        match self {
            MapperInstance::Nrom(m) => MapperInstance::Nrom(m.cpu_written(address, data)),
            MapperInstance::Mmc1(m) => MapperInstance::Mmc1(m.cpu_written(address, data)),
            MapperInstance::Uxrom(m) => MapperInstance::Uxrom(m.cpu_written(address, data)),
            MapperInstance::Cnrom(m) => MapperInstance::Cnrom(m.cpu_written(address, data)),
            MapperInstance::Mmc3(m) => MapperInstance::Mmc3(m.cpu_written(address, data)),
        }
    }

    open spec fn ppu_readable(&self, address: u16) -> bool {
        match self {
            MapperInstance::Nrom(m) => m.ppu_readable(address),
            MapperInstance::Mmc1(m) => m.ppu_readable(address),
            MapperInstance::Uxrom(m) => m.ppu_readable(address),
            MapperInstance::Cnrom(m) => m.ppu_readable(address),
            MapperInstance::Mmc3(m) => m.ppu_readable(address),
        }
    }

    open spec fn ppu_read(&self, address: u16) -> u8 {
        match self {
            MapperInstance::Nrom(m) => m.ppu_read(address),
            MapperInstance::Mmc1(m) => m.ppu_read(address),
            MapperInstance::Uxrom(m) => m.ppu_read(address),
            MapperInstance::Cnrom(m) => m.ppu_read(address),
            MapperInstance::Mmc3(m) => m.ppu_read(address),
        }
    }

    open spec fn ppu_writable(&self, address: u16, data: u8) -> bool {
        match self {
            MapperInstance::Nrom(m) => m.ppu_writable(address, data),
            MapperInstance::Mmc1(m) => m.ppu_writable(address, data),
            MapperInstance::Uxrom(m) => m.ppu_writable(address, data),
            MapperInstance::Cnrom(m) => m.ppu_writable(address, data),
            MapperInstance::Mmc3(m) => m.ppu_writable(address, data),
        }
    }

    open spec fn ppu_write_effect(&self, address: u16, data: u8, next: Self) -> bool {
        match (self, next) {
            (MapperInstance::Nrom(m), MapperInstance::Nrom(n)) => m.ppu_write_effect(address, data, n),
            (MapperInstance::Mmc1(m), MapperInstance::Mmc1(n)) => m.ppu_write_effect(address, data, n),
            (MapperInstance::Uxrom(m), MapperInstance::Uxrom(n)) => m.ppu_write_effect(address, data, n),
            (MapperInstance::Cnrom(m), MapperInstance::Cnrom(n)) => m.ppu_write_effect(address, data, n),
            (MapperInstance::Mmc3(m), MapperInstance::Mmc3(n)) => m.ppu_write_effect(address, data, n),
            _ => false,
        }
    }

    open spec fn program_ram(&self) -> bool {
        match self {
            MapperInstance::Nrom(m) => m.program_ram(),
            MapperInstance::Mmc1(m) => m.program_ram(),
            MapperInstance::Uxrom(m) => m.program_ram(),
            MapperInstance::Cnrom(m) => m.program_ram(),
            MapperInstance::Mmc3(m) => m.program_ram(),
        }
    }

    fn mirroring(&self) -> (r: Mirroring) {
        match self {
            MapperInstance::Nrom(m) => m.mirroring(),
            MapperInstance::Mmc1(m) => m.mirroring(),
            MapperInstance::Uxrom(m) => m.mirroring(),
            MapperInstance::Cnrom(m) => m.mirroring(),
            MapperInstance::Mmc3(m) => m.mirroring(),
        }
    }

    fn read_cpu(&mut self, address: u16) -> (r: u8) {
        match self {
            MapperInstance::Nrom(m) => m.read_cpu(address),
            MapperInstance::Mmc1(m) => m.read_cpu(address),
            MapperInstance::Uxrom(m) => m.read_cpu(address),
            MapperInstance::Cnrom(m) => m.read_cpu(address),
            MapperInstance::Mmc3(m) => m.read_cpu(address),
        }
    }

    fn write_cpu(&mut self, address: u16, data: u8) {
        match self {
            MapperInstance::Nrom(m) => m.write_cpu(address, data),
            MapperInstance::Mmc1(m) => m.write_cpu(address, data),
            MapperInstance::Uxrom(m) => m.write_cpu(address, data),
            MapperInstance::Cnrom(m) => m.write_cpu(address, data),
            MapperInstance::Mmc3(m) => m.write_cpu(address, data),
        }
    }

    fn read_ppu(&mut self, address: u16) -> (r: u8) {
        match self {
            MapperInstance::Nrom(m) => m.read_ppu(address),
            MapperInstance::Mmc1(m) => m.read_ppu(address),
            MapperInstance::Uxrom(m) => m.read_ppu(address),
            MapperInstance::Cnrom(m) => m.read_ppu(address),
            MapperInstance::Mmc3(m) => m.read_ppu(address),
        }
    }

    fn write_ppu(&mut self, address: u16, data: u8) {
        match self {
            MapperInstance::Nrom(m) => m.write_ppu(address, data),
            MapperInstance::Mmc1(m) => m.write_ppu(address, data),
            MapperInstance::Uxrom(m) => m.write_ppu(address, data),
            MapperInstance::Cnrom(m) => m.write_ppu(address, data),
            MapperInstance::Mmc3(m) => m.write_ppu(address, data),
        }
    }

    fn has_program_ram(&self) -> (r: bool) {
        match self {
            MapperInstance::Nrom(m) => m.has_program_ram(),
            MapperInstance::Mmc1(m) => m.has_program_ram(),
            MapperInstance::Uxrom(m) => m.has_program_ram(),
            MapperInstance::Cnrom(m) => m.has_program_ram(),
            MapperInstance::Mmc3(m) => m.has_program_ram(),
        }
    }
}

/// The first CPU address that the cartridge answers.
pub open spec fn cartridge_start(program_ram: bool) -> u16 {
    if program_ram {
        0x6000
    } else {
        PROGRAM_ROM_START
    }
}

impl Device for MapperInstance {
    open spec fn maps(&self, address: u16) -> bool {
        address >= cartridge_start(self.program_ram())
    }

    /// The cartridge answers `$8000-$FFFF`, and `$6000-$7FFF` when it has program RAM.
    fn contains(&self, address: u16) -> (r: bool) {
        let start = if self.has_program_ram() {
            0x6000
        } else {
            PROGRAM_ROM_START
        };
        let r = start <= address;
        assert(r == self.maps(address));
        r
    }
}

impl MapperInstance {
    /// The mapper numbers that are implemented: NROM, MMC1, UxROM, CNROM, MMC3.
    pub open spec fn supported(id: u8) -> bool {
        id <= 4
    }

    /// The mapper that the cartridge's header names, in its power-on state, holding the
    /// cartridge.
    pub open spec fn for_cartridge(cart: Cartridge) -> MapperInstance {
        if cart.header.mapper_id == 0 {
            MapperInstance::Nrom(nrom::NROM { cartridge: cart })
        } else if cart.header.mapper_id == 1 {
            MapperInstance::Mmc1(mmc1::MMC1::initial(cart))
        } else if cart.header.mapper_id == 2 {
            MapperInstance::Uxrom(uxrom::UxROM { cartridge: cart, bank_select: 0 })
        } else if cart.header.mapper_id == 3 {
            MapperInstance::Cnrom(cnrom::CnROM { cartridge: cart, bank_select: 0 })
        } else {
            MapperInstance::Mmc3(mmc3::MMC3::initial(cart))
        }
    }

    /// The mapper that the cartridge's header names, holding the cartridge.
    pub fn from(cart: Cartridge) -> (r: MapperInstance)
        requires
            MapperInstance::supported(cart.header.mapper_id),
        ensures
            r == MapperInstance::for_cartridge(cart),
    {
        match cart.header.mapper_id {
            0 => MapperInstance::Nrom(nrom::NROM::new(cart)),
            1 => MapperInstance::Mmc1(mmc1::MMC1::new(cart)),
            2 => MapperInstance::Uxrom(uxrom::UxROM::new(cart)),
            3 => MapperInstance::Cnrom(cnrom::CnROM::new(cart)),
            _ => MapperInstance::Mmc3(mmc3::MMC3::new(cart)),
        }
    }

    /// The mapper after CPU writes of `data` in order, byte `i` at `start + i` (as a
    /// 16-bit address).
    pub open spec fn cpu_writes(self, start: int, data: Seq<u8>) -> MapperInstance
        decreases data.len(),
    {
        if data.len() == 0 {
            self
        } else {
            self.cpu_writes(start, data.drop_last()).cpu_written(
                (start + data.len() - 1) as u16,
                data.last(),
            )
        }
    }

    /// Each write of `cpu_writes` is defined in the state that it meets.
    pub open spec fn cpu_writes_defined(self, start: int, data: Seq<u8>) -> bool {
        forall|k: int|
            0 <= k < data.len() ==> #[trigger] self.cpu_writes(start, data.take(k)).cpu_writable(
                (start + k) as u16,
                data[k],
            )
    }

    /// `states` runs from this mapper through PPU writes of `data` in order, byte `i`
    /// at `start + i` (as a 16-bit address): each state is one that its write can
    /// leave.
    pub open spec fn ppu_write_chain(self, start: int, data: Seq<u8>, states: Seq<MapperInstance>) -> bool {
        &&& states.len() == data.len() + 1
        &&& states[0] == self
        &&& forall|k: int|
            0 <= k < data.len() ==> #[trigger] states[k].ppu_write_effect(
                (start + k) as u16,
                data[k],
                states[k + 1],
            )
    }

    /// `next` is a mapper that PPU writes of `data` in order can leave.
    pub open spec fn ppu_writes_effect(self, start: int, data: Seq<u8>, next: MapperInstance) -> bool {
        exists|states: Seq<MapperInstance>|
            #[trigger] self.ppu_write_chain(start, data, states) && states.last() == next
    }

    /// Each write of `ppu_writes_effect` is defined in every state that it can meet.
    pub open spec fn ppu_writes_defined(self, start: int, data: Seq<u8>) -> bool {
        forall|k: int, states: Seq<MapperInstance>|
            0 <= k < data.len() && #[trigger] self.ppu_write_chain(start, data.take(k), states)
                ==> states.last().ppu_writable((start + k) as u16, data[k])
    }

    /// Write `data` through the CPU to the addresses `start..end`, as many bytes as both
    /// hold, in order.
    pub fn write_cpu_range(&mut self, start: usize, end: usize, data: &[u8])
        requires
            start <= end,
            old(self).cpu_writes_defined(
                start as int,
                data@.take(if end - start < data@.len() { end - start } else { data@.len() as int }),
            ),
        ensures
            *final(self) == old(self).cpu_writes(
                start as int,
                data@.take(if end - start < data@.len() { end - start } else { data@.len() as int }),
            ),
    {
        let n = if end - start < data.len() { end - start } else { data.len() };
        let ghost written = data@.take(n as int);
        let mut i: usize = 0;
        assert(written.take(0) =~= data@.take(0));
        while i < n
            invariant
                i <= n <= data@.len(),
                n <= end - start,
                start <= end,
                written == data@.take(n as int),
                old(self).cpu_writes_defined(start as int, written),
                *self == old(self).cpu_writes(start as int, data@.take(i as int)),
            decreases n - i,
        {
            assert(written.take(i as int) =~= data@.take(i as int));
            assert(old(self).cpu_writes(start as int, written.take(i as int)).cpu_writable(
                (start + i) as u16,
                written[i as int],
            ));
            self.write_cpu((start + i) as u16, data[i]);
            assert(data@.take(i + 1).drop_last() =~= data@.take(i as int));
            i += 1;
        }
        assert(written =~= data@.take(n as int));
    }

    /// Write `data` through the PPU to the addresses `start..end`, as many bytes as both
    /// hold, in order.
    pub fn write_ppu_range(&mut self, start: usize, end: usize, data: &[u8])
        requires
            start <= end,
            old(self).ppu_writes_defined(
                start as int,
                data@.take(if end - start < data@.len() { end - start } else { data@.len() as int }),
            ),
        ensures
            old(self).ppu_writes_effect(
                start as int,
                data@.take(if end - start < data@.len() { end - start } else { data@.len() as int }),
                *final(self),
            ),
    {
        let n = if end - start < data.len() { end - start } else { data.len() };
        let ghost written = data@.take(n as int);
        let ghost mut states: Seq<MapperInstance> = seq![*self];
        let mut i: usize = 0;
        assert(old(self).ppu_write_chain(start as int, data@.take(0), states));
        while i < n
            invariant
                i <= n <= data@.len(),
                n <= end - start,
                start <= end,
                written == data@.take(n as int),
                old(self).ppu_writes_defined(start as int, written),
                old(self).ppu_write_chain(start as int, data@.take(i as int), states),
                states.last() == *self,
            decreases n - i,
        {
            assert(written.take(i as int) =~= data@.take(i as int));
            assert(old(self).ppu_write_chain(start as int, written.take(i as int), states));
            self.write_ppu((start + i) as u16, data[i]);
            proof {
                let before = states;
                states = states.push(*self);
                let next = data@.take(i + 1);
                assert forall|k: int| 0 <= k < next.len() implies #[trigger] states[k].ppu_write_effect(
                    (start + k) as u16,
                    next[k],
                    states[k + 1],
                ) by {
                    if k < i {
                        assert(before[k].ppu_write_effect(
                            (start + k) as u16,
                            data@.take(i as int)[k],
                            before[k + 1],
                        ));
                    }
                }
                assert(old(self).ppu_write_chain(start as int, next, states));
            }
            i += 1;
        }
        assert(written =~= data@.take(n as int));
    }

    /// The bytes a PPU read of the addresses `start..end` returns.
    pub fn read_ppu_range(&mut self, start: usize, end: usize) -> (r: Vec<u8>)
        requires
            start <= end <= 0x10000,
            forall|a: u16| start <= a < end ==> old(self).ppu_readable(a),
        ensures
            *final(self) == *old(self),
            r@.len() == end - start,
            forall|i: int| 0 <= i < end - start ==> r@[i] == old(self).ppu_read((start + i) as u16),
    {
        let mut out: Vec<u8> = Vec::new();
        let mut a = start;
        while a < end
            invariant
                start <= a <= end <= 0x10000,
                *self == *old(self),
                forall|x: u16| start <= x < end ==> self.ppu_readable(x),
                out@.len() == a - start,
                forall|i: int| 0 <= i < a - start ==> out@[i] == self.ppu_read((start + i) as u16),
            decreases end - a,
        {
            let v = self.read_ppu(a as u16);
            out.push(v);
            a += 1;
        }
        out
    }

    /// The bytes a CPU read of the addresses `start..end` returns.
    pub fn read_cpu_range(&mut self, start: usize, end: usize) -> (r: Vec<u8>)
        requires
            start <= end <= 0x10000,
            forall|a: u16| start <= a < end ==> old(self).cpu_readable(a),
        ensures
            *final(self) == *old(self),
            r@.len() == end - start,
            forall|i: int| 0 <= i < end - start ==> r@[i] == old(self).cpu_read((start + i) as u16),
    {
        let mut out: Vec<u8> = Vec::new();
        let mut a = start;
        while a < end
            invariant
                start <= a <= end <= 0x10000,
                *self == *old(self),
                forall|x: u16| start <= x < end ==> self.cpu_readable(x),
                out@.len() == a - start,
                forall|i: int| 0 <= i < a - start ==> out@[i] == self.cpu_read((start + i) as u16),
            decreases end - a,
        {
            let v = self.read_cpu(a as u16);
            out.push(v);
            a += 1;
        }
        out
    }
}

} // verus!
