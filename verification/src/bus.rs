//! The CPU bus: which device answers which address, and the clock that drives them.

use crate::cartridge::mapper::{Mapper, MapperInstance};
use crate::cartridge::Cartridge;
use crate::cheat::{first_for_address, Cheat, CheatReceiver, CheatType};
use crate::controller::Controller;
use crate::cpu::CpuRam;
use crate::ppu::object_attribute::ObjectAttributeMemory;
use crate::ppu::registers::{get_register, register_at, Mutability, Register};
use crate::ppu::{Ppu, PPU_CYCLES_PER_CPU_CYCLE};
use crate::util::{bit_of, word, word_from_bytes};
use vstd::prelude::*;

verus! {

/// A number of clock cycles.
pub type CycleCount = usize;

/// A device that answers a part of the CPU address space.
pub trait Device {
    /// The device answers `address`.
    spec fn maps(&self, address: u16) -> bool;

    /// Whether the device answers `address`.
    fn contains(&self, address: u16) -> (r: bool)
        ensures
            r == self.maps(address),
    ;
}

/// Something driven by the CPU clock.
pub trait Clock: Sized {
    /// Advancing by `cycles` of the device's own cycles fits its counters.
    spec fn can_advance_by(&self, cycles: int) -> bool;

    /// The device after `cycles` of its own cycles.
    spec fn advanced_by(&self, cycles: int) -> Self;

    /// The device's cycles per CPU cycle.
    spec fn multiplier() -> int;

    /// Advance by `cycles` of the device's own cycles.
    fn tick_impl(&mut self, cycles: CycleCount)
        requires
            old(self).can_advance_by(cycles as int),
        ensures
            *final(self) == old(self).advanced_by(cycles as int),
    ;

    /// Advance by `cycles` CPU cycles.
    fn tick(&mut self, cycles: CycleCount)
        requires
            old(self).can_advance_by(cycles * Self::multiplier()),
        ensures
            *final(self) == old(self).advanced_by(cycles * Self::multiplier()),
    ;

    /// Advance by one CPU cycle if `condition` holds.
    fn tick_once_if(&mut self, condition: bool)
        requires
            condition ==> old(self).can_advance_by(Self::multiplier()),
        ensures
            *final(self) == if condition {
                old(self).advanced_by(Self::multiplier())
            } else {
                *old(self)
            },
    ;
}

/// Something the CPU reads and writes by address. Reads may change the device (a
/// controller moves to its next button, PPUSTATUS ends vertical blank).
pub trait Memory: Sized {
    /// A read of `address` is defined.
    spec fn readable(&self, address: u16) -> bool;

    /// A read of `address`: the device after it, and the byte.
    spec fn read_effect(&self, address: u16) -> (Self, u8);

    /// A write of `data` at `address` is defined.
    spec fn writable(&self, address: u16, data: u8) -> bool;

    /// The device after a write of `data` at `address`.
    spec fn write_effect(&self, address: u16, data: u8) -> Self;

    fn read_byte(&mut self, address: u16) -> (r: u8)
        requires
            old(self).readable(address),
        ensures
            (*final(self), r) == old(self).read_effect(address),
    ;

    fn write_byte(&mut self, address: u16, data: u8)
        requires
            old(self).writable(address, data),
        ensures
            *final(self) == old(self).write_effect(address, data),
    ;

    /// Read the little-endian word at `address` and `address + 1`: low byte first.
    fn read_word(&mut self, address: u16) -> (r: u16)
        requires
            address < u16::MAX,
            old(self).readable(address),
            old(self).read_effect(address).0.readable((address + 1) as u16),
        ensures
            ({
                let (s1, lo) = old(self).read_effect(address);
                let (s2, hi) = s1.read_effect((address + 1) as u16);
                *final(self) == s2 && r == word(lo, hi)
            }),
    {
        let lo = self.read_byte(address);
        let hi = self.read_byte(address + 1);
        word_from_bytes(lo, hi)
    }

    /// Write `data` little-endian at `address` and `address + 1`: low byte first.
    fn write_word(&mut self, address: u16, data: u16)
        requires
            address < u16::MAX,
            old(self).writable(address, crate::util::low_byte(data)),
            old(self).write_effect(address, crate::util::low_byte(data)).writable(
                (address + 1) as u16,
                crate::util::high_byte(data),
            ),
        ensures
            *final(self) == old(self).write_effect(address, crate::util::low_byte(data)).write_effect(
                (address + 1) as u16,
                crate::util::high_byte(data),
            ),
    {
        self.write_byte(address, crate::util::low_byte_of(data));
        self.write_byte(address + 1, crate::util::high_byte_of(data));
    }
}

/// The CPU cycles a reset takes.
pub const RESET_CYCLES: usize = 7;

/// The address of the first controller port.
pub const CONTROLLER_PORT: u16 = 0x4016;

/// The devices on the CPU bus: RAM, the PPU, the first controller, the cartridge, and
/// the cheats that substitute reads.
pub struct Bus {
    pub mapper: Option<MapperInstance>,
    pub cpu_ram: CpuRam,
    pub cycles: CycleCount,
    pub ppu: Ppu,
    pub controller: Controller,
    pub cheats: Option<CheatReceiver>,
    /// Vertical blank started since the last frame was presented.
    pub frame_ready: bool,
}

/// Only read substitution is supported: a compare cheat cannot be applied.
pub open spec fn substitutes(ty: CheatType) -> bool {
    ty == CheatType::ReadSubstitute
}

impl Bus {
    /// The cheat that substitutes reads of `address`, if any.
    pub open spec fn active_cheat(self, address: u16) -> Option<Cheat> {
        match self.cheats {
            Some(r) => first_for_address(r.cheats@, address),
            None => None,
        }
    }

    /// The cartridge answers `address`.
    pub open spec fn cartridge_maps(self, address: u16) -> bool {
        self.mapper matches Some(m) && m.maps(address)
    }

    /// A read of `address` is defined: a cheat substitutes it, or the device that answers
    /// it can be read there. Write-only PPU registers and unmapped addresses read as 0.
    #[verifier::opaque]
    pub open spec fn readable_at(self, address: u16) -> bool {
        match self.active_cheat(address) {
            Some(c) => substitutes(c.ty),
            None => if address == CONTROLLER_PORT {
                self.controller.readable()
            } else if address <= 0x1FFF {
                true
            } else if self.cartridge_maps(address) {
                self.mapper.unwrap().cpu_readable(address)
            } else {
                match register_at(address) {
                    Some((register, mutability)) => mutability == Mutability::Write
                        || self.ppu.register_readable(register),
                    None => true,
                }
            },
        }
    }

    /// A read of `address`, in the order the bus asks: cheats, the controller, RAM, the
    /// cartridge, the PPU registers.
    #[verifier::opaque]
    pub open spec fn read_result(self, address: u16) -> (Bus, u8) {
        match self.active_cheat(address) {
            Some(c) => (self, c.value),
            None => if address == CONTROLLER_PORT {
                (Bus { controller: self.controller.after_read(), ..self }, self.controller.read_value())
            } else if address <= 0x1FFF {
                (self, self.cpu_ram.byte(address))
            } else if self.cartridge_maps(address) {
                (self, self.mapper.unwrap().cpu_read(address))
            } else {
                match register_at(address) {
                    Some((register, mutability)) => if mutability == Mutability::Write {
                        (self, 0)
                    } else {
                        let (p, v) = self.ppu.register_read(register);
                        (Bus { ppu: p, ..self }, v)
                    },
                    None => (self, 0),
                }
            },
        }
    }

    /// The bus after a DMA transfer stored a byte in the object attribute memory.
    pub open spec fn oam_stored(self, data: u8) -> Bus {
        Bus {
            ppu: Ppu {
                oam: ObjectAttributeMemory {
                    memory: vstd::array::spec_array_update(
                        self.ppu.oam.memory,
                        self.ppu.oam.address as int,
                        data,
                    ),
                    address: self.ppu.oam.address.wrapping_add(1),
                },
                ..self.ppu
            },
            ..self
        }
    }

    /// The first `n` steps of a DMA transfer from `start`: each reads the next address
    /// through the bus and stores the byte in the object attribute memory.
    #[verifier::opaque]
    pub open spec fn dma_steps(self, start: int, n: nat) -> Option<Bus>
        decreases n,
    {
        if n == 0 {
            Some(self)
        } else {
            match self.dma_steps(start, (n - 1) as nat) {
                Some(b) => {
                    let a = (start + n - 1) as u16;
                    if b.readable_at(a) {
                        let (b2, v) = b.read_result(a);
                        Some(b2.oam_stored(v))
                    } else {
                        None
                    }
                },
                None => None,
            }
        }
    }

    /// A write of `data` at `address` is defined: the PPU register there can be written
    /// (for the DMA port, every one of its 256 reads is defined), or the cartridge accepts
    /// it, or another device answers.
    #[verifier::opaque]
    pub open spec fn writable_at(self, address: u16, data: u8) -> bool {
        if address == CONTROLLER_PORT || address <= 0x1FFF {
            true
        } else {
            match register_at(address) {
                Some((register, mutability)) => mutability != Mutability::Read && if register
                    == Register::ObjectAttributeDirectMemoryAccess {
                    self.dma_steps(data as int * 256, 256) is Some
                } else {
                    self.ppu.register_writable(register)
                },
                None => self.cartridge_maps(address) ==> self.mapper.unwrap().cpu_writable(
                    address,
                    data,
                ),
            }
        }
    }

    /// The bus after a write of `data` at `address`, in the order the bus asks: the
    /// controller, RAM, the PPU registers and the DMA port, the cartridge. Other writes
    /// are ignored.
    #[verifier::opaque]
    pub open spec fn write_result(self, address: u16, data: u8) -> Bus {
        if address == CONTROLLER_PORT {
            Bus { controller: self.controller.written(data), ..self }
        } else if address <= 0x1FFF {
            Bus { cpu_ram: self.cpu_ram.stored(address, data), ..self }
        } else {
            match register_at(address) {
                Some((register, _)) => if register == Register::ObjectAttributeDirectMemoryAccess {
                    self.dma_steps(data as int * 256, 256).unwrap()
                } else {
                    Bus { ppu: self.ppu.register_written(register, data), ..self }
                },
                None => if self.cartridge_maps(address) {
                    Bus { mapper: Some(self.mapper.unwrap().cpu_written(address, data)), ..self }
                } else {
                    self
                },
            }
        }
    }

    /// Advancing `cycles` CPU cycles fits the counters.
    #[verifier::opaque]
    pub open spec fn can_run(self, cycles: int) -> bool {
        self.cycles + cycles <= usize::MAX && self.ppu.can_advance(
            cycles * PPU_CYCLES_PER_CPU_CYCLE,
        )
    }

    /// The bus after `cycles` CPU cycles: the PPU runs three times as fast, and a frame is
    /// ready once vertical blank starts.
    #[verifier::opaque]
    pub open spec fn ran(self, cycles: int) -> Bus {
        let p = self.ppu.advanced(cycles * PPU_CYCLES_PER_CPU_CYCLE);
        Bus {
            cycles: (self.cycles + cycles) as usize,
            ppu: p,
            frame_ready: self.frame_ready || (!bit_of(self.ppu.status.0, 7) && bit_of(
                p.status.0,
                7,
            )),
            ..self
        }
    }

    /// A bus with no cartridge, cleared RAM, a fresh PPU and controller.
    pub fn new(cheats: Option<CheatReceiver>) -> (r: Bus)
        ensures
            r.mapper is None,
            forall|i: int| 0 <= i < 0x800 ==> r.cpu_ram.data@[i] == 0,
            r.cycles == 0,
            r.ppu.powered_on(),
            r.controller == (Controller { buttons: crate::controller::Buttons(0), strobe: false, index: 0 }),
            r.cheats == cheats,
            !r.frame_ready,
    {
        Bus {
            mapper: None,
            cpu_ram: CpuRam::default(),
            cycles: 0,
            ppu: Ppu::new(),
            controller: Controller::new(),
            cheats,
            frame_ready: false,
        }
    }

    /// Reset the PPU and the RAM; the reset itself takes seven cycles.
    pub fn reset(&mut self)
        ensures
            final(self).ppu.powered_on_except_cartridge(),
            final(self).ppu.mirroring == old(self).ppu.mirroring,
            final(self).ppu.pattern_table == old(self).ppu.pattern_table,
            forall|i: int| 0 <= i < 0x800 ==> final(self).cpu_ram.data@[i] == 0,
            final(self).cycles == RESET_CYCLES,
            final(self).mapper == old(self).mapper,
            final(self).controller == old(self).controller,
            final(self).cheats == old(self).cheats,
            final(self).frame_ready == old(self).frame_ready,
    {
        self.ppu.reset();
        self.cpu_ram = CpuRam::default();
        self.cycles = RESET_CYCLES;
    }

    /// Insert a cartridge: the PPU takes its mirroring and character ROM, the mapper its
    /// program ROM.
    pub fn load_cartridge(&mut self, cartridge: Cartridge)
        requires
            MapperInstance::supported(cartridge.header.mapper_id),
        ensures
            final(self).mapper == Some(MapperInstance::for_cartridge(cartridge)),
            final(self).ppu.mirroring == Some(cartridge.header.mirroring),
            final(self).ppu.pattern_table matches Some(t) && t@ == cartridge.character_rom@,
            (Ppu {
                mirroring: old(self).ppu.mirroring,
                pattern_table: old(self).ppu.pattern_table,
                ..final(self).ppu
            }) == old(self).ppu,
            final(self).cpu_ram == old(self).cpu_ram,
            final(self).cycles == old(self).cycles,
            final(self).controller == old(self).controller,
            final(self).cheats == old(self).cheats,
            final(self).frame_ready == old(self).frame_ready,
    {
        self.ppu.load_cartridge(&cartridge);
        self.mapper = Some(MapperInstance::from(cartridge));
    }

    /// Remove the cartridge and clear the picture.
    pub fn unload_cartridge(&mut self)
        ensures
            final(self).mapper is None,
            final(self).ppu.renderer.wf(),
            forall|i: int| 0 <= i < 184320 ==> final(self).ppu.renderer.pixels@[i] == 0,
            (Ppu { renderer: old(self).ppu.renderer, ..final(self).ppu }) == old(self).ppu,
            final(self).cpu_ram == old(self).cpu_ram,
            final(self).cycles == old(self).cycles,
            final(self).controller == old(self).controller,
            final(self).cheats == old(self).cheats,
            final(self).frame_ready == old(self).frame_ready,
    {
        self.mapper = None;
        self.ppu.renderer.unload_mapper();
    }

    /// A cartridge is inserted.
    pub fn has_cartridge(&self) -> (r: bool)
        ensures
            r == self.mapper is Some,
    {
        self.mapper.is_some()
    }

    /// Draw the frame when vertical blank started since the last one: returns whether a
    /// frame is ready to be shown. Without a cartridge nothing is drawn.
    pub fn present(&mut self) -> (r: bool)
        requires
            old(self).frame_ready ==> (old(self).mapper matches Some(m) ==> old(self).ppu.renderable(m)),
        ensures
            r == old(self).frame_ready,
            !final(self).frame_ready,
            final(self).mapper == old(self).mapper,
            !old(self).frame_ready || old(self).mapper is None ==> final(self).ppu == old(self).ppu,
            old(self).frame_ready && old(self).mapper is Some ==> ({
                let m = old(self).mapper.unwrap();
                let p0 = old(self).ppu;
                final(self).ppu.renderer.pixels@ == p0.rendered_picture(m, p0.renderer.pixels@)
            }),
            (Ppu { renderer: old(self).ppu.renderer, ..final(self).ppu }) == old(self).ppu,
            final(self).cpu_ram == old(self).cpu_ram,
            final(self).cycles == old(self).cycles,
            final(self).controller == old(self).controller,
            final(self).cheats == old(self).cheats,
    {
        if !self.frame_ready {
            return false;
        }
        self.frame_ready = false;
        match &mut self.mapper {
            Some(m) => self.ppu.render(m),
            None => {},
        }
        true
    }

    /// Store a byte that a DMA transfer read.
    fn store_oam(&mut self, data: u8)
        ensures
            *final(self) == old(self).oam_stored(data),
    {
        self.ppu.oam.write_data(data);
        assert(self.ppu.oam.memory =~= vstd::array::spec_array_update(
            old(self).ppu.oam.memory,
            old(self).ppu.oam.address as int,
            data,
        ));
    }

    /// Copy the page `$XX00-$XXFF` into the object attribute memory, byte by byte.
    fn dma(&mut self, page: u8)
        requires
            old(self).dma_steps(page as int * 256, 256) is Some,
        ensures
            *final(self) == old(self).dma_steps(page as int * 256, 256).unwrap(),
    {
        proof {
            reveal(Bus::dma_steps);
        }
        let range = self.ppu.oam.dma(page);
        let start = range.start;
        let end = range.end;
        let ghost origin = *self;
        let mut i = start;
        proof {
            lemma_dma_prefix(origin, start as int, 0, 256);
        }
        while i < end
            invariant
                start == page as int * 256,
                end == start + 256,
                start <= i <= end,
                origin.dma_steps(start as int, 256) is Some,
                origin.dma_steps(start as int, (i - start) as nat) == Some(*self),
            decreases end - i,
        {
            proof {
                reveal(Bus::dma_steps);
                lemma_dma_prefix(origin, start as int, (i - start + 1) as nat, 256);
            }
            let byte = self.read_byte(i as u16);
            self.store_oam(byte);
            i += 1;
        }
    }
}

/// A transfer that completes completes each of its first steps.
pub proof fn lemma_dma_prefix(bus: Bus, start: int, m: nat, n: nat)
    requires
        m <= n,
        bus.dma_steps(start, n) is Some,
    ensures
        bus.dma_steps(start, m) is Some,
    decreases n,
{
    reveal(Bus::dma_steps);
    if m < n {
        lemma_dma_prefix(bus, start, m, (n - 1) as nat);
    }
}

/// Above the I/O registers (`$4020` and up) only cheats and the cartridge answer: what a
/// read there gives, and whether it is defined, depends on them alone, and the read
/// changes nothing.
pub proof fn lemma_cartridge_space_read(b1: Bus, b2: Bus, address: u16)
    requires
        address >= 0x4020,
        b1.cheats == b2.cheats,
        b1.mapper == b2.mapper,
    ensures
        b1.readable_at(address) == b2.readable_at(address),
        b1.read_result(address).1 == b2.read_result(address).1,
        b1.read_result(address).0 == b1,
{
    reveal(Bus::readable_at);
    reveal(Bus::read_result);
}

/// A write to RAM is read back: after storing `data` at a RAM address, reading any
/// address that selects the same byte (the RAM repeats every `$800`) gives `data`, unless
/// a cheat substitutes that read.
pub proof fn lemma_ram_write_read(bus: Bus, address: u16, other: u16, data: u8)
    requires
        address <= 0x1FFF,
        other <= 0x1FFF,
        crate::cpu::ram_index(address) == crate::cpu::ram_index(other),
        bus.active_cheat(other) is None,
    ensures
        bus.writable_at(address, data),
        bus.write_result(address, data).readable_at(other),
        bus.write_result(address, data).read_result(other) == (bus.write_result(address, data), data),
{
    reveal(Bus::writable_at);
    reveal(Bus::write_result);
    reveal(Bus::readable_at);
    reveal(Bus::read_result);
    let b = bus.write_result(address, data);
    assert(address & 0x7FFu16 < 0x800) by (bit_vector);
    assert(b.cpu_ram.data@ == bus.cpu_ram.data@.update(crate::cpu::ram_index(address), data));
}

/// A read that a cheat substitutes gives the cheat's value and changes nothing.
pub proof fn lemma_cheat_read(bus: Bus, address: u16)
    requires
        bus.active_cheat(address) matches Some(c) && substitutes(c.ty),
    ensures
        bus.readable_at(address),
        bus.read_result(address) == (bus, bus.active_cheat(address).unwrap().value),
{
    reveal(Bus::readable_at);
    reveal(Bus::read_result);
}

/// The first `n` steps of a DMA transfer from a RAM page, into object attribute memory
/// whose address starts at 0: the first `n` bytes of the page land in the first `n`
/// slots, and the address counts them.
proof fn lemma_dma_ram_steps(bus: Bus, page: u8, n: nat)
    requires
        page < 8,
        n <= 256,
        bus.ppu.oam.address == 0,
        forall|a: u16| page as int * 256 <= a < page as int * 256 + 256 ==> #[trigger] bus.active_cheat(a) is None,
    ensures
        bus.dma_steps(page as int * 256, n) matches Some(b) && {
            &&& b.cpu_ram == bus.cpu_ram
            &&& b.cheats == bus.cheats
            &&& b.ppu.oam.address == (n % 256) as u8
            &&& forall|k: int| 0 <= k < n ==> b.ppu.oam.memory@[k] == bus.cpu_ram.byte((page as int * 256 + k) as u16)
        },
    decreases n,
{
    reveal(Bus::dma_steps);
    if n > 0 {
        lemma_dma_ram_steps(bus, page, (n - 1) as nat);
        let b = bus.dma_steps(page as int * 256, (n - 1) as nat).unwrap();
        let a = (page as int * 256 + n - 1) as u16;
        assert(a as int == page as int * 256 + n - 1);
        assert(bus.active_cheat(a) is None);
        assert(b.active_cheat(a) is None);
        reveal(Bus::readable_at);
        reveal(Bus::read_result);
        assert(b.readable_at(a));
        assert(b.read_result(a) == (b, b.cpu_ram.byte(a)));
        let b2 = b.oam_stored(b.cpu_ram.byte(a));
        assert(b2.ppu.oam.memory@ == b.ppu.oam.memory@.update(n - 1, b.cpu_ram.byte(a)));
    }
}

/// An OAM DMA from a RAM page copies the page into object attribute memory: written to
/// `$4014` with page `p` below 8, when the OAM address is 0 and no cheat substitutes reads
/// of the page, slot `k` afterwards holds byte `k` of the page.
pub proof fn lemma_dma_copies_ram_page(bus: Bus, page: u8)
    requires
        page < 8,
        bus.ppu.oam.address == 0,
        forall|a: u16| page as int * 256 <= a < page as int * 256 + 256 ==> #[trigger] bus.active_cheat(a) is None,
    ensures
        bus.writable_at(0x4014, page),
        forall|k: int|
            0 <= k < 256 ==> bus.write_result(0x4014, page).ppu.oam.memory@[k] == bus.cpu_ram.byte(
                (page as int * 256 + k) as u16,
            ),
        bus.write_result(0x4014, page).ppu.oam.address == 0,
{
    lemma_dma_ram_steps(bus, page, 256);
    reveal(Bus::writable_at);
    reveal(Bus::write_result);
}

impl Memory for Bus {
    open spec fn readable(&self, address: u16) -> bool {
        self.readable_at(address)
    }

    open spec fn read_effect(&self, address: u16) -> (Bus, u8) {
        self.read_result(address)
    }

    open spec fn writable(&self, address: u16, data: u8) -> bool {
        self.writable_at(address, data)
    }

    open spec fn write_effect(&self, address: u16, data: u8) -> Bus {
        self.write_result(address, data)
    }

    fn read_byte(&mut self, address: u16) -> (r: u8) {
        proof {
            reveal(Bus::readable_at);
            reveal(Bus::read_result);
        }
        if let Some(cheat_receiver) = &self.cheats {
            if let Some(cheat) = cheat_receiver.contains(address) {
                return cheat.value;
            }
        }
        if self.controller.contains(address) {
            self.controller.read()
        } else if self.cpu_ram.contains(address) {
            self.cpu_ram.index(address)
        } else if match &self.mapper {
            Some(m) => m.contains(address),
            None => false,
        } {
            match &mut self.mapper {
                Some(m) => m.read_cpu(address),
                None => 0,
            }
        } else {
            match get_register(address) {
                Some((register, mutability)) => if mutability.readable() {
                    self.ppu.read_register(&register)
                } else {
                    0
                },
                None => 0,
            }
        }
    }

    fn write_byte(&mut self, address: u16, data: u8) {
        proof {
            reveal(Bus::writable_at);
            reveal(Bus::write_result);
        }
        if self.controller.contains(address) {
            self.controller.write(data);
        } else if self.cpu_ram.contains(address) {
            self.cpu_ram.set(address, data);
        } else {
            match get_register(address) {
                Some((register, _)) => {
                    if register == Register::ObjectAttributeDirectMemoryAccess {
                        self.dma(data);
                    } else {
                        self.ppu.write_register(&register, data);
                    }
                },
                None => {
                    if match &self.mapper {
                        Some(m) => m.contains(address),
                        None => false,
                    } {
                        match &mut self.mapper {
                            Some(m) => m.write_cpu(address, data),
                            None => {},
                        }
                    }
                },
            }
        }
    }
}

impl Clock for Bus {
    open spec fn can_advance_by(&self, cycles: int) -> bool {
        self.can_run(cycles)
    }

    open spec fn advanced_by(&self, cycles: int) -> Bus {
        self.ran(cycles)
    }

    open spec fn multiplier() -> int {
        1
    }

    /// Run the PPU along; note when vertical blank starts that a frame is ready.
    fn tick_impl(&mut self, cycles: CycleCount) {
        proof {
            reveal(Bus::can_run);
            reveal(Bus::ran);
        }
        self.cycles += cycles;
        let vblank_before = self.ppu.status.vblank_started();
        self.ppu.tick(cycles);
        let vblank_after = self.ppu.status.vblank_started();
        if !vblank_before && vblank_after {
            self.frame_ready = true;
        }
    }

    fn tick(&mut self, cycles: CycleCount) {
        self.tick_impl(cycles);
    }

    fn tick_once_if(&mut self, condition: bool) {
        if condition {
            self.tick(1);
        }
    }
}

/// The 2 KiB of CPU RAM repeat through `$0000-$1FFF`: a byte written at one address is
/// read back at every address that equals it modulo `$800`.
pub proof fn lemma_ram_mirrors(bus: Bus, address: u16, other: u16, data: u8)
    requires
        address <= 0x1FFF,
        other <= 0x1FFF,
        address % 0x800 == other % 0x800,
        bus.active_cheat(other) is None,
    ensures
        bus.writable_at(address, data),
        bus.write_result(address, data).read_result(other).1 == data,
{
    vstd::bits::lemma_u16_low_bits_mask_is_mod(address, 11);
    vstd::bits::lemma_u16_low_bits_mask_is_mod(other, 11);
    vstd::bits::lemma_low_bits_mask_values();
    vstd::arithmetic::power2::lemma2_to64();
    lemma_ram_write_read(bus, address, other, data);
}

} // verus!
