//! The picture processing unit: its registers as the CPU sees them, its video memory,
//! and its timing in scanlines.
//! See https://www.nesdev.org/wiki/PPU

pub mod nametable;
pub mod object_attribute;
pub mod palette;
pub mod registers;
pub mod renderer;

use crate::cartridge::{Cartridge, Mirroring};
use crate::util::{bit_of, copy_bytes, with_bit};
use nametable::VIDEO_RAM_SIZE;
use object_attribute::{Object, ObjectAttributeMemory};
use palette::palette_slot;
use registers::{Address, Control, Mask, Register, Scroll, Status};
use crate::cartridge::mapper::MapperInstance;
use renderer::{background_drawn, bank_readable, sprites_drawable, sprites_drawn, Renderer};
use nametable::{Nametable, NametableAddr};
use vstd::prelude::*;

verus! {

/// PPU cycles in a scanline.
pub const CYCLES_PER_SCANLINE: usize = 341;

/// The last scanline of a frame.
pub const SCANLINES_PER_FRAME: u16 = 261;

/// The scanline at which vertical blank starts.
pub const VBLANK_SCANLINE: u16 = 241;

/// PPU cycles per CPU cycle.
pub const PPU_CYCLES_PER_CPU_CYCLE: usize = 3;

/// https://www.nesdev.org/wiki/PPU
pub struct Ppu {
    pub renderer: Renderer,
    pub mirroring: Option<Mirroring>,
    pub pattern_table: Option<Vec<u8>>,
    pub data_buffer: u8,
    pub vram: [u8; VIDEO_RAM_SIZE],
    pub oam: ObjectAttributeMemory,
    pub control: Control,
    pub mask: Mask,
    pub status: Status,
    pub scroll: Scroll,
    pub address: Address,
    pub cycles: usize,
    pub scanline: u16,
    pub trigger_nmi: bool,
}

/// The VRAM index of an address of the nametable area (`$2000-$3EFF`): `$3000-$3EFF`
/// repeats `$2000-$2EFF`, and of the four nametables the mirroring folds two onto the
/// other two.
/// https://www.nesdev.org/wiki/Mirroring#Nametable_Mirroring
pub open spec fn nametable_index(mirroring: Mirroring, addr: u16) -> int {
    let vram_index = (addr & 0b10111111111111u16) - 0x2000;
    let name_table = vram_index / 0x400;
    if mirroring == Mirroring::Vertical && (name_table == 2 || name_table == 3) {
        vram_index - 0x800
    } else if mirroring == Mirroring::Horizontal && (name_table == 1 || name_table == 2) {
        vram_index - 0x400
    } else if mirroring == Mirroring::Horizontal && name_table == 3 {
        vram_index - 0x800
    } else {
        vram_index
    }
}

/// Horizontal and vertical mirroring keep every nametable address inside the 2 KiB of
/// VRAM.
pub open spec fn folds_into_vram(mirroring: Option<Mirroring>) -> bool {
    mirroring == Some(Mirroring::Vertical) || mirroring == Some(Mirroring::Horizontal)
}

/// The pattern table area of the PPU address space.
pub open spec fn in_pattern_table(addr: u16) -> bool {
    addr <= 0x1FFF
}

/// The nametable area.
pub open spec fn in_nametables(addr: u16) -> bool {
    0x2000 <= addr <= 0x3EFF
}

/// The palette RAM area.
pub open spec fn in_palette_ram(addr: u16) -> bool {
    0x3F00 <= addr <= 0x3FFF
}

impl Ppu {
    /// A powered-on PPU: every register and memory cleared, no cartridge.
    pub open spec fn powered_on(self) -> bool {
        &&& self.renderer.wf()
        &&& (forall|i: int| 0 <= i < renderer::PIXEL_BUFFER_LEN ==> self.renderer.pixels@[i] == 0)
        &&& (forall|i: int| 0 <= i < 32 ==> self.renderer.palette.data@[i] == 0)
        &&& self.mirroring is None
        &&& self.pattern_table is None
        &&& self.data_buffer == 0
        &&& (forall|i: int| 0 <= i < VIDEO_RAM_SIZE ==> self.vram@[i] == 0)
        &&& self.oam.address == 0
        &&& (forall|i: int| 0 <= i < 0x100 ==> self.oam.memory@[i] == 0)
        &&& self.control.0 == 0
        &&& self.mask.0 == 0
        &&& self.status.0 == 0
        &&& self.scroll == Scroll { x: 0, y: 0, horizontal_latch: true }
        &&& self.address == Address { value: 0, latch_high: true }
        &&& self.cycles == 0
        &&& self.scanline == 0
        &&& !self.trigger_nmi
    }

    /// A PPU with every register and memory cleared.
    pub fn new() -> (r: Ppu)
        ensures
            r.powered_on(),
    {
        Ppu {
            renderer: Renderer::new(),
            mirroring: None,
            pattern_table: None,
            data_buffer: 0,
            vram: [0;VIDEO_RAM_SIZE],
            oam: ObjectAttributeMemory::default(),
            control: Control::default(),
            mask: Mask::default(),
            status: Status::default(),
            scroll: Scroll::default(),
            address: Address::default(),
            cycles: 0,
            scanline: 0,
            trigger_nmi: false,
        }
    }

    /// Take the mirroring and the character ROM of a cartridge.
    pub fn load_cartridge(&mut self, cartridge: &Cartridge)
        ensures
            final(self).mirroring == Some(cartridge.header.mirroring),
            final(self).pattern_table matches Some(t) && t@ == cartridge.character_rom@,
            (Ppu {
                mirroring: old(self).mirroring,
                pattern_table: old(self).pattern_table,
                ..*final(self)
            }) == *old(self),
    {
        self.mirroring = Some(cartridge.header.mirroring);
        self.pattern_table = Some(copy_bytes(&cartridge.character_rom));
    }

    /// The VRAM index of a nametable address.
    fn mirror_nametable(&self, addr: u16) -> (r: u16)
        requires
            in_nametables(addr),
            folds_into_vram(self.mirroring),
        ensures
            r == nametable_index(self.mirroring.unwrap(), addr),
            r < VIDEO_RAM_SIZE,
    {
        let mirrored_vram = addr & 0b10111111111111;  // mirror down 0x3000-0x3eff to 0x2000 - 0x2eff
        assert(0x2000 <= addr <= 0x3EFF ==> 0x2000 <= addr & 0b10111111111111u16 <= 0x2FFF)
            by (bit_vector);
        let vram_index = mirrored_vram - 0x2000;
        let name_table = vram_index / 0x400;
        match (self.mirroring.unwrap(), name_table) {
            (Mirroring::Vertical, 2) | (Mirroring::Vertical, 3) => vram_index - 0x800,
            (Mirroring::Horizontal, 2) => vram_index - 0x400,
            (Mirroring::Horizontal, 1) => vram_index - 0x400,
            (Mirroring::Horizontal, 3) => vram_index - 0x800,
            _ => vram_index,
        }
    }

    /// The PPU after PPUDATA moved the VRAM address on.
    pub open spec fn address_moved(self) -> Ppu {
        Ppu {
            address: Address {
                value: ((self.address.value.wrapping_add(self.control.increment_of() as u16))
                    % 0x4000) as u16,
                ..self.address
            },
            ..self
        }
    }

    fn increment_vram_address(&mut self)
        ensures
            *final(self) == old(self).address_moved(),
    {
        let incr = self.control.vram_address_increment();
        self.address.increment(incr);
    }

    /// A read of PPUDATA is defined: the address is in the character ROM, in the
    /// nametables under a mirroring that folds them into VRAM, or in the palette RAM.
    pub open spec fn data_readable(self) -> bool {
        let addr = self.address.value;
        if in_pattern_table(addr) {
            self.pattern_table matches Some(t) && addr < t@.len()
        } else if in_nametables(addr) {
            folds_into_vram(self.mirroring)
        } else {
            in_palette_ram(addr)
        }
    }

    /// A read of PPUDATA: the result and the PPU after it. Character ROM and nametable
    /// reads go through the read buffer, returning the byte of the previous read; palette
    /// reads return the byte directly. The address then moves on.
    pub open spec fn data_read(self) -> (Ppu, u8) {
        let addr = self.address.value;
        let next = self.address_moved();
        if in_pattern_table(addr) {
            (Ppu { data_buffer: self.pattern_table.unwrap()@[addr as int], ..next }, self.data_buffer)
        } else if in_nametables(addr) {
            (
                Ppu {
                    data_buffer: self.vram@[nametable_index(self.mirroring.unwrap(), addr)],
                    ..next
                },
                self.data_buffer,
            )
        } else {
            (next, self.renderer.palette.data@[palette_slot(addr)])
        }
    }

    /// Helper for reading from PPUDATA.
    fn read_data(&mut self) -> (r: u8)
        requires
            old(self).data_readable(),
        ensures
            (*final(self), r) == old(self).data_read(),
    {
        let addr = self.address.value;
        self.increment_vram_address();
        if addr <= 0x1FFF {
            let result = match &self.pattern_table {
                Some(t) => t[addr as usize],
                None => 0,
            };
            self.update_data_buffer(result)
        } else if addr <= 0x3EFF {
            let result = self.vram[self.mirror_nametable(addr) as usize];
            self.update_data_buffer(result)
        } else {
            self.renderer.palette.index(addr)
        }
    }

    fn update_data_buffer(&mut self, value: u8) -> (r: u8)
        ensures
            r == old(self).data_buffer,
            *final(self) == (Ppu { data_buffer: value, ..*old(self) }),
    {
        let result = self.data_buffer;
        self.data_buffer = value;
        result
    }

    /// A write of PPUDATA is defined: in the nametables under a mirroring that folds them
    /// into VRAM, or in the palette RAM; the character ROM cannot be written.
    pub open spec fn data_writable(self) -> bool {
        let addr = self.address.value;
        (in_nametables(addr) && folds_into_vram(self.mirroring)) || in_palette_ram(addr)
    }

    /// The PPU after a write of PPUDATA: the byte is stored, then the address moves on.
    pub open spec fn data_written(self, data: u8) -> Ppu {
        let addr = self.address.value;
        let stored = if in_nametables(addr) {
            Ppu {
                vram: vstd::array::spec_array_update(
                    self.vram,
                    nametable_index(self.mirroring.unwrap(), addr),
                    data,
                ),
                ..self
            }
        } else {
            Ppu {
                renderer: Renderer {
                    palette: palette::Palette {
                        data: vstd::array::spec_array_update(
                            self.renderer.palette.data,
                            palette_slot(addr),
                            data,
                        ),
                    },
                    ..self.renderer
                },
                ..self
            }
        };
        stored.address_moved()
    }

    /// Helper for writing with PPUDATA.
    fn write_data(&mut self, data: u8)
        requires
            old(self).data_writable(),
        ensures
            *final(self) == old(self).data_written(data),
    {
        let addr = self.address.value;
        if addr >= 0x2000 && addr <= 0x3EFF {
            let vram_index = self.mirror_nametable(addr) as usize;
            self.vram[vram_index] = data;
        } else {
            self.renderer.palette.set(addr, data);
            assert(self.renderer.palette.data =~= vstd::array::spec_array_update(
                old(self).renderer.palette.data,
                palette_slot(addr),
                data,
            ));
        }
        self.increment_vram_address();
    }

    /// A read of PPUSTATUS: the register, then vertical blank ends and both write
    /// latches reset.
    pub open spec fn status_read(self) -> (Ppu, u8) {
        (
            Ppu {
                status: Status(with_bit(self.status.0, 7, false)),
                address: Address { latch_high: true, ..self.address },
                scroll: Scroll { horizontal_latch: true, ..self.scroll },
                ..self
            },
            self.status.0,
        )
    }

    fn read_status(&mut self) -> (r: u8)
        ensures
            (*final(self), r) == old(self).status_read(),
    {
        let result = self.status.read();
        self.status.reset_vblank();
        self.address.reset_latch();
        self.scroll.reset_latch();
        result
    }

    /// The PPU after a write of PPUCTRL: enabling the NMI during vertical blank raises
    /// one at once.
    pub open spec fn control_written(self, data: u8) -> Ppu {
        Ppu {
            control: Control(data),
            trigger_nmi: self.trigger_nmi || (!bit_of(self.control.0, 7) && bit_of(
                self.status.0,
                7,
            ) && bit_of(data, 7)),
            ..self
        }
    }

    fn write_control(&mut self, data: u8)
        ensures
            *final(self) == old(self).control_written(data),
    {
        let nmi_before = self.control.nmi_at_vblank();
        self.control = Control::from(data);
        if !nmi_before && self.status.in_vblank() && self.control.nmi_at_vblank() {
            self.trigger_nmi = true;
        }
    }

    fn write_mask(&mut self, data: u8)
        ensures
            *final(self) == (Ppu { mask: Mask(data), ..*old(self) }),
    {
        self.mask = Mask::from(data);
    }

    /// A read of `register` is defined: PPUSTATUS, OAMDATA, and PPUDATA where its address
    /// can be read.
    pub open spec fn register_readable(self, register: Register) -> bool {
        match register {
            Register::Status | Register::ObjectAttributeData => true,
            Register::Data => self.data_readable(),
            _ => false,
        }
    }

    /// A read of `register`: the PPU after it and the byte.
    pub open spec fn register_read(self, register: Register) -> (Ppu, u8) {
        match register {
            Register::Status => self.status_read(),
            Register::ObjectAttributeData => (self, self.oam.memory@[self.oam.address as int]),
            _ => self.data_read(),
        }
    }

    /// Read a register, as the CPU does at `$2000-$2007`.
    pub fn read_register(&mut self, register: &Register) -> (r: u8)
        requires
            old(self).register_readable(*register),
        ensures
            (*final(self), r) == old(self).register_read(*register),
    {
        match register {
            Register::Status => self.read_status(),
            Register::ObjectAttributeData => self.oam.read_data(),
            _ => self.read_data(),
        }
    }

    /// A write of `register` is defined: every register but PPUSTATUS and OAMDMA, and
    /// PPUDATA where its address can be written.
    pub open spec fn register_writable(self, register: Register) -> bool {
        match register {
            Register::Status | Register::ObjectAttributeDirectMemoryAccess => false,
            Register::Data => self.data_writable(),
            _ => true,
        }
    }

    /// The PPU after a write of `data` to `register`.
    pub open spec fn register_written(self, register: Register, data: u8) -> Ppu {
        match register {
            Register::Control => self.control_written(data),
            Register::Mask => Ppu { mask: Mask(data), ..self },
            Register::ObjectAttributeAddress => Ppu {
                oam: ObjectAttributeMemory { address: data, ..self.oam },
                ..self
            },
            Register::ObjectAttributeData => Ppu {
                oam: ObjectAttributeMemory {
                    memory: vstd::array::spec_array_update(
                        self.oam.memory,
                        self.oam.address as int,
                        data,
                    ),
                    address: self.oam.address.wrapping_add(1),
                },
                ..self
            },
            Register::Scroll => Ppu {
                scroll: if self.scroll.horizontal_latch {
                    Scroll { x: data, horizontal_latch: false, ..self.scroll }
                } else {
                    Scroll { y: data, horizontal_latch: true, ..self.scroll }
                },
                ..self
            },
            Register::Address => Ppu {
                address: Address {
                    value: (if self.address.latch_high {
                        (data as int * 256 + self.address.value % 256) % 0x4000
                    } else {
                        ((self.address.value / 256) * 256 + data as int) % 0x4000
                    }) as u16,
                    latch_high: !self.address.latch_high,
                },
                ..self
            },
            _ => self.data_written(data),
        }
    }

    /// Write a register, as the CPU does at `$2000-$2007`.
    pub fn write_register(&mut self, register: &Register, data: u8)
        requires
            old(self).register_writable(*register),
        ensures
            *final(self) == old(self).register_written(*register, data),
    {
        match register {
            Register::Control => self.write_control(data),
            Register::Mask => self.write_mask(data),
            Register::ObjectAttributeAddress => self.oam.write_address(data),
            Register::ObjectAttributeData => {
                self.oam.write_data(data);
                assert(self.oam.memory =~= vstd::array::spec_array_update(
                    old(self).oam.memory,
                    old(self).oam.address as int,
                    data,
                ));
            },
            Register::Scroll => self.scroll.update(data),
            Register::Address => self.address.update(data),
            _ => self.write_data(data),
        }
    }

    /// Report a pending NMI and clear it.
    pub fn poll_nmi(&mut self) -> (r: bool)
        ensures
            r == old(self).trigger_nmi,
            *final(self) == (Ppu { trigger_nmi: false, ..*old(self) }),
    {
        let result = self.trigger_nmi;
        if result {
            self.trigger_nmi = false;
        }
        result
    }

    /// Sprite 0 is hit: it lies on the current scanline, starts at or before `cycle`,
    /// and sprites are shown. Every pixel of the sprite counts, opaque or not.
    pub open spec fn sprite_zero_hit(self, cycle: int) -> bool {
        self.oam.memory@[0] as int == self.scanline as int && self.oam.memory@[3] as int <= cycle
            && bit_of(self.mask.0, 4)
    }

    fn is_sprite_zero_hit(&self, cycle: usize) -> (r: bool)
        ensures
            r == self.sprite_zero_hit(cycle as int),
    {
        let obj = Object::from(&self.oam.memory);
        (obj.y == self.scanline as usize) && obj.x <= cycle && self.mask.show_sprites()
    }

    /// Advancing `cycles` PPU cycles fits the counters.
    pub open spec fn can_advance(self, cycles: int) -> bool {
        self.cycles + cycles <= usize::MAX && self.scanline < u16::MAX
    }

    /// The PPU after `cycles` PPU cycles: at most one scanline ends. At the end of
    /// scanline 240 vertical blank starts (with an NMI if enabled); after scanline 261 the
    /// frame starts over.
    pub open spec fn advanced(self, cycles: int) -> Ppu {
        let c = (self.cycles + cycles) as usize;
        if c < CYCLES_PER_SCANLINE {
            Ppu { cycles: c, ..self }
        } else {
            let hit = self.sprite_zero_hit(c as int);
            let status1 = if hit {
                Status(with_bit(self.status.0, 6, true))
            } else {
                self.status
            };
            let line = (self.scanline + 1) as u16;
            let (status2, nmi2) = if line == VBLANK_SCANLINE {
                (
                    Status(with_bit(with_bit(status1.0, 7, true), 6, false)),
                    self.trigger_nmi || bit_of(self.control.0, 7),
                )
            } else {
                (status1, self.trigger_nmi)
            };
            if line > SCANLINES_PER_FRAME {
                Ppu {
                    cycles: (c - CYCLES_PER_SCANLINE) as usize,
                    scanline: 0,
                    trigger_nmi: false,
                    status: Status(with_bit(with_bit(status2.0, 7, false), 6, false)),
                    ..self
                }
            } else {
                Ppu {
                    cycles: (c - CYCLES_PER_SCANLINE) as usize,
                    scanline: line,
                    trigger_nmi: nmi2,
                    status: status2,
                    ..self
                }
            }
        }
    }

    /// Advance by `cycles` PPU cycles.
    pub fn tick_impl(&mut self, cycles: usize)
        requires
            old(self).can_advance(cycles as int),
        ensures
            *final(self) == old(self).advanced(cycles as int),
    {
        self.cycles += cycles;
        if self.cycles >= CYCLES_PER_SCANLINE {
            if self.is_sprite_zero_hit(self.cycles) {
                self.status.set_sprite_zero(true);
            }
            self.cycles -= CYCLES_PER_SCANLINE;
            self.scanline += 1;
            if self.scanline == VBLANK_SCANLINE {
                self.status.set_vblank();
                if self.control.nmi_at_vblank() {
                    self.trigger_nmi = true;
                }
                self.status.set_sprite_zero(false);
            }
            if self.scanline > SCANLINES_PER_FRAME {
                // Drawn every pixel, starting over
                self.scanline = 0;
                self.trigger_nmi = false;
                self.status.reset_vblank();
                self.status.set_sprite_zero(false);
            }
        }
    }

    /// Advance by `cycles` CPU cycles, three PPU cycles each.
    pub fn tick(&mut self, cycles: usize)
        requires
            old(self).can_advance(cycles * PPU_CYCLES_PER_CPU_CYCLE),
        ensures
            *final(self) == old(self).advanced(cycles * PPU_CYCLES_PER_CPU_CYCLE),
    {
        self.tick_impl(cycles * PPU_CYCLES_PER_CPU_CYCLE);
    }

    /// Clear the picture and the registers, keeping the cartridge.
    pub fn reset(&mut self)
        ensures
            final(self).powered_on_except_cartridge(),
            final(self).mirroring == old(self).mirroring,
            final(self).pattern_table == old(self).pattern_table,
    {
        let mirroring = self.mirroring;
        let mut fresh = Ppu::new();
        fresh.mirroring = mirroring;
        std::mem::swap(&mut fresh.pattern_table, &mut self.pattern_table);
        *self = fresh;
    }

    /// Every register and memory cleared; the cartridge may stay.
    pub open spec fn powered_on_except_cartridge(self) -> bool {
        Ppu { mirroring: None, pattern_table: None, ..self }.powered_on()
    }
}

impl Ppu {
    /// The frame can be rendered: the background needs a mirroring that folds the
    /// nametables into VRAM, a readable pattern table and a vertical scroll within the
    /// picture; the sprites need their pattern tables readable.
    pub open spec fn renderable(self, mapper: MapperInstance) -> bool {
        &&& self.renderer.wf()
        &&& bit_of(self.mask.0, 3) ==> {
            &&& folds_into_vram(self.mirroring)
            &&& bank_readable(mapper, if bit_of(self.control.0, 4) { 0x1000 } else { 0 })
            &&& self.scroll.y <= 240
        }
        &&& bit_of(self.mask.0, 4) ==> sprites_drawable(mapper, self.sprite_bank_of(), self.oam)
    }

    /// The pattern table of 8x8 sprites; none for 8x16 sprites.
    pub open spec fn sprite_bank_of(self) -> Option<usize> {
        if bit_of(self.control.0, 5) {
            None
        } else if bit_of(self.control.0, 3) {
            Some(0x1000usize)
        } else {
            Some(0usize)
        }
    }

    /// The picture after the background of this PPU is drawn over `before`, when the
    /// background is shown: the nametable that PPUCTRL selects and the other one of VRAM
    /// beside it, from the pattern table that PPUCTRL selects, scrolled.
    pub open spec fn background_picture(self, mapper: MapperInstance, before: Seq<u8>) -> Seq<u8> {
        if bit_of(self.mask.0, 3) {
            let start = 0x2000 + 0x400 * (self.control.0 & 3);
            let mirrored = NametableAddr::nth(((start - 0x2000) / 0x400) as u16).mirrored(
                self.mirroring.unwrap(),
            );
            let (first, second) = if mirrored == NametableAddr::TopLeft {
                (self.vram@.subrange(0, 0x400), self.vram@.subrange(0x400, 0x800))
            } else {
                (self.vram@.subrange(0x400, 0x800), self.vram@.subrange(0, 0x400))
            };
            background_drawn(
                before,
                mapper,
                self.renderer.palette,
                if bit_of(self.control.0, 4) { 0x1000 } else { 0 },
                first,
                second,
                self.scroll.x,
                self.scroll.y,
                240,
            )
        } else {
            before
        }
    }

    /// The picture that `render` draws over `before`: the background, then the sprites
    /// when they are shown.
    pub open spec fn rendered_picture(self, mapper: MapperInstance, before: Seq<u8>) -> Seq<u8> {
        let background = self.background_picture(mapper, before);
        if bit_of(self.mask.0, 4) {
            sprites_drawn(
                background,
                mapper,
                self.renderer.palette,
                self.sprite_bank_of(),
                self.oam,
                64,
            )
        } else {
            background
        }
    }

    /// Draw the frame: the background when it is shown, then the sprites when they are.
    pub fn render(&mut self, mapper: &mut MapperInstance)
        requires
            old(self).renderable(*old(mapper)),
        ensures
            *final(mapper) == *old(mapper),
            final(self).renderer.wf(),
            (Ppu { renderer: old(self).renderer, ..*final(self) }) == *old(self),
            final(self).renderer.palette == old(self).renderer.palette,
            final(self).renderer.pixels@ == old(self).rendered_picture(
                *old(mapper),
                old(self).renderer.pixels@,
            ),
    {
        if self.mask.show_background() {
            let mirroring = match self.mirroring {
                Some(m) => m,
                None => Mirroring::Horizontal,
            };
            let bank = self.control.background_bank();
            let start = self.control.nametable_start();
            let c = self.control.0;
            assert(c & 3u8 <= 3) by (bit_vector);
            self.renderer.draw_background(
                mapper,
                bank,
                self.scroll.x,
                self.scroll.y,
                start,
                mirroring,
                &self.vram,
            );
        }
        let ghost p = self.renderer.pixels@;
        assert(p == old(self).background_picture(*old(mapper), old(self).renderer.pixels@));
        if self.mask.show_sprites() {
            let bank = self.control.sprite_bank();
            self.renderer.draw_sprites(mapper, bank, &self.oam);
        }
    }
}

/// A high byte and a low byte make an address below `$4000`: the high byte loses its top
/// two bits.
proof fn lemma_address_value(high: u8, w: int)
    requires
        0 <= w < 256,
    ensures
        (high as int * 256 + w) % 0x4000 == (high as int % 64) * 256 + w,
        ((high as int % 64) * 256 + w) / 256 == high as int % 64,
{
    let h = high as int;
    vstd::arithmetic::div_mod::lemma_fundamental_div_mod(h, 64);
    assert(h * 256 + w == 0x4000 * (h / 64) + ((h % 64) * 256 + w));
    vstd::arithmetic::div_mod::lemma_mod_multiples_vanish(h / 64, (h % 64) * 256 + w, 0x4000);
    vstd::arithmetic::div_mod::lemma_small_mod(((h % 64) * 256 + w) as nat, 0x4000);
    vstd::arithmetic::div_mod::lemma_div_multiples_vanish_fancy(h % 64, w, 256);
    assert(256 * (h % 64) + w == (h % 64) * 256 + w);
}

/// Two writes of PPUADDR, high byte first, set the whole VRAM address (below `$4000`)
/// and leave the latch ready for the next high byte.
pub proof fn lemma_address_two_writes(p: Ppu, high: u8, low: u8)
    requires
        p.address.latch_high,
    ensures
        p.register_written(Register::Address, high).register_written(Register::Address, low).address
            == (Address { value: ((high as int * 256 + low as int) % 0x4000) as u16, latch_high: true }),
{
    let q = p.register_written(Register::Address, high);
    lemma_address_value(high, p.address.value as int % 256);
    lemma_address_value(high, low as int);
    assert(q.address.value / 256 == high as int % 64);
}

/// A palette write is read back: after writing `data` through PPUDATA at a palette
/// address, reading PPUDATA at that address again gives `data` (palette reads are not
/// buffered).
pub proof fn lemma_palette_write_read(p: Ppu, data: u8)
    requires
        in_palette_ram(p.address.value),
    ensures
        p.data_writable(),
        (Ppu { address: p.address, ..p.data_written(data) }).data_readable(),
        (Ppu { address: p.address, ..p.data_written(data) }).data_read().1 == data,
{
    assert(0 <= palette_slot(p.address.value) < 32);
}

/// A nametable write is read back through the read buffer: after writing `data` at a
/// nametable address, the first read there returns the previous buffer and the second
/// read returns `data`.
pub proof fn lemma_nametable_write_read(p: Ppu, data: u8)
    requires
        in_nametables(p.address.value),
        folds_into_vram(p.mirroring),
    ensures
        p.data_writable(),
        (Ppu { address: p.address, ..p.data_written(data) }).data_readable(),
        ({
            let first = (Ppu { address: p.address, ..p.data_written(data) }).data_read().0;
            first.data_buffer == data
        }),
{
    let i = nametable_index(p.mirroring.unwrap(), p.address.value);
    let a = p.address.value;
    assert(0x2000 <= a <= 0x3EFF ==> 0x2000 <= a & 0b10111111111111u16 <= 0x2FFF) by (bit_vector);
    assert(0 <= i < VIDEO_RAM_SIZE);
}

/// Sprite memory gives back what was written: after setting OAMADDR to `address` and
/// writing `data` through OAMDATA, OAMADDR has moved on by one; setting it back to
/// `address` and reading OAMDATA gives `data`.
pub proof fn lemma_oam_write_read(p: Ppu, address: u8, data: u8)
    ensures
        ({
            let written = p.register_written(Register::ObjectAttributeAddress, address).register_written(
                Register::ObjectAttributeData,
                data,
            );
            let back = written.register_written(Register::ObjectAttributeAddress, address);
            &&& written.oam.address == address.wrapping_add(1)
            &&& back.register_readable(Register::ObjectAttributeData)
            &&& back.register_read(Register::ObjectAttributeData).1 == data
        }),
{
}

/// With horizontal mirroring the two nametables of a row are the same memory; with
/// vertical mirroring the two of a column are.
pub proof fn lemma_nametable_mirroring(offset: u16)
    requires
        offset < 0x400,
    ensures
        nametable_index(Mirroring::Horizontal, (0x2000 + offset) as u16) == nametable_index(
            Mirroring::Horizontal,
            (0x2400 + offset) as u16,
        ),
        nametable_index(Mirroring::Horizontal, (0x2800 + offset) as u16) == nametable_index(
            Mirroring::Horizontal,
            (0x2C00 + offset) as u16,
        ),
        nametable_index(Mirroring::Vertical, (0x2000 + offset) as u16) == nametable_index(
            Mirroring::Vertical,
            (0x2800 + offset) as u16,
        ),
        nametable_index(Mirroring::Vertical, (0x2400 + offset) as u16) == nametable_index(
            Mirroring::Vertical,
            (0x2C00 + offset) as u16,
        ),
{
    let a0 = (0x2000 + offset) as u16;
    let a1 = (0x2400 + offset) as u16;
    let a2 = (0x2800 + offset) as u16;
    let a3 = (0x2C00 + offset) as u16;
    assert(offset < 0x400 ==> a0 & 0b10111111111111u16 == a0 && a1 & 0b10111111111111u16 == a1
        && a2 & 0b10111111111111u16 == a2 && a3 & 0b10111111111111u16 == a3) by (bit_vector)
        requires
            a0 == 0x2000 + offset,
            a1 == 0x2400 + offset,
            a2 == 0x2800 + offset,
            a3 == 0x2C00 + offset,
    ;
}

/// Each access of PPUDATA, a write or a read, moves the VRAM address on by 32 (one row
/// of tiles) when bit 2 of PPUCTRL is set and by 1 when it is clear, wrapping within
/// `$0000-$3FFF`.
pub proof fn lemma_data_access_moves_address(p: Ppu, data: u8)
    ensures
        ({
            let step: int = if p.control.0 & 0x04 != 0 {
                32
            } else {
                1
            };
            let moved = (p.address.value + step) % 0x4000;
            &&& p.register_written(Register::Data, data).address.value == moved
            &&& p.data_written(data).address.value == moved
            &&& p.register_read(Register::Data).0.address.value == moved
        }),
{
    crate::util::lemma_bit_masks(p.control.0);
}

/// A read of PPUSTATUS returns the status as it was, then clears the vertical blank
/// flag (bit 7) and keeps the other bits; it resets the latches of PPUADDR and PPUSCROLL,
/// so the next writes there are a high byte and a horizontal scroll.
pub proof fn lemma_status_read(p: Ppu)
    ensures
        ({
            let (q, value) = p.register_read(Register::Status);
            &&& value == p.status.0
            &&& q.status.0 & 0x80 == 0
            &&& forall|k: u8| k < 7 ==> bit_of(#[trigger] q.status.0, k) == bit_of(p.status.0, k)
            &&& q.address.latch_high
            &&& q.address.value == p.address.value
            &&& q.scroll.horizontal_latch
            &&& q.scroll.x == p.scroll.x
            &&& q.scroll.y == p.scroll.y
            &&& q.control == p.control
        }),
{
    let s = with_bit(p.status.0, 7, false);
    crate::util::lemma_with_bit(p.status.0, 7, false, 7);
    crate::util::lemma_bit_masks(s);
    assert forall|k: u8| k < 7 implies bit_of(s, k) == bit_of(p.status.0, k) by {
        crate::util::lemma_with_bit(p.status.0, 7, false, k);
    }
}

/// A write of PPUCTRL stores the byte, and raises a pending NMI exactly when it turns
/// the NMI on (bit 7) while it was off and the PPU is in vertical blank (status bit 7);
/// a pending NMI stays pending.
pub proof fn lemma_control_write(p: Ppu, data: u8)
    ensures
        ({
            let q = p.register_written(Register::Control, data);
            &&& q.control.0 == data
            &&& q.trigger_nmi == (p.trigger_nmi || (p.control.0 & 0x80 == 0 && p.status.0 & 0x80
                != 0 && data & 0x80 != 0))
            &&& q.status == p.status
            &&& q.address == p.address
        }),
{
    crate::util::lemma_bit_masks(p.control.0);
    crate::util::lemma_bit_masks(p.status.0);
    crate::util::lemma_bit_masks(data);
}

/// Two writes of PPUSCROLL, from a reset latch, set the horizontal scroll and then the
/// vertical one, and leave the latch ready for the next horizontal scroll.
pub proof fn lemma_scroll_two_writes(p: Ppu, x: u8, y: u8)
    requires
        p.scroll.horizontal_latch,
    ensures
        ({
            let q = p.register_written(Register::Scroll, x).register_written(Register::Scroll, y);
            &&& q.scroll.x == x
            &&& q.scroll.y == y
            &&& q.scroll.horizontal_latch
        }),
{
}

} // verus!
