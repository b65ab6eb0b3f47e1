//! The NES CPU, a 6502 without decimal mode, wired to the bus.
//! See https://www.nesdev.org/wiki/CPU

pub mod addressing_mode;
pub mod decode;
pub mod flags;
pub mod instructions;
pub mod laws;

pub use addressing_mode::AddressingMode;
use crate::bus::{Bus, Clock, CycleCount, Device, Memory};
use crate::util::{
    bit_of, decimal_string, hex_string, high_byte, high_byte_of, low_byte, low_byte_of, push_decimal,
    push_hex, push_str, string_of_chars, with_bit, word,
};
use flags::CpuFlags;
use instructions::{decode_spec, format_result, operation_result, Instruction};
use vstd::prelude::*;

verus! {

/// Size of the CPU's internal RAM.
pub const CPU_RAM_SIZE: usize = 0x800;

/// The 2 KiB of RAM of the CPU, seen at `$0000-$1FFF`: the 11 low bits of an address
/// select the byte, so the RAM repeats four times.
pub struct CpuRam {
    pub data: [u8; CPU_RAM_SIZE],
}

/// The RAM index that an address selects.
pub open spec fn ram_index(address: u16) -> int {
    (address & 0b0000_0111_1111_1111u16) as int
}

impl CpuRam {
    /// The byte that `address` selects.
    pub open spec fn byte(self, address: u16) -> u8 {
        self.data@[ram_index(address)]
    }

    /// The RAM after `data` is stored where `address` selects.
    pub open spec fn stored(self, address: u16, data: u8) -> CpuRam {
        CpuRam { data: vstd::array::spec_array_update(self.data, ram_index(address), data) }
    }

    /// The RAM index that an address selects.
    fn mirror(address: u16) -> (r: usize)
        ensures
            r == ram_index(address),
            r < CPU_RAM_SIZE,
    {
        // Addressing is 11 bits, so we need to mask the top 5 off
        assert(address & 0b0000_0111_1111_1111u16 < 0x800) by (bit_vector);
        (address & 0b0000_0111_1111_1111) as usize
    }

    /// The size of the RAM.
    pub fn len(&self) -> (r: usize)
        ensures
            r == CPU_RAM_SIZE,
    {
        CPU_RAM_SIZE
    }

    /// Cleared RAM.
    pub fn default() -> (r: CpuRam)
        ensures
            forall|i: int| 0 <= i < CPU_RAM_SIZE ==> r.data@[i] == 0,
    {
        CpuRam { data: [0;CPU_RAM_SIZE] }
    }

    /// The byte that `address` selects.
    pub fn index(&self, address: u16) -> (r: u8)
        ensures
            r == self.byte(address),
    {
        self.data[Self::mirror(address)]
    }

    /// Store `data` where `address` selects.
    pub fn set(&mut self, address: u16, data: u8)
        ensures
            *final(self) == old(self).stored(address, data),
    {
        let i = Self::mirror(address);
        self.data[i] = data;
        assert(self.data =~= vstd::array::spec_array_update(old(self).data, ram_index(address), data));
    }

    /// A copy of the RAM.
    pub fn copy(&self) -> (r: CpuRam)
        ensures
            r == *self,
    {
        CpuRam { data: self.data }
    }
}

impl Device for CpuRam {
    open spec fn maps(&self, address: u16) -> bool {
        address <= 0x1FFF
    }

    fn contains(&self, address: u16) -> (r: bool) {
        let r = address <= 0x1FFF;
        assert(r == self.maps(address));
        r
    }
}


/// Where the stack page starts.
pub const STACK_OFFSET: u16 = 0x0100;

/// The stack pointer after a reset.
pub const STACK_RESET: u8 = 0xFD;

/// Where the address of the NMI handler is stored.
pub const NMI_VECTOR: u16 = 0xFFFA;

/// Where the address of the reset handler is stored.
pub const RESET_VECTOR: u16 = 0xFFFC;

/// Where the address of the BRK handler is stored.
pub const BREAK_VECTOR: u16 = 0xFFFE;

/// See https://www.nesdev.org/wiki/CPU
pub struct Cpu {
    pub accumulator: u8,
    pub register_x: u8,
    pub register_y: u8,
    pub program_counter: u16,
    pub stack_pointer: u8,
    pub flags: CpuFlags,
    pub bus: Bus,
}

/// The flags after a result: negative copies bit 7, zero tells whether it is zero.
pub open spec fn zero_negative(flags: CpuFlags, value: u8) -> CpuFlags {
    CpuFlags(with_bit(with_bit(flags.0, 7, bit_of(value, 7)), 1, value == 0))
}

/// Two addresses lie on different pages.
pub open spec fn different_pages(a: u16, b: u16) -> bool {
    a / 256 != b / 256
}

impl Cpu {
    /// The CPU with another bus state.
    pub open spec fn with_bus(self, bus: Bus) -> Cpu {
        Cpu { bus, ..self }
    }

    /// A read of `address` through the bus, where it is defined.
    pub open spec fn read_at(self, address: u16) -> Option<(Cpu, u8)> {
        if self.bus.readable_at(address) {
            let (b, v) = self.bus.read_result(address);
            Some((self.with_bus(b), v))
        } else {
            None
        }
    }

    /// A write of `data` at `address` through the bus, where it is defined.
    pub open spec fn write_at(self, address: u16, data: u8) -> Option<Cpu> {
        if self.bus.writable_at(address, data) {
            Some(self.with_bus(self.bus.write_result(address, data)))
        } else {
            None
        }
    }

    /// A read of the little-endian word at `address` and `address + 1`.
    pub open spec fn word_at(self, address: u16) -> Option<(Cpu, u16)> {
        if address < u16::MAX {
            match self.read_at(address) {
                Some((c1, lo)) => match c1.read_at((address + 1) as u16) {
                    Some((c2, hi)) => Some((c2, word(lo, hi))),
                    None => None,
                },
                None => None,
            }
        } else {
            None
        }
    }

    /// The CPU after `cycles` cycles, where the counters allow it.
    pub open spec fn ticked(self, cycles: int) -> Option<Cpu> {
        if self.bus.can_run(cycles) {
            Some(self.with_bus(self.bus.ran(cycles)))
        } else {
            None
        }
    }

    /// The CPU after `cycles` cycles if `condition` holds.
    pub open spec fn ticked_if(self, condition: bool) -> Option<Cpu> {
        if condition {
            self.ticked(1)
        } else {
            Some(self)
        }
    }

    /// The CPU after pushing a byte: stored at the stack pointer, which then moves down.
    pub open spec fn pushed(self, data: u8) -> Option<Cpu> {
        match self.write_at((STACK_OFFSET + self.stack_pointer) as u16, data) {
            Some(c) => Some(Cpu { stack_pointer: self.stack_pointer.wrapping_sub(1), ..c }),
            None => None,
        }
    }

    /// The CPU after popping a byte, and the byte: the stack pointer moves up, then the
    /// byte there is read.
    pub open spec fn popped(self) -> Option<(Cpu, u8)> {
        let c = Cpu { stack_pointer: self.stack_pointer.wrapping_add(1), ..self };
        c.read_at((STACK_OFFSET + c.stack_pointer) as u16)
    }

    /// The CPU after pushing a word: high byte first.
    pub open spec fn pushed_word(self, data: u16) -> Option<Cpu> {
        match self.pushed(high_byte(data)) {
            Some(c) => c.pushed(low_byte(data)),
            None => None,
        }
    }

    /// The CPU after popping a word, and the word: low byte first.
    pub open spec fn popped_word(self) -> Option<(Cpu, u16)> {
        match self.popped() {
            Some((c1, lo)) => match c1.popped() {
                Some((c2, hi)) => Some((c2, word(lo, hi))),
                None => None,
            },
            None => None,
        }
    }

    /// The CPU with the zero and negative flags following `value`.
    pub open spec fn flagged(self, value: u8) -> Cpu {
        Cpu { flags: zero_negative(self.flags, value), ..self }
    }

    /// A CPU on `bus`, registers cleared, flags clear, stack pointer at its reset value.
    pub fn new(bus: Bus) -> (r: Cpu)
        ensures
            r == (Cpu {
                accumulator: 0,
                register_x: 0,
                register_y: 0,
                program_counter: 0,
                stack_pointer: STACK_RESET,
                flags: CpuFlags(0),
                bus,
            }),
    {
        Cpu {
            stack_pointer: STACK_RESET,
            flags: CpuFlags::default(),
            program_counter: 0,
            accumulator: 0,
            register_x: 0,
            register_y: 0,
            bus,
        }
    }

    /// The registers as one line of text: the program counter, `A`, `X`, `Y`, the
    /// flags byte `P` and `SP` in hexadecimal, the bus cycle count `C` in decimal, then
    /// the flags as letters.
    pub open spec fn state_text(self) -> Seq<char> {
        hex_string(self.program_counter as nat, 4) + "  A:"@ + hex_string(self.accumulator as nat, 2)
            + " X:"@ + hex_string(self.register_x as nat, 2) + " Y:"@ + hex_string(
            self.register_y as nat,
            2,
        ) + " P:"@ + hex_string(self.flags.0 as nat, 2) + " SP:"@ + hex_string(
            self.stack_pointer as nat,
            2,
        ) + " C:"@ + decimal_string(self.bus.cycles as nat) + " "@ + self.flags.text()
    }

    /// The registers as text (see `state_text`).
    pub fn to_string(&self) -> (r: String)
        ensures
            r@ == self.state_text(),
    {
        let mut out: Vec<char> = Vec::new();
        push_hex(&mut out, self.program_counter, 4);
        push_str(&mut out, "  A:");
        push_hex(&mut out, self.accumulator as u16, 2);
        push_str(&mut out, " X:");
        push_hex(&mut out, self.register_x as u16, 2);
        push_str(&mut out, " Y:");
        push_hex(&mut out, self.register_y as u16, 2);
        push_str(&mut out, " P:");
        push_hex(&mut out, self.flags.bits() as u16, 2);
        push_str(&mut out, " SP:");
        push_hex(&mut out, self.stack_pointer as u16, 2);
        push_str(&mut out, " C:");
        push_decimal(&mut out, self.bus.cycles);
        push_str(&mut out, " ");
        let flags = self.flags.to_string();
        push_str(&mut out, flags.as_str());
        string_of_chars(&out)
    }

    /// Check if two values are contained on a different page in memory.
    pub fn is_on_different_page(a: u16, b: u16) -> (r: bool)
        ensures
            r == different_pages(a, b),
    {
        assert((a & 0xFF00) != (b & 0xFF00) <==> a / 256 != b / 256) by (bit_vector);
        (a & 0xFF00) != (b & 0xFF00)
    }

    /// Push a byte onto the stack.
    pub fn push_byte(&mut self, data: u8)
        requires
            old(self).pushed(data) is Some,
        ensures
            Some(*final(self)) == old(self).pushed(data),
    {
        self.write_byte(STACK_OFFSET + self.stack_pointer as u16, data);
        self.stack_pointer = self.stack_pointer.wrapping_sub(1);
    }

    /// Pop a byte off the stack.
    pub fn pop_byte(&mut self) -> (r: u8)
        requires
            old(self).popped() is Some,
        ensures
            Some((*final(self), r)) == old(self).popped(),
    {
        self.stack_pointer = self.stack_pointer.wrapping_add(1);
        self.read_byte(STACK_OFFSET + self.stack_pointer as u16)
    }

    /// Push a word, high byte first.
    pub fn push_word(&mut self, data: u16)
        requires
            old(self).pushed_word(data) is Some,
        ensures
            Some(*final(self)) == old(self).pushed_word(data),
    {
        self.push_byte(high_byte_of(data));
        self.push_byte(low_byte_of(data));
    }

    /// Pop a word, low byte first.
    pub fn pop_word(&mut self) -> (r: u16)
        requires
            old(self).popped_word() is Some,
        ensures
            Some((*final(self), r)) == old(self).popped_word(),
    {
        let lo = self.pop_byte();
        let hi = self.pop_byte();
        crate::util::word_from_bytes(lo, hi)
    }

    /// Set the negative and zero flags from `value`.
    pub fn update_zero_and_negative_flags(&mut self, value: u8)
        ensures
            *final(self) == old(self).flagged(value),
    {
        self.flags.set_negative(crate::util::nth_bit(value, 7));
        self.flags.set_zero(value == 0);
    }
}

/// What the CPU was about to execute, for the debugger: the instruction text, the
/// registers, and the RAM.
pub struct CpuState {
    pub instruction: String,
    pub accumulator: u8,
    pub register_x: u8,
    pub register_y: u8,
    pub program_counter: u16,
    pub stack_pointer: u8,
    pub status: CpuFlags,
    pub memory: CpuRam,
}

/// A debugger snapshot as plain values.
pub struct CpuStateView {
    pub instruction: Seq<char>,
    pub accumulator: u8,
    pub register_x: u8,
    pub register_y: u8,
    pub program_counter: u16,
    pub stack_pointer: u8,
    pub status: CpuFlags,
    pub memory: CpuRam,
}

impl View for CpuState {
    type V = CpuStateView;

    open spec fn view(&self) -> CpuStateView {
        CpuStateView {
            instruction: self.instruction@,
            accumulator: self.accumulator,
            register_x: self.register_x,
            register_y: self.register_y,
            program_counter: self.program_counter,
            stack_pointer: self.stack_pointer,
            status: self.status,
            memory: self.memory,
        }
    }
}

/// The snapshot of `cpu` with the instruction text `text`.
pub open spec fn snapshot(cpu: Cpu, text: Seq<char>) -> CpuStateView {
    CpuStateView {
        instruction: text,
        accumulator: cpu.accumulator,
        register_x: cpu.register_x,
        register_y: cpu.register_y,
        program_counter: cpu.program_counter,
        stack_pointer: cpu.stack_pointer,
        status: cpu.flags,
        memory: cpu.bus.cpu_ram,
    }
}

impl Cpu {
    /// A non-maskable interrupt: push the program counter and the flags (break flag
    /// clear, bit 5 set), disable interrupts, jump through the NMI vector; two cycles.
    pub open spec fn nmi_result(self) -> Option<Cpu> {
        let pushed_flags = with_bit(with_bit(self.flags.0, 4, false), 5, true);
        match self.pushed_word(self.program_counter) {
            Some(c1) => match c1.pushed(pushed_flags) {
                Some(c2) => {
                    let c3 = Cpu { flags: CpuFlags(with_bit(c2.flags.0, 2, true)), ..c2 };
                    match c3.word_at(NMI_VECTOR) {
                        Some((c4, target)) => Cpu { program_counter: target, ..c4 }.ticked(2),
                        None => None,
                    }
                },
                None => None,
            },
            None => None,
        }
    }

    /// Take a non-maskable interrupt.
    pub fn non_maskable_interrupt(&mut self)
        requires
            old(self).nmi_result() is Some,
        ensures
            Some(*final(self)) == old(self).nmi_result(),
    {
        let mut flags = self.flags;
        flags.set_break_1(false);
        flags.set_break_2(true);
        self.push_word(self.program_counter);
        self.push_byte(flags.bits());
        self.flags.set_interrupts_disabled(true);
        self.program_counter = self.read_word(NMI_VECTOR);
        self.tick(2);
    }

    /// One step: a pending NMI is taken first; then the opcode at the program counter is
    /// decoded, its text formatted (with the reads that takes), a snapshot taken, the
    /// instruction executed, the program counter moved past it unless the instruction
    /// set it, and its cycles counted. None where the opcode is unknown or a step of this
    /// is not defined.
    pub open spec fn step_result(self) -> Option<(Cpu, CpuStateView)> {
        let c0 = self.with_bus(
            Bus { ppu: crate::ppu::Ppu { trigger_nmi: false, ..self.bus.ppu }, ..self.bus },
        );
        let c1 = if self.bus.ppu.trigger_nmi {
            c0.nmi_result()
        } else {
            Some(c0)
        };
        match c1 {
            Some(c1) => match c1.read_at(c1.program_counter) {
                Some((c2, opcode)) => match decode_spec(opcode) {
                    Some(d) => match format_result(d.name, c2, d.mode) {
                        Some((c3, text)) => match operation_result(d.operation, c3, d.mode) {
                            Some(c4) => {
                                let c5 = if d.operation.sets_program_counter() {
                                    c4
                                } else {
                                    Cpu {
                                        program_counter: c4.program_counter.wrapping_add(
                                            d.mode.length(),
                                        ),
                                        ..c4
                                    }
                                };
                                match c5.ticked(d.cycles as int) {
                                    Some(c6) => Some((c6, snapshot(c3, text))),
                                    None => None,
                                }
                            },
                            None => None,
                        },
                        None => None,
                    },
                    None => None,
                },
                None => None,
            },
            None => None,
        }
    }

    /// Execute one instruction, returning what the CPU was about to execute.
    pub fn step(&mut self) -> (r: Option<CpuState>)
        requires
            old(self).step_result() is Some,
        ensures
            r matches Some(s) && Some((*final(self), s@)) == old(self).step_result(),
    {
        if self.bus.ppu.poll_nmi() {
            self.non_maskable_interrupt();
        }
        let opcode = self.read_byte(self.program_counter);
        let (instr, mode, cycles) = match Instruction::decode(opcode) {
            Some(d) => d,
            None => {
                return None;
            },
        };
        let instruction = instr.format(self, &mode);
        let state = CpuState {
            instruction,
            accumulator: self.accumulator,
            register_x: self.register_x,
            register_y: self.register_y,
            program_counter: self.program_counter,
            stack_pointer: self.stack_pointer,
            status: self.flags,
            memory: self.bus.cpu_ram.copy(),
        };
        instr.operation.run(self, &mode);
        if !instr.operation.changes_program_counter() {
            // Some instructions (e.g. JMP) set the program counter themselves
            self.program_counter = self.program_counter.wrapping_add(mode.len());
        }
        self.tick(cycles);
        Some(state)
    }

    /// Reset: the bus resets, the flags take their power-on value, the registers clear,
    /// and execution starts at the address in the reset vector.
    pub fn reset(&mut self)
        requires
            old(self).bus.readable_at(RESET_VECTOR),
            old(self).bus.readable_at((RESET_VECTOR + 1) as u16),
        ensures
            final(self).program_counter == word(
                old(self).bus.read_result(RESET_VECTOR).1,
                old(self).bus.read_result((RESET_VECTOR + 1) as u16).1,
            ),
            final(self).flags.0 == 0b0011_0100,
            final(self).stack_pointer == STACK_RESET,
            final(self).accumulator == 0,
            final(self).register_x == 0,
            final(self).register_y == 0,
            final(self).bus.ppu.powered_on_except_cartridge(),
            final(self).bus.ppu.mirroring == old(self).bus.ppu.mirroring,
            final(self).bus.ppu.pattern_table == old(self).bus.ppu.pattern_table,
            forall|i: int| 0 <= i < CPU_RAM_SIZE ==> final(self).bus.cpu_ram.data@[i] == 0,
            final(self).bus.cycles == crate::bus::RESET_CYCLES,
            final(self).bus.mapper == old(self).bus.mapper,
            final(self).bus.controller == old(self).bus.controller,
            final(self).bus.cheats == old(self).bus.cheats,
            final(self).bus.frame_ready == old(self).bus.frame_ready,
    {
        self.bus.reset();
        self.flags = CpuFlags::new();
        self.stack_pointer = STACK_RESET;
        self.accumulator = 0;
        self.register_x = 0;
        self.register_y = 0;
        let ghost before = self.bus;
        proof {
            crate::bus::lemma_cartridge_space_read(old(self).bus, before, RESET_VECTOR);
            crate::bus::lemma_cartridge_space_read(old(self).bus, before, (RESET_VECTOR + 1) as u16);
            crate::bus::lemma_cartridge_space_read(before, old(self).bus, RESET_VECTOR);
            crate::bus::lemma_cartridge_space_read(before, old(self).bus, (RESET_VECTOR + 1) as u16);
        }
        self.program_counter = self.read_word(RESET_VECTOR);
    }
}

/// What is pushed is popped back: pushing a byte, then popping, gives the byte and the
/// same stack pointer, unless a cheat substitutes reads of the stack slot.
pub proof fn lemma_push_pop_byte(cpu: Cpu, data: u8)
    requires
        cpu.bus.active_cheat((STACK_OFFSET + cpu.stack_pointer) as u16) is None,
    ensures
        cpu.pushed(data) is Some,
        cpu.pushed(data).unwrap().popped() matches Some((c, v)) && v == data
            && c.stack_pointer == cpu.stack_pointer,
{
    let a = (STACK_OFFSET + cpu.stack_pointer) as u16;
    crate::bus::lemma_ram_write_read(cpu.bus, a, a, data);
    let c1 = cpu.pushed(data).unwrap();
    assert(c1.stack_pointer.wrapping_add(1) == cpu.stack_pointer);
}

/// What is pushed is popped back: pushing a word (high byte first), then popping one (low
/// byte first), gives the word and the same stack pointer, unless a cheat substitutes
/// reads of the two stack slots.
pub proof fn lemma_push_pop_word(cpu: Cpu, data: u16)
    requires
        cpu.bus.active_cheat((STACK_OFFSET + cpu.stack_pointer) as u16) is None,
        cpu.bus.active_cheat((STACK_OFFSET + cpu.stack_pointer.wrapping_sub(1)) as u16) is None,
    ensures
        cpu.pushed_word(data) is Some,
        cpu.pushed_word(data).unwrap().popped_word() matches Some((c, w)) && w == data
            && c.stack_pointer == cpu.stack_pointer,
{
    let hi_slot = (STACK_OFFSET + cpu.stack_pointer) as u16;
    let lo_slot = (STACK_OFFSET + cpu.stack_pointer.wrapping_sub(1)) as u16;
    crate::bus::lemma_ram_write_read(cpu.bus, hi_slot, hi_slot, crate::util::high_byte(data));
    let c1 = cpu.pushed(crate::util::high_byte(data)).unwrap();
    assert(c1.bus.cheats == cpu.bus.cheats) by {
        reveal(Bus::write_result);
    }
    assert(c1.bus.active_cheat(lo_slot) is None);
    crate::bus::lemma_ram_write_read(c1.bus, lo_slot, lo_slot, crate::util::low_byte(data));
    let c2 = c1.pushed(crate::util::low_byte(data)).unwrap();
    assert(c2.bus.cheats == cpu.bus.cheats) by {
        reveal(Bus::write_result);
    }
    // The low byte comes back first, from the slot it was stored in.
    let (c3, lo) = c2.popped().unwrap();
    assert(lo == crate::util::low_byte(data));
    assert(c3.bus == c2.bus) by {
        crate::bus::lemma_ram_write_read(c1.bus, lo_slot, lo_slot, crate::util::low_byte(data));
    }
    assert(c3.stack_pointer == c1.stack_pointer);
    // The high byte is still in its slot: the low byte went to the slot below.
    assert(lo_slot != hi_slot);
    assert(ram_index(lo_slot) != ram_index(hi_slot)) by (bit_vector)
        requires
            lo_slot != hi_slot,
            0x100 <= lo_slot <= 0x1FF,
            0x100 <= hi_slot <= 0x1FF,
            ram_index(lo_slot) == (lo_slot & 0x7FFu16) as int,
            ram_index(hi_slot) == (hi_slot & 0x7FFu16) as int,
    ;
    assert(c3.bus.readable_at(hi_slot) && c3.bus.read_result(hi_slot).1 == crate::util::high_byte(
        data,
    )) by {
        reveal(Bus::readable_at);
        reveal(Bus::read_result);
        reveal(Bus::write_result);
        assert(c1.bus.cpu_ram.byte(hi_slot) == crate::util::high_byte(data));
        assert(c2.bus.cpu_ram == c1.bus.cpu_ram.stored(lo_slot, crate::util::low_byte(data)));
        assert(lo_slot & 0x7FFu16 < 0x800) by (bit_vector);
        assert(hi_slot & 0x7FFu16 < 0x800) by (bit_vector);
        assert(c2.bus.cpu_ram.data@ == c1.bus.cpu_ram.data@.update(
            ram_index(lo_slot),
            crate::util::low_byte(data),
        ));
        assert(c2.bus.cpu_ram.byte(hi_slot) == c1.bus.cpu_ram.byte(hi_slot));
        assert(c3.bus.active_cheat(hi_slot) is None);
    }
    crate::util::lemma_word_bytes(data);
}

impl Memory for Cpu {
    open spec fn readable(&self, address: u16) -> bool {
        self.bus.readable_at(address)
    }

    open spec fn read_effect(&self, address: u16) -> (Cpu, u8) {
        let (b, v) = self.bus.read_result(address);
        (self.with_bus(b), v)
    }

    open spec fn writable(&self, address: u16, data: u8) -> bool {
        self.bus.writable_at(address, data)
    }

    open spec fn write_effect(&self, address: u16, data: u8) -> Cpu {
        self.with_bus(self.bus.write_result(address, data))
    }

    fn read_byte(&mut self, address: u16) -> (r: u8) {
        self.bus.read_byte(address)
    }

    fn write_byte(&mut self, address: u16, data: u8) {
        self.bus.write_byte(address, data)
    }
}

impl Clock for Cpu {
    open spec fn can_advance_by(&self, cycles: int) -> bool {
        self.bus.can_run(cycles)
    }

    open spec fn advanced_by(&self, cycles: int) -> Cpu {
        self.with_bus(self.bus.ran(cycles))
    }

    open spec fn multiplier() -> int {
        1
    }

    fn tick_impl(&mut self, cycles: CycleCount) {
        self.bus.tick(cycles);
    }

    fn tick(&mut self, cycles: CycleCount) {
        self.tick_impl(cycles);
    }

    fn tick_once_if(&mut self, condition: bool) {
        if condition {
            self.tick(1);
        }
    }
}

} // verus!
