//! A self-contained 6502 interpreter over a flat 64 KiB memory, without a bus.
//!
//! Programs are loaded at `$8000` and run until they execute `BRK`.

use crate::util::{
    bit_of, high_byte, high_byte_of, low_byte, low_byte_of, word, word_from_bytes, FormatBitFlags,
};
use vstd::prelude::*;

verus! {

/// Size of the flat memory.
pub const RAM_SIZE: usize = 0xFFFF;

/// Where programs are loaded, and where execution starts after a reset.
pub const PROGRAM_ROM_START: u16 = 0x8000;

/// The page holding the stack.
pub const STACK_OFFSET: u16 = 0x0100;

/// The stack pointer after a power-on.
pub const STACK_RESET: u8 = 0xFD;

/// The processor status register:
///
/// ```text
/// 7  bit  0
/// NVss DIZC
/// ```
/// carry, zero, interrupt disable, decimal, two break bits, overflow and negative.
#[derive(Clone, Copy, Debug, PartialEq, Eq, Structural)]
pub struct CpuFlags {
    pub bits: u8,
}

impl CpuFlags {
    pub const CARRY: u8 = 0b0000_0001;
    pub const ZERO: u8 = 0b0000_0010;
    pub const IRQ: u8 = 0b0000_0100;
    pub const DECIMAL: u8 = 0b0000_1000;
    pub const BREAK: u8 = 0b0001_0000;
    pub const BREAK2: u8 = 0b0010_0000;
    pub const OVERFLOW: u8 = 0b0100_0000;
    pub const NEGATIVE: u8 = 0b1000_0000;

    /// Every bit of `flag` is set in `self`.
    pub open spec fn has(self, flag: u8) -> bool {
        self.bits & flag == flag
    }

    /// `self` with the bits of `flag` set (`value`) or cleared (`!value`).
    pub open spec fn with(self, flag: u8, value: bool) -> CpuFlags {
        if value {
            CpuFlags { bits: self.bits | flag }
        } else {
            CpuFlags { bits: self.bits & !flag }
        }
    }

    /// No flag set.
    pub fn empty() -> (r: CpuFlags)
        ensures
            r.bits == 0,
    {
        CpuFlags { bits: 0 }
    }

    /// The flags held by `bits`; every bit is a flag, so nothing is dropped.
    pub fn from_bits_truncate(bits: u8) -> (r: CpuFlags)
        ensures
            r.bits == bits,
    {
        CpuFlags { bits }
    }

    /// The raw bits.
    pub fn bits(&self) -> (r: u8)
        ensures
            r == self.bits,
    {
        self.bits
    }

    /// Every bit of `flag` is set.
    pub fn contains(&self, flag: u8) -> (r: bool)
        ensures
            r == self.has(flag),
    {
        self.bits & flag == flag
    }

    /// Set the bits of `flag`.
    pub fn insert(&mut self, flag: u8)
        ensures
            *final(self) == old(self).with(flag, true),
    {
        self.bits = self.bits | flag;
    }

    /// Clear the bits of `flag`.
    pub fn remove(&mut self, flag: u8)
        ensures
            *final(self) == old(self).with(flag, false),
    {
        self.bits = self.bits & !flag;
    }

    /// Set or clear the bits of `flag`.
    pub fn set(&mut self, flag: u8, value: bool)
        ensures
            *final(self) == old(self).with(flag, value),
    {
        if value {
            self.insert(flag);
        } else {
            self.remove(flag);
        }
    }
}

impl FormatBitFlags for CpuFlags {
    open spec fn flag_bits(&self) -> u8 {
        self.bits
    }

    fn format(&self, flag: Self, display: char) -> (r: char) {
        if self.contains(flag.bits) {
            display
        } else {
            '-'
        }
    }
}

/// After a flag is set or cleared, asking for it gives back what was written.
pub proof fn lemma_flag_roundtrip(flags: CpuFlags, flag: u8, value: bool)
    ensures
        flags.with(flag, value).has(flag) == (value || flag == 0),
{
    let b = flags.bits;
    let f = flag;
    assert((b | f) & f == f) by (bit_vector);
    assert(((b & !f) & f == f) == (f == 0)) by (bit_vector);
}

/// The flags after an instruction produced `value`: negative copies bit 7, zero tells
/// whether the value is zero.
pub open spec fn zero_negative(status: CpuFlags, value: u8) -> CpuFlags {
    status.with(CpuFlags::NEGATIVE, bit_of(value, 7)).with(CpuFlags::ZERO, value == 0)
}

/// Addressing modes of the instructions this interpreter knows.
/// See https://www.nesdev.org/wiki/CPU_addressing_modes
#[derive(Clone, Copy, Debug, PartialEq, Eq, Structural)]
pub enum AdressingMode {
    Immediate,
    IndirectX,
    IndirectY,
    Absolute,
    AbsoluteX,
    AbsoluteY,
    ZeroPage,
    ZeroPageX,
    ZeroPageY,
}

/// A 6502 with registers, status flags and a flat memory.
/// See https://www.nesdev.org/obelisk-6502-guide/reference.html
pub struct CPU {
    pub accumulator: u8,
    pub register_x: u8,
    pub register_y: u8,
    pub program_counter: u16,
    pub stack_pointer: u8,
    pub status: CpuFlags,
    pub memory: [u8; RAM_SIZE],
}

impl CPU {
    /// The byte at `address`.
    pub open spec fn byte(self, address: int) -> u8 {
        self.memory@[address]
    }

    /// Reading `address`: defined below `RAM_SIZE`.
    pub open spec fn read(self, address: u16) -> Option<u8> {
        if (address as int) < RAM_SIZE {
            Some(self.byte(address as int))
        } else {
            None
        }
    }

    /// Reading the little-endian word at `address` and `address + 1`.
    pub open spec fn read_word_at(self, address: u16) -> Option<u16> {
        if (address as int) + 1 < RAM_SIZE {
            Some(word(self.byte(address as int), self.byte(address + 1)))
        } else {
            None
        }
    }

    /// `self` with `data` stored at `address`.
    pub open spec fn stored(self, address: u16, data: u8) -> CPU {
        CPU { memory: vstd::array::spec_array_update(self.memory, address as int, data), ..self }
    }

    /// `self` with the byte pushed onto the stack.
    pub open spec fn pushed(self, data: u8) -> CPU {
        CPU {
            stack_pointer: self.stack_pointer.wrapping_sub(1),
            ..self.stored((STACK_OFFSET + self.stack_pointer) as u16, data)
        }
    }

    /// `self` with a word pushed onto the stack, high byte first, so that the low byte
    /// is on top.
    pub open spec fn pushed_word(self, data: u16) -> CPU {
        self.pushed(high_byte(data)).pushed(low_byte(data))
    }

    /// `self` after popping a byte, and the byte.
    pub open spec fn popped(self) -> (CPU, u8) {
        let c = CPU { stack_pointer: self.stack_pointer.wrapping_add(1), ..self };
        (c, c.byte(STACK_OFFSET + c.stack_pointer))
    }

    /// A freshly powered CPU: registers and memory cleared, stack pointer at its reset value.
    pub fn new() -> (r: CPU)
        ensures
            r.program_counter == 0,
            r.stack_pointer == STACK_RESET,
            r.status.bits == 0,
            r.accumulator == 0,
            r.register_x == 0,
            r.register_y == 0,
            forall|i: int| 0 <= i < RAM_SIZE ==> r.byte(i) == 0,
    {
        CPU {
            program_counter: 0,
            stack_pointer: STACK_RESET,
            status: CpuFlags::empty(),
            memory: [0;RAM_SIZE],
            accumulator: 0,
            register_x: 0,
            register_y: 0,
        }
    }

    /// Get the status of bit N in the given value.
    pub fn nth_bit(value: u8, n: u8) -> (r: bool)
        requires
            n < 8,
        ensures
            r == bit_of(value, n),
    {
        value & (1 << n) != 0
    }

    /// The byte at `address`.
    pub fn read_byte(&self, address: u16) -> (r: u8)
        requires
            (address as int) < RAM_SIZE,
        ensures
            r == self.byte(address as int),
    {
        self.memory[address as usize]
    }

    /// Store `data` at `address`.
    pub fn write_byte(&mut self, address: u16, data: u8)
        requires
            (address as int) < RAM_SIZE,
        ensures
            *final(self) == old(self).stored(address, data),
    {
        self.memory[address as usize] = data;
    }

    /// The little-endian word at `address`.
    pub fn read_word(&self, address: u16) -> (r: u16)
        requires
            (address as int) + 1 < RAM_SIZE,
        ensures
            Some(r) == self.read_word_at(address),
    {
        word_from_bytes(self.read_byte(address), self.read_byte(address + 1))
    }

    /// Store `data` little-endian at `address` and `address + 1`.
    pub fn write_word(&mut self, address: u16, data: u16)
        requires
            (address as int) + 2 <= RAM_SIZE,
        ensures
            *final(self) == old(self).stored(address, low_byte(data)).stored(
                (address + 1) as u16,
                high_byte(data),
            ),
    {
        self.write_byte(address, low_byte_of(data));
        self.write_byte(address + 1, high_byte_of(data));
    }

    /// Push a byte onto the stack.
    pub fn stack_push_byte(&mut self, data: u8)
        ensures
            *final(self) == old(self).pushed(data),
    {
        self.write_byte(STACK_OFFSET + self.stack_pointer as u16, data);
        self.stack_pointer = self.stack_pointer.wrapping_sub(1);
    }

    /// Pop a byte off the stack.
    pub fn stack_pop_byte(&mut self) -> (r: u8)
        ensures
            (*final(self), r) == old(self).popped(),
    {
        self.stack_pointer = self.stack_pointer.wrapping_add(1);
        self.read_byte(STACK_OFFSET + self.stack_pointer as u16)
    }

    /// Push a word, high byte first, as the 6502 does.
    pub fn stack_push_word(&mut self, data: u16)
        ensures
            *final(self) == old(self).pushed_word(data),
    {
        self.stack_push_byte(high_byte_of(data));
        self.stack_push_byte(low_byte_of(data));
    }

    /// Pop a word: the first byte popped is the low byte.
    pub fn stack_pop_word(&mut self) -> (r: u16)
        ensures
            ({
                let (c1, lo) = old(self).popped();
                let (c2, hi) = c1.popped();
                *final(self) == c2 && r == word(lo, hi)
            }),
    {
        let lo = self.stack_pop_byte();
        let hi = self.stack_pop_byte();
        word_from_bytes(lo, hi)
    }

    /// Set the negative flag from bit 7 of `value`.
    pub fn update_negative_flag(&mut self, value: u8)
        ensures
            *final(self) == (CPU {
                status: old(self).status.with(CpuFlags::NEGATIVE, bit_of(value, 7)),
                ..*old(self)
            }),
    {
        self.status.set(CpuFlags::NEGATIVE, CPU::nth_bit(value, 7));
    }

    /// Set the negative and zero flags from `value`.
    pub fn update_zero_and_negative_flags(&mut self, value: u8)
        ensures
            *final(self) == (CPU { status: zero_negative(old(self).status, value), ..*old(self) }),
    {
        self.update_negative_flag(value);
        self.status.set(CpuFlags::ZERO, value == 0);
    }
}


/// The 16-bit sign extension of a relative branch offset.
pub open spec fn sign_extend(offset: u8) -> u16 {
    if offset < 128 {
        offset as u16
    } else {
        (offset as int + 0xFF00) as u16
    }
}

/// Rotating left by one bit through the carry: the carry enters at bit 0.
pub open spec fn rotl(value: u8, carry: bool) -> u8 {
    ((value << 1u8) | (if carry { 1u8 } else { 0u8 })) as u8
}

/// Rotating right by one bit through the carry: the carry enters at bit 7.
pub open spec fn rotr(value: u8, carry: bool) -> u8 {
    ((value >> 1u8) | (if carry { 0x80u8 } else { 0u8 })) as u8
}

impl CPU {
    /// The program counter after the operands of an instruction in `mode`.
    pub open spec fn next_pc(self, mode: AdressingMode) -> Option<u16> {
        let n: int = match mode {
            AdressingMode::Absolute | AdressingMode::AbsoluteX | AdressingMode::AbsoluteY => 2,
            _ => 1,
        };
        if self.program_counter as int + n <= u16::MAX {
            Some((self.program_counter as int + n) as u16)
        } else {
            None
        }
    }

    /// The effective address of the operand of an instruction in `mode`, whose operand
    /// bytes start at the program counter.
    pub open spec fn param_address(self, mode: AdressingMode) -> Option<u16> {
        let pc = self.program_counter;
        match mode {
            AdressingMode::Immediate => Some(pc),
            AdressingMode::Absolute => self.read_word_at(pc),
            AdressingMode::ZeroPage => match self.read(pc) {
                Some(b) => Some(b as u16),
                None => None,
            },
            AdressingMode::ZeroPageX => match self.read(pc) {
                Some(b) => Some(b.wrapping_add(self.register_x) as u16),
                None => None,
            },
            AdressingMode::ZeroPageY => match self.read(pc) {
                Some(b) => Some(b.wrapping_add(self.register_y) as u16),
                None => None,
            },
            AdressingMode::AbsoluteX => match self.read_word_at(pc) {
                Some(w) => Some(w.wrapping_add(self.register_x as u16)),
                None => None,
            },
            AdressingMode::AbsoluteY => match self.read_word_at(pc) {
                Some(w) => Some(w.wrapping_add(self.register_y as u16)),
                None => None,
            },
            AdressingMode::IndirectX => match self.read(pc) {
                Some(b) => {
                    let ptr = b.wrapping_add(self.register_x);
                    Some(word(self.byte(ptr as int), self.byte(ptr as int + 1)))
                },
                None => None,
            },
            AdressingMode::IndirectY => match self.read(pc) {
                Some(ptr) => Some(
                    word(self.byte(ptr as int), self.byte(ptr as int + 1)).wrapping_add(
                        self.register_y as u16,
                    ),
                ),
                None => None,
            },
        }
    }

    /// The operand address and the program counter after the operands.
    pub open spec fn param(self, mode: AdressingMode) -> Option<(u16, u16)> {
        match (self.param_address(mode), self.next_pc(mode)) {
            (Some(a), Some(n)) => Some((a, n)),
            _ => None,
        }
    }

    /// The operand address, the next program counter and the operand byte.
    pub open spec fn operand(self, mode: AdressingMode) -> Option<(u16, u16, u8)> {
        match self.param(mode) {
            Some((a, n)) => match self.read(a) {
                Some(v) => Some((a, n, v)),
                None => None,
            },
            None => None,
        }
    }

    /// A load into a register: the loaded byte goes through `set`, flags follow it.
    pub open spec fn loaded(self, mode: AdressingMode, reg: Register) -> Option<CPU> {
        match self.operand(mode) {
            Some((_a, n, v)) => Some(
                CPU { program_counter: n, status: zero_negative(self.status, v), ..self.with_register(reg, v) },
            ),
            None => None,
        }
    }

    /// `self` with `reg` holding `v`.
    pub open spec fn with_register(self, reg: Register, v: u8) -> CPU {
        match reg {
            Register::Accumulator => CPU { accumulator: v, ..self },
            Register::X => CPU { register_x: v, ..self },
            Register::Y => CPU { register_y: v, ..self },
        }
    }

    /// The value of `reg`.
    pub open spec fn register(self, reg: Register) -> u8 {
        match reg {
            Register::Accumulator => self.accumulator,
            Register::X => self.register_x,
            Register::Y => self.register_y,
        }
    }

    /// A store of `reg` at the operand address.
    pub open spec fn stored_register(self, mode: AdressingMode, reg: Register) -> Option<CPU> {
        match self.param(mode) {
            Some((a, n)) => if (a as int) < RAM_SIZE {
                Some(CPU { program_counter: n, ..self.stored(a, self.register(reg)) })
            } else {
                None
            },
            None => None,
        }
    }

    /// A logic operation with the accumulator.
    pub open spec fn logic_result(self, mode: AdressingMode, op: Logic) -> Option<CPU> {
        match self.operand(mode) {
            Some((_a, n, v)) => {
                let r = match op {
                    Logic::And => self.accumulator & v,
                    Logic::Eor => self.accumulator ^ v,
                    Logic::Ora => self.accumulator | v,
                };
                Some(CPU { accumulator: r, program_counter: n, status: zero_negative(self.status, r), ..self })
            },
            None => None,
        }
    }

    /// Add with carry: A = A + M + C. The carry is set when the sum exceeds a byte,
    /// overflow when both inputs have the same sign and the result another; zero and
    /// negative follow the result.
    pub open spec fn adc_result(self, mode: AdressingMode) -> Option<CPU> {
        match self.operand(mode) {
            Some((_a, n, value)) => {
                let carry: int = if self.status.has(CpuFlags::CARRY) { 1 } else { 0 };
                let sum = self.accumulator as int + value as int + carry;
                let result = (sum % 256) as u8;
                let overflow = bit_of(self.accumulator, 7) == bit_of(value, 7)
                    && bit_of(self.accumulator, 7) != bit_of(result, 7);
                Some(CPU {
                    accumulator: result,
                    program_counter: n,
                    status: zero_negative(
                        self.status.with(CpuFlags::CARRY, sum > 255).with(CpuFlags::OVERFLOW, overflow),
                        result,
                    ),
                    ..self
                })
            },
            None => None,
        }
    }

    /// Subtract with carry: A = A - M - (1 - C). The carry is set when no borrow was
    /// needed, overflow when the inputs have different signs and the result has the
    /// sign of the operand; zero and negative follow the result.
    pub open spec fn sdc_result(self, mode: AdressingMode) -> Option<CPU> {
        match self.operand(mode) {
            Some((_a, n, value)) => {
                let borrow: int = if self.status.has(CpuFlags::CARRY) { 0 } else { 1 };
                let difference = self.accumulator as int - value as int - borrow;
                let result = ((difference + 512) % 256) as u8;
                let overflow = bit_of(self.accumulator, 7) != bit_of(value, 7)
                    && bit_of(self.accumulator, 7) != bit_of(result, 7);
                Some(CPU {
                    accumulator: result,
                    program_counter: n,
                    status: zero_negative(
                        self.status.with(CpuFlags::CARRY, difference >= 0).with(
                            CpuFlags::OVERFLOW,
                            overflow,
                        ),
                        result,
                    ),
                    ..self
                })
            },
            None => None,
        }
    }

    /// A relative branch, taken when `condition` holds.
    pub open spec fn branch_result(self, condition: bool) -> Option<CPU> {
        let pc = self.program_counter;
        let target: Option<u16> = if condition {
            match self.read(pc) {
                Some(offset) => Some(pc.wrapping_add(sign_extend(offset))),
                None => None,
            }
        } else {
            Some(pc)
        };
        match target {
            Some(t) => if t < u16::MAX {
                Some(CPU { program_counter: (t + 1) as u16, ..self })
            } else {
                None
            },
            None => None,
        }
    }

    /// Compare a register value with the operand.
    pub open spec fn compare_result(self, mode: AdressingMode, compare_with: u8) -> Option<CPU> {
        match self.operand(mode) {
            Some((_a, n, value)) => Some(CPU {
                program_counter: n,
                status: zero_negative(
                    self.status.with(CpuFlags::CARRY, compare_with >= value),
                    compare_with.wrapping_sub(value),
                ),
                ..self
            }),
            None => None,
        }
    }

    /// Read, modify and write back the operand; the new value sets the flags.
    pub open spec fn modified(self, mode: AdressingMode, op: Shift) -> Option<CPU> {
        match self.operand(mode) {
            Some((a, n, v)) => {
                let (r, carry) = shift_result(op, v, self.status.has(CpuFlags::CARRY));
                let status = match carry {
                    Some(c) => self.status.with(CpuFlags::CARRY, c),
                    None => self.status,
                };
                Some(CPU { program_counter: n, status: zero_negative(status, r), ..self.stored(a, r) })
            },
            None => None,
        }
    }

    /// Modify the accumulator; the new value sets the flags.
    pub open spec fn modified_accumulator(self, op: Shift) -> CPU {
        let (r, carry) = shift_result(op, self.accumulator, self.status.has(CpuFlags::CARRY));
        let status = match carry {
            Some(c) => self.status.with(CpuFlags::CARRY, c),
            None => self.status,
        };
        CPU { accumulator: r, status: zero_negative(status, r), ..self }
    }

    /// Bit test of the operand against the accumulator.
    pub open spec fn bit_result(self, mode: AdressingMode) -> Option<CPU> {
        match self.operand(mode) {
            Some((_a, n, value)) => Some(CPU {
                program_counter: n,
                status: self.status.with(CpuFlags::ZERO, self.accumulator & value == 0).with(
                    CpuFlags::NEGATIVE,
                    bit_of(value, 7),
                ).with(CpuFlags::OVERFLOW, bit_of(value, 6)),
                ..self
            }),
            None => None,
        }
    }

    /// Jump: absolute, or indirect (`None`) with the page-wrap quirk of the 6502.
    pub open spec fn jmp_result(self, mode: Option<AdressingMode>) -> Option<CPU> {
        match self.read_word_at(self.program_counter) {
            Some(address) => {
                let target: Option<u16> = match mode {
                    Some(_) => Some(address),
                    None => if address & 0xFF == 0xFF {
                        if (address as int) < RAM_SIZE {
                            Some(word(self.byte(address as int), self.byte((address & 0xFF00) as int)))
                        } else {
                            None
                        }
                    } else {
                        self.read_word_at(address)
                    },
                };
                match target {
                    Some(t) => Some(CPU { program_counter: t, ..self }),
                    None => None,
                }
            },
            None => None,
        }
    }

    /// Jump to subroutine: the address of the last operand byte is pushed.
    pub open spec fn jsr_result(self, mode: AdressingMode) -> Option<CPU> {
        match self.param(mode) {
            Some((a, n)) => if n >= 1 {
                let ret = (n - 1) as u16;
                Some(CPU { program_counter: a, ..self.pushed_word(ret) })
            } else {
                None
            },
            None => None,
        }
    }

    /// The state after popping a word, and the word.
    pub open spec fn popped_word(self) -> (CPU, u16) {
        let (c1, lo) = self.popped();
        let (c2, hi) = c1.popped();
        (c2, word(lo, hi))
    }

    /// Return from subroutine.
    pub open spec fn rts_result(self) -> Option<CPU> {
        let (c, w) = self.popped_word();
        if w < u16::MAX {
            Some(CPU { program_counter: (w + 1) as u16, ..c })
        } else {
            None
        }
    }

    /// Return from interrupt.
    pub open spec fn rti_result(self) -> CPU {
        let (c1, b) = self.popped();
        let (c2, w) = (CPU { status: CpuFlags { bits: b }, ..c1 }).popped_word();
        CPU { program_counter: w, ..c2 }
    }

    /// Pull the status; the break flag is cleared and the unused flag set.
    pub open spec fn plp_result(self) -> CPU {
        let (c, b) = self.popped();
        CPU { status: CpuFlags { bits: b }.with(CpuFlags::BREAK, false).with(CpuFlags::BREAK2, true), ..c }
    }

    /// Pull the accumulator.
    pub open spec fn pla_result(self) -> CPU {
        let (c, b) = self.popped();
        CPU { accumulator: b, status: zero_negative(c.status, b), ..c }
    }

    /// Push the status with both break bits set.
    pub open spec fn php_result(self) -> CPU {
        self.pushed(self.status.with(CpuFlags::BREAK, true).with(CpuFlags::BREAK2, true).bits)
    }

    /// Copy register `from` into `to`; the copied value sets the flags.
    pub open spec fn transferred(self, from: Register, to: Register) -> CPU {
        let v = self.register(from);
        CPU { status: zero_negative(self.status, v), ..self.with_register(to, v) }
    }

    /// Add `delta` (wrapping) to a register; the new value sets the flags.
    pub open spec fn stepped_register(self, reg: Register, up: bool) -> CPU {
        let v = if up { self.register(reg).wrapping_add(1) } else { self.register(reg).wrapping_sub(1) };
        CPU { status: zero_negative(self.status, v), ..self.with_register(reg, v) }
    }

    /// Set or clear a status flag.
    pub open spec fn flagged(self, flag: u8, value: bool) -> CPU {
        CPU { status: self.status.with(flag, value), ..self }
    }
}

/// The registers an instruction can name.
#[derive(Clone, Copy, Debug, PartialEq, Eq, Structural)]
pub enum Register {
    Accumulator,
    X,
    Y,
}

/// Logic operations with the accumulator.
#[derive(Clone, Copy, Debug, PartialEq, Eq, Structural)]
pub enum Logic {
    And,
    Eor,
    Ora,
}

/// Read-modify-write operations.
#[derive(Clone, Copy, Debug, PartialEq, Eq, Structural)]
pub enum Shift {
    Increment,
    Decrement,
    ShiftLeft,
    ShiftRight,
    RotateLeft,
    RotateRight,
}

/// The new value of a read-modify-write operation, and the new carry if it sets one.
pub open spec fn shift_result(op: Shift, v: u8, carry: bool) -> (u8, Option<bool>) {
    match op {
        Shift::Increment => (v.wrapping_add(1), None),
        Shift::Decrement => (v.wrapping_sub(1), None),
        Shift::ShiftLeft => ((v << 1u8) as u8, Some(bit_of(v, 7))),
        Shift::ShiftRight => (v >> 1u8, Some(bit_of(v, 0))),
        Shift::RotateLeft => (rotl(v, carry), Some(bit_of(v, 7))),
        Shift::RotateRight => (rotr(v, carry), Some(bit_of(v, 0))),
    }
}


/// Rotate left by one bit through the carry.
pub(crate) fn rotate_left_one(value: u8, carry: bool) -> (r: u8)
    ensures
        r == rotl(value, carry),
{
    (value << 1) | (if carry { 1 } else { 0 })
}

/// Rotate right by one bit through the carry.
pub(crate) fn rotate_right_one(value: u8, carry: bool) -> (r: u8)
    ensures
        r == rotr(value, carry),
{
    (value >> 1) | (if carry { 0x80 } else { 0 })
}

impl CPU {
    /// The program counter after the operands of an instruction in `mode`.
    fn consume_params(&self, mode: &AdressingMode) -> (r: u16)
        requires
            self.next_pc(*mode) is Some,
        ensures
            Some(r) == self.next_pc(*mode),
    {
        match mode {
            AdressingMode::Absolute | AdressingMode::AbsoluteX | AdressingMode::AbsoluteY => {
                self.program_counter + 2
            },
            _ => self.program_counter + 1,
        }
    }

    /// The operand address of an instruction in `mode`, and the program counter after its
    /// operands.
    fn param_from_adressing_mode(&self, mode: &AdressingMode) -> (r: (u16, u16))
        requires
            self.param(*mode) is Some,
        ensures
            Some(r) == self.param(*mode),
    {
        let pc = self.program_counter;
        let addr = match mode {
            AdressingMode::Immediate => pc,
            AdressingMode::Absolute => self.read_word(pc),
            AdressingMode::ZeroPage => self.read_byte(pc) as u16,
            AdressingMode::ZeroPageX => self.read_byte(pc).wrapping_add(self.register_x) as u16,
            AdressingMode::ZeroPageY => self.read_byte(pc).wrapping_add(self.register_y) as u16,
            AdressingMode::AbsoluteX => self.read_word(pc).wrapping_add(self.register_x as u16),
            AdressingMode::AbsoluteY => self.read_word(pc).wrapping_add(self.register_y as u16),
            AdressingMode::IndirectX => {
                let ptr: u8 = self.read_byte(pc).wrapping_add(self.register_x);
                word_from_bytes(self.read_byte(ptr as u16), self.read_byte((ptr as u16) + 1))
            },
            AdressingMode::IndirectY => {
                let ptr: u8 = self.read_byte(pc);
                word_from_bytes(self.read_byte(ptr as u16), self.read_byte((ptr as u16) + 1)).wrapping_add(
                    self.register_y as u16,
                )
            },
        };
        (addr, self.consume_params(mode))
    }

    fn load(&mut self, mode: &AdressingMode, reg: Register)
        requires
            old(self).loaded(*mode, reg) is Some,
        ensures
            Some(*final(self)) == old(self).loaded(*mode, reg),
    {
        let (addr, new_pc) = self.param_from_adressing_mode(mode);
        let value = self.read_byte(addr);
        match reg {
            Register::Accumulator => self.accumulator = value,
            Register::X => self.register_x = value,
            Register::Y => self.register_y = value,
        }
        self.update_zero_and_negative_flags(value);
        self.program_counter = new_pc;
    }

    fn store(&mut self, mode: &AdressingMode, reg: Register)
        requires
            old(self).stored_register(*mode, reg) is Some,
        ensures
            Some(*final(self)) == old(self).stored_register(*mode, reg),
    {
        let (addr, next_pc) = self.param_from_adressing_mode(mode);
        let value = match reg {
            Register::Accumulator => self.accumulator,
            Register::X => self.register_x,
            Register::Y => self.register_y,
        };
        self.write_byte(addr, value);
        self.program_counter = next_pc;
    }

    fn rti(&mut self)
        ensures
            *final(self) == old(self).rti_result(),
    {
        self.status = CpuFlags::from_bits_truncate(self.stack_pop_byte());
        self.program_counter = self.stack_pop_word();
    }

    fn adc(&mut self, mode: &AdressingMode)
        requires
            old(self).adc_result(*mode) is Some,
        ensures
            Some(*final(self)) == old(self).adc_result(*mode),
    {
        let (addr, next_pc) = self.param_from_adressing_mode(mode);
        let value = self.read_byte(addr);
        let carry: u16 = if self.status.contains(CpuFlags::CARRY) { 1 } else { 0 };
        let sum: u16 = self.accumulator as u16 + value as u16 + carry;
        let result = (sum % 256) as u8;
        self.status.set(CpuFlags::CARRY, sum > 255);
        self.status.set(
            CpuFlags::OVERFLOW,
            CPU::nth_bit(self.accumulator, 7) == CPU::nth_bit(value, 7) && CPU::nth_bit(
                self.accumulator,
                7,
            ) != CPU::nth_bit(result, 7),
        );
        self.accumulator = result;
        self.update_zero_and_negative_flags(result);
        self.program_counter = next_pc;
    }

    fn sdc(&mut self, mode: &AdressingMode)
        requires
            old(self).sdc_result(*mode) is Some,
        ensures
            Some(*final(self)) == old(self).sdc_result(*mode),
    {
        let (addr, next_pc) = self.param_from_adressing_mode(mode);
        let value = self.read_byte(addr);
        let borrow: u16 = if self.status.contains(CpuFlags::CARRY) { 0 } else { 1 };
        // A - M - borrow, computed as A + 512 - M - borrow to stay unsigned
        let difference: u16 = self.accumulator as u16 + 512 - value as u16 - borrow;
        let result = (difference % 256) as u8;
        self.status.set(CpuFlags::CARRY, difference >= 512);
        self.status.set(
            CpuFlags::OVERFLOW,
            CPU::nth_bit(self.accumulator, 7) != CPU::nth_bit(value, 7) && CPU::nth_bit(
                self.accumulator,
                7,
            ) != CPU::nth_bit(result, 7),
        );
        self.accumulator = result;
        self.update_zero_and_negative_flags(result);
        self.program_counter = next_pc;
    }

    fn branch(&mut self, condition: bool)
        requires
            old(self).branch_result(condition) is Some,
        ensures
            Some(*final(self)) == old(self).branch_result(condition),
    {
        if condition {
            let offset = self.read_byte(self.program_counter);
            let extended: u16 = if offset < 128 { offset as u16 } else { offset as u16 + 0xFF00 };
            self.program_counter = self.program_counter.wrapping_add(extended);
        }
        self.program_counter = self.program_counter + 1;
    }

    fn pha(&mut self)
        ensures
            *final(self) == old(self).pushed(old(self).accumulator),
    {
        self.stack_push_byte(self.accumulator);
    }

    fn pla(&mut self)
        ensures
            *final(self) == old(self).pla_result(),
    {
        self.accumulator = self.stack_pop_byte();
        self.update_zero_and_negative_flags(self.accumulator);
    }

    fn php(&mut self)
        ensures
            *final(self) == old(self).php_result(),
    {
        let mut status = self.status;
        status.insert(CpuFlags::BREAK);
        status.insert(CpuFlags::BREAK2);
        self.stack_push_byte(status.bits());
    }

    fn plp(&mut self)
        ensures
            *final(self) == old(self).plp_result(),
    {
        self.status = CpuFlags::from_bits_truncate(self.stack_pop_byte());
        self.status.remove(CpuFlags::BREAK);
        self.status.insert(CpuFlags::BREAK2);
    }

    fn jsr(&mut self, mode: &AdressingMode)
        requires
            old(self).jsr_result(*mode) is Some,
        ensures
            Some(*final(self)) == old(self).jsr_result(*mode),
    {
        let (addr, new_pc) = self.param_from_adressing_mode(mode);
        self.stack_push_word(new_pc - 1);
        self.program_counter = addr;
    }

    fn rts(&mut self)
        requires
            old(self).rts_result() is Some,
        ensures
            Some(*final(self)) == old(self).rts_result(),
    {
        self.program_counter = self.stack_pop_word() + 1;
    }

    fn bit(&mut self, mode: &AdressingMode)
        requires
            old(self).bit_result(*mode) is Some,
        ensures
            Some(*final(self)) == old(self).bit_result(*mode),
    {
        let (addr, new_pc) = self.param_from_adressing_mode(mode);
        let value = self.read_byte(addr);
        self.status.set(CpuFlags::ZERO, (self.accumulator & value) == 0);
        self.status.set(CpuFlags::NEGATIVE, CPU::nth_bit(value, 7));
        self.status.set(CpuFlags::OVERFLOW, CPU::nth_bit(value, 6));
        self.program_counter = new_pc;
    }

    fn jmp(&mut self, mode: &Option<AdressingMode>)
        requires
            old(self).jmp_result(*mode) is Some,
        ensures
            Some(*final(self)) == old(self).jmp_result(*mode),
    {
        let mut address: u16 = self.read_word(self.program_counter);
        if mode.is_none() {
            address = if address & 0x00FF == 0x00FF {
                // The 6502 fetches the high byte of an indirect vector on a page
                // boundary ($xxFF) from the start of the same page ($xx00).
                assert(address & 0xFF00 <= address) by (bit_vector);
                word_from_bytes(self.read_byte(address), self.read_byte(address & 0xFF00))
            } else {
                self.read_word(address)
            };
        }
        self.program_counter = address;
    }

    fn cmp(&mut self, mode: &AdressingMode, compare_with: u8)
        requires
            old(self).compare_result(*mode, compare_with) is Some,
        ensures
            Some(*final(self)) == old(self).compare_result(*mode, compare_with),
    {
        let (addr, new_pc) = self.param_from_adressing_mode(mode);
        let value = self.read_byte(addr);
        self.status.set(CpuFlags::CARRY, compare_with >= value);
        // Subtract so that the zero flag tells whether the values are equal
        self.update_zero_and_negative_flags(compare_with.wrapping_sub(value));
        self.program_counter = new_pc;
    }

    fn modify(&mut self, mode: &AdressingMode, op: Shift)
        requires
            old(self).modified(*mode, op) is Some,
        ensures
            Some(*final(self)) == old(self).modified(*mode, op),
    {
        let (addr, new_pc) = self.param_from_adressing_mode(mode);
        let value = self.read_byte(addr);
        let result = match op {
            Shift::Increment => value.wrapping_add(1),
            Shift::Decrement => value.wrapping_sub(1),
            Shift::ShiftLeft => {
                self.status.set(CpuFlags::CARRY, CPU::nth_bit(value, 7));
                value << 1
            },
            Shift::ShiftRight => {
                self.status.set(CpuFlags::CARRY, CPU::nth_bit(value, 0));
                value >> 1
            },
            Shift::RotateLeft => {
                let carry = self.status.contains(CpuFlags::CARRY);
                self.status.set(CpuFlags::CARRY, CPU::nth_bit(value, 7));
                rotate_left_one(value, carry)
            },
            Shift::RotateRight => {
                let carry = self.status.contains(CpuFlags::CARRY);
                self.status.set(CpuFlags::CARRY, CPU::nth_bit(value, 0));
                rotate_right_one(value, carry)
            },
        };
        self.write_byte(addr, result);
        self.update_zero_and_negative_flags(result);
        self.program_counter = new_pc;
    }

    fn modify_accumulator(&mut self, op: Shift)
        ensures
            *final(self) == old(self).modified_accumulator(op),
    {
        let value = self.accumulator;
        let result = match op {
            Shift::Increment => value.wrapping_add(1),
            Shift::Decrement => value.wrapping_sub(1),
            Shift::ShiftLeft => {
                self.status.set(CpuFlags::CARRY, CPU::nth_bit(value, 7));
                value << 1
            },
            Shift::ShiftRight => {
                self.status.set(CpuFlags::CARRY, CPU::nth_bit(value, 0));
                value >> 1
            },
            Shift::RotateLeft => {
                let carry = self.status.contains(CpuFlags::CARRY);
                self.status.set(CpuFlags::CARRY, CPU::nth_bit(value, 7));
                rotate_left_one(value, carry)
            },
            Shift::RotateRight => {
                let carry = self.status.contains(CpuFlags::CARRY);
                self.status.set(CpuFlags::CARRY, CPU::nth_bit(value, 0));
                rotate_right_one(value, carry)
            },
        };
        self.accumulator = result;
        self.update_zero_and_negative_flags(result);
    }

    fn logic(&mut self, mode: &AdressingMode, op: Logic)
        requires
            old(self).logic_result(*mode, op) is Some,
        ensures
            Some(*final(self)) == old(self).logic_result(*mode, op),
    {
        let (addr, new_pc) = self.param_from_adressing_mode(mode);
        let value = self.read_byte(addr);
        match op {
            Logic::And => self.accumulator = self.accumulator & value,
            Logic::Eor => self.accumulator = self.accumulator ^ value,
            Logic::Ora => self.accumulator = self.accumulator | value,
        }
        self.update_zero_and_negative_flags(self.accumulator);
        self.program_counter = new_pc;
    }

    fn step_register(&mut self, reg: Register, up: bool)
        ensures
            *final(self) == old(self).stepped_register(reg, up),
    {
        let value = match reg {
            Register::Accumulator => self.accumulator,
            Register::X => self.register_x,
            Register::Y => self.register_y,
        };
        let v = if up { value.wrapping_add(1) } else { value.wrapping_sub(1) };
        match reg {
            Register::Accumulator => self.accumulator = v,
            Register::X => self.register_x = v,
            Register::Y => self.register_y = v,
        }
        self.update_zero_and_negative_flags(v);
    }

    fn transfer(&mut self, from: Register, to: Register)
        ensures
            *final(self) == old(self).transferred(from, to),
    {
        let v = match from {
            Register::Accumulator => self.accumulator,
            Register::X => self.register_x,
            Register::Y => self.register_y,
        };
        match to {
            Register::Accumulator => self.accumulator = v,
            Register::X => self.register_x = v,
            Register::Y => self.register_y = v,
        }
        self.update_zero_and_negative_flags(v);
    }
}


/// What an opcode does, with its addressing mode.
#[derive(Clone, Copy, Debug, PartialEq, Eq, Structural)]
pub enum Operation {
    Nop,
    Brk,
    Rti,
    Rts,
    Php,
    Plp,
    Pha,
    Pla,
    Adc(AdressingMode),
    Sdc(AdressingMode),
    /// Branch when the flag is (`true`) or is not (`false`) set.
    Branch(u8, bool),
    Transfer(Register, Register),
    SetFlag(u8, bool),
    /// Increment (`true`) or decrement (`false`) a register.
    StepRegister(Register, bool),
    Jsr(AdressingMode),
    Modify(AdressingMode, Shift),
    ModifyAccumulator(Shift),
    Logic(AdressingMode, Logic),
    Compare(AdressingMode, Register),
    Load(AdressingMode, Register),
    Store(AdressingMode, Register),
    /// Absolute jump, or indirect jump for `None`.
    Jmp(Option<AdressingMode>),
    Bit(AdressingMode),
}

/// The operation an opcode stands for in this interpreter, if any.
pub open spec fn decode_spec(opcode: u8) -> Option<Operation> {
    match opcode {
        0xEA => Some(Operation::Nop),
        0x00 => Some(Operation::Brk),
        0x40 => Some(Operation::Rti),
        0x69 => Some(Operation::Adc(AdressingMode::Immediate)),
        0x65 => Some(Operation::Adc(AdressingMode::ZeroPage)),
        0x75 => Some(Operation::Adc(AdressingMode::ZeroPageX)),
        0x6D => Some(Operation::Adc(AdressingMode::Absolute)),
        0x7D => Some(Operation::Adc(AdressingMode::AbsoluteX)),
        0x79 => Some(Operation::Adc(AdressingMode::AbsoluteY)),
        0x61 => Some(Operation::Adc(AdressingMode::IndirectX)),
        0x71 => Some(Operation::Adc(AdressingMode::IndirectY)),
        0xE9 => Some(Operation::Sdc(AdressingMode::Immediate)),
        0xE5 => Some(Operation::Sdc(AdressingMode::ZeroPage)),
        0xF5 => Some(Operation::Sdc(AdressingMode::ZeroPageX)),
        0xED => Some(Operation::Sdc(AdressingMode::Absolute)),
        0xFD => Some(Operation::Sdc(AdressingMode::AbsoluteX)),
        0xF9 => Some(Operation::Sdc(AdressingMode::AbsoluteY)),
        0xE1 => Some(Operation::Sdc(AdressingMode::IndirectX)),
        0xF1 => Some(Operation::Sdc(AdressingMode::IndirectY)),
        0xB0 => Some(Operation::Branch(CpuFlags::CARRY, true)),
        0x90 => Some(Operation::Branch(CpuFlags::CARRY, false)),
        0xF0 => Some(Operation::Branch(CpuFlags::ZERO, true)),
        0xD0 => Some(Operation::Branch(CpuFlags::ZERO, false)),
        0x30 => Some(Operation::Branch(CpuFlags::NEGATIVE, true)),
        0x10 => Some(Operation::Branch(CpuFlags::NEGATIVE, false)),
        0x70 => Some(Operation::Branch(CpuFlags::OVERFLOW, true)),
        0x50 => Some(Operation::Branch(CpuFlags::OVERFLOW, false)),
        0x08 => Some(Operation::Php),
        0x28 => Some(Operation::Plp),
        0x48 => Some(Operation::Pha),
        0x68 => Some(Operation::Pla),
        0xAA => Some(Operation::Transfer(Register::Accumulator, Register::X)),
        0x9A => Some(Operation::Transfer(Register::X, Register::Accumulator)),
        0xA8 => Some(Operation::Transfer(Register::Accumulator, Register::Y)),
        0x98 => Some(Operation::Transfer(Register::Y, Register::Accumulator)),
        0xB8 => Some(Operation::SetFlag(CpuFlags::OVERFLOW, false)),
        0x78 => Some(Operation::SetFlag(CpuFlags::IRQ, true)),
        0x58 => Some(Operation::SetFlag(CpuFlags::IRQ, false)),
        0xF8 => Some(Operation::SetFlag(CpuFlags::DECIMAL, true)),
        0xD8 => Some(Operation::SetFlag(CpuFlags::DECIMAL, false)),
        0x38 => Some(Operation::SetFlag(CpuFlags::CARRY, true)),
        0x18 => Some(Operation::SetFlag(CpuFlags::CARRY, false)),
        0xCA => Some(Operation::StepRegister(Register::X, false)),
        0x88 => Some(Operation::StepRegister(Register::Y, false)),
        0x20 => Some(Operation::Jsr(AdressingMode::Absolute)),
        0x60 => Some(Operation::Rts),
        0xC6 => Some(Operation::Modify(AdressingMode::ZeroPage, Shift::Decrement)),
        0xD6 => Some(Operation::Modify(AdressingMode::ZeroPageX, Shift::Decrement)),
        0xCE => Some(Operation::Modify(AdressingMode::Absolute, Shift::Decrement)),
        0xDE => Some(Operation::Modify(AdressingMode::AbsoluteX, Shift::Decrement)),
        0xE8 => Some(Operation::StepRegister(Register::X, true)),
        0xC8 => Some(Operation::StepRegister(Register::Y, true)),
        0xE6 => Some(Operation::Modify(AdressingMode::ZeroPage, Shift::Increment)),
        0xF6 => Some(Operation::Modify(AdressingMode::ZeroPageX, Shift::Increment)),
        0xEE => Some(Operation::Modify(AdressingMode::Absolute, Shift::Increment)),
        0xFE => Some(Operation::Modify(AdressingMode::AbsoluteX, Shift::Increment)),
        0x4A => Some(Operation::ModifyAccumulator(Shift::ShiftRight)),
        0x46 => Some(Operation::Modify(AdressingMode::ZeroPage, Shift::ShiftRight)),
        0x56 => Some(Operation::Modify(AdressingMode::ZeroPageX, Shift::ShiftRight)),
        0x4E => Some(Operation::Modify(AdressingMode::Absolute, Shift::ShiftRight)),
        0x5E => Some(Operation::Modify(AdressingMode::AbsoluteX, Shift::ShiftRight)),
        0x0A => Some(Operation::ModifyAccumulator(Shift::ShiftLeft)),
        0x06 => Some(Operation::Modify(AdressingMode::ZeroPage, Shift::ShiftLeft)),
        0x16 => Some(Operation::Modify(AdressingMode::ZeroPageX, Shift::ShiftLeft)),
        0x0E => Some(Operation::Modify(AdressingMode::Absolute, Shift::ShiftLeft)),
        0x1E => Some(Operation::Modify(AdressingMode::AbsoluteX, Shift::ShiftLeft)),
        0x6A => Some(Operation::ModifyAccumulator(Shift::RotateRight)),
        0x66 => Some(Operation::Modify(AdressingMode::ZeroPage, Shift::RotateRight)),
        0x76 => Some(Operation::Modify(AdressingMode::ZeroPageX, Shift::RotateRight)),
        0x6E => Some(Operation::Modify(AdressingMode::Absolute, Shift::RotateRight)),
        0x7E => Some(Operation::Modify(AdressingMode::AbsoluteX, Shift::RotateRight)),
        0x2A => Some(Operation::ModifyAccumulator(Shift::RotateLeft)),
        0x26 => Some(Operation::Modify(AdressingMode::ZeroPage, Shift::RotateLeft)),
        0x36 => Some(Operation::Modify(AdressingMode::ZeroPageX, Shift::RotateLeft)),
        0x2E => Some(Operation::Modify(AdressingMode::Absolute, Shift::RotateLeft)),
        0x3E => Some(Operation::Modify(AdressingMode::AbsoluteX, Shift::RotateLeft)),
        0x29 => Some(Operation::Logic(AdressingMode::Immediate, Logic::And)),
        0x25 => Some(Operation::Logic(AdressingMode::ZeroPage, Logic::And)),
        0x35 => Some(Operation::Logic(AdressingMode::ZeroPageX, Logic::And)),
        0x2D => Some(Operation::Logic(AdressingMode::Absolute, Logic::And)),
        0x3D => Some(Operation::Logic(AdressingMode::AbsoluteX, Logic::And)),
        0x39 => Some(Operation::Logic(AdressingMode::AbsoluteY, Logic::And)),
        0x21 => Some(Operation::Logic(AdressingMode::IndirectX, Logic::And)),
        0x31 => Some(Operation::Logic(AdressingMode::IndirectY, Logic::And)),
        0x49 => Some(Operation::Logic(AdressingMode::Immediate, Logic::Eor)),
        0x45 => Some(Operation::Logic(AdressingMode::ZeroPage, Logic::Eor)),
        0x55 => Some(Operation::Logic(AdressingMode::ZeroPageX, Logic::Eor)),
        0x4D => Some(Operation::Logic(AdressingMode::Absolute, Logic::Eor)),
        0x5D => Some(Operation::Logic(AdressingMode::AbsoluteX, Logic::Eor)),
        0x59 => Some(Operation::Logic(AdressingMode::AbsoluteY, Logic::Eor)),
        0x41 => Some(Operation::Logic(AdressingMode::IndirectX, Logic::Eor)),
        0x51 => Some(Operation::Logic(AdressingMode::IndirectY, Logic::Eor)),
        0x09 => Some(Operation::Logic(AdressingMode::Immediate, Logic::Ora)),
        0x05 => Some(Operation::Logic(AdressingMode::ZeroPage, Logic::Ora)),
        0x15 => Some(Operation::Logic(AdressingMode::ZeroPageX, Logic::Ora)),
        0x0D => Some(Operation::Logic(AdressingMode::Absolute, Logic::Ora)),
        0x1D => Some(Operation::Logic(AdressingMode::AbsoluteX, Logic::Ora)),
        0x19 => Some(Operation::Logic(AdressingMode::AbsoluteY, Logic::Ora)),
        0x01 => Some(Operation::Logic(AdressingMode::IndirectX, Logic::Ora)),
        0x11 => Some(Operation::Logic(AdressingMode::IndirectY, Logic::Ora)),
        0xC9 => Some(Operation::Compare(AdressingMode::Immediate, Register::Accumulator)),
        0xC5 => Some(Operation::Compare(AdressingMode::ZeroPage, Register::Accumulator)),
        0xD5 => Some(Operation::Compare(AdressingMode::ZeroPageX, Register::Accumulator)),
        0xCD => Some(Operation::Compare(AdressingMode::Absolute, Register::Accumulator)),
        0xDD => Some(Operation::Compare(AdressingMode::AbsoluteX, Register::Accumulator)),
        0xD9 => Some(Operation::Compare(AdressingMode::AbsoluteY, Register::Accumulator)),
        0xC1 => Some(Operation::Compare(AdressingMode::IndirectX, Register::Accumulator)),
        0xD1 => Some(Operation::Compare(AdressingMode::IndirectY, Register::Accumulator)),
        0xE0 => Some(Operation::Compare(AdressingMode::Immediate, Register::X)),
        0xE4 => Some(Operation::Compare(AdressingMode::ZeroPage, Register::X)),
        0xEC => Some(Operation::Compare(AdressingMode::Absolute, Register::X)),
        0xC0 => Some(Operation::Compare(AdressingMode::Immediate, Register::Y)),
        0xC4 => Some(Operation::Compare(AdressingMode::ZeroPage, Register::Y)),
        0xCC => Some(Operation::Compare(AdressingMode::Absolute, Register::Y)),
        0xA9 => Some(Operation::Load(AdressingMode::Immediate, Register::Accumulator)),
        0xA5 => Some(Operation::Load(AdressingMode::ZeroPage, Register::Accumulator)),
        0xB5 => Some(Operation::Load(AdressingMode::ZeroPageX, Register::Accumulator)),
        0xAD => Some(Operation::Load(AdressingMode::Absolute, Register::Accumulator)),
        0xBD => Some(Operation::Load(AdressingMode::AbsoluteX, Register::Accumulator)),
        0xB9 => Some(Operation::Load(AdressingMode::AbsoluteY, Register::Accumulator)),
        0xA1 => Some(Operation::Load(AdressingMode::IndirectX, Register::Accumulator)),
        0xB1 => Some(Operation::Load(AdressingMode::IndirectY, Register::Accumulator)),
        0x85 => Some(Operation::Store(AdressingMode::ZeroPage, Register::Accumulator)),
        0x95 => Some(Operation::Store(AdressingMode::ZeroPageX, Register::Accumulator)),
        0x8D => Some(Operation::Store(AdressingMode::Absolute, Register::Accumulator)),
        0x9D => Some(Operation::Store(AdressingMode::AbsoluteX, Register::Accumulator)),
        0x99 => Some(Operation::Store(AdressingMode::AbsoluteY, Register::Accumulator)),
        0x81 => Some(Operation::Store(AdressingMode::IndirectX, Register::Accumulator)),
        0x91 => Some(Operation::Store(AdressingMode::IndirectY, Register::Accumulator)),
        0xA2 => Some(Operation::Load(AdressingMode::Immediate, Register::X)),
        0xA6 => Some(Operation::Load(AdressingMode::ZeroPage, Register::X)),
        0xB6 => Some(Operation::Load(AdressingMode::ZeroPageY, Register::X)),
        0xAE => Some(Operation::Load(AdressingMode::Absolute, Register::X)),
        0xBE => Some(Operation::Load(AdressingMode::AbsoluteY, Register::X)),
        0x86 => Some(Operation::Store(AdressingMode::ZeroPage, Register::X)),
        0x96 => Some(Operation::Store(AdressingMode::ZeroPageY, Register::X)),
        0x8E => Some(Operation::Store(AdressingMode::Absolute, Register::X)),
        0xA0 => Some(Operation::Load(AdressingMode::Immediate, Register::Y)),
        0xA4 => Some(Operation::Load(AdressingMode::ZeroPage, Register::Y)),
        0xB4 => Some(Operation::Load(AdressingMode::ZeroPageX, Register::Y)),
        0xAC => Some(Operation::Load(AdressingMode::Absolute, Register::Y)),
        0xBC => Some(Operation::Load(AdressingMode::AbsoluteX, Register::Y)),
        0x84 => Some(Operation::Store(AdressingMode::ZeroPage, Register::Y)),
        0x94 => Some(Operation::Store(AdressingMode::ZeroPageX, Register::Y)),
        0x8C => Some(Operation::Store(AdressingMode::Absolute, Register::Y)),
        0x4C => Some(Operation::Jmp(Some(AdressingMode::Absolute))),
        0x6C => Some(Operation::Jmp(None)),
        0x24 => Some(Operation::Bit(AdressingMode::ZeroPage)),
        0x2C => Some(Operation::Bit(AdressingMode::Absolute)),
        _ => None,
    }
}

/// Decode an opcode.
pub fn decode(opcode: u8) -> (r: Option<Operation>)
    ensures
        r == decode_spec(opcode),
{
    match opcode {
        0xEA => Some(Operation::Nop),
        0x00 => Some(Operation::Brk),
        0x40 => Some(Operation::Rti),
        0x69 => Some(Operation::Adc(AdressingMode::Immediate)),
        0x65 => Some(Operation::Adc(AdressingMode::ZeroPage)),
        0x75 => Some(Operation::Adc(AdressingMode::ZeroPageX)),
        0x6D => Some(Operation::Adc(AdressingMode::Absolute)),
        0x7D => Some(Operation::Adc(AdressingMode::AbsoluteX)),
        0x79 => Some(Operation::Adc(AdressingMode::AbsoluteY)),
        0x61 => Some(Operation::Adc(AdressingMode::IndirectX)),
        0x71 => Some(Operation::Adc(AdressingMode::IndirectY)),
        0xE9 => Some(Operation::Sdc(AdressingMode::Immediate)),
        0xE5 => Some(Operation::Sdc(AdressingMode::ZeroPage)),
        0xF5 => Some(Operation::Sdc(AdressingMode::ZeroPageX)),
        0xED => Some(Operation::Sdc(AdressingMode::Absolute)),
        0xFD => Some(Operation::Sdc(AdressingMode::AbsoluteX)),
        0xF9 => Some(Operation::Sdc(AdressingMode::AbsoluteY)),
        0xE1 => Some(Operation::Sdc(AdressingMode::IndirectX)),
        0xF1 => Some(Operation::Sdc(AdressingMode::IndirectY)),
        0xB0 => Some(Operation::Branch(CpuFlags::CARRY, true)),
        0x90 => Some(Operation::Branch(CpuFlags::CARRY, false)),
        0xF0 => Some(Operation::Branch(CpuFlags::ZERO, true)),
        0xD0 => Some(Operation::Branch(CpuFlags::ZERO, false)),
        0x30 => Some(Operation::Branch(CpuFlags::NEGATIVE, true)),
        0x10 => Some(Operation::Branch(CpuFlags::NEGATIVE, false)),
        0x70 => Some(Operation::Branch(CpuFlags::OVERFLOW, true)),
        0x50 => Some(Operation::Branch(CpuFlags::OVERFLOW, false)),
        0x08 => Some(Operation::Php),
        0x28 => Some(Operation::Plp),
        0x48 => Some(Operation::Pha),
        0x68 => Some(Operation::Pla),
        0xAA => Some(Operation::Transfer(Register::Accumulator, Register::X)),
        0x9A => Some(Operation::Transfer(Register::X, Register::Accumulator)),
        0xA8 => Some(Operation::Transfer(Register::Accumulator, Register::Y)),
        0x98 => Some(Operation::Transfer(Register::Y, Register::Accumulator)),
        0xB8 => Some(Operation::SetFlag(CpuFlags::OVERFLOW, false)),
        0x78 => Some(Operation::SetFlag(CpuFlags::IRQ, true)),
        0x58 => Some(Operation::SetFlag(CpuFlags::IRQ, false)),
        0xF8 => Some(Operation::SetFlag(CpuFlags::DECIMAL, true)),
        0xD8 => Some(Operation::SetFlag(CpuFlags::DECIMAL, false)),
        0x38 => Some(Operation::SetFlag(CpuFlags::CARRY, true)),
        0x18 => Some(Operation::SetFlag(CpuFlags::CARRY, false)),
        0xCA => Some(Operation::StepRegister(Register::X, false)),
        0x88 => Some(Operation::StepRegister(Register::Y, false)),
        0x20 => Some(Operation::Jsr(AdressingMode::Absolute)),
        0x60 => Some(Operation::Rts),
        0xC6 => Some(Operation::Modify(AdressingMode::ZeroPage, Shift::Decrement)),
        0xD6 => Some(Operation::Modify(AdressingMode::ZeroPageX, Shift::Decrement)),
        0xCE => Some(Operation::Modify(AdressingMode::Absolute, Shift::Decrement)),
        0xDE => Some(Operation::Modify(AdressingMode::AbsoluteX, Shift::Decrement)),
        0xE8 => Some(Operation::StepRegister(Register::X, true)),
        0xC8 => Some(Operation::StepRegister(Register::Y, true)),
        0xE6 => Some(Operation::Modify(AdressingMode::ZeroPage, Shift::Increment)),
        0xF6 => Some(Operation::Modify(AdressingMode::ZeroPageX, Shift::Increment)),
        0xEE => Some(Operation::Modify(AdressingMode::Absolute, Shift::Increment)),
        0xFE => Some(Operation::Modify(AdressingMode::AbsoluteX, Shift::Increment)),
        0x4A => Some(Operation::ModifyAccumulator(Shift::ShiftRight)),
        0x46 => Some(Operation::Modify(AdressingMode::ZeroPage, Shift::ShiftRight)),
        0x56 => Some(Operation::Modify(AdressingMode::ZeroPageX, Shift::ShiftRight)),
        0x4E => Some(Operation::Modify(AdressingMode::Absolute, Shift::ShiftRight)),
        0x5E => Some(Operation::Modify(AdressingMode::AbsoluteX, Shift::ShiftRight)),
        0x0A => Some(Operation::ModifyAccumulator(Shift::ShiftLeft)),
        0x06 => Some(Operation::Modify(AdressingMode::ZeroPage, Shift::ShiftLeft)),
        0x16 => Some(Operation::Modify(AdressingMode::ZeroPageX, Shift::ShiftLeft)),
        0x0E => Some(Operation::Modify(AdressingMode::Absolute, Shift::ShiftLeft)),
        0x1E => Some(Operation::Modify(AdressingMode::AbsoluteX, Shift::ShiftLeft)),
        0x6A => Some(Operation::ModifyAccumulator(Shift::RotateRight)),
        0x66 => Some(Operation::Modify(AdressingMode::ZeroPage, Shift::RotateRight)),
        0x76 => Some(Operation::Modify(AdressingMode::ZeroPageX, Shift::RotateRight)),
        0x6E => Some(Operation::Modify(AdressingMode::Absolute, Shift::RotateRight)),
        0x7E => Some(Operation::Modify(AdressingMode::AbsoluteX, Shift::RotateRight)),
        0x2A => Some(Operation::ModifyAccumulator(Shift::RotateLeft)),
        0x26 => Some(Operation::Modify(AdressingMode::ZeroPage, Shift::RotateLeft)),
        0x36 => Some(Operation::Modify(AdressingMode::ZeroPageX, Shift::RotateLeft)),
        0x2E => Some(Operation::Modify(AdressingMode::Absolute, Shift::RotateLeft)),
        0x3E => Some(Operation::Modify(AdressingMode::AbsoluteX, Shift::RotateLeft)),
        0x29 => Some(Operation::Logic(AdressingMode::Immediate, Logic::And)),
        0x25 => Some(Operation::Logic(AdressingMode::ZeroPage, Logic::And)),
        0x35 => Some(Operation::Logic(AdressingMode::ZeroPageX, Logic::And)),
        0x2D => Some(Operation::Logic(AdressingMode::Absolute, Logic::And)),
        0x3D => Some(Operation::Logic(AdressingMode::AbsoluteX, Logic::And)),
        0x39 => Some(Operation::Logic(AdressingMode::AbsoluteY, Logic::And)),
        0x21 => Some(Operation::Logic(AdressingMode::IndirectX, Logic::And)),
        0x31 => Some(Operation::Logic(AdressingMode::IndirectY, Logic::And)),
        0x49 => Some(Operation::Logic(AdressingMode::Immediate, Logic::Eor)),
        0x45 => Some(Operation::Logic(AdressingMode::ZeroPage, Logic::Eor)),
        0x55 => Some(Operation::Logic(AdressingMode::ZeroPageX, Logic::Eor)),
        0x4D => Some(Operation::Logic(AdressingMode::Absolute, Logic::Eor)),
        0x5D => Some(Operation::Logic(AdressingMode::AbsoluteX, Logic::Eor)),
        0x59 => Some(Operation::Logic(AdressingMode::AbsoluteY, Logic::Eor)),
        0x41 => Some(Operation::Logic(AdressingMode::IndirectX, Logic::Eor)),
        0x51 => Some(Operation::Logic(AdressingMode::IndirectY, Logic::Eor)),
        0x09 => Some(Operation::Logic(AdressingMode::Immediate, Logic::Ora)),
        0x05 => Some(Operation::Logic(AdressingMode::ZeroPage, Logic::Ora)),
        0x15 => Some(Operation::Logic(AdressingMode::ZeroPageX, Logic::Ora)),
        0x0D => Some(Operation::Logic(AdressingMode::Absolute, Logic::Ora)),
        0x1D => Some(Operation::Logic(AdressingMode::AbsoluteX, Logic::Ora)),
        0x19 => Some(Operation::Logic(AdressingMode::AbsoluteY, Logic::Ora)),
        0x01 => Some(Operation::Logic(AdressingMode::IndirectX, Logic::Ora)),
        0x11 => Some(Operation::Logic(AdressingMode::IndirectY, Logic::Ora)),
        0xC9 => Some(Operation::Compare(AdressingMode::Immediate, Register::Accumulator)),
        0xC5 => Some(Operation::Compare(AdressingMode::ZeroPage, Register::Accumulator)),
        0xD5 => Some(Operation::Compare(AdressingMode::ZeroPageX, Register::Accumulator)),
        0xCD => Some(Operation::Compare(AdressingMode::Absolute, Register::Accumulator)),
        0xDD => Some(Operation::Compare(AdressingMode::AbsoluteX, Register::Accumulator)),
        0xD9 => Some(Operation::Compare(AdressingMode::AbsoluteY, Register::Accumulator)),
        0xC1 => Some(Operation::Compare(AdressingMode::IndirectX, Register::Accumulator)),
        0xD1 => Some(Operation::Compare(AdressingMode::IndirectY, Register::Accumulator)),
        0xE0 => Some(Operation::Compare(AdressingMode::Immediate, Register::X)),
        0xE4 => Some(Operation::Compare(AdressingMode::ZeroPage, Register::X)),
        0xEC => Some(Operation::Compare(AdressingMode::Absolute, Register::X)),
        0xC0 => Some(Operation::Compare(AdressingMode::Immediate, Register::Y)),
        0xC4 => Some(Operation::Compare(AdressingMode::ZeroPage, Register::Y)),
        0xCC => Some(Operation::Compare(AdressingMode::Absolute, Register::Y)),
        0xA9 => Some(Operation::Load(AdressingMode::Immediate, Register::Accumulator)),
        0xA5 => Some(Operation::Load(AdressingMode::ZeroPage, Register::Accumulator)),
        0xB5 => Some(Operation::Load(AdressingMode::ZeroPageX, Register::Accumulator)),
        0xAD => Some(Operation::Load(AdressingMode::Absolute, Register::Accumulator)),
        0xBD => Some(Operation::Load(AdressingMode::AbsoluteX, Register::Accumulator)),
        0xB9 => Some(Operation::Load(AdressingMode::AbsoluteY, Register::Accumulator)),
        0xA1 => Some(Operation::Load(AdressingMode::IndirectX, Register::Accumulator)),
        0xB1 => Some(Operation::Load(AdressingMode::IndirectY, Register::Accumulator)),
        0x85 => Some(Operation::Store(AdressingMode::ZeroPage, Register::Accumulator)),
        0x95 => Some(Operation::Store(AdressingMode::ZeroPageX, Register::Accumulator)),
        0x8D => Some(Operation::Store(AdressingMode::Absolute, Register::Accumulator)),
        0x9D => Some(Operation::Store(AdressingMode::AbsoluteX, Register::Accumulator)),
        0x99 => Some(Operation::Store(AdressingMode::AbsoluteY, Register::Accumulator)),
        0x81 => Some(Operation::Store(AdressingMode::IndirectX, Register::Accumulator)),
        0x91 => Some(Operation::Store(AdressingMode::IndirectY, Register::Accumulator)),
        0xA2 => Some(Operation::Load(AdressingMode::Immediate, Register::X)),
        0xA6 => Some(Operation::Load(AdressingMode::ZeroPage, Register::X)),
        0xB6 => Some(Operation::Load(AdressingMode::ZeroPageY, Register::X)),
        0xAE => Some(Operation::Load(AdressingMode::Absolute, Register::X)),
        0xBE => Some(Operation::Load(AdressingMode::AbsoluteY, Register::X)),
        0x86 => Some(Operation::Store(AdressingMode::ZeroPage, Register::X)),
        0x96 => Some(Operation::Store(AdressingMode::ZeroPageY, Register::X)),
        0x8E => Some(Operation::Store(AdressingMode::Absolute, Register::X)),
        0xA0 => Some(Operation::Load(AdressingMode::Immediate, Register::Y)),
        0xA4 => Some(Operation::Load(AdressingMode::ZeroPage, Register::Y)),
        0xB4 => Some(Operation::Load(AdressingMode::ZeroPageX, Register::Y)),
        0xAC => Some(Operation::Load(AdressingMode::Absolute, Register::Y)),
        0xBC => Some(Operation::Load(AdressingMode::AbsoluteX, Register::Y)),
        0x84 => Some(Operation::Store(AdressingMode::ZeroPage, Register::Y)),
        0x94 => Some(Operation::Store(AdressingMode::ZeroPageX, Register::Y)),
        0x8C => Some(Operation::Store(AdressingMode::Absolute, Register::Y)),
        0x4C => Some(Operation::Jmp(Some(AdressingMode::Absolute))),
        0x6C => Some(Operation::Jmp(None)),
        0x24 => Some(Operation::Bit(AdressingMode::ZeroPage)),
        0x2C => Some(Operation::Bit(AdressingMode::Absolute)),
        _ => None,
    }
}

/// The result of executing one instruction.
pub enum StepOutcome {
    /// The instruction ran; execution goes on from this state.
    Running(CPU),
    /// `BRK` was executed: the program is done.
    Halted(CPU),
    /// The instruction is unknown or touches memory outside the address space.
    Fault,
}

impl CPU {
    /// The state after executing `op`, whose opcode has been consumed.
    pub open spec fn execute_result(self, op: Operation) -> Option<CPU> {
        match op {
            Operation::Nop | Operation::Brk => Some(self),
            Operation::Rti => Some(self.rti_result()),
            Operation::Rts => self.rts_result(),
            Operation::Php => Some(self.php_result()),
            Operation::Plp => Some(self.plp_result()),
            Operation::Pha => Some(self.pushed(self.accumulator)),
            Operation::Pla => Some(self.pla_result()),
            Operation::Adc(m) => self.adc_result(m),
            Operation::Sdc(m) => self.sdc_result(m),
            Operation::Branch(flag, when) => self.branch_result(self.status.has(flag) == when),
            Operation::Transfer(from, to) => Some(self.transferred(from, to)),
            Operation::SetFlag(flag, value) => Some(self.flagged(flag, value)),
            Operation::StepRegister(reg, up) => Some(self.stepped_register(reg, up)),
            Operation::Jsr(m) => self.jsr_result(m),
            Operation::Modify(m, op) => self.modified(m, op),
            Operation::ModifyAccumulator(op) => Some(self.modified_accumulator(op)),
            Operation::Logic(m, op) => self.logic_result(m, op),
            Operation::Compare(m, reg) => self.compare_result(m, self.register(reg)),
            Operation::Load(m, reg) => self.loaded(m, reg),
            Operation::Store(m, reg) => self.stored_register(m, reg),
            Operation::Jmp(m) => self.jmp_result(m),
            Operation::Bit(m) => self.bit_result(m),
        }
    }

    /// Fetching, decoding and executing the instruction at the program counter.
    pub open spec fn step_outcome(self) -> StepOutcome {
        match self.read(self.program_counter) {
            None => StepOutcome::Fault,
            Some(opcode) => {
                let c = CPU { program_counter: (self.program_counter + 1) as u16, ..self };
                match decode_spec(opcode) {
                    None => StepOutcome::Fault,
                    Some(Operation::Brk) => StepOutcome::Halted(c),
                    Some(op) => match c.execute_result(op) {
                        Some(n) => StepOutcome::Running(n),
                        None => StepOutcome::Fault,
                    },
                }
            },
        }
    }

    /// The state in which the program halts within `fuel` instructions without a fault,
    /// if it does.
    pub open spec fn run_after(self, fuel: nat) -> Option<CPU>
        decreases fuel,
    {
        if fuel == 0 {
            None
        } else {
            match self.step_outcome() {
                StepOutcome::Halted(c) => Some(c),
                StepOutcome::Running(c) => c.run_after((fuel - 1) as nat),
                StepOutcome::Fault => None,
            }
        }
    }

    /// Execute an operation whose opcode has been consumed.
    fn execute(&mut self, op: Operation)
        requires
            old(self).execute_result(op) is Some,
        ensures
            Some(*final(self)) == old(self).execute_result(op),
    {
        match op {
            Operation::Nop | Operation::Brk => {},
            Operation::Rti => self.rti(),
            Operation::Rts => self.rts(),
            Operation::Php => self.php(),
            Operation::Plp => self.plp(),
            Operation::Pha => self.pha(),
            Operation::Pla => self.pla(),
            Operation::Adc(m) => self.adc(&m),
            Operation::Sdc(m) => self.sdc(&m),
            Operation::Branch(flag, when) => {
                let condition = self.status.contains(flag) == when;
                self.branch(condition)
            },
            Operation::Transfer(from, to) => self.transfer(from, to),
            Operation::SetFlag(flag, value) => self.status.set(flag, value),
            Operation::StepRegister(reg, up) => self.step_register(reg, up),
            Operation::Jsr(m) => self.jsr(&m),
            Operation::Modify(m, op) => self.modify(&m, op),
            Operation::ModifyAccumulator(op) => self.modify_accumulator(op),
            Operation::Logic(m, op) => self.logic(&m, op),
            Operation::Compare(m, reg) => {
                let value = match reg {
                    Register::Accumulator => self.accumulator,
                    Register::X => self.register_x,
                    Register::Y => self.register_y,
                };
                self.cmp(&m, value)
            },
            Operation::Load(m, reg) => self.load(&m, reg),
            Operation::Store(m, reg) => self.store(&m, reg),
            Operation::Jmp(m) => self.jmp(&m),
            Operation::Bit(m) => self.bit(&m),
        }
    }

    /// Execute the instruction at the program counter. Returns whether it was `BRK`.
    pub fn step(&mut self) -> (halted: bool)
        requires
            !(old(self).step_outcome() is Fault),
        ensures
            match old(self).step_outcome() {
                StepOutcome::Running(c) => !halted && *final(self) == c,
                StepOutcome::Halted(c) => halted && *final(self) == c,
                StepOutcome::Fault => false,
            },
    {
        let opcode = self.read_byte(self.program_counter);
        self.program_counter = self.program_counter + 1;
        match decode(opcode) {
            Some(Operation::Brk) => true,
            Some(op) => {
                self.execute(op);
                false
            },
            None => false,
        }
    }

    /// Run the program until it executes `BRK`.
    ///
    /// The program must halt without a fault; the state is then the one in which the
    /// first `BRK` left it.
    pub fn run(&mut self)
        requires
            exists|n: nat| old(self).run_after(n) is Some,
        ensures
            forall|n: nat|
                old(self).run_after(n) is Some ==> old(self).run_after(n) == Some(*final(self)),
    {
        let ghost start = *self;
        let ghost total: nat = choose|n: nat| start.run_after(n) is Some;
        let ghost mut fuel: nat = total;
        loop
            invariant_except_break
                self.run_after(fuel) == start.run_after(total),
                start.run_after(total) is Some,
            ensures
                start.run_after(total) == Some(*self),
            decreases fuel,
        {
            let ghost before = *self;
            proof {
                assert(fuel > 0);
            }
            let halted = self.step();
            if halted {
                assert(before.run_after(fuel) == Some(*self));
                break;
            }
            proof {
                fuel = (fuel - 1) as nat;
            }
        }
        proof {
            assert forall|n: nat| start.run_after(n) is Some implies start.run_after(n) == Some(
                *self,
            ) by {
                lemma_run_deterministic(start, n, total);
            }
        }
    }

    /// Clear registers, flags and memory, and start at the program area.
    fn reset(&mut self)
        ensures
            final(self).status.bits == 0,
            final(self).accumulator == 0,
            final(self).register_x == 0,
            final(self).register_y == 0,
            final(self).program_counter == PROGRAM_ROM_START,
            final(self).stack_pointer == old(self).stack_pointer,
            forall|i: int| 0 <= i < RAM_SIZE ==> final(self).byte(i) == 0,
    {
        self.status = CpuFlags::empty();
        self.accumulator = 0;
        self.register_x = 0;
        self.register_y = 0;
        self.program_counter = PROGRAM_ROM_START;
        self.memory = [0;RAM_SIZE];
    }

    /// Reset the CPU and copy `program` to the program area at `$8000`.
    pub fn load_program(&mut self, program: Vec<u8>)
        requires
            program@.len() < 0x8000,
        ensures
            final(self).status.bits == 0,
            final(self).accumulator == 0,
            final(self).register_x == 0,
            final(self).register_y == 0,
            final(self).program_counter == PROGRAM_ROM_START,
            final(self).stack_pointer == old(self).stack_pointer,
            forall|i: int|
                0 <= i < RAM_SIZE ==> final(self).byte(i) == (if PROGRAM_ROM_START <= i
                    < PROGRAM_ROM_START + program@.len() {
                    program@[i - PROGRAM_ROM_START]
                } else {
                    0
                }),
    {
        broadcast use vstd::array::group_array_axioms;

        self.reset();
        let mut i: usize = 0;
        while i < program.len()
            invariant
                program@.len() < 0x8000,
                i <= program@.len(),
                self.status.bits == 0,
                self.accumulator == 0,
                self.register_x == 0,
                self.register_y == 0,
                self.program_counter == PROGRAM_ROM_START,
                self.stack_pointer == old(self).stack_pointer,
                forall|j: int|
                    0 <= j < RAM_SIZE ==> self.byte(j) == (if PROGRAM_ROM_START <= j
                        < PROGRAM_ROM_START + i {
                        program@[j - PROGRAM_ROM_START]
                    } else {
                        0
                    }),
            decreases program@.len() - i,
        {
            let ghost before = *self;
            let index = PROGRAM_ROM_START as usize + i;
            self.memory[index] = program[i];
            assert(self.memory@ == before.memory@.update(index as int, program@[i as int]));
            assert forall|j: int| 0 <= j < RAM_SIZE implies self.byte(j) == (if PROGRAM_ROM_START
                <= j < PROGRAM_ROM_START + i + 1 {
                program@[j - PROGRAM_ROM_START]
            } else {
                0
            }) by {
                if j != index {
                    assert(self.byte(j) == before.byte(j));
                }
            }
            i += 1;
        }
    }
}

/// Two runs of the same program that both halt end in the same state.
pub proof fn lemma_run_deterministic(c: CPU, n: nat, m: nat)
    requires
        c.run_after(n) is Some,
        c.run_after(m) is Some,
    ensures
        c.run_after(n) == c.run_after(m),
    decreases n,
{
    if n > 0 && m > 0 {
        match c.step_outcome() {
            StepOutcome::Running(d) => lemma_run_deterministic(d, (n - 1) as nat, (m - 1) as nat),
            _ => {},
        }
    }
}


/// A word written at `address` is read back unchanged.
pub proof fn lemma_word_roundtrip(cpu: CPU, address: u16, data: u16)
    requires
        (address as int) + 2 <= RAM_SIZE,
    ensures
        cpu.stored(address, low_byte(data)).stored((address + 1) as u16, high_byte(data)).read_word_at(
            address,
        ) == Some(data),
{
    broadcast use vstd::array::group_array_axioms;

    let c = cpu.stored(address, low_byte(data)).stored((address + 1) as u16, high_byte(data));
    assert(c.byte(address as int) == low_byte(data));
    assert(c.byte(address + 1) == high_byte(data));
    crate::util::lemma_word_bytes(data);
}

/// A pushed byte is the next byte popped, and the stack pointer is back where it was.
pub proof fn lemma_push_pop_byte(cpu: CPU, data: u8)
    ensures
        cpu.pushed(data).popped().1 == data,
        cpu.pushed(data).popped().0.stack_pointer == cpu.stack_pointer,
{
    broadcast use vstd::array::group_array_axioms;

    let p = cpu.pushed(data);
    let q = p.popped().0;
    assert(q.stack_pointer == cpu.stack_pointer);
    assert(p.byte((STACK_OFFSET + cpu.stack_pointer) as int) == data);
}

/// A pushed word is the next word popped, and the stack pointer is back where it was.
pub proof fn lemma_push_pop_word(cpu: CPU, data: u16)
    ensures
        cpu.pushed_word(data).popped_word().1 == data,
        cpu.pushed_word(data).popped_word().0.stack_pointer == cpu.stack_pointer,
{
    let p1 = cpu.pushed(high_byte(data));
    lemma_push_pop_byte(p1, low_byte(data));
    let q1 = p1.pushed(low_byte(data)).popped().0;
    assert(q1.stack_pointer == p1.stack_pointer);
    assert(q1.memory == p1.pushed(low_byte(data)).memory);
    broadcast use vstd::array::group_array_axioms;

    assert(q1.byte((STACK_OFFSET + cpu.stack_pointer) as int) == high_byte(data));
    crate::util::lemma_word_bytes(data);
}

/// BIT: the negative flag takes bit 7 of the operand and the overflow flag bit 6; zero
/// tells whether the accumulator and the operand have no bit in common. The registers
/// and the other flags stay as they were.
pub proof fn lemma_bit_flags(cpu: CPU, mode: AdressingMode)
    requires
        cpu.bit_result(mode) is Some,
    ensures
        ({
            let value = cpu.operand(mode).unwrap().2;
            let r = cpu.bit_result(mode).unwrap();
            &&& (r.status.bits & 0x80 != 0) == (value & 0x80 != 0)
            &&& (r.status.bits & 0x40 != 0) == (value & 0x40 != 0)
            &&& (r.status.bits & 0x02 != 0) == (cpu.accumulator & value == 0)
            &&& r.status.bits & 0x3D == cpu.status.bits & 0x3D
            &&& r.accumulator == cpu.accumulator
            &&& r.register_x == cpu.register_x
            &&& r.register_y == cpu.register_y
            &&& r.stack_pointer == cpu.stack_pointer
        }),
{
    let value = cpu.operand(mode).unwrap().2;
    lemma_status_bits(cpu.status.bits, false, false, 0, cpu.accumulator, value);
}

/// The byte facts behind the flat CPU's flag updates. `s` is `b` after the carry, the
/// overflow, and then the negative and zero bits of `result` were written, as
/// `CpuFlags::with` and `zero_negative` write them; `t` is `b` after the negative and zero
/// bits alone; `u` is `b` after a bit test of `v` against `a` (zero, negative, overflow).
/// Each written bit reads back and the others stay. Then reading bits 0 and 7 of a byte
/// as numbers, and shifts of `v` by one place in numbers.
proof fn lemma_status_bits(b: u8, carry: bool, overflow: bool, result: u8, a: u8, v: u8)
    by (bit_vector)
    ensures
        ({
            let s1 = if carry { b | 1u8 } else { b & !1u8 };
            let s2 = if overflow { s1 | 0x40u8 } else { s1 & !0x40u8 };
            let s3 = if bit_of(result, 7) { s2 | 0x80u8 } else { s2 & !0x80u8 };
            let s = if result == 0 { s3 | 2u8 } else { s3 & !2u8 };
            &&& (s & 0x01 != 0) == carry
            &&& (s & 0x40 != 0) == overflow
            &&& (s & 0x02 != 0) == (result == 0)
            &&& (s & 0x80 != 0) == (result >= 128)
            &&& s & 0x3C == b & 0x3C
        }),
        ({
            let s1 = if carry { b | 1u8 } else { b & !1u8 };
            let s3 = if bit_of(result, 7) { s1 | 0x80u8 } else { s1 & !0x80u8 };
            let s = if result == 0 { s3 | 2u8 } else { s3 & !2u8 };
            &&& (s & 0x01 != 0) == carry
            &&& (s & 0x02 != 0) == (result == 0)
            &&& (s & 0x80 != 0) == (result >= 128)
            &&& s & 0x7C == b & 0x7C
        }),
        ({
            let t3 = if bit_of(result, 7) { b | 0x80u8 } else { b & !0x80u8 };
            let t = if result == 0 { t3 | 2u8 } else { t3 & !2u8 };
            &&& (t & 0x02 != 0) == (result == 0)
            &&& (t & 0x80 != 0) == (result >= 128)
            &&& t & 0x7D == b & 0x7D
        }),
        ({
            let u1 = if a & v == 0 { b | 2u8 } else { b & !2u8 };
            let u2 = if bit_of(v, 7) { u1 | 0x80u8 } else { u1 & !0x80u8 };
            let u = if bit_of(v, 6) { u2 | 0x40u8 } else { u2 & !0x40u8 };
            &&& (u & 0x80 != 0) == (v & 0x80 != 0)
            &&& (u & 0x40 != 0) == (v & 0x40 != 0)
            &&& (u & 0x02 != 0) == (a & v == 0)
            &&& u & 0x3D == b & 0x3D
        }),
        (b & 1u8 == 1u8) == (b & 0x01 != 0),
        bit_of(a, 7) == (a >= 128),
        bit_of(v, 7) == (v >= 128),
        bit_of(result, 7) == (result >= 128),
        bit_of(v, 0) == (v % 2 == 1),
        (v >> 1u8) == v / 2,
        ((v >> 1u8) | 0x80u8) == v / 2 + 128,
        ((v >> 1u8) | 0u8) == (v >> 1u8),
        (v << 1u8) == (v % 128) * 2,
        ((v << 1u8) | 1u8) == (v % 128) * 2 + 1,
        ((v << 1u8) | 0u8) == (v << 1u8),
{
}

/// ADC: the accumulator becomes A + M + C modulo 256; the carry is set exactly when the
/// sum passes 255, overflow exactly when A and M have one sign and the result the other,
/// and zero and negative follow the result. X, Y and the other flags stay.
pub proof fn lemma_adc(cpu: CPU, mode: AdressingMode)
    requires
        cpu.adc_result(mode) is Some,
    ensures
        ({
            let a = cpu.accumulator;
            let v = cpu.operand(mode).unwrap().2;
            let sum = a + v + (if cpu.status.bits & 0x01 != 0 { 1int } else { 0 });
            let r = cpu.adc_result(mode).unwrap();
            let f = r.status.bits;
            &&& r.accumulator == sum % 256
            &&& (f & 0x01 != 0) == (sum > 255)
            &&& (f & 0x40 != 0) == ((a >= 128) == (v >= 128) && (r.accumulator >= 128) != (a
                >= 128))
            &&& (f & 0x02 != 0) == (r.accumulator == 0)
            &&& (f & 0x80 != 0) == (r.accumulator >= 128)
            &&& f & 0x3C == cpu.status.bits & 0x3C
            &&& r.register_x == cpu.register_x
            &&& r.register_y == cpu.register_y
        }),
{
    let v = cpu.operand(mode).unwrap().2;
    let carry: int = if cpu.status.has(CpuFlags::CARRY) { 1 } else { 0 };
    let sum = cpu.accumulator as int + v as int + carry;
    let result = (sum % 256) as u8;
    let overflow = bit_of(cpu.accumulator, 7) == bit_of(v, 7) && bit_of(cpu.accumulator, 7)
        != bit_of(result, 7);
    lemma_status_bits(cpu.status.bits, sum > 255, overflow, result, cpu.accumulator, v);
}

/// SBC: the accumulator becomes A - M - (1 - C) modulo 256; the carry is set exactly when
/// no borrow was needed, overflow exactly when A and M have different signs and the
/// result has the sign of M, and zero and negative follow the result. X, Y and the other
/// flags stay.
pub proof fn lemma_sbc(cpu: CPU, mode: AdressingMode)
    requires
        cpu.sdc_result(mode) is Some,
    ensures
        ({
            let a = cpu.accumulator;
            let v = cpu.operand(mode).unwrap().2;
            let diff = a - v - (if cpu.status.bits & 0x01 != 0 { 0int } else { 1 });
            let r = cpu.sdc_result(mode).unwrap();
            let f = r.status.bits;
            &&& r.accumulator == (diff + 256) % 256
            &&& (f & 0x01 != 0) == (diff >= 0)
            &&& (f & 0x40 != 0) == ((a >= 128) != (v >= 128) && (r.accumulator >= 128) != (a
                >= 128))
            &&& (f & 0x02 != 0) == (r.accumulator == 0)
            &&& (f & 0x80 != 0) == (r.accumulator >= 128)
            &&& f & 0x3C == cpu.status.bits & 0x3C
            &&& r.register_x == cpu.register_x
            &&& r.register_y == cpu.register_y
        }),
{
    let v = cpu.operand(mode).unwrap().2;
    let borrow: int = if cpu.status.has(CpuFlags::CARRY) { 0 } else { 1 };
    let difference = cpu.accumulator as int - v as int - borrow;
    let result = ((difference + 512) % 256) as u8;
    let overflow = bit_of(cpu.accumulator, 7) != bit_of(v, 7) && bit_of(cpu.accumulator, 7)
        != bit_of(result, 7);
    lemma_status_bits(cpu.status.bits, difference >= 0, overflow, result, cpu.accumulator, v);
}

/// CMP, CPX and CPY: comparing `register` with the operand sets the carry exactly when
/// the register is at least the operand (equal values set it), zero exactly when they
/// are equal, and negative from bit 7 of their difference modulo 256; the registers and
/// the other flags stay.
pub proof fn lemma_compare(cpu: CPU, mode: AdressingMode, register: u8)
    requires
        cpu.compare_result(mode, register) is Some,
    ensures
        ({
            let v = cpu.operand(mode).unwrap().2;
            let r = cpu.compare_result(mode, register).unwrap();
            let f = r.status.bits;
            &&& (f & 0x01 != 0) == (register >= v)
            &&& (f & 0x02 != 0) == (register == v)
            &&& (f & 0x80 != 0) == ((register - v + 256) % 256 >= 128)
            &&& f & 0x7C == cpu.status.bits & 0x7C
            &&& r.accumulator == cpu.accumulator
            &&& r.register_x == cpu.register_x
            &&& r.register_y == cpu.register_y
        }),
{
    let v = cpu.operand(mode).unwrap().2;
    let d = register.wrapping_sub(v);
    lemma_status_bits(cpu.status.bits, register >= v, false, d, 0, 0);
}

/// AND, EOR and ORA combine the operand into the accumulator bit by bit; zero and
/// negative follow the result, and the carry, overflow and other flags stay.
pub proof fn lemma_logic(cpu: CPU, mode: AdressingMode, op: Logic)
    requires
        cpu.logic_result(mode, op) is Some,
    ensures
        ({
            let a = cpu.accumulator;
            let v = cpu.operand(mode).unwrap().2;
            let r = cpu.logic_result(mode, op).unwrap();
            &&& r.accumulator == (match op {
                Logic::And => a & v,
                Logic::Eor => a ^ v,
                Logic::Ora => a | v,
            })
            &&& (r.status.bits & 0x02 != 0) == (r.accumulator == 0)
            &&& (r.status.bits & 0x80 != 0) == (r.accumulator >= 128)
            &&& r.status.bits & 0x7D == cpu.status.bits & 0x7D
        }),
{
    let r = cpu.logic_result(mode, op).unwrap();
    lemma_status_bits(cpu.status.bits, false, false, r.accumulator, 0, 0);
}

/// The shifts of the accumulator, in numbers: ASL doubles it (modulo 256) and LSR halves
/// it; ROL and ROR do the same and bring the old carry in at bit 0 and bit 7. The bit
/// shifted out becomes the carry; zero and negative follow the result, and overflow and
/// the other flags stay.
pub proof fn lemma_shift_accumulator(cpu: CPU)
    ensures
        ({
            let a = cpu.accumulator;
            let carry: int = if cpu.status.bits & 0x01 != 0 { 1 } else { 0 };
            let asl = cpu.modified_accumulator(Shift::ShiftLeft);
            let lsr = cpu.modified_accumulator(Shift::ShiftRight);
            let rol = cpu.modified_accumulator(Shift::RotateLeft);
            let ror = cpu.modified_accumulator(Shift::RotateRight);
            &&& asl.accumulator == (a % 128) * 2
            &&& (asl.status.bits & 0x01 != 0) == (a >= 128)
            &&& lsr.accumulator == a / 2
            &&& (lsr.status.bits & 0x01 != 0) == (a % 2 == 1)
            &&& rol.accumulator == (a % 128) * 2 + carry
            &&& (rol.status.bits & 0x01 != 0) == (a >= 128)
            &&& ror.accumulator == a / 2 + 128 * carry
            &&& (ror.status.bits & 0x01 != 0) == (a % 2 == 1)
            &&& (asl.status.bits & 0x02 != 0) == (asl.accumulator == 0)
            &&& (asl.status.bits & 0x80 != 0) == (asl.accumulator >= 128)
            &&& (lsr.status.bits & 0x02 != 0) == (lsr.accumulator == 0)
            &&& (lsr.status.bits & 0x80 != 0) == (lsr.accumulator >= 128)
            &&& (rol.status.bits & 0x02 != 0) == (rol.accumulator == 0)
            &&& (rol.status.bits & 0x80 != 0) == (rol.accumulator >= 128)
            &&& (ror.status.bits & 0x02 != 0) == (ror.accumulator == 0)
            &&& (ror.status.bits & 0x80 != 0) == (ror.accumulator >= 128)
            &&& asl.status.bits & 0x7C == cpu.status.bits & 0x7C
            &&& lsr.status.bits & 0x7C == cpu.status.bits & 0x7C
            &&& rol.status.bits & 0x7C == cpu.status.bits & 0x7C
            &&& ror.status.bits & 0x7C == cpu.status.bits & 0x7C
        }),
{
    let a = cpu.accumulator;
    let b = cpu.status.bits;
    let c = cpu.status.has(CpuFlags::CARRY);
    lemma_status_bits(b, false, false, 0, 0, a);
    lemma_status_bits(b, bit_of(a, 7), false, (a << 1u8) as u8, 0, a);
    lemma_status_bits(b, bit_of(a, 0), false, a >> 1u8, 0, a);
    lemma_status_bits(b, bit_of(a, 7), false, rotl(a, c), 0, a);
    lemma_status_bits(b, bit_of(a, 0), false, rotr(a, c), 0, a);
}

} // verus!
