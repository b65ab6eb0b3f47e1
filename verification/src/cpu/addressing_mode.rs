//! Where an instruction finds its operand.
//! See https://www.nesdev.org/wiki/CPU_addressing_modes

use super::{different_pages, Cpu};
use crate::bus::Memory;
use crate::simple_cpu::sign_extend;
use crate::util::word;
use vstd::prelude::*;

verus! {

/// See https://www.nesdev.org/wiki/CPU_addressing_modes
#[derive(Clone, Copy, Debug, PartialEq, Eq, Structural)]
pub enum AddressingMode {
    Implied,
    Relative,
    Immediate,
    Accumulator,
    Indirect,
    IndirectX,
    IndirectY,
    Absolute,
    AbsoluteX,
    AbsoluteY,
    ZeroPage,
    ZeroPageX,
    ZeroPageY,
}

/// A read of the little-endian word at `lo_addr` and `hi_addr`, in that order.
pub open spec fn pointer_at(cpu: Cpu, lo_addr: u16, hi_addr: u16) -> Option<(Cpu, u16)> {
    match cpu.read_at(lo_addr) {
        Some((c1, lo)) => match c1.read_at(hi_addr) {
            Some((c2, hi)) => Some((c2, word(lo, hi))),
            None => None,
        },
        None => None,
    }
}

impl AddressingMode {
    /// The mode has operand bytes.
    pub open spec fn has_operand(self) -> bool {
        !(self == AddressingMode::Implied || self == AddressingMode::Accumulator)
    }

    /// The length of an instruction in this mode, counting the opcode.
    pub open spec fn length(self) -> u16 {
        match self {
            AddressingMode::Implied | AddressingMode::Accumulator => 1,
            AddressingMode::Indirect
            | AddressingMode::Absolute
            | AddressingMode::AbsoluteX
            | AddressingMode::AbsoluteY => 3,
            _ => 2,
        }
    }

    /// The address of the operand of the instruction at the program counter, the CPU
    /// after the reads that finding it takes, and whether indexing crossed a page.
    /// None for the modes without operand, or where a read is not defined.
    pub open spec fn param_address(self, cpu: Cpu) -> Option<(Cpu, u16, bool)> {
        let after_opcode = cpu.program_counter.wrapping_add(1);
        match self {
            AddressingMode::Immediate => Some((cpu, after_opcode, false)),
            AddressingMode::Absolute => match cpu.word_at(after_opcode) {
                Some((c, w)) => Some((c, w, false)),
                None => None,
            },
            AddressingMode::ZeroPage => match cpu.read_at(after_opcode) {
                Some((c, b)) => Some((c, b as u16, false)),
                None => None,
            },
            AddressingMode::ZeroPageX => match cpu.read_at(after_opcode) {
                Some((c, b)) => Some((c, b.wrapping_add(cpu.register_x) as u16, false)),
                None => None,
            },
            AddressingMode::ZeroPageY => match cpu.read_at(after_opcode) {
                Some((c, b)) => Some((c, b.wrapping_add(cpu.register_y) as u16, false)),
                None => None,
            },
            AddressingMode::AbsoluteX => match cpu.word_at(after_opcode) {
                Some((c, base)) => {
                    let addr = base.wrapping_add(cpu.register_x as u16);
                    Some((c, addr, different_pages(base, addr)))
                },
                None => None,
            },
            AddressingMode::AbsoluteY => match cpu.word_at(after_opcode) {
                Some((c, base)) => {
                    let addr = base.wrapping_add(cpu.register_y as u16);
                    Some((c, addr, different_pages(base, addr)))
                },
                None => None,
            },
            AddressingMode::Relative => match cpu.read_at(after_opcode) {
                Some((c, offset)) => {
                    let addr = cpu.program_counter.wrapping_add(2).wrapping_add(
                        sign_extend(offset),
                    );
                    Some((c, addr, different_pages(after_opcode, addr)))
                },
                None => None,
            },
            AddressingMode::Indirect => match cpu.word_at(after_opcode) {
                Some((c, ptr)) => {
                    // The 6502 takes the high byte from the start of the same page when
                    // the pointer sits at the end of a page.
                    let hi_addr = if ptr % 256 == 0xFF {
                        (ptr - 0xFF) as u16
                    } else {
                        ptr.wrapping_add(1)
                    };
                    match pointer_at(c, ptr, hi_addr) {
                        Some((c2, addr)) => Some((c2, addr, false)),
                        None => None,
                    }
                },
                None => None,
            },
            AddressingMode::IndirectX => match cpu.read_at(after_opcode) {
                Some((c, b)) => {
                    let ptr = b.wrapping_add(cpu.register_x);
                    match pointer_at(c, ptr as u16, ptr.wrapping_add(1) as u16) {
                        Some((c2, addr)) => Some((c2, addr, false)),
                        None => None,
                    }
                },
                None => None,
            },
            AddressingMode::IndirectY => match cpu.read_at(after_opcode) {
                Some((c, ptr)) => match pointer_at(c, ptr as u16, ptr.wrapping_add(1) as u16) {
                    Some((c2, base)) => {
                        let addr = base.wrapping_add(cpu.register_y as u16);
                        Some((c2, addr, different_pages(base, addr)))
                    },
                    None => None,
                },
                None => None,
            },
            AddressingMode::Implied | AddressingMode::Accumulator => None,
        }
    }

    /// The operand itself: read at its address.
    pub open spec fn param(self, cpu: Cpu) -> Option<(Cpu, u8, bool)> {
        match self.param_address(cpu) {
            Some((c, addr, crossed)) => match c.read_at(addr) {
                Some((c2, v)) => Some((c2, v, crossed)),
                None => None,
            },
            None => None,
        }
    }

    /// The mode has operand bytes.
    pub fn has_arguments(&self) -> (r: bool)
        ensures
            r == self.has_operand(),
    {
        !matches!(self, AddressingMode::Implied | AddressingMode::Accumulator)
    }

    /// The length of an instruction, counting the identifier and arguments.
    pub fn len(&self) -> (r: u16)
        ensures
            r == self.length(),
    {
        match self {
            AddressingMode::Implied | AddressingMode::Accumulator => 1,
            AddressingMode::Immediate
            | AddressingMode::Relative
            | AddressingMode::IndirectX
            | AddressingMode::IndirectY
            | AddressingMode::ZeroPage
            | AddressingMode::ZeroPageX
            | AddressingMode::ZeroPageY => 2,
            AddressingMode::Indirect
            | AddressingMode::Absolute
            | AddressingMode::AbsoluteX
            | AddressingMode::AbsoluteY => 3,
        }
    }

    /// Read a pointer: the low byte at `lo_addr`, then the high byte at `hi_addr`.
    fn read_pointer(cpu: &mut Cpu, lo_addr: u16, hi_addr: u16) -> (r: u16)
        requires
            pointer_at(*old(cpu), lo_addr, hi_addr) is Some,
        ensures
            Some((*final(cpu), r)) == pointer_at(*old(cpu), lo_addr, hi_addr),
    {
        let low = cpu.read_byte(lo_addr);
        let high = cpu.read_byte(hi_addr);
        crate::util::word_from_bytes(low, high)
    }

    /// Fetch the address of the operand. Returns the address and a flag indicating if a
    /// page boundary was crossed.
    pub fn fetch_param_address(&self, cpu: &mut Cpu) -> (r: (u16, bool))
        requires
            self.param_address(*old(cpu)) is Some,
        ensures
            Some((*final(cpu), r.0, r.1)) == self.param_address(*old(cpu)),
    {
        let after_opcode = cpu.program_counter.wrapping_add(1);
        match self {
            Self::Immediate => (after_opcode, false),
            Self::Absolute => (cpu.read_word(after_opcode), false),
            Self::ZeroPage => (cpu.read_byte(after_opcode) as u16, false),
            Self::ZeroPageX => {
                let b = cpu.read_byte(after_opcode);
                (b.wrapping_add(cpu.register_x) as u16, false)
            },
            Self::ZeroPageY => {
                let b = cpu.read_byte(after_opcode);
                (b.wrapping_add(cpu.register_y) as u16, false)
            },
            Self::AbsoluteX => {
                let addr_base = cpu.read_word(after_opcode);
                let addr = addr_base.wrapping_add(cpu.register_x as u16);
                (addr, Cpu::is_on_different_page(addr_base, addr))
            },
            Self::AbsoluteY => {
                let addr_base = cpu.read_word(after_opcode);
                let addr = addr_base.wrapping_add(cpu.register_y as u16);
                (addr, Cpu::is_on_different_page(addr_base, addr))
            },
            Self::Relative => {
                let after_param = cpu.program_counter.wrapping_add(self.len());
                // Convert to a signed value to allow two's complement arithmetic
                let offset = cpu.read_byte(after_opcode);
                let extended: u16 = if offset < 128 { offset as u16 } else { offset as u16 + 0xFF00 };
                let addr = after_param.wrapping_add(extended);
                (addr, Cpu::is_on_different_page(after_opcode, addr))
            },
            Self::Indirect => {
                let ptr = cpu.read_word(after_opcode);
                // An original 6502 does not correctly fetch the target address if the
                // indirect vector falls on a page boundary ($xxFF): it takes the LSB from
                // $xxFF as expected but the MSB from $xx00.
                let hi_addr = if ptr & 0x00FF == 0xFF {
                    ptr & 0xFF00
                } else {
                    ptr.wrapping_add(1)
                };
                assert(ptr & 0x00FF == 0xFF <==> ptr % 256 == 0xFF) by (bit_vector);
                assert(ptr % 256 == 0xFF ==> ptr & 0xFF00 == ptr - 0xFF) by (bit_vector);
                (Self::read_pointer(cpu, ptr, hi_addr), false)
            },
            Self::IndirectX => {
                let b = cpu.read_byte(after_opcode);
                let ptr = b.wrapping_add(cpu.register_x);
                (Self::read_pointer(cpu, ptr as u16, ptr.wrapping_add(1) as u16), false)
            },
            Self::IndirectY => {
                let ptr = cpu.read_byte(after_opcode);
                let addr_base = Self::read_pointer(cpu, ptr as u16, ptr.wrapping_add(1) as u16);
                let addr = addr_base.wrapping_add(cpu.register_y as u16);
                (addr, Cpu::is_on_different_page(addr_base, addr))
            },
            Self::Implied | Self::Accumulator => (0, false),
        }
    }

    /// Fetch the operand. Returns the operand and a flag indicating if a page boundary
    /// was crossed.
    pub fn fetch_param(&self, cpu: &mut Cpu) -> (r: (u8, bool))
        requires
            self.param(*old(cpu)) is Some,
        ensures
            Some((*final(cpu), r.0, r.1)) == self.param(*old(cpu)),
    {
        let (addr, page_crossed) = self.fetch_param_address(cpu);
        (cpu.read_byte(addr), page_crossed)
    }

    /// The name of the mode, for debugging output.
    pub fn name(&self) -> (r: &'static str)
        ensures
            r@ == mode_name(*self),
    {
        match self {
            Self::Implied => "implied",
            Self::Relative => "relative",
            Self::Immediate => "immediate",
            Self::Accumulator => "accumulator",
            Self::Indirect => "indirect",
            Self::IndirectX => "indirectX",
            Self::IndirectY => "indirectY",
            Self::Absolute => "absolute",
            Self::AbsoluteX => "absoluteX",
            Self::AbsoluteY => "absoluteY",
            Self::ZeroPage => "zeropage",
            Self::ZeroPageX => "zeropageX",
            Self::ZeroPageY => "zeropageX",
        }
    }
}

/// The name of a mode, for debugging output; zero page Y shows as `zeropageX`.
pub open spec fn mode_name(mode: AddressingMode) -> Seq<char> {
    match mode {
        AddressingMode::Implied => "implied"@,
        AddressingMode::Relative => "relative"@,
        AddressingMode::Immediate => "immediate"@,
        AddressingMode::Accumulator => "accumulator"@,
        AddressingMode::Indirect => "indirect"@,
        AddressingMode::IndirectX => "indirectX"@,
        AddressingMode::IndirectY => "indirectY"@,
        AddressingMode::Absolute => "absolute"@,
        AddressingMode::AbsoluteX => "absoluteX"@,
        AddressingMode::AbsoluteY => "absoluteY"@,
        AddressingMode::ZeroPage => "zeropage"@,
        AddressingMode::ZeroPageX => "zeropageX"@,
        AddressingMode::ZeroPageY => "zeropageX"@,
    }
}

} // verus!
