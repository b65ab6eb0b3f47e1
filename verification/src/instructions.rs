//! The instruction set of the flat-memory interpreter, one type per instruction: each
//! knows its opcodes, its mnemonic, and how it changes the CPU.

use crate::simple_cpu::{
    rotate_left_one, rotate_right_one, rotl, rotr, sign_extend, zero_negative, CpuFlags, CPU,
    RAM_SIZE,
};
use crate::util::{bit_of, word, word_from_bytes};
use vstd::prelude::*;

verus! {

/// See https://www.nesdev.org/wiki/CPU_addressing_modes
#[derive(Clone, Copy, Debug, PartialEq, Eq, Structural)]
pub enum AdressingMode {
    Implied,
    Relative,
    Immediate,
    Accumulator,
    Indirect,
    IndirectX,
    IndirectY,
    Absolute,
    AbsoluteX,
    AbsoluteY,
    ZeroPage,
    ZeroPageX,
    ZeroPageY,
}

/// The number of operand bytes in `mode`.
pub open spec fn params_len(mode: AdressingMode) -> int {
    match mode {
        AdressingMode::Implied | AdressingMode::Accumulator => 0,
        AdressingMode::Absolute | AdressingMode::AbsoluteX | AdressingMode::AbsoluteY => 2,
        _ => 1,
    }
}

/// The program counter after the operands of an instruction at `pc`, while it fits.
pub open spec fn next_pc(pc: u16, mode: AdressingMode) -> Option<u16> {
    if pc as int + params_len(mode) <= u16::MAX {
        Some((pc as int + params_len(mode)) as u16)
    } else {
        None
    }
}

/// The little-endian word at `ptr` and `ptr + 1` (wrapping), while both are in memory.
pub open spec fn pointer_target(cpu: CPU, ptr: u16) -> Option<u16> {
    match (cpu.read(ptr), cpu.read(ptr.wrapping_add(1))) {
        (Some(lo), Some(hi)) => Some(word(lo, hi)),
        _ => None,
    }
}

/// The address of the operand of an instruction in `mode` whose operand bytes start at
/// the program counter; none for the modes without operands or for reads out of memory.
pub open spec fn param_address(cpu: CPU, mode: AdressingMode) -> Option<u16> {
    let pc = cpu.program_counter;
    match mode {
        AdressingMode::Immediate => Some(pc),
        AdressingMode::Absolute => cpu.read_word_at(pc),
        AdressingMode::ZeroPage => match cpu.read(pc) {
            Some(b) => Some(b as u16),
            None => None,
        },
        AdressingMode::Relative => match cpu.read(pc) {
            Some(offset) => Some(pc.wrapping_add(sign_extend(offset))),
            None => None,
        },
        AdressingMode::ZeroPageX => match cpu.read(pc) {
            Some(b) => Some(b.wrapping_add(cpu.register_x) as u16),
            None => None,
        },
        AdressingMode::ZeroPageY => match cpu.read(pc) {
            Some(b) => Some(b.wrapping_add(cpu.register_y) as u16),
            None => None,
        },
        AdressingMode::AbsoluteX => match cpu.read_word_at(pc) {
            Some(w) => Some(w.wrapping_add(cpu.register_x as u16)),
            None => None,
        },
        AdressingMode::AbsoluteY => match cpu.read_word_at(pc) {
            Some(w) => Some(w.wrapping_add(cpu.register_y as u16)),
            None => None,
        },
        AdressingMode::Indirect => match cpu.read_word_at(pc) {
            Some(ptr) => pointer_target(cpu, ptr),
            None => None,
        },
        AdressingMode::IndirectX => match cpu.read_word_at(pc) {
            Some(w) => pointer_target(cpu, w.wrapping_add(cpu.register_x as u16)),
            None => None,
        },
        AdressingMode::IndirectY => match cpu.read_word_at(pc) {
            Some(ptr) => match pointer_target(cpu, ptr) {
                Some(t) => Some(t.wrapping_add(cpu.register_y as u16)),
                None => None,
            },
            None => None,
        },
        AdressingMode::Implied | AdressingMode::Accumulator => None,
    }
}

/// The operand address and the byte there.
pub open spec fn operand(cpu: CPU, mode: AdressingMode) -> Option<(u16, u8)> {
    match param_address(cpu, mode) {
        Some(a) => match cpu.read(a) {
            Some(v) => Some((a, v)),
            None => None,
        },
        None => None,
    }
}

/// `cpu`, with the program counter past the operands as the next one.
pub open spec fn finish(cpu: CPU, mode: AdressingMode) -> Option<(CPU, u16)> {
    match next_pc(cpu.program_counter, mode) {
        Some(pc) => Some((cpu, pc)),
        None => None,
    }
}

/// `cpu` with new status flags.
pub open spec fn with_status(cpu: CPU, status: CpuFlags) -> CPU {
    CPU { status, ..cpu }
}

/// `cpu` with the zero and negative flags following `value`.
pub open spec fn flagged(cpu: CPU, value: u8) -> CPU {
    CPU { status: zero_negative(cpu.status, value), ..cpu }
}

/// Get the next program counter based on the adressing mode.
pub fn consume_params(pc: u16, mode: &AdressingMode) -> (r: u16)
    requires
        next_pc(pc, *mode) is Some,
    ensures
        Some(r) == next_pc(pc, *mode),
{
    match mode {
        AdressingMode::Implied | AdressingMode::Accumulator => pc,
        AdressingMode::Immediate
        | AdressingMode::Relative
        | AdressingMode::Indirect
        | AdressingMode::IndirectX
        | AdressingMode::IndirectY
        | AdressingMode::ZeroPage
        | AdressingMode::ZeroPageX
        | AdressingMode::ZeroPageY => pc + 1,
        AdressingMode::Absolute | AdressingMode::AbsoluteX | AdressingMode::AbsoluteY => pc + 2,
    }
}

/// The word at `ptr` and `ptr + 1`, wrapping.
fn read_pointer(cpu: &CPU, ptr: u16) -> (r: u16)
    requires
        pointer_target(*cpu, ptr) is Some,
    ensures
        Some(r) == pointer_target(*cpu, ptr),
{
    word_from_bytes(cpu.read_byte(ptr), cpu.read_byte(ptr.wrapping_add(1)))
}

/// Get the memory address of an parameter, based on the adressing mode.
pub fn get_params(cpu: &CPU, mode: &AdressingMode) -> (r: u16)
    requires
        param_address(*cpu, *mode) is Some,
    ensures
        Some(r) == param_address(*cpu, *mode),
{
    let pc = cpu.program_counter;
    match mode {
        AdressingMode::Immediate => pc,
        AdressingMode::Absolute => cpu.read_word(pc),
        AdressingMode::ZeroPage => cpu.read_byte(pc) as u16,
        AdressingMode::Relative => {
            let offset = cpu.read_byte(pc);
            let extended: u16 = if offset < 128 { offset as u16 } else { offset as u16 + 0xFF00 };
            pc.wrapping_add(extended)
        },
        AdressingMode::ZeroPageX => cpu.read_byte(pc).wrapping_add(cpu.register_x) as u16,
        AdressingMode::ZeroPageY => cpu.read_byte(pc).wrapping_add(cpu.register_y) as u16,
        AdressingMode::AbsoluteX => cpu.read_word(pc).wrapping_add(cpu.register_x as u16),
        AdressingMode::AbsoluteY => cpu.read_word(pc).wrapping_add(cpu.register_y as u16),
        AdressingMode::Indirect => {
            let ptr = cpu.read_word(pc);
            read_pointer(cpu, ptr)
        },
        AdressingMode::IndirectX => {
            let ptr = cpu.read_word(pc).wrapping_add(cpu.register_x as u16);
            read_pointer(cpu, ptr)
        },
        AdressingMode::IndirectY => {
            let ptr = cpu.read_word(pc);
            read_pointer(cpu, ptr).wrapping_add(cpu.register_y as u16)
        },
        AdressingMode::Implied | AdressingMode::Accumulator => 0,
    }
}

/// An instruction: its opcodes with their addressing modes, its mnemonic, and its effect.
pub trait Instruction {
    /// The opcodes of the instruction, each with its addressing mode.
    spec fn opcode_list(&self) -> Seq<(u8, AdressingMode)>;

    /// The mnemonic.
    spec fn mnemonic(&self) -> Seq<char>;

    /// The CPU after executing the instruction in `mode`, and the next program counter;
    /// none where the instruction would read or write outside memory, take a mode it has
    /// no operand in, or move the program counter past `$FFFF`.
    spec fn result(&self, cpu: CPU, mode: AdressingMode) -> Option<(CPU, u16)>;

    /// The opcodes used by this instruction together with the corresponding addressing mode.
    fn opcodes(&self) -> (r: &'static [(u8, AdressingMode)])
        ensures
            r@ == self.opcode_list(),
    ;

    /// The name of the instruction, used for assembly output.
    fn name(&self) -> (r: &'static str)
        ensures
            r@ == self.mnemonic(),
    ;

    /// Execute the opcode, returning the next program counter.
    fn execute(&self, cpu: &mut CPU, mode: &AdressingMode) -> (r: u16)
        requires
            self.result(*old(cpu), *mode) is Some,
        ensures
            Some((*final(cpu), r)) == self.result(*old(cpu), *mode),
    ;
}

/// No operation.
pub struct Nop;

impl Instruction for Nop {
    open spec fn opcode_list(&self) -> Seq<(u8, AdressingMode)> {
        seq![(0xEAu8, AdressingMode::Implied)]
    }

    open spec fn mnemonic(&self) -> Seq<char> {
        "NOP"@
    }

    open spec fn result(&self, cpu: CPU, mode: AdressingMode) -> Option<(CPU, u16)> {
        finish(cpu, mode)
    }

    fn opcodes(&self) -> (r: &'static [(u8, AdressingMode)]) {
        let r: &'static [(u8, AdressingMode)] = &[(0xEA, AdressingMode::Implied)];
        assert(r@ =~= self.opcode_list());
        r
    }

    fn name(&self) -> (r: &'static str) {
        "NOP"
    }

    fn execute(&self, cpu: &mut CPU, mode: &AdressingMode) -> (r: u16) {
        consume_params(cpu.program_counter, mode)
    }
}

/// Break: stops the interpreter, which handles it itself.
pub struct Brk;

impl Instruction for Brk {
    open spec fn opcode_list(&self) -> Seq<(u8, AdressingMode)> {
        seq![(0x00u8, AdressingMode::Implied)]
    }

    open spec fn mnemonic(&self) -> Seq<char> {
        "BRK"@
    }

    open spec fn result(&self, cpu: CPU, mode: AdressingMode) -> Option<(CPU, u16)> {
        finish(cpu, mode)
    }

    fn opcodes(&self) -> (r: &'static [(u8, AdressingMode)]) {
        let r: &'static [(u8, AdressingMode)] = &[(0x00, AdressingMode::Implied)];
        assert(r@ =~= self.opcode_list());
        r
    }

    fn name(&self) -> (r: &'static str) {
        "BRK"
    }

    fn execute(&self, cpu: &mut CPU, mode: &AdressingMode) -> (r: u16) {
        consume_params(cpu.program_counter, mode)
    }
}

/// Jump to the operand address.
pub struct Jmp;

impl Instruction for Jmp {
    open spec fn opcode_list(&self) -> Seq<(u8, AdressingMode)> {
        seq![(0x4Cu8, AdressingMode::Absolute), (0x6Cu8, AdressingMode::Indirect)]
    }

    open spec fn mnemonic(&self) -> Seq<char> {
        "JMP"@
    }

    open spec fn result(&self, cpu: CPU, mode: AdressingMode) -> Option<(CPU, u16)> {
        match param_address(cpu, mode) {
            Some(a) => Some((cpu, a)),
            None => None,
        }
    }

    fn opcodes(&self) -> (r: &'static [(u8, AdressingMode)]) {
        let r: &'static [(u8, AdressingMode)] = &[(0x4C, AdressingMode::Absolute), (0x6C, AdressingMode::Indirect)];
        assert(r@ =~= self.opcode_list());
        r
    }

    fn name(&self) -> (r: &'static str) {
        "JMP"
    }

    fn execute(&self, cpu: &mut CPU, mode: &AdressingMode) -> (r: u16) {
        get_params(cpu, mode)
    }
}

/// Increment X.
pub struct Inx;

impl Instruction for Inx {
    open spec fn opcode_list(&self) -> Seq<(u8, AdressingMode)> {
        seq![(0xE8u8, AdressingMode::Implied)]
    }

    open spec fn mnemonic(&self) -> Seq<char> {
        "INX"@
    }

    open spec fn result(&self, cpu: CPU, mode: AdressingMode) -> Option<(CPU, u16)> {
        finish(flagged(CPU { register_x: cpu.register_x.wrapping_add(1), ..cpu }, cpu.register_x.wrapping_add(1)), mode)
    }

    fn opcodes(&self) -> (r: &'static [(u8, AdressingMode)]) {
        let r: &'static [(u8, AdressingMode)] = &[(0xE8, AdressingMode::Implied)];
        assert(r@ =~= self.opcode_list());
        r
    }

    fn name(&self) -> (r: &'static str) {
        "INX"
    }

    fn execute(&self, cpu: &mut CPU, mode: &AdressingMode) -> (r: u16) {
        cpu.register_x = cpu.register_x.wrapping_add(1);
        cpu.update_zero_and_negative_flags(cpu.register_x);
        consume_params(cpu.program_counter, mode)
    }
}

/// Increment Y.
pub struct Iny;

impl Instruction for Iny {
    open spec fn opcode_list(&self) -> Seq<(u8, AdressingMode)> {
        seq![(0xC8u8, AdressingMode::Implied)]
    }

    open spec fn mnemonic(&self) -> Seq<char> {
        "INY"@
    }

    open spec fn result(&self, cpu: CPU, mode: AdressingMode) -> Option<(CPU, u16)> {
        finish(flagged(CPU { register_y: cpu.register_y.wrapping_add(1), ..cpu }, cpu.register_y.wrapping_add(1)), mode)
    }

    fn opcodes(&self) -> (r: &'static [(u8, AdressingMode)]) {
        let r: &'static [(u8, AdressingMode)] = &[(0xC8, AdressingMode::Implied)];
        assert(r@ =~= self.opcode_list());
        r
    }

    fn name(&self) -> (r: &'static str) {
        "INY"
    }

    fn execute(&self, cpu: &mut CPU, mode: &AdressingMode) -> (r: u16) {
        cpu.register_y = cpu.register_y.wrapping_add(1);
        cpu.update_zero_and_negative_flags(cpu.register_y);
        consume_params(cpu.program_counter, mode)
    }
}

/// Increment a memory byte.
pub struct Inc;

impl Instruction for Inc {
    open spec fn opcode_list(&self) -> Seq<(u8, AdressingMode)> {
        seq![(0xE6u8, AdressingMode::ZeroPage), (0xF6u8, AdressingMode::ZeroPageX), (0xEEu8, AdressingMode::Absolute), (0xFEu8, AdressingMode::AbsoluteX)]
    }

    open spec fn mnemonic(&self) -> Seq<char> {
        "INC"@
    }

    open spec fn result(&self, cpu: CPU, mode: AdressingMode) -> Option<(CPU, u16)> {
        match operand(cpu, mode) {
            Some((a, v)) => finish(flagged(cpu.stored(a, v.wrapping_add(1)), v.wrapping_add(1)), mode),
            None => None,
        }
    }

    fn opcodes(&self) -> (r: &'static [(u8, AdressingMode)]) {
        let r: &'static [(u8, AdressingMode)] = &[(0xE6, AdressingMode::ZeroPage), (0xF6, AdressingMode::ZeroPageX), (0xEE, AdressingMode::Absolute), (0xFE, AdressingMode::AbsoluteX)];
        assert(r@ =~= self.opcode_list());
        r
    }

    fn name(&self) -> (r: &'static str) {
        "INC"
    }

    fn execute(&self, cpu: &mut CPU, mode: &AdressingMode) -> (r: u16) {
        let addr = get_params(cpu, mode);
        let value = cpu.read_byte(addr).wrapping_add(1);
        cpu.write_byte(addr, value);
        cpu.update_zero_and_negative_flags(value);
        consume_params(cpu.program_counter, mode)
    }
}

/// Return from an interrupt: pop the status, then the program counter.
pub struct Rti;

impl Instruction for Rti {
    open spec fn opcode_list(&self) -> Seq<(u8, AdressingMode)> {
        seq![(0x40u8, AdressingMode::Implied)]
    }

    open spec fn mnemonic(&self) -> Seq<char> {
        "RTI"@
    }

    open spec fn result(&self, cpu: CPU, mode: AdressingMode) -> Option<(CPU, u16)> {
        {
            let (c1, s) = cpu.popped();
            let (c2, lo) = with_status(c1, CpuFlags { bits: s }).popped();
            let (c3, hi) = c2.popped();
            Some((c3, word(lo, hi)))
        }
    }

    fn opcodes(&self) -> (r: &'static [(u8, AdressingMode)]) {
        let r: &'static [(u8, AdressingMode)] = &[(0x40, AdressingMode::Implied)];
        assert(r@ =~= self.opcode_list());
        r
    }

    fn name(&self) -> (r: &'static str) {
        "RTI"
    }

    fn execute(&self, cpu: &mut CPU, mode: &AdressingMode) -> (r: u16) {
        cpu.status = CpuFlags::from_bits_truncate(cpu.stack_pop_byte());
        cpu.stack_pop_word()
    }
}

/// Add with carry, into the accumulator.
pub struct Adc;

impl Instruction for Adc {
    open spec fn opcode_list(&self) -> Seq<(u8, AdressingMode)> {
        seq![(0x69u8, AdressingMode::Immediate), (0x65u8, AdressingMode::ZeroPage), (0x75u8, AdressingMode::ZeroPageX), (0x6Du8, AdressingMode::Absolute), (0x7Du8, AdressingMode::AbsoluteX), (0x79u8, AdressingMode::AbsoluteY), (0x61u8, AdressingMode::IndirectX), (0x71u8, AdressingMode::IndirectY)]
    }

    open spec fn mnemonic(&self) -> Seq<char> {
        "ADC"@
    }

    open spec fn result(&self, cpu: CPU, mode: AdressingMode) -> Option<(CPU, u16)> {
        match operand(cpu, mode) {
            Some((_a, v)) => {
                let carry: int = if cpu.status.has(CpuFlags::CARRY) { 1 } else { 0 };
                let sum = cpu.accumulator as int + v as int + carry;
                let result = (sum % 256) as u8;
                let status = cpu.status.with(CpuFlags::CARRY, sum > 255).with(
                    CpuFlags::OVERFLOW,
                    bit_of(cpu.accumulator, 7) == bit_of(v, 7) && bit_of(cpu.accumulator, 7)
                        != bit_of(result, 7),
                );
                finish(flagged(CPU { accumulator: result, status, ..cpu }, result), mode)
            },
            None => None,
        }
    }

    fn opcodes(&self) -> (r: &'static [(u8, AdressingMode)]) {
        let r: &'static [(u8, AdressingMode)] = &[(0x69, AdressingMode::Immediate), (0x65, AdressingMode::ZeroPage), (0x75, AdressingMode::ZeroPageX), (0x6D, AdressingMode::Absolute), (0x7D, AdressingMode::AbsoluteX), (0x79, AdressingMode::AbsoluteY), (0x61, AdressingMode::IndirectX), (0x71, AdressingMode::IndirectY)];
        assert(r@ =~= self.opcode_list());
        r
    }

    fn name(&self) -> (r: &'static str) {
        "ADC"
    }

    fn execute(&self, cpu: &mut CPU, mode: &AdressingMode) -> (r: u16) {
        let addr = get_params(cpu, mode);
        let value = cpu.read_byte(addr);
        let carry: u16 = if cpu.status.contains(CpuFlags::CARRY) { 1 } else { 0 };
        let sum: u16 = cpu.accumulator as u16 + value as u16 + carry;
        let result = (sum % 256) as u8;
        cpu.status.set(CpuFlags::CARRY, sum > 255);
        cpu.status.set(
            CpuFlags::OVERFLOW,
            CPU::nth_bit(cpu.accumulator, 7) == CPU::nth_bit(value, 7) && CPU::nth_bit(
                cpu.accumulator,
                7,
            ) != CPU::nth_bit(result, 7),
        );
        cpu.accumulator = result;
        cpu.update_zero_and_negative_flags(result);
        consume_params(cpu.program_counter, mode)
    }
}

/// Subtract with carry, from the accumulator.
pub struct Sbc;

impl Instruction for Sbc {
    open spec fn opcode_list(&self) -> Seq<(u8, AdressingMode)> {
        seq![(0xE9u8, AdressingMode::Immediate), (0xE5u8, AdressingMode::ZeroPage), (0xF5u8, AdressingMode::ZeroPageX), (0xEDu8, AdressingMode::Absolute), (0xFDu8, AdressingMode::AbsoluteX), (0xF9u8, AdressingMode::AbsoluteY), (0xE1u8, AdressingMode::IndirectX), (0xF1u8, AdressingMode::IndirectY)]
    }

    open spec fn mnemonic(&self) -> Seq<char> {
        "SBC"@
    }

    open spec fn result(&self, cpu: CPU, mode: AdressingMode) -> Option<(CPU, u16)> {
        match operand(cpu, mode) {
            Some((_a, v)) => {
                let borrow: int = if cpu.status.has(CpuFlags::CARRY) { 0 } else { 1 };
                let difference = cpu.accumulator as int - v as int - borrow;
                let result = ((difference + 512) % 256) as u8;
                let status = cpu.status.with(CpuFlags::CARRY, difference >= 0).with(
                    CpuFlags::OVERFLOW,
                    bit_of(cpu.accumulator, 7) != bit_of(v, 7) && bit_of(cpu.accumulator, 7)
                        != bit_of(result, 7),
                );
                finish(flagged(CPU { accumulator: result, status, ..cpu }, result), mode)
            },
            None => None,
        }
    }

    fn opcodes(&self) -> (r: &'static [(u8, AdressingMode)]) {
        let r: &'static [(u8, AdressingMode)] = &[(0xE9, AdressingMode::Immediate), (0xE5, AdressingMode::ZeroPage), (0xF5, AdressingMode::ZeroPageX), (0xED, AdressingMode::Absolute), (0xFD, AdressingMode::AbsoluteX), (0xF9, AdressingMode::AbsoluteY), (0xE1, AdressingMode::IndirectX), (0xF1, AdressingMode::IndirectY)];
        assert(r@ =~= self.opcode_list());
        r
    }

    fn name(&self) -> (r: &'static str) {
        "SBC"
    }

    fn execute(&self, cpu: &mut CPU, mode: &AdressingMode) -> (r: u16) {
        let addr = get_params(cpu, mode);
        let value = cpu.read_byte(addr);
        let borrow: u16 = if cpu.status.contains(CpuFlags::CARRY) { 0 } else { 1 };
        // A - M - borrow, computed as A + 512 - M - borrow to stay unsigned
        let difference: u16 = cpu.accumulator as u16 + 512 - value as u16 - borrow;
        let result = (difference % 256) as u8;
        cpu.status.set(CpuFlags::CARRY, difference >= 512);
        cpu.status.set(
            CpuFlags::OVERFLOW,
            CPU::nth_bit(cpu.accumulator, 7) != CPU::nth_bit(value, 7) && CPU::nth_bit(
                cpu.accumulator,
                7,
            ) != CPU::nth_bit(result, 7),
        );
        cpu.accumulator = result;
        cpu.update_zero_and_negative_flags(result);
        consume_params(cpu.program_counter, mode)
    }
}

/// Compare the accumulator.
pub struct Cmp;

impl Instruction for Cmp {
    open spec fn opcode_list(&self) -> Seq<(u8, AdressingMode)> {
        seq![(0xC9u8, AdressingMode::Immediate), (0xC5u8, AdressingMode::ZeroPage), (0xD5u8, AdressingMode::ZeroPageX), (0xCDu8, AdressingMode::Absolute), (0xDDu8, AdressingMode::AbsoluteX), (0xD9u8, AdressingMode::AbsoluteY), (0xC1u8, AdressingMode::IndirectX), (0xD1u8, AdressingMode::IndirectY)]
    }

    open spec fn mnemonic(&self) -> Seq<char> {
        "CMP"@
    }

    open spec fn result(&self, cpu: CPU, mode: AdressingMode) -> Option<(CPU, u16)> {
        match operand(cpu, mode) {
            Some((_a, v)) => finish(
                flagged(
                    with_status(cpu, cpu.status.with(CpuFlags::CARRY, cpu.accumulator >= v)),
                    cpu.accumulator.wrapping_sub(v),
                ),
                mode,
            ),
            None => None,
        }
    }

    fn opcodes(&self) -> (r: &'static [(u8, AdressingMode)]) {
        let r: &'static [(u8, AdressingMode)] = &[(0xC9, AdressingMode::Immediate), (0xC5, AdressingMode::ZeroPage), (0xD5, AdressingMode::ZeroPageX), (0xCD, AdressingMode::Absolute), (0xDD, AdressingMode::AbsoluteX), (0xD9, AdressingMode::AbsoluteY), (0xC1, AdressingMode::IndirectX), (0xD1, AdressingMode::IndirectY)];
        assert(r@ =~= self.opcode_list());
        r
    }

    fn name(&self) -> (r: &'static str) {
        "CMP"
    }

    fn execute(&self, cpu: &mut CPU, mode: &AdressingMode) -> (r: u16) {
        let addr = get_params(cpu, mode);
        let value = cpu.read_byte(addr);
        cpu.status.set(CpuFlags::CARRY, cpu.accumulator >= value);
        // Subtract so that we set the ZERO flag if the values are equal
        cpu.update_zero_and_negative_flags(cpu.accumulator.wrapping_sub(value));
        consume_params(cpu.program_counter, mode)
    }
}

/// Compare X.
pub struct Cpx;

impl Instruction for Cpx {
    open spec fn opcode_list(&self) -> Seq<(u8, AdressingMode)> {
        seq![(0xE0u8, AdressingMode::Immediate), (0xE4u8, AdressingMode::ZeroPage), (0xECu8, AdressingMode::Absolute)]
    }

    open spec fn mnemonic(&self) -> Seq<char> {
        "CPX"@
    }

    open spec fn result(&self, cpu: CPU, mode: AdressingMode) -> Option<(CPU, u16)> {
        match operand(cpu, mode) {
            Some((_a, v)) => finish(
                flagged(
                    with_status(cpu, cpu.status.with(CpuFlags::CARRY, cpu.register_x >= v)),
                    cpu.register_x.wrapping_sub(v),
                ),
                mode,
            ),
            None => None,
        }
    }

    fn opcodes(&self) -> (r: &'static [(u8, AdressingMode)]) {
        let r: &'static [(u8, AdressingMode)] = &[(0xE0, AdressingMode::Immediate), (0xE4, AdressingMode::ZeroPage), (0xEC, AdressingMode::Absolute)];
        assert(r@ =~= self.opcode_list());
        r
    }

    fn name(&self) -> (r: &'static str) {
        "CPX"
    }

    fn execute(&self, cpu: &mut CPU, mode: &AdressingMode) -> (r: u16) {
        let addr = get_params(cpu, mode);
        let value = cpu.read_byte(addr);
        cpu.status.set(CpuFlags::CARRY, cpu.register_x >= value);
        // Subtract so that we set the ZERO flag if the values are equal
        cpu.update_zero_and_negative_flags(cpu.register_x.wrapping_sub(value));
        consume_params(cpu.program_counter, mode)
    }
}

/// Compare Y.
pub struct Cpy;

impl Instruction for Cpy {
    open spec fn opcode_list(&self) -> Seq<(u8, AdressingMode)> {
        seq![(0xC0u8, AdressingMode::Immediate), (0xC4u8, AdressingMode::ZeroPage), (0xCCu8, AdressingMode::Absolute)]
    }

    open spec fn mnemonic(&self) -> Seq<char> {
        "CPY"@
    }

    open spec fn result(&self, cpu: CPU, mode: AdressingMode) -> Option<(CPU, u16)> {
        match operand(cpu, mode) {
            Some((_a, v)) => finish(
                flagged(
                    with_status(cpu, cpu.status.with(CpuFlags::CARRY, cpu.register_y >= v)),
                    cpu.register_y.wrapping_sub(v),
                ),
                mode,
            ),
            None => None,
        }
    }

    fn opcodes(&self) -> (r: &'static [(u8, AdressingMode)]) {
        let r: &'static [(u8, AdressingMode)] = &[(0xC0, AdressingMode::Immediate), (0xC4, AdressingMode::ZeroPage), (0xCC, AdressingMode::Absolute)];
        assert(r@ =~= self.opcode_list());
        r
    }

    fn name(&self) -> (r: &'static str) {
        "CPY"
    }

    fn execute(&self, cpu: &mut CPU, mode: &AdressingMode) -> (r: u16) {
        let addr = get_params(cpu, mode);
        let value = cpu.read_byte(addr);
        cpu.status.set(CpuFlags::CARRY, cpu.register_y >= value);
        // Subtract so that we set the ZERO flag if the values are equal
        cpu.update_zero_and_negative_flags(cpu.register_y.wrapping_sub(value));
        consume_params(cpu.program_counter, mode)
    }
}

/// Decrement a memory byte.
pub struct Dec;

impl Instruction for Dec {
    open spec fn opcode_list(&self) -> Seq<(u8, AdressingMode)> {
        seq![(0xC6u8, AdressingMode::ZeroPage), (0xD6u8, AdressingMode::ZeroPageX), (0xCEu8, AdressingMode::Absolute), (0xDEu8, AdressingMode::AbsoluteX)]
    }

    open spec fn mnemonic(&self) -> Seq<char> {
        "DEC"@
    }

    open spec fn result(&self, cpu: CPU, mode: AdressingMode) -> Option<(CPU, u16)> {
        match operand(cpu, mode) {
            Some((a, v)) => finish(flagged(cpu.stored(a, v.wrapping_sub(1)), v.wrapping_sub(1)), mode),
            None => None,
        }
    }

    fn opcodes(&self) -> (r: &'static [(u8, AdressingMode)]) {
        let r: &'static [(u8, AdressingMode)] = &[(0xC6, AdressingMode::ZeroPage), (0xD6, AdressingMode::ZeroPageX), (0xCE, AdressingMode::Absolute), (0xDE, AdressingMode::AbsoluteX)];
        assert(r@ =~= self.opcode_list());
        r
    }

    fn name(&self) -> (r: &'static str) {
        "DEC"
    }

    fn execute(&self, cpu: &mut CPU, mode: &AdressingMode) -> (r: u16) {
        let addr = get_params(cpu, mode);
        let value = cpu.read_byte(addr).wrapping_sub(1);
        cpu.write_byte(addr, value);
        cpu.update_zero_and_negative_flags(value);
        consume_params(cpu.program_counter, mode)
    }
}

/// Decrement Y.
pub struct Dey;

impl Instruction for Dey {
    open spec fn opcode_list(&self) -> Seq<(u8, AdressingMode)> {
        seq![(0x88u8, AdressingMode::Implied)]
    }

    open spec fn mnemonic(&self) -> Seq<char> {
        "DEY"@
    }

    open spec fn result(&self, cpu: CPU, mode: AdressingMode) -> Option<(CPU, u16)> {
        finish(flagged(CPU { register_y: cpu.register_y.wrapping_sub(1), ..cpu }, cpu.register_y.wrapping_sub(1)), mode)
    }

    fn opcodes(&self) -> (r: &'static [(u8, AdressingMode)]) {
        let r: &'static [(u8, AdressingMode)] = &[(0x88, AdressingMode::Implied)];
        assert(r@ =~= self.opcode_list());
        r
    }

    fn name(&self) -> (r: &'static str) {
        "DEY"
    }

    fn execute(&self, cpu: &mut CPU, mode: &AdressingMode) -> (r: u16) {
        cpu.register_y = cpu.register_y.wrapping_sub(1);
        cpu.update_zero_and_negative_flags(cpu.register_y);
        consume_params(cpu.program_counter, mode)
    }
}

/// Decrement X.
pub struct Dex;

impl Instruction for Dex {
    open spec fn opcode_list(&self) -> Seq<(u8, AdressingMode)> {
        seq![(0xCAu8, AdressingMode::Implied)]
    }

    open spec fn mnemonic(&self) -> Seq<char> {
        "DEX"@
    }

    open spec fn result(&self, cpu: CPU, mode: AdressingMode) -> Option<(CPU, u16)> {
        finish(flagged(CPU { register_x: cpu.register_x.wrapping_sub(1), ..cpu }, cpu.register_x.wrapping_sub(1)), mode)
    }

    fn opcodes(&self) -> (r: &'static [(u8, AdressingMode)]) {
        let r: &'static [(u8, AdressingMode)] = &[(0xCA, AdressingMode::Implied)];
        assert(r@ =~= self.opcode_list());
        r
    }

    fn name(&self) -> (r: &'static str) {
        "DEX"
    }

    fn execute(&self, cpu: &mut CPU, mode: &AdressingMode) -> (r: u16) {
        cpu.register_x = cpu.register_x.wrapping_sub(1);
        cpu.update_zero_and_negative_flags(cpu.register_x);
        consume_params(cpu.program_counter, mode)
    }
}

/// Branch when carry is set: the operand address becomes the next program counter.
pub struct Bcs;

impl Instruction for Bcs {
    open spec fn opcode_list(&self) -> Seq<(u8, AdressingMode)> {
        seq![(0xB0u8, AdressingMode::Relative)]
    }

    open spec fn mnemonic(&self) -> Seq<char> {
        "BCS"@
    }

    open spec fn result(&self, cpu: CPU, mode: AdressingMode) -> Option<(CPU, u16)> {
        if cpu.status.has(CpuFlags::CARRY) {
            match param_address(cpu, mode) {
                Some(a) => Some((cpu, a)),
                None => None,
            }
        } else {
            finish(cpu, mode)
        }
    }

    fn opcodes(&self) -> (r: &'static [(u8, AdressingMode)]) {
        let r: &'static [(u8, AdressingMode)] = &[(0xB0, AdressingMode::Relative)];
        assert(r@ =~= self.opcode_list());
        r
    }

    fn name(&self) -> (r: &'static str) {
        "BCS"
    }

    fn execute(&self, cpu: &mut CPU, mode: &AdressingMode) -> (r: u16) {
        if cpu.status.contains(CpuFlags::CARRY) {
            get_params(cpu, mode)
        } else {
            consume_params(cpu.program_counter, mode)
        }
    }
}

/// Branch when carry is clear: the operand address becomes the next program counter.
pub struct Bcc;

impl Instruction for Bcc {
    open spec fn opcode_list(&self) -> Seq<(u8, AdressingMode)> {
        seq![(0x90u8, AdressingMode::Relative)]
    }

    open spec fn mnemonic(&self) -> Seq<char> {
        "BCC"@
    }

    open spec fn result(&self, cpu: CPU, mode: AdressingMode) -> Option<(CPU, u16)> {
        if !cpu.status.has(CpuFlags::CARRY) {
            match param_address(cpu, mode) {
                Some(a) => Some((cpu, a)),
                None => None,
            }
        } else {
            finish(cpu, mode)
        }
    }

    fn opcodes(&self) -> (r: &'static [(u8, AdressingMode)]) {
        let r: &'static [(u8, AdressingMode)] = &[(0x90, AdressingMode::Relative)];
        assert(r@ =~= self.opcode_list());
        r
    }

    fn name(&self) -> (r: &'static str) {
        "BCC"
    }

    fn execute(&self, cpu: &mut CPU, mode: &AdressingMode) -> (r: u16) {
        if !cpu.status.contains(CpuFlags::CARRY) {
            get_params(cpu, mode)
        } else {
            consume_params(cpu.program_counter, mode)
        }
    }
}

/// Branch when zero is set: the operand address becomes the next program counter.
pub struct Beq;

impl Instruction for Beq {
    open spec fn opcode_list(&self) -> Seq<(u8, AdressingMode)> {
        seq![(0xF0u8, AdressingMode::Relative)]
    }

    open spec fn mnemonic(&self) -> Seq<char> {
        "BEQ"@
    }

    open spec fn result(&self, cpu: CPU, mode: AdressingMode) -> Option<(CPU, u16)> {
        if cpu.status.has(CpuFlags::ZERO) {
            match param_address(cpu, mode) {
                Some(a) => Some((cpu, a)),
                None => None,
            }
        } else {
            finish(cpu, mode)
        }
    }

    fn opcodes(&self) -> (r: &'static [(u8, AdressingMode)]) {
        let r: &'static [(u8, AdressingMode)] = &[(0xF0, AdressingMode::Relative)];
        assert(r@ =~= self.opcode_list());
        r
    }

    fn name(&self) -> (r: &'static str) {
        "BEQ"
    }

    fn execute(&self, cpu: &mut CPU, mode: &AdressingMode) -> (r: u16) {
        if cpu.status.contains(CpuFlags::ZERO) {
            get_params(cpu, mode)
        } else {
            consume_params(cpu.program_counter, mode)
        }
    }
}

/// Branch when zero is clear: the operand address becomes the next program counter.
pub struct Bne;

impl Instruction for Bne {
    open spec fn opcode_list(&self) -> Seq<(u8, AdressingMode)> {
        seq![(0xD0u8, AdressingMode::Relative)]
    }

    open spec fn mnemonic(&self) -> Seq<char> {
        "BNE"@
    }

    open spec fn result(&self, cpu: CPU, mode: AdressingMode) -> Option<(CPU, u16)> {
        if !cpu.status.has(CpuFlags::ZERO) {
            match param_address(cpu, mode) {
                Some(a) => Some((cpu, a)),
                None => None,
            }
        } else {
            finish(cpu, mode)
        }
    }

    fn opcodes(&self) -> (r: &'static [(u8, AdressingMode)]) {
        let r: &'static [(u8, AdressingMode)] = &[(0xD0, AdressingMode::Relative)];
        assert(r@ =~= self.opcode_list());
        r
    }

    fn name(&self) -> (r: &'static str) {
        "BNE"
    }

    fn execute(&self, cpu: &mut CPU, mode: &AdressingMode) -> (r: u16) {
        if !cpu.status.contains(CpuFlags::ZERO) {
            get_params(cpu, mode)
        } else {
            consume_params(cpu.program_counter, mode)
        }
    }
}

/// Branch when negative is set: the operand address becomes the next program counter.
pub struct Bmi;

impl Instruction for Bmi {
    open spec fn opcode_list(&self) -> Seq<(u8, AdressingMode)> {
        seq![(0x30u8, AdressingMode::Relative)]
    }

    open spec fn mnemonic(&self) -> Seq<char> {
        "BMI"@
    }

    open spec fn result(&self, cpu: CPU, mode: AdressingMode) -> Option<(CPU, u16)> {
        if cpu.status.has(CpuFlags::NEGATIVE) {
            match param_address(cpu, mode) {
                Some(a) => Some((cpu, a)),
                None => None,
            }
        } else {
            finish(cpu, mode)
        }
    }

    fn opcodes(&self) -> (r: &'static [(u8, AdressingMode)]) {
        let r: &'static [(u8, AdressingMode)] = &[(0x30, AdressingMode::Relative)];
        assert(r@ =~= self.opcode_list());
        r
    }

    fn name(&self) -> (r: &'static str) {
        "BMI"
    }

    fn execute(&self, cpu: &mut CPU, mode: &AdressingMode) -> (r: u16) {
        if cpu.status.contains(CpuFlags::NEGATIVE) {
            get_params(cpu, mode)
        } else {
            consume_params(cpu.program_counter, mode)
        }
    }
}

/// Branch when negative is clear: the operand address becomes the next program counter.
pub struct Bpl;

impl Instruction for Bpl {
    open spec fn opcode_list(&self) -> Seq<(u8, AdressingMode)> {
        seq![(0x10u8, AdressingMode::Relative)]
    }

    open spec fn mnemonic(&self) -> Seq<char> {
        "BLP"@
    }

    open spec fn result(&self, cpu: CPU, mode: AdressingMode) -> Option<(CPU, u16)> {
        if !cpu.status.has(CpuFlags::NEGATIVE) {
            match param_address(cpu, mode) {
                Some(a) => Some((cpu, a)),
                None => None,
            }
        } else {
            finish(cpu, mode)
        }
    }

    fn opcodes(&self) -> (r: &'static [(u8, AdressingMode)]) {
        let r: &'static [(u8, AdressingMode)] = &[(0x10, AdressingMode::Relative)];
        assert(r@ =~= self.opcode_list());
        r
    }

    fn name(&self) -> (r: &'static str) {
        "BLP"
    }

    fn execute(&self, cpu: &mut CPU, mode: &AdressingMode) -> (r: u16) {
        if !cpu.status.contains(CpuFlags::NEGATIVE) {
            get_params(cpu, mode)
        } else {
            consume_params(cpu.program_counter, mode)
        }
    }
}

/// Branch when overflow is set: the operand address becomes the next program counter.
pub struct Bvs;

impl Instruction for Bvs {
    open spec fn opcode_list(&self) -> Seq<(u8, AdressingMode)> {
        seq![(0x70u8, AdressingMode::Relative)]
    }

    open spec fn mnemonic(&self) -> Seq<char> {
        "BVS"@
    }

    open spec fn result(&self, cpu: CPU, mode: AdressingMode) -> Option<(CPU, u16)> {
        if cpu.status.has(CpuFlags::OVERFLOW) {
            match param_address(cpu, mode) {
                Some(a) => Some((cpu, a)),
                None => None,
            }
        } else {
            finish(cpu, mode)
        }
    }

    fn opcodes(&self) -> (r: &'static [(u8, AdressingMode)]) {
        let r: &'static [(u8, AdressingMode)] = &[(0x70, AdressingMode::Relative)];
        assert(r@ =~= self.opcode_list());
        r
    }

    fn name(&self) -> (r: &'static str) {
        "BVS"
    }

    fn execute(&self, cpu: &mut CPU, mode: &AdressingMode) -> (r: u16) {
        if cpu.status.contains(CpuFlags::OVERFLOW) {
            get_params(cpu, mode)
        } else {
            consume_params(cpu.program_counter, mode)
        }
    }
}

/// Branch when overflow is clear: the operand address becomes the next program counter.
pub struct Bvc;

impl Instruction for Bvc {
    open spec fn opcode_list(&self) -> Seq<(u8, AdressingMode)> {
        seq![(0x50u8, AdressingMode::Relative)]
    }

    open spec fn mnemonic(&self) -> Seq<char> {
        "BVC"@
    }

    open spec fn result(&self, cpu: CPU, mode: AdressingMode) -> Option<(CPU, u16)> {
        if !cpu.status.has(CpuFlags::OVERFLOW) {
            match param_address(cpu, mode) {
                Some(a) => Some((cpu, a)),
                None => None,
            }
        } else {
            finish(cpu, mode)
        }
    }

    fn opcodes(&self) -> (r: &'static [(u8, AdressingMode)]) {
        let r: &'static [(u8, AdressingMode)] = &[(0x50, AdressingMode::Relative)];
        assert(r@ =~= self.opcode_list());
        r
    }

    fn name(&self) -> (r: &'static str) {
        "BVC"
    }

    fn execute(&self, cpu: &mut CPU, mode: &AdressingMode) -> (r: u16) {
        if !cpu.status.contains(CpuFlags::OVERFLOW) {
            get_params(cpu, mode)
        } else {
            consume_params(cpu.program_counter, mode)
        }
    }
}

/// Push the status with both break bits set.
pub struct Php;

impl Instruction for Php {
    open spec fn opcode_list(&self) -> Seq<(u8, AdressingMode)> {
        seq![(0x08u8, AdressingMode::Implied)]
    }

    open spec fn mnemonic(&self) -> Seq<char> {
        "PHP"@
    }

    open spec fn result(&self, cpu: CPU, mode: AdressingMode) -> Option<(CPU, u16)> {
        finish(cpu.pushed(cpu.status.with(CpuFlags::BREAK, true).with(CpuFlags::BREAK2, true).bits), mode)
    }

    fn opcodes(&self) -> (r: &'static [(u8, AdressingMode)]) {
        let r: &'static [(u8, AdressingMode)] = &[(0x08, AdressingMode::Implied)];
        assert(r@ =~= self.opcode_list());
        r
    }

    fn name(&self) -> (r: &'static str) {
        "PHP"
    }

    fn execute(&self, cpu: &mut CPU, mode: &AdressingMode) -> (r: u16) {
        // See https://www.nesdev.org/wiki/Status_flags#The_B_flag
        let mut status = cpu.status;
        status.insert(CpuFlags::BREAK);
        status.insert(CpuFlags::BREAK2);
        cpu.stack_push_byte(status.bits());
        consume_params(cpu.program_counter, mode)
    }
}

/// Pull the status; break bit 4 cleared, bit 5 set.
pub struct Plp;

impl Instruction for Plp {
    open spec fn opcode_list(&self) -> Seq<(u8, AdressingMode)> {
        seq![(0x28u8, AdressingMode::Implied)]
    }

    open spec fn mnemonic(&self) -> Seq<char> {
        "PLP"@
    }

    open spec fn result(&self, cpu: CPU, mode: AdressingMode) -> Option<(CPU, u16)> {
        {
            let (c1, b) = cpu.popped();
            finish(
                with_status(
                    c1,
                    CpuFlags { bits: b }.with(CpuFlags::BREAK, false).with(CpuFlags::BREAK2, true),
                ),
                mode,
            )
        }
    }

    fn opcodes(&self) -> (r: &'static [(u8, AdressingMode)]) {
        let r: &'static [(u8, AdressingMode)] = &[(0x28, AdressingMode::Implied)];
        assert(r@ =~= self.opcode_list());
        r
    }

    fn name(&self) -> (r: &'static str) {
        "PLP"
    }

    fn execute(&self, cpu: &mut CPU, mode: &AdressingMode) -> (r: u16) {
        // See https://www.nesdev.org/wiki/Status_flags#The_B_flag
        cpu.status = CpuFlags::from_bits_truncate(cpu.stack_pop_byte());
        cpu.status.remove(CpuFlags::BREAK);
        cpu.status.insert(CpuFlags::BREAK2);
        consume_params(cpu.program_counter, mode)
    }
}

/// Push the accumulator.
pub struct Pha;

impl Instruction for Pha {
    open spec fn opcode_list(&self) -> Seq<(u8, AdressingMode)> {
        seq![(0x48u8, AdressingMode::Implied)]
    }

    open spec fn mnemonic(&self) -> Seq<char> {
        "PHA"@
    }

    open spec fn result(&self, cpu: CPU, mode: AdressingMode) -> Option<(CPU, u16)> {
        finish(cpu.pushed(cpu.accumulator), mode)
    }

    fn opcodes(&self) -> (r: &'static [(u8, AdressingMode)]) {
        let r: &'static [(u8, AdressingMode)] = &[(0x48, AdressingMode::Implied)];
        assert(r@ =~= self.opcode_list());
        r
    }

    fn name(&self) -> (r: &'static str) {
        "PHA"
    }

    fn execute(&self, cpu: &mut CPU, mode: &AdressingMode) -> (r: u16) {
        cpu.stack_push_byte(cpu.accumulator);
        consume_params(cpu.program_counter, mode)
    }
}

/// Pull the accumulator.
pub struct Pla;

impl Instruction for Pla {
    open spec fn opcode_list(&self) -> Seq<(u8, AdressingMode)> {
        seq![(0x68u8, AdressingMode::Implied)]
    }

    open spec fn mnemonic(&self) -> Seq<char> {
        "PLA"@
    }

    open spec fn result(&self, cpu: CPU, mode: AdressingMode) -> Option<(CPU, u16)> {
        {
            let (c1, v) = cpu.popped();
            finish(flagged(CPU { accumulator: v, ..c1 }, v), mode)
        }
    }

    fn opcodes(&self) -> (r: &'static [(u8, AdressingMode)]) {
        let r: &'static [(u8, AdressingMode)] = &[(0x68, AdressingMode::Implied)];
        assert(r@ =~= self.opcode_list());
        r
    }

    fn name(&self) -> (r: &'static str) {
        "PLA"
    }

    fn execute(&self, cpu: &mut CPU, mode: &AdressingMode) -> (r: u16) {
        cpu.accumulator = cpu.stack_pop_byte();
        cpu.update_zero_and_negative_flags(cpu.accumulator);
        consume_params(cpu.program_counter, mode)
    }
}

/// Transfer A to X.
pub struct Tax;

impl Instruction for Tax {
    open spec fn opcode_list(&self) -> Seq<(u8, AdressingMode)> {
        seq![(0xAAu8, AdressingMode::Implied)]
    }

    open spec fn mnemonic(&self) -> Seq<char> {
        "TAX"@
    }

    open spec fn result(&self, cpu: CPU, mode: AdressingMode) -> Option<(CPU, u16)> {
        finish(flagged(CPU { register_x: cpu.accumulator, ..cpu }, cpu.accumulator), mode)
    }

    fn opcodes(&self) -> (r: &'static [(u8, AdressingMode)]) {
        let r: &'static [(u8, AdressingMode)] = &[(0xAA, AdressingMode::Implied)];
        assert(r@ =~= self.opcode_list());
        r
    }

    fn name(&self) -> (r: &'static str) {
        "TAX"
    }

    fn execute(&self, cpu: &mut CPU, mode: &AdressingMode) -> (r: u16) {
        cpu.register_x = cpu.accumulator;
        cpu.update_zero_and_negative_flags(cpu.register_x);
        consume_params(cpu.program_counter, mode)
    }
}

/// Transfer X to A.
pub struct Txa;

impl Instruction for Txa {
    open spec fn opcode_list(&self) -> Seq<(u8, AdressingMode)> {
        seq![(0x8Au8, AdressingMode::Implied)]
    }

    open spec fn mnemonic(&self) -> Seq<char> {
        "TXA"@
    }

    open spec fn result(&self, cpu: CPU, mode: AdressingMode) -> Option<(CPU, u16)> {
        finish(flagged(CPU { accumulator: cpu.register_x, ..cpu }, cpu.register_x), mode)
    }

    fn opcodes(&self) -> (r: &'static [(u8, AdressingMode)]) {
        let r: &'static [(u8, AdressingMode)] = &[(0x8A, AdressingMode::Implied)];
        assert(r@ =~= self.opcode_list());
        r
    }

    fn name(&self) -> (r: &'static str) {
        "TXA"
    }

    fn execute(&self, cpu: &mut CPU, mode: &AdressingMode) -> (r: u16) {
        cpu.accumulator = cpu.register_x;
        cpu.update_zero_and_negative_flags(cpu.accumulator);
        consume_params(cpu.program_counter, mode)
    }
}

/// Transfer A to Y.
pub struct Tay;

impl Instruction for Tay {
    open spec fn opcode_list(&self) -> Seq<(u8, AdressingMode)> {
        seq![(0xA8u8, AdressingMode::Implied)]
    }

    open spec fn mnemonic(&self) -> Seq<char> {
        "TAY"@
    }

    open spec fn result(&self, cpu: CPU, mode: AdressingMode) -> Option<(CPU, u16)> {
        finish(flagged(CPU { register_y: cpu.accumulator, ..cpu }, cpu.accumulator), mode)
    }

    fn opcodes(&self) -> (r: &'static [(u8, AdressingMode)]) {
        let r: &'static [(u8, AdressingMode)] = &[(0xA8, AdressingMode::Implied)];
        assert(r@ =~= self.opcode_list());
        r
    }

    fn name(&self) -> (r: &'static str) {
        "TAY"
    }

    fn execute(&self, cpu: &mut CPU, mode: &AdressingMode) -> (r: u16) {
        cpu.register_y = cpu.accumulator;
        cpu.update_zero_and_negative_flags(cpu.register_y);
        consume_params(cpu.program_counter, mode)
    }
}

/// Transfer Y to A.
pub struct Tya;

impl Instruction for Tya {
    open spec fn opcode_list(&self) -> Seq<(u8, AdressingMode)> {
        seq![(0x98u8, AdressingMode::Implied)]
    }

    open spec fn mnemonic(&self) -> Seq<char> {
        "TYA"@
    }

    open spec fn result(&self, cpu: CPU, mode: AdressingMode) -> Option<(CPU, u16)> {
        finish(flagged(CPU { accumulator: cpu.register_y, ..cpu }, cpu.register_y), mode)
    }

    fn opcodes(&self) -> (r: &'static [(u8, AdressingMode)]) {
        let r: &'static [(u8, AdressingMode)] = &[(0x98, AdressingMode::Implied)];
        assert(r@ =~= self.opcode_list());
        r
    }

    fn name(&self) -> (r: &'static str) {
        "TYA"
    }

    fn execute(&self, cpu: &mut CPU, mode: &AdressingMode) -> (r: u16) {
        cpu.accumulator = cpu.register_y;
        cpu.update_zero_and_negative_flags(cpu.accumulator);
        consume_params(cpu.program_counter, mode)
    }
}

/// Clear overflow.
pub struct Clv;

impl Instruction for Clv {
    open spec fn opcode_list(&self) -> Seq<(u8, AdressingMode)> {
        seq![(0xB8u8, AdressingMode::Implied)]
    }

    open spec fn mnemonic(&self) -> Seq<char> {
        "CLV"@
    }

    open spec fn result(&self, cpu: CPU, mode: AdressingMode) -> Option<(CPU, u16)> {
        finish(with_status(cpu, cpu.status.with(CpuFlags::OVERFLOW, false)), mode)
    }

    fn opcodes(&self) -> (r: &'static [(u8, AdressingMode)]) {
        let r: &'static [(u8, AdressingMode)] = &[(0xB8, AdressingMode::Implied)];
        assert(r@ =~= self.opcode_list());
        r
    }

    fn name(&self) -> (r: &'static str) {
        "CLV"
    }

    fn execute(&self, cpu: &mut CPU, mode: &AdressingMode) -> (r: u16) {
        cpu.status.remove(CpuFlags::OVERFLOW);
        consume_params(cpu.program_counter, mode)
    }
}

/// Clear carry.
pub struct Clc;

impl Instruction for Clc {
    open spec fn opcode_list(&self) -> Seq<(u8, AdressingMode)> {
        seq![(0x18u8, AdressingMode::Implied)]
    }

    open spec fn mnemonic(&self) -> Seq<char> {
        "CLC"@
    }

    open spec fn result(&self, cpu: CPU, mode: AdressingMode) -> Option<(CPU, u16)> {
        finish(with_status(cpu, cpu.status.with(CpuFlags::CARRY, false)), mode)
    }

    fn opcodes(&self) -> (r: &'static [(u8, AdressingMode)]) {
        let r: &'static [(u8, AdressingMode)] = &[(0x18, AdressingMode::Implied)];
        assert(r@ =~= self.opcode_list());
        r
    }

    fn name(&self) -> (r: &'static str) {
        "CLC"
    }

    fn execute(&self, cpu: &mut CPU, mode: &AdressingMode) -> (r: u16) {
        cpu.status.remove(CpuFlags::CARRY);
        consume_params(cpu.program_counter, mode)
    }
}

/// Clear decimal.
pub struct Cld;

impl Instruction for Cld {
    open spec fn opcode_list(&self) -> Seq<(u8, AdressingMode)> {
        seq![(0xD8u8, AdressingMode::Implied)]
    }

    open spec fn mnemonic(&self) -> Seq<char> {
        "CLD"@
    }

    open spec fn result(&self, cpu: CPU, mode: AdressingMode) -> Option<(CPU, u16)> {
        finish(with_status(cpu, cpu.status.with(CpuFlags::DECIMAL, false)), mode)
    }

    fn opcodes(&self) -> (r: &'static [(u8, AdressingMode)]) {
        let r: &'static [(u8, AdressingMode)] = &[(0xD8, AdressingMode::Implied)];
        assert(r@ =~= self.opcode_list());
        r
    }

    fn name(&self) -> (r: &'static str) {
        "CLD"
    }

    fn execute(&self, cpu: &mut CPU, mode: &AdressingMode) -> (r: u16) {
        cpu.status.remove(CpuFlags::DECIMAL);
        consume_params(cpu.program_counter, mode)
    }
}

/// Set carry.
pub struct Sec;

impl Instruction for Sec {
    open spec fn opcode_list(&self) -> Seq<(u8, AdressingMode)> {
        seq![(0x38u8, AdressingMode::Implied)]
    }

    open spec fn mnemonic(&self) -> Seq<char> {
        "SEC"@
    }

    open spec fn result(&self, cpu: CPU, mode: AdressingMode) -> Option<(CPU, u16)> {
        finish(with_status(cpu, cpu.status.with(CpuFlags::CARRY, true)), mode)
    }

    fn opcodes(&self) -> (r: &'static [(u8, AdressingMode)]) {
        let r: &'static [(u8, AdressingMode)] = &[(0x38, AdressingMode::Implied)];
        assert(r@ =~= self.opcode_list());
        r
    }

    fn name(&self) -> (r: &'static str) {
        "SEC"
    }

    fn execute(&self, cpu: &mut CPU, mode: &AdressingMode) -> (r: u16) {
        cpu.status.insert(CpuFlags::CARRY);
        consume_params(cpu.program_counter, mode)
    }
}

/// Set decimal.
pub struct Sed;

impl Instruction for Sed {
    open spec fn opcode_list(&self) -> Seq<(u8, AdressingMode)> {
        seq![(0xF8u8, AdressingMode::Implied)]
    }

    open spec fn mnemonic(&self) -> Seq<char> {
        "SED"@
    }

    open spec fn result(&self, cpu: CPU, mode: AdressingMode) -> Option<(CPU, u16)> {
        finish(with_status(cpu, cpu.status.with(CpuFlags::DECIMAL, true)), mode)
    }

    fn opcodes(&self) -> (r: &'static [(u8, AdressingMode)]) {
        let r: &'static [(u8, AdressingMode)] = &[(0xF8, AdressingMode::Implied)];
        assert(r@ =~= self.opcode_list());
        r
    }

    fn name(&self) -> (r: &'static str) {
        "SED"
    }

    fn execute(&self, cpu: &mut CPU, mode: &AdressingMode) -> (r: u16) {
        cpu.status.insert(CpuFlags::DECIMAL);
        consume_params(cpu.program_counter, mode)
    }
}

/// Disable interrupts.
pub struct Sei;

impl Instruction for Sei {
    open spec fn opcode_list(&self) -> Seq<(u8, AdressingMode)> {
        seq![(0x78u8, AdressingMode::Implied)]
    }

    open spec fn mnemonic(&self) -> Seq<char> {
        "SEI"@
    }

    open spec fn result(&self, cpu: CPU, mode: AdressingMode) -> Option<(CPU, u16)> {
        finish(with_status(cpu, cpu.status.with(CpuFlags::IRQ, true)), mode)
    }

    fn opcodes(&self) -> (r: &'static [(u8, AdressingMode)]) {
        let r: &'static [(u8, AdressingMode)] = &[(0x78, AdressingMode::Implied)];
        assert(r@ =~= self.opcode_list());
        r
    }

    fn name(&self) -> (r: &'static str) {
        "SEI"
    }

    fn execute(&self, cpu: &mut CPU, mode: &AdressingMode) -> (r: u16) {
        cpu.status.insert(CpuFlags::IRQ);
        consume_params(cpu.program_counter, mode)
    }
}

/// Enable interrupts.
pub struct Cli;

impl Instruction for Cli {
    open spec fn opcode_list(&self) -> Seq<(u8, AdressingMode)> {
        seq![(0x58u8, AdressingMode::Implied)]
    }

    open spec fn mnemonic(&self) -> Seq<char> {
        "CLI"@
    }

    open spec fn result(&self, cpu: CPU, mode: AdressingMode) -> Option<(CPU, u16)> {
        finish(with_status(cpu, cpu.status.with(CpuFlags::IRQ, false)), mode)
    }

    fn opcodes(&self) -> (r: &'static [(u8, AdressingMode)]) {
        let r: &'static [(u8, AdressingMode)] = &[(0x58, AdressingMode::Implied)];
        assert(r@ =~= self.opcode_list());
        r
    }

    fn name(&self) -> (r: &'static str) {
        "CLI"
    }

    fn execute(&self, cpu: &mut CPU, mode: &AdressingMode) -> (r: u16) {
        cpu.status.remove(CpuFlags::IRQ);
        consume_params(cpu.program_counter, mode)
    }
}

/// Jump to a subroutine, pushing the address of the last operand byte.
pub struct Jsr;

impl Instruction for Jsr {
    open spec fn opcode_list(&self) -> Seq<(u8, AdressingMode)> {
        seq![(0x20u8, AdressingMode::Absolute)]
    }

    open spec fn mnemonic(&self) -> Seq<char> {
        "JSR"@
    }

    open spec fn result(&self, cpu: CPU, mode: AdressingMode) -> Option<(CPU, u16)> {
        match (param_address(cpu, mode), next_pc(cpu.program_counter, mode)) {
            (Some(a), Some(n)) => if n >= 1 {
                let ret = (n - 1) as u16;
                Some((cpu.pushed_word(ret), a))
            } else {
                None
            },
            _ => None,
        }
    }

    fn opcodes(&self) -> (r: &'static [(u8, AdressingMode)]) {
        let r: &'static [(u8, AdressingMode)] = &[(0x20, AdressingMode::Absolute)];
        assert(r@ =~= self.opcode_list());
        r
    }

    fn name(&self) -> (r: &'static str) {
        "JSR"
    }

    fn execute(&self, cpu: &mut CPU, mode: &AdressingMode) -> (r: u16) {
        let addr = get_params(cpu, mode);
        let new_pc = consume_params(cpu.program_counter, mode);
        cpu.stack_push_word(new_pc - 1);
        addr
    }
}

/// Return from a subroutine.
pub struct Rts;

impl Instruction for Rts {
    open spec fn opcode_list(&self) -> Seq<(u8, AdressingMode)> {
        seq![(0x60u8, AdressingMode::Implied)]
    }

    open spec fn mnemonic(&self) -> Seq<char> {
        "RTS"@
    }

    open spec fn result(&self, cpu: CPU, mode: AdressingMode) -> Option<(CPU, u16)> {
        {
            let (c1, lo) = cpu.popped();
            let (c2, hi) = c1.popped();
            let addr = word(lo, hi);
            if addr < u16::MAX {
                match next_pc((addr + 1) as u16, mode) {
                    Some(n) => Some((c2, n)),
                    None => None,
                }
            } else {
                None
            }
        }
    }

    fn opcodes(&self) -> (r: &'static [(u8, AdressingMode)]) {
        let r: &'static [(u8, AdressingMode)] = &[(0x60, AdressingMode::Implied)];
        assert(r@ =~= self.opcode_list());
        r
    }

    fn name(&self) -> (r: &'static str) {
        "RTS"
    }

    fn execute(&self, cpu: &mut CPU, mode: &AdressingMode) -> (r: u16) {
        let addr = cpu.stack_pop_word();
        consume_params(addr + 1, mode)
    }
}

/// Shift a memory byte right.
pub struct Lsr;

impl Instruction for Lsr {
    open spec fn opcode_list(&self) -> Seq<(u8, AdressingMode)> {
        seq![(0x4Au8, AdressingMode::Accumulator), (0x46u8, AdressingMode::ZeroPage), (0x56u8, AdressingMode::ZeroPageX), (0x4Eu8, AdressingMode::Absolute), (0x5Eu8, AdressingMode::AbsoluteX)]
    }

    open spec fn mnemonic(&self) -> Seq<char> {
        "LSR"@
    }

    open spec fn result(&self, cpu: CPU, mode: AdressingMode) -> Option<(CPU, u16)> {
        match operand(cpu, mode) {
            Some((a, v)) => {
                let result: u8 = v >> 1u8;
                finish(
                    flagged(
                        with_status(cpu, cpu.status.with(CpuFlags::CARRY, bit_of(v, 0))).stored(
                            a,
                            result,
                        ),
                        result,
                    ),
                    mode,
                )
            },
            None => None,
        }
    }

    fn opcodes(&self) -> (r: &'static [(u8, AdressingMode)]) {
        let r: &'static [(u8, AdressingMode)] = &[(0x4A, AdressingMode::Accumulator), (0x46, AdressingMode::ZeroPage), (0x56, AdressingMode::ZeroPageX), (0x4E, AdressingMode::Absolute), (0x5E, AdressingMode::AbsoluteX)];
        assert(r@ =~= self.opcode_list());
        r
    }

    fn name(&self) -> (r: &'static str) {
        "LSR"
    }

    fn execute(&self, cpu: &mut CPU, mode: &AdressingMode) -> (r: u16) {
        let addr = get_params(cpu, mode);
        let result = if *mode == AdressingMode::Accumulator {
            cpu.status.set(CpuFlags::CARRY, CPU::nth_bit(cpu.accumulator, 0));
            cpu.accumulator = cpu.accumulator >> 1;
            cpu.accumulator
        } else {
            let mut value = cpu.read_byte(addr);
            cpu.status.set(CpuFlags::CARRY, CPU::nth_bit(value, 0));
            value = value >> 1;
            cpu.write_byte(addr, value);
            value
        };
        cpu.update_zero_and_negative_flags(result);
        consume_params(cpu.program_counter, mode)
    }
}

/// Shift a memory byte left.
pub struct Asl;

impl Instruction for Asl {
    open spec fn opcode_list(&self) -> Seq<(u8, AdressingMode)> {
        seq![(0x0Au8, AdressingMode::Accumulator), (0x06u8, AdressingMode::ZeroPage), (0x16u8, AdressingMode::ZeroPageX), (0x0Eu8, AdressingMode::Absolute), (0x1Eu8, AdressingMode::AbsoluteX)]
    }

    open spec fn mnemonic(&self) -> Seq<char> {
        "ASL"@
    }

    open spec fn result(&self, cpu: CPU, mode: AdressingMode) -> Option<(CPU, u16)> {
        match operand(cpu, mode) {
            Some((a, v)) => {
                let result: u8 = (v << 1u8) as u8;
                finish(
                    flagged(
                        with_status(cpu, cpu.status.with(CpuFlags::CARRY, bit_of(v, 7))).stored(
                            a,
                            result,
                        ),
                        result,
                    ),
                    mode,
                )
            },
            None => None,
        }
    }

    fn opcodes(&self) -> (r: &'static [(u8, AdressingMode)]) {
        let r: &'static [(u8, AdressingMode)] = &[(0x0A, AdressingMode::Accumulator), (0x06, AdressingMode::ZeroPage), (0x16, AdressingMode::ZeroPageX), (0x0E, AdressingMode::Absolute), (0x1E, AdressingMode::AbsoluteX)];
        assert(r@ =~= self.opcode_list());
        r
    }

    fn name(&self) -> (r: &'static str) {
        "ASL"
    }

    fn execute(&self, cpu: &mut CPU, mode: &AdressingMode) -> (r: u16) {
        let addr = get_params(cpu, mode);
        let result = if *mode == AdressingMode::Accumulator {
            cpu.status.set(CpuFlags::CARRY, CPU::nth_bit(cpu.accumulator, 7));
            cpu.accumulator = cpu.accumulator << 1;
            cpu.accumulator
        } else {
            let mut value = cpu.read_byte(addr);
            cpu.status.set(CpuFlags::CARRY, CPU::nth_bit(value, 7));
            value = value << 1;
            cpu.write_byte(addr, value);
            value
        };
        cpu.update_zero_and_negative_flags(result);
        consume_params(cpu.program_counter, mode)
    }
}

/// Rotate a memory byte right through the carry.
pub struct Ror;

impl Instruction for Ror {
    open spec fn opcode_list(&self) -> Seq<(u8, AdressingMode)> {
        seq![(0x6Au8, AdressingMode::Accumulator), (0x66u8, AdressingMode::ZeroPage), (0x76u8, AdressingMode::ZeroPageX), (0x6Eu8, AdressingMode::Absolute), (0x7Eu8, AdressingMode::AbsoluteX)]
    }

    open spec fn mnemonic(&self) -> Seq<char> {
        "ROR"@
    }

    open spec fn result(&self, cpu: CPU, mode: AdressingMode) -> Option<(CPU, u16)> {
        match operand(cpu, mode) {
            Some((a, v)) => {
                let result: u8 = rotr(v, cpu.status.has(CpuFlags::CARRY));
                finish(
                    flagged(
                        with_status(cpu, cpu.status.with(CpuFlags::CARRY, bit_of(v, 0))).stored(
                            a,
                            result,
                        ),
                        result,
                    ),
                    mode,
                )
            },
            None => None,
        }
    }

    fn opcodes(&self) -> (r: &'static [(u8, AdressingMode)]) {
        let r: &'static [(u8, AdressingMode)] = &[(0x6A, AdressingMode::Accumulator), (0x66, AdressingMode::ZeroPage), (0x76, AdressingMode::ZeroPageX), (0x6E, AdressingMode::Absolute), (0x7E, AdressingMode::AbsoluteX)];
        assert(r@ =~= self.opcode_list());
        r
    }

    fn name(&self) -> (r: &'static str) {
        "ROR"
    }

    fn execute(&self, cpu: &mut CPU, mode: &AdressingMode) -> (r: u16) {
        let addr = get_params(cpu, mode);
        let carry = cpu.status.contains(CpuFlags::CARRY);
        let result = if *mode == AdressingMode::Accumulator {
            cpu.status.set(CpuFlags::CARRY, CPU::nth_bit(cpu.accumulator, 0));
            cpu.accumulator = rotate_right_one(cpu.accumulator, carry);
            cpu.accumulator
        } else {
            let mut value = cpu.read_byte(addr);
            cpu.status.set(CpuFlags::CARRY, CPU::nth_bit(value, 0));
            value = rotate_right_one(value, carry);
            cpu.write_byte(addr, value);
            value
        };
        cpu.update_zero_and_negative_flags(result);
        consume_params(cpu.program_counter, mode)
    }
}

/// Rotate a memory byte left through the carry.
pub struct Rol;

impl Instruction for Rol {
    open spec fn opcode_list(&self) -> Seq<(u8, AdressingMode)> {
        seq![(0x2Au8, AdressingMode::Accumulator), (0x26u8, AdressingMode::ZeroPage), (0x36u8, AdressingMode::ZeroPageX), (0x2Eu8, AdressingMode::Absolute), (0x3Eu8, AdressingMode::AbsoluteX)]
    }

    open spec fn mnemonic(&self) -> Seq<char> {
        "ROL"@
    }

    open spec fn result(&self, cpu: CPU, mode: AdressingMode) -> Option<(CPU, u16)> {
        match operand(cpu, mode) {
            Some((a, v)) => {
                let result: u8 = rotl(v, cpu.status.has(CpuFlags::CARRY));
                finish(
                    flagged(
                        with_status(cpu, cpu.status.with(CpuFlags::CARRY, bit_of(v, 7))).stored(
                            a,
                            result,
                        ),
                        result,
                    ),
                    mode,
                )
            },
            None => None,
        }
    }

    fn opcodes(&self) -> (r: &'static [(u8, AdressingMode)]) {
        let r: &'static [(u8, AdressingMode)] = &[(0x2A, AdressingMode::Accumulator), (0x26, AdressingMode::ZeroPage), (0x36, AdressingMode::ZeroPageX), (0x2E, AdressingMode::Absolute), (0x3E, AdressingMode::AbsoluteX)];
        assert(r@ =~= self.opcode_list());
        r
    }

    fn name(&self) -> (r: &'static str) {
        "ROL"
    }

    fn execute(&self, cpu: &mut CPU, mode: &AdressingMode) -> (r: u16) {
        let addr = get_params(cpu, mode);
        let carry = cpu.status.contains(CpuFlags::CARRY);
        let result = if *mode == AdressingMode::Accumulator {
            cpu.status.set(CpuFlags::CARRY, CPU::nth_bit(cpu.accumulator, 7));
            cpu.accumulator = rotate_left_one(cpu.accumulator, carry);
            cpu.accumulator
        } else {
            let mut value = cpu.read_byte(addr);
            cpu.status.set(CpuFlags::CARRY, CPU::nth_bit(value, 7));
            value = rotate_left_one(value, carry);
            cpu.write_byte(addr, value);
            value
        };
        cpu.update_zero_and_negative_flags(result);
        consume_params(cpu.program_counter, mode)
    }
}

/// AND into the accumulator.
pub struct And;

impl Instruction for And {
    open spec fn opcode_list(&self) -> Seq<(u8, AdressingMode)> {
        seq![(0x29u8, AdressingMode::Immediate), (0x25u8, AdressingMode::ZeroPage), (0x35u8, AdressingMode::ZeroPageX), (0x2Du8, AdressingMode::Absolute), (0x3Du8, AdressingMode::AbsoluteX), (0x39u8, AdressingMode::AbsoluteY), (0x21u8, AdressingMode::IndirectX), (0x31u8, AdressingMode::IndirectY)]
    }

    open spec fn mnemonic(&self) -> Seq<char> {
        "AND"@
    }

    open spec fn result(&self, cpu: CPU, mode: AdressingMode) -> Option<(CPU, u16)> {
        match operand(cpu, mode) {
            Some((_a, v)) => finish(
                flagged(CPU { accumulator: cpu.accumulator & v, ..cpu }, cpu.accumulator & v),
                mode,
            ),
            None => None,
        }
    }

    fn opcodes(&self) -> (r: &'static [(u8, AdressingMode)]) {
        let r: &'static [(u8, AdressingMode)] = &[(0x29, AdressingMode::Immediate), (0x25, AdressingMode::ZeroPage), (0x35, AdressingMode::ZeroPageX), (0x2D, AdressingMode::Absolute), (0x3D, AdressingMode::AbsoluteX), (0x39, AdressingMode::AbsoluteY), (0x21, AdressingMode::IndirectX), (0x31, AdressingMode::IndirectY)];
        assert(r@ =~= self.opcode_list());
        r
    }

    fn name(&self) -> (r: &'static str) {
        "AND"
    }

    fn execute(&self, cpu: &mut CPU, mode: &AdressingMode) -> (r: u16) {
        let addr = get_params(cpu, mode);
        let value = cpu.read_byte(addr);
        cpu.accumulator = cpu.accumulator & value;
        cpu.update_zero_and_negative_flags(cpu.accumulator);
        consume_params(cpu.program_counter, mode)
    }
}

/// Exclusive OR into the accumulator.
pub struct Eor;

impl Instruction for Eor {
    open spec fn opcode_list(&self) -> Seq<(u8, AdressingMode)> {
        seq![(0x49u8, AdressingMode::Immediate), (0x45u8, AdressingMode::ZeroPage), (0x55u8, AdressingMode::ZeroPageX), (0x4Du8, AdressingMode::Absolute), (0x5Du8, AdressingMode::AbsoluteX), (0x59u8, AdressingMode::AbsoluteY), (0x41u8, AdressingMode::IndirectX), (0x51u8, AdressingMode::IndirectY)]
    }

    open spec fn mnemonic(&self) -> Seq<char> {
        "EOR"@
    }

    open spec fn result(&self, cpu: CPU, mode: AdressingMode) -> Option<(CPU, u16)> {
        match operand(cpu, mode) {
            Some((_a, v)) => finish(
                flagged(CPU { accumulator: cpu.accumulator ^ v, ..cpu }, cpu.accumulator ^ v),
                mode,
            ),
            None => None,
        }
    }

    fn opcodes(&self) -> (r: &'static [(u8, AdressingMode)]) {
        let r: &'static [(u8, AdressingMode)] = &[(0x49, AdressingMode::Immediate), (0x45, AdressingMode::ZeroPage), (0x55, AdressingMode::ZeroPageX), (0x4D, AdressingMode::Absolute), (0x5D, AdressingMode::AbsoluteX), (0x59, AdressingMode::AbsoluteY), (0x41, AdressingMode::IndirectX), (0x51, AdressingMode::IndirectY)];
        assert(r@ =~= self.opcode_list());
        r
    }

    fn name(&self) -> (r: &'static str) {
        "EOR"
    }

    fn execute(&self, cpu: &mut CPU, mode: &AdressingMode) -> (r: u16) {
        let addr = get_params(cpu, mode);
        let value = cpu.read_byte(addr);
        cpu.accumulator = cpu.accumulator ^ value;
        cpu.update_zero_and_negative_flags(cpu.accumulator);
        consume_params(cpu.program_counter, mode)
    }
}

/// OR into the accumulator.
pub struct Ora;

impl Instruction for Ora {
    open spec fn opcode_list(&self) -> Seq<(u8, AdressingMode)> {
        seq![(0x09u8, AdressingMode::Immediate), (0x05u8, AdressingMode::ZeroPage), (0x15u8, AdressingMode::ZeroPageX), (0x0Du8, AdressingMode::Absolute), (0x1Du8, AdressingMode::AbsoluteX), (0x19u8, AdressingMode::AbsoluteY), (0x01u8, AdressingMode::IndirectX), (0x11u8, AdressingMode::IndirectY)]
    }

    open spec fn mnemonic(&self) -> Seq<char> {
        "ORA"@
    }

    open spec fn result(&self, cpu: CPU, mode: AdressingMode) -> Option<(CPU, u16)> {
        match operand(cpu, mode) {
            Some((_a, v)) => finish(
                flagged(CPU { accumulator: cpu.accumulator | v, ..cpu }, cpu.accumulator | v),
                mode,
            ),
            None => None,
        }
    }

    fn opcodes(&self) -> (r: &'static [(u8, AdressingMode)]) {
        let r: &'static [(u8, AdressingMode)] = &[(0x09, AdressingMode::Immediate), (0x05, AdressingMode::ZeroPage), (0x15, AdressingMode::ZeroPageX), (0x0D, AdressingMode::Absolute), (0x1D, AdressingMode::AbsoluteX), (0x19, AdressingMode::AbsoluteY), (0x01, AdressingMode::IndirectX), (0x11, AdressingMode::IndirectY)];
        assert(r@ =~= self.opcode_list());
        r
    }

    fn name(&self) -> (r: &'static str) {
        "ORA"
    }

    fn execute(&self, cpu: &mut CPU, mode: &AdressingMode) -> (r: u16) {
        let addr = get_params(cpu, mode);
        let value = cpu.read_byte(addr);
        cpu.accumulator = cpu.accumulator | value;
        cpu.update_zero_and_negative_flags(cpu.accumulator);
        consume_params(cpu.program_counter, mode)
    }
}

/// Load the accumulator.
pub struct Lda;

impl Instruction for Lda {
    open spec fn opcode_list(&self) -> Seq<(u8, AdressingMode)> {
        seq![(0xA9u8, AdressingMode::Immediate), (0xA5u8, AdressingMode::ZeroPage), (0xB5u8, AdressingMode::ZeroPageX), (0xADu8, AdressingMode::Absolute), (0xBDu8, AdressingMode::AbsoluteX), (0xB9u8, AdressingMode::AbsoluteY), (0xA1u8, AdressingMode::IndirectX), (0xB1u8, AdressingMode::IndirectY)]
    }

    open spec fn mnemonic(&self) -> Seq<char> {
        "LDA"@
    }

    open spec fn result(&self, cpu: CPU, mode: AdressingMode) -> Option<(CPU, u16)> {
        match operand(cpu, mode) {
            Some((_a, v)) => finish(flagged(CPU { accumulator: v, ..cpu }, v), mode),
            None => None,
        }
    }

    fn opcodes(&self) -> (r: &'static [(u8, AdressingMode)]) {
        let r: &'static [(u8, AdressingMode)] = &[(0xA9, AdressingMode::Immediate), (0xA5, AdressingMode::ZeroPage), (0xB5, AdressingMode::ZeroPageX), (0xAD, AdressingMode::Absolute), (0xBD, AdressingMode::AbsoluteX), (0xB9, AdressingMode::AbsoluteY), (0xA1, AdressingMode::IndirectX), (0xB1, AdressingMode::IndirectY)];
        assert(r@ =~= self.opcode_list());
        r
    }

    fn name(&self) -> (r: &'static str) {
        "LDA"
    }

    fn execute(&self, cpu: &mut CPU, mode: &AdressingMode) -> (r: u16) {
        let addr = get_params(cpu, mode);
        let value = cpu.read_byte(addr);
        cpu.accumulator = value;
        cpu.update_zero_and_negative_flags(cpu.accumulator);
        consume_params(cpu.program_counter, mode)
    }
}

/// Load X.
pub struct Ldx;

impl Instruction for Ldx {
    open spec fn opcode_list(&self) -> Seq<(u8, AdressingMode)> {
        seq![(0xA2u8, AdressingMode::Immediate), (0xA6u8, AdressingMode::ZeroPage), (0xB6u8, AdressingMode::ZeroPageY), (0xAEu8, AdressingMode::Absolute), (0xBEu8, AdressingMode::AbsoluteY)]
    }

    open spec fn mnemonic(&self) -> Seq<char> {
        "LDX"@
    }

    open spec fn result(&self, cpu: CPU, mode: AdressingMode) -> Option<(CPU, u16)> {
        match operand(cpu, mode) {
            Some((_a, v)) => finish(flagged(CPU { register_x: v, ..cpu }, v), mode),
            None => None,
        }
    }

    fn opcodes(&self) -> (r: &'static [(u8, AdressingMode)]) {
        let r: &'static [(u8, AdressingMode)] = &[(0xA2, AdressingMode::Immediate), (0xA6, AdressingMode::ZeroPage), (0xB6, AdressingMode::ZeroPageY), (0xAE, AdressingMode::Absolute), (0xBE, AdressingMode::AbsoluteY)];
        assert(r@ =~= self.opcode_list());
        r
    }

    fn name(&self) -> (r: &'static str) {
        "LDX"
    }

    fn execute(&self, cpu: &mut CPU, mode: &AdressingMode) -> (r: u16) {
        let addr = get_params(cpu, mode);
        let value = cpu.read_byte(addr);
        cpu.register_x = value;
        cpu.update_zero_and_negative_flags(cpu.register_x);
        consume_params(cpu.program_counter, mode)
    }
}

/// Load Y.
pub struct Ldy;

impl Instruction for Ldy {
    open spec fn opcode_list(&self) -> Seq<(u8, AdressingMode)> {
        seq![(0xA0u8, AdressingMode::Immediate), (0xA4u8, AdressingMode::ZeroPage), (0xB4u8, AdressingMode::ZeroPageX), (0xACu8, AdressingMode::Absolute), (0xBCu8, AdressingMode::AbsoluteX)]
    }

    open spec fn mnemonic(&self) -> Seq<char> {
        "LDY"@
    }

    open spec fn result(&self, cpu: CPU, mode: AdressingMode) -> Option<(CPU, u16)> {
        match operand(cpu, mode) {
            Some((_a, v)) => finish(flagged(CPU { register_y: v, ..cpu }, v), mode),
            None => None,
        }
    }

    fn opcodes(&self) -> (r: &'static [(u8, AdressingMode)]) {
        let r: &'static [(u8, AdressingMode)] = &[(0xA0, AdressingMode::Immediate), (0xA4, AdressingMode::ZeroPage), (0xB4, AdressingMode::ZeroPageX), (0xAC, AdressingMode::Absolute), (0xBC, AdressingMode::AbsoluteX)];
        assert(r@ =~= self.opcode_list());
        r
    }

    fn name(&self) -> (r: &'static str) {
        "LDY"
    }

    fn execute(&self, cpu: &mut CPU, mode: &AdressingMode) -> (r: u16) {
        let addr = get_params(cpu, mode);
        let value = cpu.read_byte(addr);
        cpu.register_y = value;
        cpu.update_zero_and_negative_flags(cpu.register_y);
        consume_params(cpu.program_counter, mode)
    }
}

/// Store the accumulator.
pub struct Sta;

impl Instruction for Sta {
    open spec fn opcode_list(&self) -> Seq<(u8, AdressingMode)> {
        seq![(0x85u8, AdressingMode::ZeroPage), (0x95u8, AdressingMode::ZeroPageX), (0x8Du8, AdressingMode::Absolute), (0x9Du8, AdressingMode::AbsoluteX), (0x99u8, AdressingMode::AbsoluteY), (0x81u8, AdressingMode::IndirectX), (0x91u8, AdressingMode::IndirectY)]
    }

    open spec fn mnemonic(&self) -> Seq<char> {
        "STA"@
    }

    open spec fn result(&self, cpu: CPU, mode: AdressingMode) -> Option<(CPU, u16)> {
        match param_address(cpu, mode) {
            Some(a) => if (a as int) < RAM_SIZE {
                finish(cpu.stored(a, cpu.accumulator), mode)
            } else {
                None
            },
            None => None,
        }
    }

    fn opcodes(&self) -> (r: &'static [(u8, AdressingMode)]) {
        let r: &'static [(u8, AdressingMode)] = &[(0x85, AdressingMode::ZeroPage), (0x95, AdressingMode::ZeroPageX), (0x8D, AdressingMode::Absolute), (0x9D, AdressingMode::AbsoluteX), (0x99, AdressingMode::AbsoluteY), (0x81, AdressingMode::IndirectX), (0x91, AdressingMode::IndirectY)];
        assert(r@ =~= self.opcode_list());
        r
    }

    fn name(&self) -> (r: &'static str) {
        "STA"
    }

    fn execute(&self, cpu: &mut CPU, mode: &AdressingMode) -> (r: u16) {
        let addr = get_params(cpu, mode);
        cpu.write_byte(addr, cpu.accumulator);
        consume_params(cpu.program_counter, mode)
    }
}

/// Store X.
pub struct Stx;

impl Instruction for Stx {
    open spec fn opcode_list(&self) -> Seq<(u8, AdressingMode)> {
        seq![(0x86u8, AdressingMode::ZeroPage), (0x96u8, AdressingMode::ZeroPageY), (0x8Eu8, AdressingMode::Absolute)]
    }

    open spec fn mnemonic(&self) -> Seq<char> {
        "STX"@
    }

    open spec fn result(&self, cpu: CPU, mode: AdressingMode) -> Option<(CPU, u16)> {
        match param_address(cpu, mode) {
            Some(a) => if (a as int) < RAM_SIZE {
                finish(cpu.stored(a, cpu.register_x), mode)
            } else {
                None
            },
            None => None,
        }
    }

    fn opcodes(&self) -> (r: &'static [(u8, AdressingMode)]) {
        let r: &'static [(u8, AdressingMode)] = &[(0x86, AdressingMode::ZeroPage), (0x96, AdressingMode::ZeroPageY), (0x8E, AdressingMode::Absolute)];
        assert(r@ =~= self.opcode_list());
        r
    }

    fn name(&self) -> (r: &'static str) {
        "STX"
    }

    fn execute(&self, cpu: &mut CPU, mode: &AdressingMode) -> (r: u16) {
        let addr = get_params(cpu, mode);
        cpu.write_byte(addr, cpu.register_x);
        consume_params(cpu.program_counter, mode)
    }
}

/// Store Y.
pub struct Sty;

impl Instruction for Sty {
    open spec fn opcode_list(&self) -> Seq<(u8, AdressingMode)> {
        seq![(0x84u8, AdressingMode::ZeroPage), (0x94u8, AdressingMode::ZeroPageX), (0x8Cu8, AdressingMode::Absolute)]
    }

    open spec fn mnemonic(&self) -> Seq<char> {
        "STY"@
    }

    open spec fn result(&self, cpu: CPU, mode: AdressingMode) -> Option<(CPU, u16)> {
        match param_address(cpu, mode) {
            Some(a) => if (a as int) < RAM_SIZE {
                finish(cpu.stored(a, cpu.register_y), mode)
            } else {
                None
            },
            None => None,
        }
    }

    fn opcodes(&self) -> (r: &'static [(u8, AdressingMode)]) {
        let r: &'static [(u8, AdressingMode)] = &[(0x84, AdressingMode::ZeroPage), (0x94, AdressingMode::ZeroPageX), (0x8C, AdressingMode::Absolute)];
        assert(r@ =~= self.opcode_list());
        r
    }

    fn name(&self) -> (r: &'static str) {
        "STY"
    }

    fn execute(&self, cpu: &mut CPU, mode: &AdressingMode) -> (r: u16) {
        let addr = get_params(cpu, mode);
        cpu.write_byte(addr, cpu.register_y);
        consume_params(cpu.program_counter, mode)
    }
}

/// Test bits of the operand against the accumulator.
pub struct Bit;

impl Instruction for Bit {
    open spec fn opcode_list(&self) -> Seq<(u8, AdressingMode)> {
        seq![(0x24u8, AdressingMode::ZeroPage), (0x2Cu8, AdressingMode::Absolute)]
    }

    open spec fn mnemonic(&self) -> Seq<char> {
        "BIT"@
    }

    open spec fn result(&self, cpu: CPU, mode: AdressingMode) -> Option<(CPU, u16)> {
        match operand(cpu, mode) {
            Some((_a, v)) => finish(
                with_status(
                    cpu,
                    cpu.status.with(CpuFlags::ZERO, cpu.accumulator & v == 0).with(
                        CpuFlags::NEGATIVE,
                        bit_of(v, 7),
                    ).with(CpuFlags::OVERFLOW, bit_of(v, 6)),
                ),
                mode,
            ),
            None => None,
        }
    }

    fn opcodes(&self) -> (r: &'static [(u8, AdressingMode)]) {
        let r: &'static [(u8, AdressingMode)] = &[(0x24, AdressingMode::ZeroPage), (0x2C, AdressingMode::Absolute)];
        assert(r@ =~= self.opcode_list());
        r
    }

    fn name(&self) -> (r: &'static str) {
        "BIT"
    }

    fn execute(&self, cpu: &mut CPU, mode: &AdressingMode) -> (r: u16) {
        let addr = get_params(cpu, mode);
        let value = cpu.read_byte(addr);
        cpu.status.set(CpuFlags::ZERO, (cpu.accumulator & value) == 0);
        cpu.status.set(CpuFlags::NEGATIVE, CPU::nth_bit(value, 7));
        cpu.status.set(CpuFlags::OVERFLOW, CPU::nth_bit(value, 6));
        consume_params(cpu.program_counter, mode)
    }
}

/// Transfer the stack pointer to X.
pub struct Tsx;

impl Instruction for Tsx {
    open spec fn opcode_list(&self) -> Seq<(u8, AdressingMode)> {
        seq![(0xBAu8, AdressingMode::Implied)]
    }

    open spec fn mnemonic(&self) -> Seq<char> {
        "TSX"@
    }

    open spec fn result(&self, cpu: CPU, mode: AdressingMode) -> Option<(CPU, u16)> {
        finish(flagged(CPU { register_x: cpu.stack_pointer, ..cpu }, cpu.stack_pointer), mode)
    }

    fn opcodes(&self) -> (r: &'static [(u8, AdressingMode)]) {
        let r: &'static [(u8, AdressingMode)] = &[(0xBA, AdressingMode::Implied)];
        assert(r@ =~= self.opcode_list());
        r
    }

    fn name(&self) -> (r: &'static str) {
        "TSX"
    }

    fn execute(&self, cpu: &mut CPU, mode: &AdressingMode) -> (r: u16) {
        cpu.register_x = cpu.stack_pointer;
        cpu.update_zero_and_negative_flags(cpu.register_x);
        consume_params(cpu.program_counter, mode)
    }
}

/// Transfer X to the stack pointer.
pub struct Txs;

impl Instruction for Txs {
    open spec fn opcode_list(&self) -> Seq<(u8, AdressingMode)> {
        seq![(0x9Au8, AdressingMode::Implied)]
    }

    open spec fn mnemonic(&self) -> Seq<char> {
        "TXS"@
    }

    open spec fn result(&self, cpu: CPU, mode: AdressingMode) -> Option<(CPU, u16)> {
        finish(CPU { stack_pointer: cpu.register_x, ..cpu }, mode)
    }

    fn opcodes(&self) -> (r: &'static [(u8, AdressingMode)]) {
        let r: &'static [(u8, AdressingMode)] = &[(0x9A, AdressingMode::Implied)];
        assert(r@ =~= self.opcode_list());
        r
    }

    fn name(&self) -> (r: &'static str) {
        "TXS"
    }

    fn execute(&self, cpu: &mut CPU, mode: &AdressingMode) -> (r: u16) {
        cpu.stack_pointer = cpu.register_x;
        consume_params(cpu.program_counter, mode)
    }
}

/// One of the instructions.
pub enum InstructionContainer {
    Adc(Adc),
    And(And),
    Asl(Asl),
    Bcc(Bcc),
    Bcs(Bcs),
    Beq(Beq),
    Bit(Bit),
    Bmi(Bmi),
    Bne(Bne),
    Bpl(Bpl),
    Brk(Brk),
    Bvc(Bvc),
    Bvs(Bvs),
    Clc(Clc),
    Cld(Cld),
    Cli(Cli),
    Clv(Clv),
    Cmp(Cmp),
    Cpx(Cpx),
    Cpy(Cpy),
    Dec(Dec),
    Dex(Dex),
    Dey(Dey),
    Eor(Eor),
    Inc(Inc),
    Inx(Inx),
    Iny(Iny),
    Jmp(Jmp),
    Jsr(Jsr),
    Lda(Lda),
    Ldx(Ldx),
    Ldy(Ldy),
    Lsr(Lsr),
    Nop(Nop),
    Ora(Ora),
    Pha(Pha),
    Php(Php),
    Pla(Pla),
    Plp(Plp),
    Rol(Rol),
    Ror(Ror),
    Rti(Rti),
    Rts(Rts),
    Sbc(Sbc),
    Sec(Sec),
    Sed(Sed),
    Sei(Sei),
    Sta(Sta),
    Stx(Stx),
    Sty(Sty),
    Tax(Tax),
    Tay(Tay),
    Tsx(Tsx),
    Txa(Txa),
    Txs(Txs),
    Tya(Tya),
}

impl Instruction for InstructionContainer {
    open spec fn opcode_list(&self) -> Seq<(u8, AdressingMode)> {
        match self {
            InstructionContainer::Adc(i) => i.opcode_list(),
            InstructionContainer::And(i) => i.opcode_list(),
            InstructionContainer::Asl(i) => i.opcode_list(),
            InstructionContainer::Bcc(i) => i.opcode_list(),
            InstructionContainer::Bcs(i) => i.opcode_list(),
            InstructionContainer::Beq(i) => i.opcode_list(),
            InstructionContainer::Bit(i) => i.opcode_list(),
            InstructionContainer::Bmi(i) => i.opcode_list(),
            InstructionContainer::Bne(i) => i.opcode_list(),
            InstructionContainer::Bpl(i) => i.opcode_list(),
            InstructionContainer::Brk(i) => i.opcode_list(),
            InstructionContainer::Bvc(i) => i.opcode_list(),
            InstructionContainer::Bvs(i) => i.opcode_list(),
            InstructionContainer::Clc(i) => i.opcode_list(),
            InstructionContainer::Cld(i) => i.opcode_list(),
            InstructionContainer::Cli(i) => i.opcode_list(),
            InstructionContainer::Clv(i) => i.opcode_list(),
            InstructionContainer::Cmp(i) => i.opcode_list(),
            InstructionContainer::Cpx(i) => i.opcode_list(),
            InstructionContainer::Cpy(i) => i.opcode_list(),
            InstructionContainer::Dec(i) => i.opcode_list(),
            InstructionContainer::Dex(i) => i.opcode_list(),
            InstructionContainer::Dey(i) => i.opcode_list(),
            InstructionContainer::Eor(i) => i.opcode_list(),
            InstructionContainer::Inc(i) => i.opcode_list(),
            InstructionContainer::Inx(i) => i.opcode_list(),
            InstructionContainer::Iny(i) => i.opcode_list(),
            InstructionContainer::Jmp(i) => i.opcode_list(),
            InstructionContainer::Jsr(i) => i.opcode_list(),
            InstructionContainer::Lda(i) => i.opcode_list(),
            InstructionContainer::Ldx(i) => i.opcode_list(),
            InstructionContainer::Ldy(i) => i.opcode_list(),
            InstructionContainer::Lsr(i) => i.opcode_list(),
            InstructionContainer::Nop(i) => i.opcode_list(),
            InstructionContainer::Ora(i) => i.opcode_list(),
            InstructionContainer::Pha(i) => i.opcode_list(),
            InstructionContainer::Php(i) => i.opcode_list(),
            InstructionContainer::Pla(i) => i.opcode_list(),
            InstructionContainer::Plp(i) => i.opcode_list(),
            InstructionContainer::Rol(i) => i.opcode_list(),
            InstructionContainer::Ror(i) => i.opcode_list(),
            InstructionContainer::Rti(i) => i.opcode_list(),
            InstructionContainer::Rts(i) => i.opcode_list(),
            InstructionContainer::Sbc(i) => i.opcode_list(),
            InstructionContainer::Sec(i) => i.opcode_list(),
            InstructionContainer::Sed(i) => i.opcode_list(),
            InstructionContainer::Sei(i) => i.opcode_list(),
            InstructionContainer::Sta(i) => i.opcode_list(),
            InstructionContainer::Stx(i) => i.opcode_list(),
            InstructionContainer::Sty(i) => i.opcode_list(),
            InstructionContainer::Tax(i) => i.opcode_list(),
            InstructionContainer::Tay(i) => i.opcode_list(),
            InstructionContainer::Tsx(i) => i.opcode_list(),
            InstructionContainer::Txa(i) => i.opcode_list(),
            InstructionContainer::Txs(i) => i.opcode_list(),
            InstructionContainer::Tya(i) => i.opcode_list(),
        }
    }

    open spec fn mnemonic(&self) -> Seq<char> {
        match self {
            InstructionContainer::Adc(i) => i.mnemonic(),
            InstructionContainer::And(i) => i.mnemonic(),
            InstructionContainer::Asl(i) => i.mnemonic(),
            InstructionContainer::Bcc(i) => i.mnemonic(),
            InstructionContainer::Bcs(i) => i.mnemonic(),
            InstructionContainer::Beq(i) => i.mnemonic(),
            InstructionContainer::Bit(i) => i.mnemonic(),
            InstructionContainer::Bmi(i) => i.mnemonic(),
            InstructionContainer::Bne(i) => i.mnemonic(),
            InstructionContainer::Bpl(i) => i.mnemonic(),
            InstructionContainer::Brk(i) => i.mnemonic(),
            InstructionContainer::Bvc(i) => i.mnemonic(),
            InstructionContainer::Bvs(i) => i.mnemonic(),
            InstructionContainer::Clc(i) => i.mnemonic(),
            InstructionContainer::Cld(i) => i.mnemonic(),
            InstructionContainer::Cli(i) => i.mnemonic(),
            InstructionContainer::Clv(i) => i.mnemonic(),
            InstructionContainer::Cmp(i) => i.mnemonic(),
            InstructionContainer::Cpx(i) => i.mnemonic(),
            InstructionContainer::Cpy(i) => i.mnemonic(),
            InstructionContainer::Dec(i) => i.mnemonic(),
            InstructionContainer::Dex(i) => i.mnemonic(),
            InstructionContainer::Dey(i) => i.mnemonic(),
            InstructionContainer::Eor(i) => i.mnemonic(),
            InstructionContainer::Inc(i) => i.mnemonic(),
            InstructionContainer::Inx(i) => i.mnemonic(),
            InstructionContainer::Iny(i) => i.mnemonic(),
            InstructionContainer::Jmp(i) => i.mnemonic(),
            InstructionContainer::Jsr(i) => i.mnemonic(),
            InstructionContainer::Lda(i) => i.mnemonic(),
            InstructionContainer::Ldx(i) => i.mnemonic(),
            InstructionContainer::Ldy(i) => i.mnemonic(),
            InstructionContainer::Lsr(i) => i.mnemonic(),
            InstructionContainer::Nop(i) => i.mnemonic(),
            InstructionContainer::Ora(i) => i.mnemonic(),
            InstructionContainer::Pha(i) => i.mnemonic(),
            InstructionContainer::Php(i) => i.mnemonic(),
            InstructionContainer::Pla(i) => i.mnemonic(),
            InstructionContainer::Plp(i) => i.mnemonic(),
            InstructionContainer::Rol(i) => i.mnemonic(),
            InstructionContainer::Ror(i) => i.mnemonic(),
            InstructionContainer::Rti(i) => i.mnemonic(),
            InstructionContainer::Rts(i) => i.mnemonic(),
            InstructionContainer::Sbc(i) => i.mnemonic(),
            InstructionContainer::Sec(i) => i.mnemonic(),
            InstructionContainer::Sed(i) => i.mnemonic(),
            InstructionContainer::Sei(i) => i.mnemonic(),
            InstructionContainer::Sta(i) => i.mnemonic(),
            InstructionContainer::Stx(i) => i.mnemonic(),
            InstructionContainer::Sty(i) => i.mnemonic(),
            InstructionContainer::Tax(i) => i.mnemonic(),
            InstructionContainer::Tay(i) => i.mnemonic(),
            InstructionContainer::Tsx(i) => i.mnemonic(),
            InstructionContainer::Txa(i) => i.mnemonic(),
            InstructionContainer::Txs(i) => i.mnemonic(),
            InstructionContainer::Tya(i) => i.mnemonic(),
        }
    }

    open spec fn result(&self, cpu: CPU, mode: AdressingMode) -> Option<(CPU, u16)> {
        match self {
            InstructionContainer::Adc(i) => i.result(cpu, mode),
            InstructionContainer::And(i) => i.result(cpu, mode),
            InstructionContainer::Asl(i) => i.result(cpu, mode),
            InstructionContainer::Bcc(i) => i.result(cpu, mode),
            InstructionContainer::Bcs(i) => i.result(cpu, mode),
            InstructionContainer::Beq(i) => i.result(cpu, mode),
            InstructionContainer::Bit(i) => i.result(cpu, mode),
            InstructionContainer::Bmi(i) => i.result(cpu, mode),
            InstructionContainer::Bne(i) => i.result(cpu, mode),
            InstructionContainer::Bpl(i) => i.result(cpu, mode),
            InstructionContainer::Brk(i) => i.result(cpu, mode),
            InstructionContainer::Bvc(i) => i.result(cpu, mode),
            InstructionContainer::Bvs(i) => i.result(cpu, mode),
            InstructionContainer::Clc(i) => i.result(cpu, mode),
            InstructionContainer::Cld(i) => i.result(cpu, mode),
            InstructionContainer::Cli(i) => i.result(cpu, mode),
            InstructionContainer::Clv(i) => i.result(cpu, mode),
            InstructionContainer::Cmp(i) => i.result(cpu, mode),
            InstructionContainer::Cpx(i) => i.result(cpu, mode),
            InstructionContainer::Cpy(i) => i.result(cpu, mode),
            InstructionContainer::Dec(i) => i.result(cpu, mode),
            InstructionContainer::Dex(i) => i.result(cpu, mode),
            InstructionContainer::Dey(i) => i.result(cpu, mode),
            InstructionContainer::Eor(i) => i.result(cpu, mode),
            InstructionContainer::Inc(i) => i.result(cpu, mode),
            InstructionContainer::Inx(i) => i.result(cpu, mode),
            InstructionContainer::Iny(i) => i.result(cpu, mode),
            InstructionContainer::Jmp(i) => i.result(cpu, mode),
            InstructionContainer::Jsr(i) => i.result(cpu, mode),
            InstructionContainer::Lda(i) => i.result(cpu, mode),
            InstructionContainer::Ldx(i) => i.result(cpu, mode),
            InstructionContainer::Ldy(i) => i.result(cpu, mode),
            InstructionContainer::Lsr(i) => i.result(cpu, mode),
            InstructionContainer::Nop(i) => i.result(cpu, mode),
            InstructionContainer::Ora(i) => i.result(cpu, mode),
            InstructionContainer::Pha(i) => i.result(cpu, mode),
            InstructionContainer::Php(i) => i.result(cpu, mode),
            InstructionContainer::Pla(i) => i.result(cpu, mode),
            InstructionContainer::Plp(i) => i.result(cpu, mode),
            InstructionContainer::Rol(i) => i.result(cpu, mode),
            InstructionContainer::Ror(i) => i.result(cpu, mode),
            InstructionContainer::Rti(i) => i.result(cpu, mode),
            InstructionContainer::Rts(i) => i.result(cpu, mode),
            InstructionContainer::Sbc(i) => i.result(cpu, mode),
            InstructionContainer::Sec(i) => i.result(cpu, mode),
            InstructionContainer::Sed(i) => i.result(cpu, mode),
            InstructionContainer::Sei(i) => i.result(cpu, mode),
            InstructionContainer::Sta(i) => i.result(cpu, mode),
            InstructionContainer::Stx(i) => i.result(cpu, mode),
            InstructionContainer::Sty(i) => i.result(cpu, mode),
            InstructionContainer::Tax(i) => i.result(cpu, mode),
            InstructionContainer::Tay(i) => i.result(cpu, mode),
            InstructionContainer::Tsx(i) => i.result(cpu, mode),
            InstructionContainer::Txa(i) => i.result(cpu, mode),
            InstructionContainer::Txs(i) => i.result(cpu, mode),
            InstructionContainer::Tya(i) => i.result(cpu, mode),
        }
    }

    fn opcodes(&self) -> (r: &'static [(u8, AdressingMode)]) {
        match self {
            InstructionContainer::Adc(i) => i.opcodes(),
            InstructionContainer::And(i) => i.opcodes(),
            InstructionContainer::Asl(i) => i.opcodes(),
            InstructionContainer::Bcc(i) => i.opcodes(),
            InstructionContainer::Bcs(i) => i.opcodes(),
            InstructionContainer::Beq(i) => i.opcodes(),
            InstructionContainer::Bit(i) => i.opcodes(),
            InstructionContainer::Bmi(i) => i.opcodes(),
            InstructionContainer::Bne(i) => i.opcodes(),
            InstructionContainer::Bpl(i) => i.opcodes(),
            InstructionContainer::Brk(i) => i.opcodes(),
            InstructionContainer::Bvc(i) => i.opcodes(),
            InstructionContainer::Bvs(i) => i.opcodes(),
            InstructionContainer::Clc(i) => i.opcodes(),
            InstructionContainer::Cld(i) => i.opcodes(),
            InstructionContainer::Cli(i) => i.opcodes(),
            InstructionContainer::Clv(i) => i.opcodes(),
            InstructionContainer::Cmp(i) => i.opcodes(),
            InstructionContainer::Cpx(i) => i.opcodes(),
            InstructionContainer::Cpy(i) => i.opcodes(),
            InstructionContainer::Dec(i) => i.opcodes(),
            InstructionContainer::Dex(i) => i.opcodes(),
            InstructionContainer::Dey(i) => i.opcodes(),
            InstructionContainer::Eor(i) => i.opcodes(),
            InstructionContainer::Inc(i) => i.opcodes(),
            InstructionContainer::Inx(i) => i.opcodes(),
            InstructionContainer::Iny(i) => i.opcodes(),
            InstructionContainer::Jmp(i) => i.opcodes(),
            InstructionContainer::Jsr(i) => i.opcodes(),
            InstructionContainer::Lda(i) => i.opcodes(),
            InstructionContainer::Ldx(i) => i.opcodes(),
            InstructionContainer::Ldy(i) => i.opcodes(),
            InstructionContainer::Lsr(i) => i.opcodes(),
            InstructionContainer::Nop(i) => i.opcodes(),
            InstructionContainer::Ora(i) => i.opcodes(),
            InstructionContainer::Pha(i) => i.opcodes(),
            InstructionContainer::Php(i) => i.opcodes(),
            InstructionContainer::Pla(i) => i.opcodes(),
            InstructionContainer::Plp(i) => i.opcodes(),
            InstructionContainer::Rol(i) => i.opcodes(),
            InstructionContainer::Ror(i) => i.opcodes(),
            InstructionContainer::Rti(i) => i.opcodes(),
            InstructionContainer::Rts(i) => i.opcodes(),
            InstructionContainer::Sbc(i) => i.opcodes(),
            InstructionContainer::Sec(i) => i.opcodes(),
            InstructionContainer::Sed(i) => i.opcodes(),
            InstructionContainer::Sei(i) => i.opcodes(),
            InstructionContainer::Sta(i) => i.opcodes(),
            InstructionContainer::Stx(i) => i.opcodes(),
            InstructionContainer::Sty(i) => i.opcodes(),
            InstructionContainer::Tax(i) => i.opcodes(),
            InstructionContainer::Tay(i) => i.opcodes(),
            InstructionContainer::Tsx(i) => i.opcodes(),
            InstructionContainer::Txa(i) => i.opcodes(),
            InstructionContainer::Txs(i) => i.opcodes(),
            InstructionContainer::Tya(i) => i.opcodes(),
        }
    }

    fn name(&self) -> (r: &'static str) {
        match self {
            InstructionContainer::Adc(i) => i.name(),
            InstructionContainer::And(i) => i.name(),
            InstructionContainer::Asl(i) => i.name(),
            InstructionContainer::Bcc(i) => i.name(),
            InstructionContainer::Bcs(i) => i.name(),
            InstructionContainer::Beq(i) => i.name(),
            InstructionContainer::Bit(i) => i.name(),
            InstructionContainer::Bmi(i) => i.name(),
            InstructionContainer::Bne(i) => i.name(),
            InstructionContainer::Bpl(i) => i.name(),
            InstructionContainer::Brk(i) => i.name(),
            InstructionContainer::Bvc(i) => i.name(),
            InstructionContainer::Bvs(i) => i.name(),
            InstructionContainer::Clc(i) => i.name(),
            InstructionContainer::Cld(i) => i.name(),
            InstructionContainer::Cli(i) => i.name(),
            InstructionContainer::Clv(i) => i.name(),
            InstructionContainer::Cmp(i) => i.name(),
            InstructionContainer::Cpx(i) => i.name(),
            InstructionContainer::Cpy(i) => i.name(),
            InstructionContainer::Dec(i) => i.name(),
            InstructionContainer::Dex(i) => i.name(),
            InstructionContainer::Dey(i) => i.name(),
            InstructionContainer::Eor(i) => i.name(),
            InstructionContainer::Inc(i) => i.name(),
            InstructionContainer::Inx(i) => i.name(),
            InstructionContainer::Iny(i) => i.name(),
            InstructionContainer::Jmp(i) => i.name(),
            InstructionContainer::Jsr(i) => i.name(),
            InstructionContainer::Lda(i) => i.name(),
            InstructionContainer::Ldx(i) => i.name(),
            InstructionContainer::Ldy(i) => i.name(),
            InstructionContainer::Lsr(i) => i.name(),
            InstructionContainer::Nop(i) => i.name(),
            InstructionContainer::Ora(i) => i.name(),
            InstructionContainer::Pha(i) => i.name(),
            InstructionContainer::Php(i) => i.name(),
            InstructionContainer::Pla(i) => i.name(),
            InstructionContainer::Plp(i) => i.name(),
            InstructionContainer::Rol(i) => i.name(),
            InstructionContainer::Ror(i) => i.name(),
            InstructionContainer::Rti(i) => i.name(),
            InstructionContainer::Rts(i) => i.name(),
            InstructionContainer::Sbc(i) => i.name(),
            InstructionContainer::Sec(i) => i.name(),
            InstructionContainer::Sed(i) => i.name(),
            InstructionContainer::Sei(i) => i.name(),
            InstructionContainer::Sta(i) => i.name(),
            InstructionContainer::Stx(i) => i.name(),
            InstructionContainer::Sty(i) => i.name(),
            InstructionContainer::Tax(i) => i.name(),
            InstructionContainer::Tay(i) => i.name(),
            InstructionContainer::Tsx(i) => i.name(),
            InstructionContainer::Txa(i) => i.name(),
            InstructionContainer::Txs(i) => i.name(),
            InstructionContainer::Tya(i) => i.name(),
        }
    }

    fn execute(&self, cpu: &mut CPU, mode: &AdressingMode) -> (r: u16) {
        match self {
            InstructionContainer::Adc(i) => i.execute(cpu, mode),
            InstructionContainer::And(i) => i.execute(cpu, mode),
            InstructionContainer::Asl(i) => i.execute(cpu, mode),
            InstructionContainer::Bcc(i) => i.execute(cpu, mode),
            InstructionContainer::Bcs(i) => i.execute(cpu, mode),
            InstructionContainer::Beq(i) => i.execute(cpu, mode),
            InstructionContainer::Bit(i) => i.execute(cpu, mode),
            InstructionContainer::Bmi(i) => i.execute(cpu, mode),
            InstructionContainer::Bne(i) => i.execute(cpu, mode),
            InstructionContainer::Bpl(i) => i.execute(cpu, mode),
            InstructionContainer::Brk(i) => i.execute(cpu, mode),
            InstructionContainer::Bvc(i) => i.execute(cpu, mode),
            InstructionContainer::Bvs(i) => i.execute(cpu, mode),
            InstructionContainer::Clc(i) => i.execute(cpu, mode),
            InstructionContainer::Cld(i) => i.execute(cpu, mode),
            InstructionContainer::Cli(i) => i.execute(cpu, mode),
            InstructionContainer::Clv(i) => i.execute(cpu, mode),
            InstructionContainer::Cmp(i) => i.execute(cpu, mode),
            InstructionContainer::Cpx(i) => i.execute(cpu, mode),
            InstructionContainer::Cpy(i) => i.execute(cpu, mode),
            InstructionContainer::Dec(i) => i.execute(cpu, mode),
            InstructionContainer::Dex(i) => i.execute(cpu, mode),
            InstructionContainer::Dey(i) => i.execute(cpu, mode),
            InstructionContainer::Eor(i) => i.execute(cpu, mode),
            InstructionContainer::Inc(i) => i.execute(cpu, mode),
            InstructionContainer::Inx(i) => i.execute(cpu, mode),
            InstructionContainer::Iny(i) => i.execute(cpu, mode),
            InstructionContainer::Jmp(i) => i.execute(cpu, mode),
            InstructionContainer::Jsr(i) => i.execute(cpu, mode),
            InstructionContainer::Lda(i) => i.execute(cpu, mode),
            InstructionContainer::Ldx(i) => i.execute(cpu, mode),
            InstructionContainer::Ldy(i) => i.execute(cpu, mode),
            InstructionContainer::Lsr(i) => i.execute(cpu, mode),
            InstructionContainer::Nop(i) => i.execute(cpu, mode),
            InstructionContainer::Ora(i) => i.execute(cpu, mode),
            InstructionContainer::Pha(i) => i.execute(cpu, mode),
            InstructionContainer::Php(i) => i.execute(cpu, mode),
            InstructionContainer::Pla(i) => i.execute(cpu, mode),
            InstructionContainer::Plp(i) => i.execute(cpu, mode),
            InstructionContainer::Rol(i) => i.execute(cpu, mode),
            InstructionContainer::Ror(i) => i.execute(cpu, mode),
            InstructionContainer::Rti(i) => i.execute(cpu, mode),
            InstructionContainer::Rts(i) => i.execute(cpu, mode),
            InstructionContainer::Sbc(i) => i.execute(cpu, mode),
            InstructionContainer::Sec(i) => i.execute(cpu, mode),
            InstructionContainer::Sed(i) => i.execute(cpu, mode),
            InstructionContainer::Sei(i) => i.execute(cpu, mode),
            InstructionContainer::Sta(i) => i.execute(cpu, mode),
            InstructionContainer::Stx(i) => i.execute(cpu, mode),
            InstructionContainer::Sty(i) => i.execute(cpu, mode),
            InstructionContainer::Tax(i) => i.execute(cpu, mode),
            InstructionContainer::Tay(i) => i.execute(cpu, mode),
            InstructionContainer::Tsx(i) => i.execute(cpu, mode),
            InstructionContainer::Txa(i) => i.execute(cpu, mode),
            InstructionContainer::Txs(i) => i.execute(cpu, mode),
            InstructionContainer::Tya(i) => i.execute(cpu, mode),
        }
    }
}

/// The instruction set, in the order in which opcodes are looked up.
pub open spec fn instruction_set_spec() -> Seq<InstructionContainer> {
    seq![
        InstructionContainer::Adc(Adc),
        InstructionContainer::And(And),
        InstructionContainer::Asl(Asl),
        InstructionContainer::Bcc(Bcc),
        InstructionContainer::Bcs(Bcs),
        InstructionContainer::Beq(Beq),
        InstructionContainer::Bit(Bit),
        InstructionContainer::Bmi(Bmi),
        InstructionContainer::Bne(Bne),
        InstructionContainer::Bpl(Bpl),
        InstructionContainer::Brk(Brk),
        InstructionContainer::Bvc(Bvc),
        InstructionContainer::Bvs(Bvs),
        InstructionContainer::Clc(Clc),
        InstructionContainer::Cld(Cld),
        InstructionContainer::Cli(Cli),
        InstructionContainer::Clv(Clv),
        InstructionContainer::Cmp(Cmp),
        InstructionContainer::Cpx(Cpx),
        InstructionContainer::Cpy(Cpy),
        InstructionContainer::Dec(Dec),
        InstructionContainer::Dex(Dex),
        InstructionContainer::Dey(Dey),
        InstructionContainer::Eor(Eor),
        InstructionContainer::Inc(Inc),
        InstructionContainer::Inx(Inx),
        InstructionContainer::Iny(Iny),
        InstructionContainer::Jmp(Jmp),
        InstructionContainer::Jsr(Jsr),
        InstructionContainer::Lda(Lda),
        InstructionContainer::Ldx(Ldx),
        InstructionContainer::Ldy(Ldy),
        InstructionContainer::Lsr(Lsr),
        InstructionContainer::Nop(Nop),
        InstructionContainer::Ora(Ora),
        InstructionContainer::Pha(Pha),
        InstructionContainer::Php(Php),
        InstructionContainer::Pla(Pla),
        InstructionContainer::Plp(Plp),
        InstructionContainer::Rol(Rol),
        InstructionContainer::Ror(Ror),
        InstructionContainer::Rti(Rti),
        InstructionContainer::Rts(Rts),
        InstructionContainer::Sbc(Sbc),
        InstructionContainer::Sec(Sec),
        InstructionContainer::Sed(Sed),
        InstructionContainer::Sei(Sei),
        InstructionContainer::Sta(Sta),
        InstructionContainer::Stx(Stx),
        InstructionContainer::Sty(Sty),
        InstructionContainer::Tax(Tax),
        InstructionContainer::Tay(Tay),
        InstructionContainer::Tsx(Tsx),
        InstructionContainer::Txa(Txa),
        InstructionContainer::Txs(Txs),
        InstructionContainer::Tya(Tya),
    ]
}

/// The instruction set, in the order in which opcodes are looked up.
pub fn instruction_set() -> (r: Vec<InstructionContainer>)
    ensures
        r@ == instruction_set_spec(),
{
    let r = vec![
        InstructionContainer::Adc(Adc),
        InstructionContainer::And(And),
        InstructionContainer::Asl(Asl),
        InstructionContainer::Bcc(Bcc),
        InstructionContainer::Bcs(Bcs),
        InstructionContainer::Beq(Beq),
        InstructionContainer::Bit(Bit),
        InstructionContainer::Bmi(Bmi),
        InstructionContainer::Bne(Bne),
        InstructionContainer::Bpl(Bpl),
        InstructionContainer::Brk(Brk),
        InstructionContainer::Bvc(Bvc),
        InstructionContainer::Bvs(Bvs),
        InstructionContainer::Clc(Clc),
        InstructionContainer::Cld(Cld),
        InstructionContainer::Cli(Cli),
        InstructionContainer::Clv(Clv),
        InstructionContainer::Cmp(Cmp),
        InstructionContainer::Cpx(Cpx),
        InstructionContainer::Cpy(Cpy),
        InstructionContainer::Dec(Dec),
        InstructionContainer::Dex(Dex),
        InstructionContainer::Dey(Dey),
        InstructionContainer::Eor(Eor),
        InstructionContainer::Inc(Inc),
        InstructionContainer::Inx(Inx),
        InstructionContainer::Iny(Iny),
        InstructionContainer::Jmp(Jmp),
        InstructionContainer::Jsr(Jsr),
        InstructionContainer::Lda(Lda),
        InstructionContainer::Ldx(Ldx),
        InstructionContainer::Ldy(Ldy),
        InstructionContainer::Lsr(Lsr),
        InstructionContainer::Nop(Nop),
        InstructionContainer::Ora(Ora),
        InstructionContainer::Pha(Pha),
        InstructionContainer::Php(Php),
        InstructionContainer::Pla(Pla),
        InstructionContainer::Plp(Plp),
        InstructionContainer::Rol(Rol),
        InstructionContainer::Ror(Ror),
        InstructionContainer::Rti(Rti),
        InstructionContainer::Rts(Rts),
        InstructionContainer::Sbc(Sbc),
        InstructionContainer::Sec(Sec),
        InstructionContainer::Sed(Sed),
        InstructionContainer::Sei(Sei),
        InstructionContainer::Sta(Sta),
        InstructionContainer::Stx(Stx),
        InstructionContainer::Sty(Sty),
        InstructionContainer::Tax(Tax),
        InstructionContainer::Tay(Tay),
        InstructionContainer::Tsx(Tsx),
        InstructionContainer::Txa(Txa),
        InstructionContainer::Txs(Txs),
        InstructionContainer::Tya(Tya),
    ];
    assert(r@ =~= instruction_set_spec());
    r
}

/// The addressing mode of the first entry for `identifier` in an opcode list.
pub open spec fn find_opcode(ops: Seq<(u8, AdressingMode)>, identifier: u8) -> Option<
    AdressingMode,
>
    decreases ops.len(),
{
    if ops.len() == 0 {
        None
    } else if ops[0].0 == identifier {
        Some(ops[0].1)
    } else {
        find_opcode(ops.drop_first(), identifier)
    }
}

/// The first instruction of `set` with an entry for `identifier`, with that entry's mode.
pub open spec fn find_instruction(set: Seq<InstructionContainer>, identifier: u8) -> Option<
    (InstructionContainer, AdressingMode),
>
    decreases set.len(),
{
    if set.len() == 0 {
        None
    } else {
        match find_opcode(set[0].opcode_list(), identifier) {
            Some(mode) => Some((set[0], mode)),
            None => find_instruction(set.drop_first(), identifier),
        }
    }
}

/// The mode of the first entry for `identifier` in an opcode list.
fn find_in_opcodes(ops: &[(u8, AdressingMode)], identifier: u8) -> (r: Option<AdressingMode>)
    ensures
        r == find_opcode(ops@, identifier),
{
    let mut i: usize = 0;
    assert(ops@.skip(0) =~= ops@);
    while i < ops.len()
        invariant
            i <= ops@.len(),
            find_opcode(ops@, identifier) == find_opcode(ops@.skip(i as int), identifier),
        decreases ops@.len() - i,
    {
        assert(ops@.skip(i as int).drop_first() =~= ops@.skip(i as int + 1));
        if ops[i].0 == identifier {
            return Some(ops[i].1);
        }
        i += 1;
    }
    None
}

/// Match the opcode to the correct instruction: the first of the instruction set with
/// an entry for `identifier`, and the addressing mode of that entry.
pub fn into_instruction(identifier: u8) -> (r: Option<(InstructionContainer, AdressingMode)>)
    ensures
        r == find_instruction(instruction_set_spec(), identifier),
{
    let mut set = instruction_set();
    let ghost all = set@;
    let mut i: usize = 0;
    assert(all.skip(0) =~= all);
    while i < set.len()
        invariant
            set@ == all,
            all == instruction_set_spec(),
            i <= all.len(),
            find_instruction(all, identifier) == find_instruction(all.skip(i as int), identifier),
        decreases all.len() - i,
    {
        assert(all.skip(i as int).drop_first() =~= all.skip(i as int + 1));
        assert(all.skip(i as int)[0] == all[i as int]);
        match find_in_opcodes(set[i].opcodes(), identifier) {
            Some(mode) => {
                let instruction = set.remove(i);
                return Some((instruction, mode));
            },
            None => {},
        }
        i += 1;
    }
    None
}

} // verus!
