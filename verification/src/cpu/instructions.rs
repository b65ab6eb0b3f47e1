//! The instruction set: what each instruction does to the CPU and the bus, and the
//! table that decodes opcodes.
//! See https://www.nesdev.org/obelisk-6502-guide/reference.html

use super::addressing_mode::AddressingMode;
use super::flags::CpuFlags;
use super::{different_pages, Cpu, BREAK_VECTOR};
use crate::bus::{Clock, CycleCount, Memory};
use crate::simple_cpu::sign_extend;
use crate::util::{bit_of, hex_string, pad_right, pad_to, push_hex, with_bit};
use vstd::prelude::*;

verus! {

/// `cpu` with flag `bit` set to `value`.
pub open spec fn set_flag(cpu: Cpu, bit: u8, value: bool) -> Cpu {
    Cpu { flags: CpuFlags(with_bit(cpu.flags.0, bit, value)), ..cpu }
}

/// `cpu`, then `cycles` more cycles when `condition` holds.
pub open spec fn tick_if(cpu: Option<Cpu>, condition: bool) -> Option<Cpu> {
    match cpu {
        Some(c) => c.ticked_if(condition),
        None => None,
    }
}

/// The carry flag as a number.
pub open spec fn carry_in(cpu: Cpu) -> int {
    if bit_of(cpu.flags.0, 0) {
        1
    } else {
        0
    }
}

/// A branch: when `condition` holds, the byte after the opcode is the signed offset
/// from the next instruction; the branch takes one more cycle, and one more when the
/// target lies on another page than the next instruction. Otherwise the next
/// instruction follows.
#[verifier::opaque]
pub open spec fn branch_result(cpu: Cpu, mode: AddressingMode, condition: bool) -> Option<Cpu> {
    let after_opcode = cpu.program_counter.wrapping_add(mode.length());
    if condition {
        match cpu.read_at(cpu.program_counter.wrapping_add(1)) {
            Some((c1, offset)) => match c1.ticked(1) {
                Some(c2) => {
                    let new_pc = after_opcode.wrapping_add(sign_extend(offset));
                    match c2.ticked_if(different_pages(after_opcode, new_pc)) {
                        Some(c3) => Some(Cpu { program_counter: new_pc, ..c3 }),
                        None => None,
                    }
                },
                None => None,
            },
            None => None,
        }
    } else {
        Some(Cpu { program_counter: after_opcode, ..cpu })
    }
}

/// Branch to the operand when `condition` holds.
pub fn branch(cpu: &mut Cpu, mode: &AddressingMode, condition: bool)
    requires
        branch_result(*old(cpu), *mode, condition) is Some,
    ensures
        Some(*final(cpu)) == branch_result(*old(cpu), *mode, condition),
{
    proof {
        reveal(branch_result);
    }
    let after_opcode = cpu.program_counter.wrapping_add(mode.len());
    if condition {
        // The signed offset is the byte after the opcode
        let offset = cpu.read_byte(cpu.program_counter.wrapping_add(1));
        cpu.tick(1);
        // Two's complement signed offset to branch backwards
        let new_pc = if offset > (u8::MAX / 2) {
            after_opcode.wrapping_sub(0u8.wrapping_sub(offset) as u16)
        } else {
            after_opcode.wrapping_add(offset as u16)
        };
        assert(new_pc == after_opcode.wrapping_add(sign_extend(offset)));
        if Cpu::is_on_different_page(after_opcode, new_pc) {
            cpu.tick(1);
        }
        cpu.program_counter = new_pc;
        return ;
    }
    cpu.program_counter = after_opcode;
}

/// Break: push the address after the next byte and the flags, jump through the BRK vector, and set the break flag.
#[verifier::opaque]
pub open spec fn brk_result(cpu: Cpu, mode: AddressingMode) -> Option<Cpu> {
    match cpu.pushed_word(cpu.program_counter.wrapping_add(1)) {
        Some(c1) => match c1.pushed(cpu.flags.0) {
            Some(c2) => match c2.word_at(BREAK_VECTOR) {
                Some((c3, target)) => Some(set_flag(Cpu { program_counter: target, ..c3 }, 4, true)),
                None => None,
            },
            None => None,
        },
        None => None,
    }
}

/// Break: push the address after the next byte and the flags, jump through the BRK vector, and set the break flag.
pub fn brk(cpu: &mut Cpu, mode: &AddressingMode)
    requires
        brk_result(*old(cpu), *mode) is Some,
    ensures
        Some(*final(cpu)) == brk_result(*old(cpu), *mode),
{
    proof {
        reveal(brk_result);
    }
    cpu.push_word(cpu.program_counter.wrapping_add(1));
    cpu.push_byte(cpu.flags.bits());
    cpu.program_counter = cpu.read_word(BREAK_VECTOR);
    cpu.flags.set_break_1(true);
}

/// Return from an interrupt: pull the flags (break flag clear, bit 5 set), then the program counter.
#[verifier::opaque]
pub open spec fn rti_result(cpu: Cpu, mode: AddressingMode) -> Option<Cpu> {
    match cpu.popped() {
        Some((c1, b)) => {
            let c2 = Cpu { flags: CpuFlags(with_bit(with_bit(b, 4, false), 5, true)), ..c1 };
            match c2.popped_word() {
                Some((c3, target)) => Some(Cpu { program_counter: target, ..c3 }),
                None => None,
            }
        },
        None => None,
    }
}

/// Return from an interrupt: pull the flags (break flag clear, bit 5 set), then the program counter.
pub fn rti(cpu: &mut Cpu, mode: &AddressingMode)
    requires
        rti_result(*old(cpu), *mode) is Some,
    ensures
        Some(*final(cpu)) == rti_result(*old(cpu), *mode),
{
    proof {
        reveal(rti_result);
    }
    cpu.flags = CpuFlags::from(cpu.pop_byte());
    // See https://www.nesdev.org/wiki/Status_flags#The_B_flag
    cpu.flags.set_break_1(false);
    cpu.flags.set_break_2(true);
    cpu.program_counter = cpu.pop_word();
}

/// Branch when carry is set.
#[verifier::opaque]
pub open spec fn bcs_result(cpu: Cpu, mode: AddressingMode) -> Option<Cpu> {
    branch_result(cpu, mode, bit_of(cpu.flags.0, 0))
}

/// Branch when carry is set.
pub fn bcs(cpu: &mut Cpu, mode: &AddressingMode)
    requires
        bcs_result(*old(cpu), *mode) is Some,
    ensures
        Some(*final(cpu)) == bcs_result(*old(cpu), *mode),
{
    proof {
        reveal(bcs_result);
    }
    branch(cpu, mode, cpu.flags.carry());
}

/// Branch when carry is clear.
#[verifier::opaque]
pub open spec fn bcc_result(cpu: Cpu, mode: AddressingMode) -> Option<Cpu> {
    branch_result(cpu, mode, !bit_of(cpu.flags.0, 0))
}

/// Branch when carry is clear.
pub fn bcc(cpu: &mut Cpu, mode: &AddressingMode)
    requires
        bcc_result(*old(cpu), *mode) is Some,
    ensures
        Some(*final(cpu)) == bcc_result(*old(cpu), *mode),
{
    proof {
        reveal(bcc_result);
    }
    branch(cpu, mode, !cpu.flags.carry());
}

/// Branch when zero is set.
#[verifier::opaque]
pub open spec fn beq_result(cpu: Cpu, mode: AddressingMode) -> Option<Cpu> {
    branch_result(cpu, mode, bit_of(cpu.flags.0, 1))
}

/// Branch when zero is set.
pub fn beq(cpu: &mut Cpu, mode: &AddressingMode)
    requires
        beq_result(*old(cpu), *mode) is Some,
    ensures
        Some(*final(cpu)) == beq_result(*old(cpu), *mode),
{
    proof {
        reveal(beq_result);
    }
    branch(cpu, mode, cpu.flags.zero());
}

/// Branch when zero is clear.
#[verifier::opaque]
pub open spec fn bne_result(cpu: Cpu, mode: AddressingMode) -> Option<Cpu> {
    branch_result(cpu, mode, !bit_of(cpu.flags.0, 1))
}

/// Branch when zero is clear.
pub fn bne(cpu: &mut Cpu, mode: &AddressingMode)
    requires
        bne_result(*old(cpu), *mode) is Some,
    ensures
        Some(*final(cpu)) == bne_result(*old(cpu), *mode),
{
    proof {
        reveal(bne_result);
    }
    branch(cpu, mode, !cpu.flags.zero());
}

/// Branch when negative is set.
#[verifier::opaque]
pub open spec fn bmi_result(cpu: Cpu, mode: AddressingMode) -> Option<Cpu> {
    branch_result(cpu, mode, bit_of(cpu.flags.0, 7))
}

/// Branch when negative is set.
pub fn bmi(cpu: &mut Cpu, mode: &AddressingMode)
    requires
        bmi_result(*old(cpu), *mode) is Some,
    ensures
        Some(*final(cpu)) == bmi_result(*old(cpu), *mode),
{
    proof {
        reveal(bmi_result);
    }
    branch(cpu, mode, cpu.flags.negative());
}

/// Branch when negative is clear.
#[verifier::opaque]
pub open spec fn bpl_result(cpu: Cpu, mode: AddressingMode) -> Option<Cpu> {
    branch_result(cpu, mode, !bit_of(cpu.flags.0, 7))
}

/// Branch when negative is clear.
pub fn bpl(cpu: &mut Cpu, mode: &AddressingMode)
    requires
        bpl_result(*old(cpu), *mode) is Some,
    ensures
        Some(*final(cpu)) == bpl_result(*old(cpu), *mode),
{
    proof {
        reveal(bpl_result);
    }
    branch(cpu, mode, !cpu.flags.negative());
}

/// Branch when overflow is set.
#[verifier::opaque]
pub open spec fn bvs_result(cpu: Cpu, mode: AddressingMode) -> Option<Cpu> {
    branch_result(cpu, mode, bit_of(cpu.flags.0, 6))
}

/// Branch when overflow is set.
pub fn bvs(cpu: &mut Cpu, mode: &AddressingMode)
    requires
        bvs_result(*old(cpu), *mode) is Some,
    ensures
        Some(*final(cpu)) == bvs_result(*old(cpu), *mode),
{
    proof {
        reveal(bvs_result);
    }
    branch(cpu, mode, cpu.flags.overflow());
}

/// Branch when overflow is clear.
#[verifier::opaque]
pub open spec fn bvc_result(cpu: Cpu, mode: AddressingMode) -> Option<Cpu> {
    branch_result(cpu, mode, !bit_of(cpu.flags.0, 6))
}

/// Branch when overflow is clear.
pub fn bvc(cpu: &mut Cpu, mode: &AddressingMode)
    requires
        bvc_result(*old(cpu), *mode) is Some,
    ensures
        Some(*final(cpu)) == bvc_result(*old(cpu), *mode),
{
    proof {
        reveal(bvc_result);
    }
    branch(cpu, mode, !cpu.flags.overflow());
}

/// Clear overflow.
#[verifier::opaque]
pub open spec fn clv_result(cpu: Cpu, mode: AddressingMode) -> Option<Cpu> {
    Some(set_flag(cpu, 6, false))
}

/// Clear overflow.
pub fn clv(cpu: &mut Cpu, mode: &AddressingMode)
    requires
        clv_result(*old(cpu), *mode) is Some,
    ensures
        Some(*final(cpu)) == clv_result(*old(cpu), *mode),
{
    proof {
        reveal(clv_result);
    }
    cpu.flags.set_overflow(false);
}

/// Clear carry.
#[verifier::opaque]
pub open spec fn clc_result(cpu: Cpu, mode: AddressingMode) -> Option<Cpu> {
    Some(set_flag(cpu, 0, false))
}

/// Clear carry.
pub fn clc(cpu: &mut Cpu, mode: &AddressingMode)
    requires
        clc_result(*old(cpu), *mode) is Some,
    ensures
        Some(*final(cpu)) == clc_result(*old(cpu), *mode),
{
    proof {
        reveal(clc_result);
    }
    cpu.flags.set_carry(false);
}

/// Clear decimal.
#[verifier::opaque]
pub open spec fn cld_result(cpu: Cpu, mode: AddressingMode) -> Option<Cpu> {
    Some(set_flag(cpu, 3, false))
}

/// Clear decimal.
pub fn cld(cpu: &mut Cpu, mode: &AddressingMode)
    requires
        cld_result(*old(cpu), *mode) is Some,
    ensures
        Some(*final(cpu)) == cld_result(*old(cpu), *mode),
{
    proof {
        reveal(cld_result);
    }
    cpu.flags.set_decimal(false);
}

/// Enable interrupts.
#[verifier::opaque]
pub open spec fn cli_result(cpu: Cpu, mode: AddressingMode) -> Option<Cpu> {
    Some(set_flag(cpu, 2, false))
}

/// Enable interrupts.
pub fn cli(cpu: &mut Cpu, mode: &AddressingMode)
    requires
        cli_result(*old(cpu), *mode) is Some,
    ensures
        Some(*final(cpu)) == cli_result(*old(cpu), *mode),
{
    proof {
        reveal(cli_result);
    }
    cpu.flags.set_interrupts_disabled(false);
}

/// Set carry.
#[verifier::opaque]
pub open spec fn sec_result(cpu: Cpu, mode: AddressingMode) -> Option<Cpu> {
    Some(set_flag(cpu, 0, true))
}

/// Set carry.
pub fn sec(cpu: &mut Cpu, mode: &AddressingMode)
    requires
        sec_result(*old(cpu), *mode) is Some,
    ensures
        Some(*final(cpu)) == sec_result(*old(cpu), *mode),
{
    proof {
        reveal(sec_result);
    }
    cpu.flags.set_carry(true);
}

/// Set decimal.
#[verifier::opaque]
pub open spec fn sed_result(cpu: Cpu, mode: AddressingMode) -> Option<Cpu> {
    Some(set_flag(cpu, 3, true))
}

/// Set decimal.
pub fn sed(cpu: &mut Cpu, mode: &AddressingMode)
    requires
        sed_result(*old(cpu), *mode) is Some,
    ensures
        Some(*final(cpu)) == sed_result(*old(cpu), *mode),
{
    proof {
        reveal(sed_result);
    }
    cpu.flags.set_decimal(true);
}

/// Disable interrupts.
#[verifier::opaque]
pub open spec fn sei_result(cpu: Cpu, mode: AddressingMode) -> Option<Cpu> {
    Some(set_flag(cpu, 2, true))
}

/// Disable interrupts.
pub fn sei(cpu: &mut Cpu, mode: &AddressingMode)
    requires
        sei_result(*old(cpu), *mode) is Some,
    ensures
        Some(*final(cpu)) == sei_result(*old(cpu), *mode),
{
    proof {
        reveal(sei_result);
    }
    cpu.flags.set_interrupts_disabled(true);
}

/// Transfer the accumulator to X.
#[verifier::opaque]
pub open spec fn tax_result(cpu: Cpu, mode: AddressingMode) -> Option<Cpu> {
    Some(Cpu { register_x: cpu.accumulator, ..cpu }.flagged(cpu.accumulator))
}

/// Transfer the accumulator to X.
pub fn tax(cpu: &mut Cpu, mode: &AddressingMode)
    requires
        tax_result(*old(cpu), *mode) is Some,
    ensures
        Some(*final(cpu)) == tax_result(*old(cpu), *mode),
{
    proof {
        reveal(tax_result);
    }
    cpu.register_x = cpu.accumulator;
    cpu.update_zero_and_negative_flags(cpu.register_x);
}

/// Transfer the accumulator to Y.
#[verifier::opaque]
pub open spec fn tay_result(cpu: Cpu, mode: AddressingMode) -> Option<Cpu> {
    Some(Cpu { register_y: cpu.accumulator, ..cpu }.flagged(cpu.accumulator))
}

/// Transfer the accumulator to Y.
pub fn tay(cpu: &mut Cpu, mode: &AddressingMode)
    requires
        tay_result(*old(cpu), *mode) is Some,
    ensures
        Some(*final(cpu)) == tay_result(*old(cpu), *mode),
{
    proof {
        reveal(tay_result);
    }
    cpu.register_y = cpu.accumulator;
    cpu.update_zero_and_negative_flags(cpu.register_y);
}

/// Transfer X to the accumulator.
#[verifier::opaque]
pub open spec fn txa_result(cpu: Cpu, mode: AddressingMode) -> Option<Cpu> {
    Some(Cpu { accumulator: cpu.register_x, ..cpu }.flagged(cpu.register_x))
}

/// Transfer X to the accumulator.
pub fn txa(cpu: &mut Cpu, mode: &AddressingMode)
    requires
        txa_result(*old(cpu), *mode) is Some,
    ensures
        Some(*final(cpu)) == txa_result(*old(cpu), *mode),
{
    proof {
        reveal(txa_result);
    }
    cpu.accumulator = cpu.register_x;
    cpu.update_zero_and_negative_flags(cpu.accumulator);
}

/// Transfer Y to the accumulator.
#[verifier::opaque]
pub open spec fn tya_result(cpu: Cpu, mode: AddressingMode) -> Option<Cpu> {
    Some(Cpu { accumulator: cpu.register_y, ..cpu }.flagged(cpu.register_y))
}

/// Transfer Y to the accumulator.
pub fn tya(cpu: &mut Cpu, mode: &AddressingMode)
    requires
        tya_result(*old(cpu), *mode) is Some,
    ensures
        Some(*final(cpu)) == tya_result(*old(cpu), *mode),
{
    proof {
        reveal(tya_result);
    }
    cpu.accumulator = cpu.register_y;
    cpu.update_zero_and_negative_flags(cpu.accumulator);
}

/// Jump to a subroutine, pushing the address of the last byte of the instruction.
#[verifier::opaque]
pub open spec fn jsr_result(cpu: Cpu, mode: AddressingMode) -> Option<Cpu> {
    match mode.param_address(cpu) {
        Some((c1, addr, _)) => match c1.pushed_word(
            cpu.program_counter.wrapping_add(mode.length()).wrapping_sub(1),
        ) {
            Some(c2) => Some(Cpu { program_counter: addr, ..c2 }),
            None => None,
        },
        None => None,
    }
}

/// Jump to a subroutine, pushing the address of the last byte of the instruction.
pub fn jsr(cpu: &mut Cpu, mode: &AddressingMode)
    requires
        jsr_result(*old(cpu), *mode) is Some,
    ensures
        Some(*final(cpu)) == jsr_result(*old(cpu), *mode),
{
    proof {
        reveal(jsr_result);
    }
    let addr = mode.fetch_param_address(cpu).0;
    cpu.push_word(cpu.program_counter.wrapping_add(mode.len()).wrapping_sub(1));
    cpu.program_counter = addr;
}

/// Return from a subroutine: pull the program counter and move past the pushed address.
#[verifier::opaque]
pub open spec fn rts_result(cpu: Cpu, mode: AddressingMode) -> Option<Cpu> {
    match cpu.popped_word() {
        Some((c, w)) => Some(Cpu { program_counter: w.wrapping_add(1), ..c }),
        None => None,
    }
}

/// Return from a subroutine: pull the program counter and move past the pushed address.
pub fn rts(cpu: &mut Cpu, mode: &AddressingMode)
    requires
        rts_result(*old(cpu), *mode) is Some,
    ensures
        Some(*final(cpu)) == rts_result(*old(cpu), *mode),
{
    proof {
        reveal(rts_result);
    }
    cpu.program_counter = cpu.pop_word().wrapping_add(1);
}

/// Push the flags with both break bits set.
#[verifier::opaque]
pub open spec fn php_result(cpu: Cpu, mode: AddressingMode) -> Option<Cpu> {
    cpu.pushed(with_bit(with_bit(cpu.flags.0, 4, true), 5, true))
}

/// Push the flags with both break bits set.
pub fn php(cpu: &mut Cpu, mode: &AddressingMode)
    requires
        php_result(*old(cpu), *mode) is Some,
    ensures
        Some(*final(cpu)) == php_result(*old(cpu), *mode),
{
    proof {
        reveal(php_result);
    }
    let mut status = cpu.flags;
    // See https://www.nesdev.org/wiki/Status_flags#The_B_flag
    status.set_break_1(true);
    status.set_break_2(true);
    cpu.push_byte(status.bits());
}

/// Pull the flags; the break flag is cleared and bit 5 set.
#[verifier::opaque]
pub open spec fn plp_result(cpu: Cpu, mode: AddressingMode) -> Option<Cpu> {
    match cpu.popped() {
        Some((c, b)) => Some(Cpu { flags: CpuFlags(with_bit(with_bit(b, 4, false), 5, true)), ..c }),
        None => None,
    }
}

/// Pull the flags; the break flag is cleared and bit 5 set.
pub fn plp(cpu: &mut Cpu, mode: &AddressingMode)
    requires
        plp_result(*old(cpu), *mode) is Some,
    ensures
        Some(*final(cpu)) == plp_result(*old(cpu), *mode),
{
    proof {
        reveal(plp_result);
    }
    cpu.flags = CpuFlags::from(cpu.pop_byte());
    // See https://www.nesdev.org/wiki/Status_flags#The_B_flag
    cpu.flags.set_break_1(false);
    cpu.flags.set_break_2(true);
}

/// Push the accumulator.
#[verifier::opaque]
pub open spec fn pha_result(cpu: Cpu, mode: AddressingMode) -> Option<Cpu> {
    cpu.pushed(cpu.accumulator)
}

/// Push the accumulator.
pub fn pha(cpu: &mut Cpu, mode: &AddressingMode)
    requires
        pha_result(*old(cpu), *mode) is Some,
    ensures
        Some(*final(cpu)) == pha_result(*old(cpu), *mode),
{
    proof {
        reveal(pha_result);
    }
    cpu.push_byte(cpu.accumulator);
}

/// Pull the accumulator.
#[verifier::opaque]
pub open spec fn pla_result(cpu: Cpu, mode: AddressingMode) -> Option<Cpu> {
    match cpu.popped() {
        Some((c, v)) => Some(Cpu { accumulator: v, ..c }.flagged(v)),
        None => None,
    }
}

/// Pull the accumulator.
pub fn pla(cpu: &mut Cpu, mode: &AddressingMode)
    requires
        pla_result(*old(cpu), *mode) is Some,
    ensures
        Some(*final(cpu)) == pla_result(*old(cpu), *mode),
{
    proof {
        reveal(pla_result);
    }
    cpu.accumulator = cpu.pop_byte();
    cpu.update_zero_and_negative_flags(cpu.accumulator);
}

/// Transfer the stack pointer to X.
#[verifier::opaque]
pub open spec fn tsx_result(cpu: Cpu, mode: AddressingMode) -> Option<Cpu> {
    Some(Cpu { register_x: cpu.stack_pointer, ..cpu }.flagged(cpu.stack_pointer))
}

/// Transfer the stack pointer to X.
pub fn tsx(cpu: &mut Cpu, mode: &AddressingMode)
    requires
        tsx_result(*old(cpu), *mode) is Some,
    ensures
        Some(*final(cpu)) == tsx_result(*old(cpu), *mode),
{
    proof {
        reveal(tsx_result);
    }
    cpu.register_x = cpu.stack_pointer;
    cpu.update_zero_and_negative_flags(cpu.register_x);
}

/// Transfer X to the stack pointer.
#[verifier::opaque]
pub open spec fn txs_result(cpu: Cpu, mode: AddressingMode) -> Option<Cpu> {
    Some(Cpu { stack_pointer: cpu.register_x, ..cpu })
}

/// Transfer X to the stack pointer.
pub fn txs(cpu: &mut Cpu, mode: &AddressingMode)
    requires
        txs_result(*old(cpu), *mode) is Some,
    ensures
        Some(*final(cpu)) == txs_result(*old(cpu), *mode),
{
    proof {
        reveal(txs_result);
    }
    cpu.stack_pointer = cpu.register_x;
}

/// No operation; the unofficial forms with an operand compute its address, and take one more cycle when indexing crosses a page.
#[verifier::opaque]
pub open spec fn nop_result(cpu: Cpu, mode: AddressingMode) -> Option<Cpu> {
    if mode.has_operand() {
        match mode.param_address(cpu) {
            Some((c, _, crossed)) => c.ticked_if(crossed),
            None => None,
        }
    } else {
        Some(cpu)
    }
}

/// No operation; the unofficial forms with an operand compute its address, and take one more cycle when indexing crosses a page.
pub fn nop(cpu: &mut Cpu, mode: &AddressingMode)
    requires
        nop_result(*old(cpu), *mode) is Some,
    ensures
        Some(*final(cpu)) == nop_result(*old(cpu), *mode),
{
    proof {
        reveal(nop_result);
    }
    if mode.has_arguments() {
        // Some illegal opcodes use this with arguments
        let crossed_page = mode.fetch_param_address(cpu).1;
        cpu.tick_once_if(crossed_page);
    }
}

/// Test the operand: zero from its AND with the accumulator, negative and overflow from its bits 7 and 6.
#[verifier::opaque]
pub open spec fn bit_result(cpu: Cpu, mode: AddressingMode) -> Option<Cpu> {
    match mode.param(cpu) {
        Some((c, v, _)) => Some(
            set_flag(
                set_flag(set_flag(c, 1, cpu.accumulator & v == 0), 7, bit_of(v, 7)),
                6,
                bit_of(v, 6),
            ),
        ),
        None => None,
    }
}

/// Test the operand: zero from its AND with the accumulator, negative and overflow from its bits 7 and 6.
pub fn bit(cpu: &mut Cpu, mode: &AddressingMode)
    requires
        bit_result(*old(cpu), *mode) is Some,
    ensures
        Some(*final(cpu)) == bit_result(*old(cpu), *mode),
{
    proof {
        reveal(bit_result);
    }
    let value = mode.fetch_param(cpu).0;
    cpu.flags.set_zero((cpu.accumulator & value) == 0);
    cpu.flags.set_negative(crate::util::nth_bit(value, 7));
    cpu.flags.set_overflow(crate::util::nth_bit(value, 6));
}

/// Jump to the operand address.
#[verifier::opaque]
pub open spec fn jmp_result(cpu: Cpu, mode: AddressingMode) -> Option<Cpu> {
    match mode.param_address(cpu) {
        Some((c, addr, _)) => Some(Cpu { program_counter: addr, ..c }),
        None => None,
    }
}

/// Jump to the operand address.
pub fn jmp(cpu: &mut Cpu, mode: &AddressingMode)
    requires
        jmp_result(*old(cpu), *mode) is Some,
    ensures
        Some(*final(cpu)) == jmp_result(*old(cpu), *mode),
{
    proof {
        reveal(jmp_result);
    }
    cpu.program_counter = mode.fetch_param_address(cpu).0;
}

/// Increment X.
#[verifier::opaque]
pub open spec fn inx_result(cpu: Cpu, mode: AddressingMode) -> Option<Cpu> {
    Some(Cpu { register_x: cpu.register_x.wrapping_add(1), ..cpu }.flagged(cpu.register_x.wrapping_add(1)))
}

/// Increment X.
pub fn inx(cpu: &mut Cpu, mode: &AddressingMode)
    requires
        inx_result(*old(cpu), *mode) is Some,
    ensures
        Some(*final(cpu)) == inx_result(*old(cpu), *mode),
{
    proof {
        reveal(inx_result);
    }
    cpu.register_x = cpu.register_x.wrapping_add(1);
    cpu.update_zero_and_negative_flags(cpu.register_x);
}

/// Increment Y.
#[verifier::opaque]
pub open spec fn iny_result(cpu: Cpu, mode: AddressingMode) -> Option<Cpu> {
    Some(Cpu { register_y: cpu.register_y.wrapping_add(1), ..cpu }.flagged(cpu.register_y.wrapping_add(1)))
}

/// Increment Y.
pub fn iny(cpu: &mut Cpu, mode: &AddressingMode)
    requires
        iny_result(*old(cpu), *mode) is Some,
    ensures
        Some(*final(cpu)) == iny_result(*old(cpu), *mode),
{
    proof {
        reveal(iny_result);
    }
    cpu.register_y = cpu.register_y.wrapping_add(1);
    cpu.update_zero_and_negative_flags(cpu.register_y);
}

/// Increment the byte at the operand address.
#[verifier::opaque]
pub open spec fn inc_result(cpu: Cpu, mode: AddressingMode) -> Option<Cpu> {
    match mode.param_address(cpu) {
        Some((c1, addr, _)) => match c1.read_at(addr) {
            Some((c2, v)) => match c2.write_at(addr, v.wrapping_add(1)) {
                Some(c3) => Some(c3.flagged(v.wrapping_add(1))),
                None => None,
            },
            None => None,
        },
        None => None,
    }
}

/// Increment the byte at the operand address.
pub fn inc(cpu: &mut Cpu, mode: &AddressingMode)
    requires
        inc_result(*old(cpu), *mode) is Some,
    ensures
        Some(*final(cpu)) == inc_result(*old(cpu), *mode),
{
    proof {
        reveal(inc_result);
    }
    let addr = mode.fetch_param_address(cpu).0;
    let value = cpu.read_byte(addr).wrapping_add(1);
    cpu.write_byte(addr, value);
    cpu.update_zero_and_negative_flags(value);
}

/// Decrement X.
#[verifier::opaque]
pub open spec fn dex_result(cpu: Cpu, mode: AddressingMode) -> Option<Cpu> {
    Some(Cpu { register_x: cpu.register_x.wrapping_sub(1), ..cpu }.flagged(cpu.register_x.wrapping_sub(1)))
}

/// Decrement X.
pub fn dex(cpu: &mut Cpu, mode: &AddressingMode)
    requires
        dex_result(*old(cpu), *mode) is Some,
    ensures
        Some(*final(cpu)) == dex_result(*old(cpu), *mode),
{
    proof {
        reveal(dex_result);
    }
    cpu.register_x = cpu.register_x.wrapping_sub(1);
    cpu.update_zero_and_negative_flags(cpu.register_x);
}

/// Decrement Y.
#[verifier::opaque]
pub open spec fn dey_result(cpu: Cpu, mode: AddressingMode) -> Option<Cpu> {
    Some(Cpu { register_y: cpu.register_y.wrapping_sub(1), ..cpu }.flagged(cpu.register_y.wrapping_sub(1)))
}

/// Decrement Y.
pub fn dey(cpu: &mut Cpu, mode: &AddressingMode)
    requires
        dey_result(*old(cpu), *mode) is Some,
    ensures
        Some(*final(cpu)) == dey_result(*old(cpu), *mode),
{
    proof {
        reveal(dey_result);
    }
    cpu.register_y = cpu.register_y.wrapping_sub(1);
    cpu.update_zero_and_negative_flags(cpu.register_y);
}

/// Decrement the byte at the operand address.
#[verifier::opaque]
pub open spec fn dec_result(cpu: Cpu, mode: AddressingMode) -> Option<Cpu> {
    match mode.param_address(cpu) {
        Some((c1, addr, _)) => match c1.read_at(addr) {
            Some((c2, v)) => match c2.write_at(addr, v.wrapping_sub(1)) {
                Some(c3) => Some(c3.flagged(v.wrapping_sub(1))),
                None => None,
            },
            None => None,
        },
        None => None,
    }
}

/// Decrement the byte at the operand address.
pub fn dec(cpu: &mut Cpu, mode: &AddressingMode)
    requires
        dec_result(*old(cpu), *mode) is Some,
    ensures
        Some(*final(cpu)) == dec_result(*old(cpu), *mode),
{
    proof {
        reveal(dec_result);
    }
    let addr = mode.fetch_param_address(cpu).0;
    let value = cpu.read_byte(addr).wrapping_sub(1);
    cpu.write_byte(addr, value);
    cpu.update_zero_and_negative_flags(value);
}

/// Add the operand and the carry to the accumulator.
#[verifier::opaque]
pub open spec fn adc_result(cpu: Cpu, mode: AddressingMode) -> Option<Cpu> {
    match mode.param(cpu) {
        Some((c, v, crossed)) => {
            let sum = cpu.accumulator + v + carry_in(cpu);
            let result = (sum % 256) as u8;
            let c1 = set_flag(c, 0, sum > 255).flagged(result);
            let c2 = set_flag(
                c1,
                6,
                ((cpu.accumulator ^ result) & (v ^ result)) & 0x80 != 0,
            );
            Cpu { accumulator: result, ..c2 }.ticked_if(crossed)
        },
        None => None,
    }
}

/// Add the operand and the carry to the accumulator.
#[verifier::rlimit(60)]
pub fn adc(cpu: &mut Cpu, mode: &AddressingMode)
    requires
        adc_result(*old(cpu), *mode) is Some,
    ensures
        Some(*final(cpu)) == adc_result(*old(cpu), *mode),
{
    proof {
        reveal(adc_result);
    }
    let (value, page_crossed) = mode.fetch_param(cpu);
    let carry: u16 = if cpu.flags.carry() { 1 } else { 0 };
    let sum: u16 = cpu.accumulator as u16 + value as u16 + carry;
    let result = (sum % 256) as u8;
    cpu.flags.set_carry(sum > 255);
    cpu.update_zero_and_negative_flags(result);
    cpu.flags.set_overflow((((cpu.accumulator ^ result) & (value ^ result)) & 0x80) != 0);
    cpu.accumulator = result;
    cpu.tick_once_if(page_crossed);
}

/// Subtract the operand and the borrow (the clear carry) from the accumulator.
#[verifier::opaque]
pub open spec fn sbc_result(cpu: Cpu, mode: AddressingMode) -> Option<Cpu> {
    match mode.param(cpu) {
        Some((c, v, crossed)) => {
            let diff = cpu.accumulator - v - (1 - carry_in(cpu));
            let result = ((diff + 256) % 256) as u8;
            let c1 = set_flag(c, 0, diff >= 0).flagged(result);
            let c2 = set_flag(
                c1,
                6,
                ((cpu.accumulator ^ result) & !(v ^ result)) & 0x80 != 0,
            );
            Cpu { accumulator: result, ..c2 }.ticked_if(crossed)
        },
        None => None,
    }
}

/// Subtract the operand and the borrow (the clear carry) from the accumulator.
#[verifier::rlimit(60)]
pub fn sbc(cpu: &mut Cpu, mode: &AddressingMode)
    requires
        sbc_result(*old(cpu), *mode) is Some,
    ensures
        Some(*final(cpu)) == sbc_result(*old(cpu), *mode),
{
    proof {
        reveal(sbc_result);
    }
    let (value, page_crossed) = mode.fetch_param(cpu);
    let borrow: i16 = if cpu.flags.carry() { 0 } else { 1 };
    let diff: i16 = cpu.accumulator as i16 - value as i16 - borrow;
    let result = ((diff + 256) % 256) as u8;
    cpu.flags.set_carry(diff >= 0);
    cpu.update_zero_and_negative_flags(result);
    cpu.flags.set_overflow((((cpu.accumulator ^ result) & !(value ^ result)) & 0x80) != 0);
    cpu.accumulator = result;
    cpu.tick_once_if(page_crossed);
}

/// Shift right by one bit; bit 0 goes to the carry.
#[verifier::opaque]
pub open spec fn lsr_result(cpu: Cpu, mode: AddressingMode) -> Option<Cpu> {
    if mode == AddressingMode::Accumulator {
        let v = cpu.accumulator;
        let result: u8 = v >> 1u8;
        Some(Cpu { accumulator: result, ..set_flag(cpu, 0, bit_of(v, 0)) }.flagged(result))
    } else {
        match mode.param_address(cpu) {
            Some((c1, addr, _)) => match c1.read_at(addr) {
                Some((c2, v)) => {
                    let result: u8 = v >> 1u8;
                    match set_flag(c2, 0, bit_of(v, 0)).write_at(addr, result) {
                        Some(c3) => Some(c3.flagged(result)),
                        None => None,
                    }
                },
                None => None,
            },
            None => None,
        }
    }
}

/// Shift right by one bit; bit 0 goes to the carry.
pub fn lsr(cpu: &mut Cpu, mode: &AddressingMode)
    requires
        lsr_result(*old(cpu), *mode) is Some,
    ensures
        Some(*final(cpu)) == lsr_result(*old(cpu), *mode),
{
    proof {
        reveal(lsr_result);
    }
    let result = if *mode == AddressingMode::Accumulator {
        cpu.flags.set_carry(crate::util::nth_bit(cpu.accumulator, 0));
        cpu.accumulator = cpu.accumulator >> 1;
        cpu.accumulator
    } else {
        let addr = mode.fetch_param_address(cpu).0;
        let mut value = cpu.read_byte(addr);
        cpu.flags.set_carry(crate::util::nth_bit(value, 0));
        value = value >> 1;
        cpu.write_byte(addr, value);
        value
    };
    cpu.update_zero_and_negative_flags(result);
}

/// Shift left by one bit; bit 7 goes to the carry.
#[verifier::opaque]
pub open spec fn asl_result(cpu: Cpu, mode: AddressingMode) -> Option<Cpu> {
    if mode == AddressingMode::Accumulator {
        let v = cpu.accumulator;
        let result: u8 = (v << 1u8) as u8;
        Some(Cpu { accumulator: result, ..set_flag(cpu, 0, bit_of(v, 7)) }.flagged(result))
    } else {
        match mode.param_address(cpu) {
            Some((c1, addr, _)) => match c1.read_at(addr) {
                Some((c2, v)) => {
                    let result: u8 = (v << 1u8) as u8;
                    match set_flag(c2, 0, bit_of(v, 7)).write_at(addr, result) {
                        Some(c3) => Some(c3.flagged(result)),
                        None => None,
                    }
                },
                None => None,
            },
            None => None,
        }
    }
}

/// Shift left by one bit; bit 7 goes to the carry.
pub fn asl(cpu: &mut Cpu, mode: &AddressingMode)
    requires
        asl_result(*old(cpu), *mode) is Some,
    ensures
        Some(*final(cpu)) == asl_result(*old(cpu), *mode),
{
    proof {
        reveal(asl_result);
    }
    let result = if *mode == AddressingMode::Accumulator {
        cpu.flags.set_carry(crate::util::nth_bit(cpu.accumulator, 7));
        cpu.accumulator = cpu.accumulator << 1;
        cpu.accumulator
    } else {
        let addr = mode.fetch_param_address(cpu).0;
        let mut value = cpu.read_byte(addr);
        cpu.flags.set_carry(crate::util::nth_bit(value, 7));
        value = value << 1;
        cpu.write_byte(addr, value);
        value
    };
    cpu.update_zero_and_negative_flags(result);
}

/// Rotate left through the carry: the carry enters at bit 0, bit 7 leaves to the carry.
#[verifier::opaque]
pub open spec fn rol_result(cpu: Cpu, mode: AddressingMode) -> Option<Cpu> {
    if mode == AddressingMode::Accumulator {
        let v = cpu.accumulator;
        let result: u8 = ((v << 1u8) | (carry_in(cpu) as u8)) as u8;
        Some(Cpu { accumulator: result, ..set_flag(cpu, 0, bit_of(v, 7)) }.flagged(result))
    } else {
        match mode.param_address(cpu) {
            Some((c1, addr, _)) => match c1.read_at(addr) {
                Some((c2, v)) => {
                    let result: u8 = ((v << 1u8) | (carry_in(cpu) as u8)) as u8;
                    match set_flag(c2, 0, bit_of(v, 7)).write_at(addr, result) {
                        Some(c3) => Some(c3.flagged(result)),
                        None => None,
                    }
                },
                None => None,
            },
            None => None,
        }
    }
}

/// Rotate left through the carry: the carry enters at bit 0, bit 7 leaves to the carry.
pub fn rol(cpu: &mut Cpu, mode: &AddressingMode)
    requires
        rol_result(*old(cpu), *mode) is Some,
    ensures
        Some(*final(cpu)) == rol_result(*old(cpu), *mode),
{
    proof {
        reveal(rol_result);
    }
    let carry: u8 = if cpu.flags.carry() { 1 } else { 0 };
    let result = if *mode == AddressingMode::Accumulator {
        cpu.flags.set_carry(crate::util::nth_bit(cpu.accumulator, 7));
        cpu.accumulator = (cpu.accumulator << 1) | carry;
        cpu.accumulator
    } else {
        let addr = mode.fetch_param_address(cpu).0;
        let mut value = cpu.read_byte(addr);
        cpu.flags.set_carry(crate::util::nth_bit(value, 7));
        value = (value << 1) | carry;
        cpu.write_byte(addr, value);
        value
    };
    cpu.update_zero_and_negative_flags(result);
}

/// Rotate right through the carry: the carry enters at bit 7, bit 0 leaves to the carry.
#[verifier::opaque]
pub open spec fn ror_result(cpu: Cpu, mode: AddressingMode) -> Option<Cpu> {
    if mode == AddressingMode::Accumulator {
        let v = cpu.accumulator;
        let result: u8 = ((v >> 1u8) | ((carry_in(cpu) as u8) << 7u8)) as u8;
        Some(Cpu { accumulator: result, ..set_flag(cpu, 0, bit_of(v, 0)) }.flagged(result))
    } else {
        match mode.param_address(cpu) {
            Some((c1, addr, _)) => match c1.read_at(addr) {
                Some((c2, v)) => {
                    let result: u8 = ((v >> 1u8) | ((carry_in(cpu) as u8) << 7u8)) as u8;
                    match set_flag(c2, 0, bit_of(v, 0)).write_at(addr, result) {
                        Some(c3) => Some(c3.flagged(result)),
                        None => None,
                    }
                },
                None => None,
            },
            None => None,
        }
    }
}

/// Rotate right through the carry: the carry enters at bit 7, bit 0 leaves to the carry.
pub fn ror(cpu: &mut Cpu, mode: &AddressingMode)
    requires
        ror_result(*old(cpu), *mode) is Some,
    ensures
        Some(*final(cpu)) == ror_result(*old(cpu), *mode),
{
    proof {
        reveal(ror_result);
    }
    let carry: u8 = if cpu.flags.carry() { 1 } else { 0 };
    let result = if *mode == AddressingMode::Accumulator {
        cpu.flags.set_carry(crate::util::nth_bit(cpu.accumulator, 0));
        cpu.accumulator = (cpu.accumulator >> 1) | (carry << 7);
        cpu.accumulator
    } else {
        let addr = mode.fetch_param_address(cpu).0;
        let mut value = cpu.read_byte(addr);
        cpu.flags.set_carry(crate::util::nth_bit(value, 0));
        value = (value >> 1) | (carry << 7);
        cpu.write_byte(addr, value);
        value
    };
    cpu.update_zero_and_negative_flags(result);
}

/// AND the operand into the accumulator.
#[verifier::opaque]
pub open spec fn and_result(cpu: Cpu, mode: AddressingMode) -> Option<Cpu> {
    match mode.param(cpu) {
        Some((c, v, crossed)) => Cpu { accumulator: cpu.accumulator & v, ..c }.flagged(
            cpu.accumulator & v,
        ).ticked_if(crossed),
        None => None,
    }
}

/// AND the operand into the accumulator.
pub fn and(cpu: &mut Cpu, mode: &AddressingMode)
    requires
        and_result(*old(cpu), *mode) is Some,
    ensures
        Some(*final(cpu)) == and_result(*old(cpu), *mode),
{
    proof {
        reveal(and_result);
    }
    let (value, page_crossed) = mode.fetch_param(cpu);
    cpu.accumulator = cpu.accumulator & value;
    cpu.update_zero_and_negative_flags(cpu.accumulator);
    cpu.tick_once_if(page_crossed);
}

/// Exclusive OR the operand into the accumulator.
#[verifier::opaque]
pub open spec fn eor_result(cpu: Cpu, mode: AddressingMode) -> Option<Cpu> {
    match mode.param(cpu) {
        Some((c, v, crossed)) => Cpu { accumulator: cpu.accumulator ^ v, ..c }.flagged(
            cpu.accumulator ^ v,
        ).ticked_if(crossed),
        None => None,
    }
}

/// Exclusive OR the operand into the accumulator.
pub fn eor(cpu: &mut Cpu, mode: &AddressingMode)
    requires
        eor_result(*old(cpu), *mode) is Some,
    ensures
        Some(*final(cpu)) == eor_result(*old(cpu), *mode),
{
    proof {
        reveal(eor_result);
    }
    let (value, page_crossed) = mode.fetch_param(cpu);
    cpu.accumulator = cpu.accumulator ^ value;
    cpu.update_zero_and_negative_flags(cpu.accumulator);
    cpu.tick_once_if(page_crossed);
}

/// OR the operand into the accumulator.
#[verifier::opaque]
pub open spec fn ora_result(cpu: Cpu, mode: AddressingMode) -> Option<Cpu> {
    match mode.param(cpu) {
        Some((c, v, crossed)) => Cpu { accumulator: cpu.accumulator | v, ..c }.flagged(
            cpu.accumulator | v,
        ).ticked_if(crossed),
        None => None,
    }
}

/// OR the operand into the accumulator.
pub fn ora(cpu: &mut Cpu, mode: &AddressingMode)
    requires
        ora_result(*old(cpu), *mode) is Some,
    ensures
        Some(*final(cpu)) == ora_result(*old(cpu), *mode),
{
    proof {
        reveal(ora_result);
    }
    let (value, page_crossed) = mode.fetch_param(cpu);
    cpu.accumulator = cpu.accumulator | value;
    cpu.update_zero_and_negative_flags(cpu.accumulator);
    cpu.tick_once_if(page_crossed);
}

/// Compare the accumulator with the operand.
#[verifier::opaque]
pub open spec fn cmp_result(cpu: Cpu, mode: AddressingMode) -> Option<Cpu> {
    match mode.param(cpu) {
        Some((c, v, crossed)) => set_flag(c, 0, cpu.accumulator >= v).flagged(
            cpu.accumulator.wrapping_sub(v),
        ).ticked_if(crossed),
        None => None,
    }
}

/// Compare the accumulator with the operand.
pub fn cmp(cpu: &mut Cpu, mode: &AddressingMode)
    requires
        cmp_result(*old(cpu), *mode) is Some,
    ensures
        Some(*final(cpu)) == cmp_result(*old(cpu), *mode),
{
    proof {
        reveal(cmp_result);
    }
    let (value, page_crossed) = mode.fetch_param(cpu);
    cpu.flags.set_carry(cpu.accumulator >= value);
    // Subtract so that we set the ZERO flag if the values are equal
    cpu.update_zero_and_negative_flags(cpu.accumulator.wrapping_sub(value));
    cpu.tick_once_if(page_crossed);
}

/// Compare X with the operand.
#[verifier::opaque]
pub open spec fn cpx_result(cpu: Cpu, mode: AddressingMode) -> Option<Cpu> {
    match mode.param(cpu) {
        Some((c, v, _)) => Some(set_flag(c, 0, cpu.register_x >= v).flagged(cpu.register_x.wrapping_sub(v))),
        None => None,
    }
}

/// Compare X with the operand.
pub fn cpx(cpu: &mut Cpu, mode: &AddressingMode)
    requires
        cpx_result(*old(cpu), *mode) is Some,
    ensures
        Some(*final(cpu)) == cpx_result(*old(cpu), *mode),
{
    proof {
        reveal(cpx_result);
    }
    let value = mode.fetch_param(cpu).0;
    cpu.flags.set_carry(cpu.register_x >= value);
    // Subtract so that we set the ZERO flag if the values are equal
    cpu.update_zero_and_negative_flags(cpu.register_x.wrapping_sub(value));
}

/// Compare Y with the operand.
#[verifier::opaque]
pub open spec fn cpy_result(cpu: Cpu, mode: AddressingMode) -> Option<Cpu> {
    match mode.param(cpu) {
        Some((c, v, _)) => Some(set_flag(c, 0, cpu.register_y >= v).flagged(cpu.register_y.wrapping_sub(v))),
        None => None,
    }
}

/// Compare Y with the operand.
pub fn cpy(cpu: &mut Cpu, mode: &AddressingMode)
    requires
        cpy_result(*old(cpu), *mode) is Some,
    ensures
        Some(*final(cpu)) == cpy_result(*old(cpu), *mode),
{
    proof {
        reveal(cpy_result);
    }
    let value = mode.fetch_param(cpu).0;
    cpu.flags.set_carry(cpu.register_y >= value);
    // Subtract so that we set the ZERO flag if the values are equal
    cpu.update_zero_and_negative_flags(cpu.register_y.wrapping_sub(value));
}

/// Load the accumulator.
#[verifier::opaque]
pub open spec fn lda_result(cpu: Cpu, mode: AddressingMode) -> Option<Cpu> {
    match mode.param(cpu) {
        Some((c, v, crossed)) => Cpu { accumulator: v, ..c }.flagged(v).ticked_if(crossed),
        None => None,
    }
}

/// Load the accumulator.
pub fn lda(cpu: &mut Cpu, mode: &AddressingMode)
    requires
        lda_result(*old(cpu), *mode) is Some,
    ensures
        Some(*final(cpu)) == lda_result(*old(cpu), *mode),
{
    proof {
        reveal(lda_result);
    }
    let (value, page_crossed) = mode.fetch_param(cpu);
    cpu.accumulator = value;
    cpu.update_zero_and_negative_flags(cpu.accumulator);
    cpu.tick_once_if(page_crossed);
}

/// Load X.
#[verifier::opaque]
pub open spec fn ldx_result(cpu: Cpu, mode: AddressingMode) -> Option<Cpu> {
    match mode.param(cpu) {
        Some((c, v, crossed)) => Cpu { register_x: v, ..c }.flagged(v).ticked_if(crossed),
        None => None,
    }
}

/// Load X.
pub fn ldx(cpu: &mut Cpu, mode: &AddressingMode)
    requires
        ldx_result(*old(cpu), *mode) is Some,
    ensures
        Some(*final(cpu)) == ldx_result(*old(cpu), *mode),
{
    proof {
        reveal(ldx_result);
    }
    let (value, page_crossed) = mode.fetch_param(cpu);
    cpu.register_x = value;
    cpu.update_zero_and_negative_flags(cpu.register_x);
    cpu.tick_once_if(page_crossed);
}

/// Load Y.
#[verifier::opaque]
pub open spec fn ldy_result(cpu: Cpu, mode: AddressingMode) -> Option<Cpu> {
    match mode.param(cpu) {
        Some((c, v, crossed)) => Cpu { register_y: v, ..c }.flagged(v).ticked_if(crossed),
        None => None,
    }
}

/// Load Y.
pub fn ldy(cpu: &mut Cpu, mode: &AddressingMode)
    requires
        ldy_result(*old(cpu), *mode) is Some,
    ensures
        Some(*final(cpu)) == ldy_result(*old(cpu), *mode),
{
    proof {
        reveal(ldy_result);
    }
    let (value, page_crossed) = mode.fetch_param(cpu);
    cpu.register_y = value;
    cpu.update_zero_and_negative_flags(cpu.register_y);
    cpu.tick_once_if(page_crossed);
}

/// Store the accumulator.
#[verifier::opaque]
pub open spec fn sta_result(cpu: Cpu, mode: AddressingMode) -> Option<Cpu> {
    match mode.param_address(cpu) {
        Some((c, addr, _)) => c.write_at(addr, cpu.accumulator),
        None => None,
    }
}

/// Store the accumulator.
pub fn sta(cpu: &mut Cpu, mode: &AddressingMode)
    requires
        sta_result(*old(cpu), *mode) is Some,
    ensures
        Some(*final(cpu)) == sta_result(*old(cpu), *mode),
{
    proof {
        reveal(sta_result);
    }
    let addr = mode.fetch_param_address(cpu).0;
    let result = cpu.accumulator;
    cpu.write_byte(addr, result);
}

/// Store X.
#[verifier::opaque]
pub open spec fn stx_result(cpu: Cpu, mode: AddressingMode) -> Option<Cpu> {
    match mode.param_address(cpu) {
        Some((c, addr, _)) => c.write_at(addr, cpu.register_x),
        None => None,
    }
}

/// Store X.
pub fn stx(cpu: &mut Cpu, mode: &AddressingMode)
    requires
        stx_result(*old(cpu), *mode) is Some,
    ensures
        Some(*final(cpu)) == stx_result(*old(cpu), *mode),
{
    proof {
        reveal(stx_result);
    }
    let addr = mode.fetch_param_address(cpu).0;
    let result = cpu.register_x;
    cpu.write_byte(addr, result);
}

/// Store Y.
#[verifier::opaque]
pub open spec fn sty_result(cpu: Cpu, mode: AddressingMode) -> Option<Cpu> {
    match mode.param_address(cpu) {
        Some((c, addr, _)) => c.write_at(addr, cpu.register_y),
        None => None,
    }
}

/// Store Y.
pub fn sty(cpu: &mut Cpu, mode: &AddressingMode)
    requires
        sty_result(*old(cpu), *mode) is Some,
    ensures
        Some(*final(cpu)) == sty_result(*old(cpu), *mode),
{
    proof {
        reveal(sty_result);
    }
    let addr = mode.fetch_param_address(cpu).0;
    let result = cpu.register_y;
    cpu.write_byte(addr, result);
}

/// Load the accumulator, then copy it to X.
#[verifier::opaque]
pub open spec fn lax_result(cpu: Cpu, mode: AddressingMode) -> Option<Cpu> {
    match lda_result(cpu, mode) {
        Some(c) => tax_result(c, mode),
        None => None,
    }
}

/// Load the accumulator, then copy it to X.
pub fn lax(cpu: &mut Cpu, mode: &AddressingMode)
    requires
        lax_result(*old(cpu), *mode) is Some,
    ensures
        Some(*final(cpu)) == lax_result(*old(cpu), *mode),
{
    proof {
        reveal(lax_result);
    }
    lda(cpu, mode);
    tax(cpu, mode);
}

/// Store the accumulator AND X.
#[verifier::opaque]
pub open spec fn sax_result(cpu: Cpu, mode: AddressingMode) -> Option<Cpu> {
    match mode.param_address(cpu) {
        Some((c, addr, _)) => c.write_at(addr, cpu.accumulator & cpu.register_x),
        None => None,
    }
}

/// Store the accumulator AND X.
pub fn sax(cpu: &mut Cpu, mode: &AddressingMode)
    requires
        sax_result(*old(cpu), *mode) is Some,
    ensures
        Some(*final(cpu)) == sax_result(*old(cpu), *mode),
{
    proof {
        reveal(sax_result);
    }
    let addr = mode.fetch_param_address(cpu).0;
    let result = cpu.accumulator & cpu.register_x;
    cpu.write_byte(addr, result);
}

/// Decrement the operand, then compare the accumulator with it.
#[verifier::opaque]
pub open spec fn dcp_result(cpu: Cpu, mode: AddressingMode) -> Option<Cpu> {
    match dec_result(cpu, mode) {
        Some(c) => cmp_result(c, mode),
        None => None,
    }
}

/// Decrement the operand, then compare the accumulator with it.
pub fn dcp(cpu: &mut Cpu, mode: &AddressingMode)
    requires
        dcp_result(*old(cpu), *mode) is Some,
    ensures
        Some(*final(cpu)) == dcp_result(*old(cpu), *mode),
{
    proof {
        reveal(dcp_result);
    }
    dec(cpu, mode);
    cmp(cpu, mode);
}

/// Increment the operand, then subtract it from the accumulator.
#[verifier::opaque]
pub open spec fn isc_result(cpu: Cpu, mode: AddressingMode) -> Option<Cpu> {
    match inc_result(cpu, mode) {
        Some(c) => sbc_result(c, mode),
        None => None,
    }
}

/// Increment the operand, then subtract it from the accumulator.
pub fn isc(cpu: &mut Cpu, mode: &AddressingMode)
    requires
        isc_result(*old(cpu), *mode) is Some,
    ensures
        Some(*final(cpu)) == isc_result(*old(cpu), *mode),
{
    proof {
        reveal(isc_result);
    }
    inc(cpu, mode);
    sbc(cpu, mode);
}

/// Shift the operand left, then OR it into the accumulator.
#[verifier::opaque]
pub open spec fn slo_result(cpu: Cpu, mode: AddressingMode) -> Option<Cpu> {
    match asl_result(cpu, mode) {
        Some(c) => ora_result(c, mode),
        None => None,
    }
}

/// Shift the operand left, then OR it into the accumulator.
pub fn slo(cpu: &mut Cpu, mode: &AddressingMode)
    requires
        slo_result(*old(cpu), *mode) is Some,
    ensures
        Some(*final(cpu)) == slo_result(*old(cpu), *mode),
{
    proof {
        reveal(slo_result);
    }
    asl(cpu, mode);
    ora(cpu, mode);
}

/// Rotate the operand left, then AND it into the accumulator.
#[verifier::opaque]
pub open spec fn rla_result(cpu: Cpu, mode: AddressingMode) -> Option<Cpu> {
    match rol_result(cpu, mode) {
        Some(c) => and_result(c, mode),
        None => None,
    }
}

/// Rotate the operand left, then AND it into the accumulator.
pub fn rla(cpu: &mut Cpu, mode: &AddressingMode)
    requires
        rla_result(*old(cpu), *mode) is Some,
    ensures
        Some(*final(cpu)) == rla_result(*old(cpu), *mode),
{
    proof {
        reveal(rla_result);
    }
    rol(cpu, mode);
    and(cpu, mode);
}

/// Shift the operand right, then exclusive OR it into the accumulator.
#[verifier::opaque]
pub open spec fn sre_result(cpu: Cpu, mode: AddressingMode) -> Option<Cpu> {
    match lsr_result(cpu, mode) {
        Some(c) => eor_result(c, mode),
        None => None,
    }
}

/// Shift the operand right, then exclusive OR it into the accumulator.
pub fn sre(cpu: &mut Cpu, mode: &AddressingMode)
    requires
        sre_result(*old(cpu), *mode) is Some,
    ensures
        Some(*final(cpu)) == sre_result(*old(cpu), *mode),
{
    proof {
        reveal(sre_result);
    }
    lsr(cpu, mode);
    eor(cpu, mode);
}

/// Rotate the operand right, then add it to the accumulator.
#[verifier::opaque]
pub open spec fn rra_result(cpu: Cpu, mode: AddressingMode) -> Option<Cpu> {
    match ror_result(cpu, mode) {
        Some(c) => adc_result(c, mode),
        None => None,
    }
}

/// Rotate the operand right, then add it to the accumulator.
pub fn rra(cpu: &mut Cpu, mode: &AddressingMode)
    requires
        rra_result(*old(cpu), *mode) is Some,
    ensures
        Some(*final(cpu)) == rra_result(*old(cpu), *mode),
{
    proof {
        reveal(rra_result);
    }
    ror(cpu, mode);
    adc(cpu, mode);
}

/// AND the operand into the accumulator, then shift the accumulator right.
#[verifier::opaque]
pub open spec fn alr_result(cpu: Cpu, mode: AddressingMode) -> Option<Cpu> {
    match and_result(cpu, mode) {
        Some(c) => lsr_result(c, AddressingMode::Accumulator),
        None => None,
    }
}

/// AND the operand into the accumulator, then shift the accumulator right.
pub fn alr(cpu: &mut Cpu, mode: &AddressingMode)
    requires
        alr_result(*old(cpu), *mode) is Some,
    ensures
        Some(*final(cpu)) == alr_result(*old(cpu), *mode),
{
    proof {
        reveal(alr_result);
    }
    and(cpu, mode);
    lsr(cpu, &AddressingMode::Accumulator);
}

/// What an instruction does.
#[derive(Clone, Copy, Debug, PartialEq, Eq, Structural)]
pub enum Operation {
    Brk,
    Rti,
    Bcs,
    Bcc,
    Beq,
    Bne,
    Bmi,
    Bpl,
    Bvs,
    Bvc,
    Clv,
    Clc,
    Cld,
    Cli,
    Sec,
    Sed,
    Sei,
    Tax,
    Tay,
    Txa,
    Tya,
    Jsr,
    Rts,
    Php,
    Plp,
    Pha,
    Pla,
    Tsx,
    Txs,
    Nop,
    Bit,
    Jmp,
    Inx,
    Iny,
    Inc,
    Dex,
    Dey,
    Dec,
    Adc,
    Sbc,
    Lsr,
    Asl,
    Rol,
    Ror,
    And,
    Eor,
    Ora,
    Cmp,
    Cpx,
    Cpy,
    Lda,
    Ldx,
    Ldy,
    Sta,
    Stx,
    Sty,
    Lax,
    Sax,
    Dcp,
    Isc,
    Slo,
    Rla,
    Sre,
    Rra,
    Alr,
}

/// The effect of an operation.
pub open spec fn operation_result(op: Operation, cpu: Cpu, mode: AddressingMode) -> Option<Cpu> {
    match op {
        Operation::Brk => brk_result(cpu, mode),
        Operation::Rti => rti_result(cpu, mode),
        Operation::Bcs => bcs_result(cpu, mode),
        Operation::Bcc => bcc_result(cpu, mode),
        Operation::Beq => beq_result(cpu, mode),
        Operation::Bne => bne_result(cpu, mode),
        Operation::Bmi => bmi_result(cpu, mode),
        Operation::Bpl => bpl_result(cpu, mode),
        Operation::Bvs => bvs_result(cpu, mode),
        Operation::Bvc => bvc_result(cpu, mode),
        Operation::Clv => clv_result(cpu, mode),
        Operation::Clc => clc_result(cpu, mode),
        Operation::Cld => cld_result(cpu, mode),
        Operation::Cli => cli_result(cpu, mode),
        Operation::Sec => sec_result(cpu, mode),
        Operation::Sed => sed_result(cpu, mode),
        Operation::Sei => sei_result(cpu, mode),
        Operation::Tax => tax_result(cpu, mode),
        Operation::Tay => tay_result(cpu, mode),
        Operation::Txa => txa_result(cpu, mode),
        Operation::Tya => tya_result(cpu, mode),
        Operation::Jsr => jsr_result(cpu, mode),
        Operation::Rts => rts_result(cpu, mode),
        Operation::Php => php_result(cpu, mode),
        Operation::Plp => plp_result(cpu, mode),
        Operation::Pha => pha_result(cpu, mode),
        Operation::Pla => pla_result(cpu, mode),
        Operation::Tsx => tsx_result(cpu, mode),
        Operation::Txs => txs_result(cpu, mode),
        Operation::Nop => nop_result(cpu, mode),
        Operation::Bit => bit_result(cpu, mode),
        Operation::Jmp => jmp_result(cpu, mode),
        Operation::Inx => inx_result(cpu, mode),
        Operation::Iny => iny_result(cpu, mode),
        Operation::Inc => inc_result(cpu, mode),
        Operation::Dex => dex_result(cpu, mode),
        Operation::Dey => dey_result(cpu, mode),
        Operation::Dec => dec_result(cpu, mode),
        Operation::Adc => adc_result(cpu, mode),
        Operation::Sbc => sbc_result(cpu, mode),
        Operation::Lsr => lsr_result(cpu, mode),
        Operation::Asl => asl_result(cpu, mode),
        Operation::Rol => rol_result(cpu, mode),
        Operation::Ror => ror_result(cpu, mode),
        Operation::And => and_result(cpu, mode),
        Operation::Eor => eor_result(cpu, mode),
        Operation::Ora => ora_result(cpu, mode),
        Operation::Cmp => cmp_result(cpu, mode),
        Operation::Cpx => cpx_result(cpu, mode),
        Operation::Cpy => cpy_result(cpu, mode),
        Operation::Lda => lda_result(cpu, mode),
        Operation::Ldx => ldx_result(cpu, mode),
        Operation::Ldy => ldy_result(cpu, mode),
        Operation::Sta => sta_result(cpu, mode),
        Operation::Stx => stx_result(cpu, mode),
        Operation::Sty => sty_result(cpu, mode),
        Operation::Lax => lax_result(cpu, mode),
        Operation::Sax => sax_result(cpu, mode),
        Operation::Dcp => dcp_result(cpu, mode),
        Operation::Isc => isc_result(cpu, mode),
        Operation::Slo => slo_result(cpu, mode),
        Operation::Rla => rla_result(cpu, mode),
        Operation::Sre => sre_result(cpu, mode),
        Operation::Rra => rra_result(cpu, mode),
        Operation::Alr => alr_result(cpu, mode),
    }
}

impl Operation {
    /// The operation sets the program counter itself.
    pub open spec fn sets_program_counter(self) -> bool {
        match self {
Operation::Brk | Operation::Rti | Operation::Bcs | Operation::Bcc | Operation::Beq | Operation::Bne | Operation::Bmi | Operation::Bpl | Operation::Bvs | Operation::Bvc | Operation::Jmp | Operation::Jsr | Operation::Rts => true,
            _ => false,
        }
    }

    /// Whether the operation sets the program counter itself (jumps, branches, returns).
    pub fn changes_program_counter(&self) -> (r: bool)
        ensures
            r == self.sets_program_counter(),
    {
        match self {
Operation::Brk | Operation::Rti | Operation::Bcs | Operation::Bcc | Operation::Beq | Operation::Bne | Operation::Bmi | Operation::Bpl | Operation::Bvs | Operation::Bvc | Operation::Jmp | Operation::Jsr | Operation::Rts => true,
            _ => false,
        }
    }

    /// Perform the operation.
    pub fn run(&self, cpu: &mut Cpu, mode: &AddressingMode)
        requires
            operation_result(*self, *old(cpu), *mode) is Some,
        ensures
            Some(*final(cpu)) == operation_result(*self, *old(cpu), *mode),
    {
        if matches!(self, Operation::Brk | Operation::Rti | Operation::Bcs | Operation::Bcc | Operation::Beq | Operation::Bne | Operation::Bmi | Operation::Bpl | Operation::Bvs) {
            run_part_0(self, cpu, mode);
        } else if matches!(self, Operation::Bvc | Operation::Clv | Operation::Clc | Operation::Cld | Operation::Cli | Operation::Sec | Operation::Sed | Operation::Sei | Operation::Tax) {
            run_part_1(self, cpu, mode);
        } else if matches!(self, Operation::Tay | Operation::Txa | Operation::Tya | Operation::Jsr | Operation::Rts | Operation::Php | Operation::Plp | Operation::Pha | Operation::Pla) {
            run_part_2(self, cpu, mode);
        } else if matches!(self, Operation::Tsx | Operation::Txs | Operation::Nop | Operation::Bit | Operation::Jmp | Operation::Inx | Operation::Iny | Operation::Inc | Operation::Dex) {
            run_part_3(self, cpu, mode);
        } else if matches!(self, Operation::Dey | Operation::Dec | Operation::Adc | Operation::Sbc | Operation::Lsr | Operation::Asl | Operation::Rol | Operation::Ror | Operation::And) {
            run_part_4(self, cpu, mode);
        } else if matches!(self, Operation::Eor | Operation::Ora | Operation::Cmp | Operation::Cpx | Operation::Cpy | Operation::Lda | Operation::Ldx | Operation::Ldy | Operation::Sta) {
            run_part_5(self, cpu, mode);
        } else if matches!(self, Operation::Stx | Operation::Sty | Operation::Lax | Operation::Sax | Operation::Dcp | Operation::Isc | Operation::Slo | Operation::Rla | Operation::Sre) {
            run_part_6(self, cpu, mode);
        } else if matches!(self, Operation::Rra | Operation::Alr) {
            run_part_7(self, cpu, mode);
        }
    }
}

fn run_part_0(op: &Operation, cpu: &mut Cpu, mode: &AddressingMode)
    requires
        matches!(*op, Operation::Brk | Operation::Rti | Operation::Bcs | Operation::Bcc | Operation::Beq | Operation::Bne | Operation::Bmi | Operation::Bpl | Operation::Bvs),
        operation_result(*op, *old(cpu), *mode) is Some,
    ensures
        Some(*final(cpu)) == operation_result(*op, *old(cpu), *mode),
{
    match op {
        Operation::Brk => brk(cpu, mode),
        Operation::Rti => rti(cpu, mode),
        Operation::Bcs => bcs(cpu, mode),
        Operation::Bcc => bcc(cpu, mode),
        Operation::Beq => beq(cpu, mode),
        Operation::Bne => bne(cpu, mode),
        Operation::Bmi => bmi(cpu, mode),
        Operation::Bpl => bpl(cpu, mode),
        Operation::Bvs => bvs(cpu, mode),
        _ => {},
    }
}

fn run_part_1(op: &Operation, cpu: &mut Cpu, mode: &AddressingMode)
    requires
        matches!(*op, Operation::Bvc | Operation::Clv | Operation::Clc | Operation::Cld | Operation::Cli | Operation::Sec | Operation::Sed | Operation::Sei | Operation::Tax),
        operation_result(*op, *old(cpu), *mode) is Some,
    ensures
        Some(*final(cpu)) == operation_result(*op, *old(cpu), *mode),
{
    match op {
        Operation::Bvc => bvc(cpu, mode),
        Operation::Clv => clv(cpu, mode),
        Operation::Clc => clc(cpu, mode),
        Operation::Cld => cld(cpu, mode),
        Operation::Cli => cli(cpu, mode),
        Operation::Sec => sec(cpu, mode),
        Operation::Sed => sed(cpu, mode),
        Operation::Sei => sei(cpu, mode),
        Operation::Tax => tax(cpu, mode),
        _ => {},
    }
}

fn run_part_2(op: &Operation, cpu: &mut Cpu, mode: &AddressingMode)
    requires
        matches!(*op, Operation::Tay | Operation::Txa | Operation::Tya | Operation::Jsr | Operation::Rts | Operation::Php | Operation::Plp | Operation::Pha | Operation::Pla),
        operation_result(*op, *old(cpu), *mode) is Some,
    ensures
        Some(*final(cpu)) == operation_result(*op, *old(cpu), *mode),
{
    match op {
        Operation::Tay => tay(cpu, mode),
        Operation::Txa => txa(cpu, mode),
        Operation::Tya => tya(cpu, mode),
        Operation::Jsr => jsr(cpu, mode),
        Operation::Rts => rts(cpu, mode),
        Operation::Php => php(cpu, mode),
        Operation::Plp => plp(cpu, mode),
        Operation::Pha => pha(cpu, mode),
        Operation::Pla => pla(cpu, mode),
        _ => {},
    }
}

fn run_part_3(op: &Operation, cpu: &mut Cpu, mode: &AddressingMode)
    requires
        matches!(*op, Operation::Tsx | Operation::Txs | Operation::Nop | Operation::Bit | Operation::Jmp | Operation::Inx | Operation::Iny | Operation::Inc | Operation::Dex),
        operation_result(*op, *old(cpu), *mode) is Some,
    ensures
        Some(*final(cpu)) == operation_result(*op, *old(cpu), *mode),
{
    match op {
        Operation::Tsx => tsx(cpu, mode),
        Operation::Txs => txs(cpu, mode),
        Operation::Nop => nop(cpu, mode),
        Operation::Bit => bit(cpu, mode),
        Operation::Jmp => jmp(cpu, mode),
        Operation::Inx => inx(cpu, mode),
        Operation::Iny => iny(cpu, mode),
        Operation::Inc => inc(cpu, mode),
        Operation::Dex => dex(cpu, mode),
        _ => {},
    }
}

fn run_part_4(op: &Operation, cpu: &mut Cpu, mode: &AddressingMode)
    requires
        matches!(*op, Operation::Dey | Operation::Dec | Operation::Adc | Operation::Sbc | Operation::Lsr | Operation::Asl | Operation::Rol | Operation::Ror | Operation::And),
        operation_result(*op, *old(cpu), *mode) is Some,
    ensures
        Some(*final(cpu)) == operation_result(*op, *old(cpu), *mode),
{
    match op {
        Operation::Dey => dey(cpu, mode),
        Operation::Dec => dec(cpu, mode),
        Operation::Adc => adc(cpu, mode),
        Operation::Sbc => sbc(cpu, mode),
        Operation::Lsr => lsr(cpu, mode),
        Operation::Asl => asl(cpu, mode),
        Operation::Rol => rol(cpu, mode),
        Operation::Ror => ror(cpu, mode),
        Operation::And => and(cpu, mode),
        _ => {},
    }
}

fn run_part_5(op: &Operation, cpu: &mut Cpu, mode: &AddressingMode)
    requires
        matches!(*op, Operation::Eor | Operation::Ora | Operation::Cmp | Operation::Cpx | Operation::Cpy | Operation::Lda | Operation::Ldx | Operation::Ldy | Operation::Sta),
        operation_result(*op, *old(cpu), *mode) is Some,
    ensures
        Some(*final(cpu)) == operation_result(*op, *old(cpu), *mode),
{
    match op {
        Operation::Eor => eor(cpu, mode),
        Operation::Ora => ora(cpu, mode),
        Operation::Cmp => cmp(cpu, mode),
        Operation::Cpx => cpx(cpu, mode),
        Operation::Cpy => cpy(cpu, mode),
        Operation::Lda => lda(cpu, mode),
        Operation::Ldx => ldx(cpu, mode),
        Operation::Ldy => ldy(cpu, mode),
        Operation::Sta => sta(cpu, mode),
        _ => {},
    }
}

fn run_part_6(op: &Operation, cpu: &mut Cpu, mode: &AddressingMode)
    requires
        matches!(*op, Operation::Stx | Operation::Sty | Operation::Lax | Operation::Sax | Operation::Dcp | Operation::Isc | Operation::Slo | Operation::Rla | Operation::Sre),
        operation_result(*op, *old(cpu), *mode) is Some,
    ensures
        Some(*final(cpu)) == operation_result(*op, *old(cpu), *mode),
{
    match op {
        Operation::Stx => stx(cpu, mode),
        Operation::Sty => sty(cpu, mode),
        Operation::Lax => lax(cpu, mode),
        Operation::Sax => sax(cpu, mode),
        Operation::Dcp => dcp(cpu, mode),
        Operation::Isc => isc(cpu, mode),
        Operation::Slo => slo(cpu, mode),
        Operation::Rla => rla(cpu, mode),
        Operation::Sre => sre(cpu, mode),
        _ => {},
    }
}

fn run_part_7(op: &Operation, cpu: &mut Cpu, mode: &AddressingMode)
    requires
        matches!(*op, Operation::Rra | Operation::Alr),
        operation_result(*op, *old(cpu), *mode) is Some,
    ensures
        Some(*final(cpu)) == operation_result(*op, *old(cpu), *mode),
{
    match op {
        Operation::Rra => rra(cpu, mode),
        Operation::Alr => alr(cpu, mode),
        _ => {},
    }
}

/// The text of an instruction: the mnemonic padded to three characters, a space, and
/// the operand text padded to six.
pub open spec fn instruction_text(name: Seq<char>, args: Seq<char>) -> Seq<char> {
    pad_right(name, 3).push(' ') + pad_right(args, 6)
}

/// Formatting an instruction: its operand as the mode shows it (`#$XX` for an immediate
/// byte, `$XX` for a zero page address or a branch target plus one, `A` for the
/// accumulator, `$XXXX` for other addresses), and the CPU after the reads this takes.
pub open spec fn format_result(name: Seq<char>, cpu: Cpu, mode: AddressingMode) -> Option<
    (Cpu, Seq<char>),
> {
    let args: Option<(Cpu, Seq<char>)> = match mode {
        AddressingMode::Immediate => match mode.param(cpu) {
            Some((c, v, _)) => Some((c, seq!['#', '$'] + hex_string(v as nat, 2))),
            None => None,
        },
        AddressingMode::Relative => match mode.param_address(cpu) {
            Some((c, a, _)) => Some((c, seq!['$'] + hex_string(a.wrapping_add(1) as nat, 2))),
            None => None,
        },
        AddressingMode::ZeroPage => match mode.param_address(cpu) {
            Some((c, a, _)) => Some((c, seq!['$'] + hex_string(a as nat, 2))),
            None => None,
        },
        AddressingMode::Accumulator => Some((cpu, seq!['A'])),
        _ => if mode.has_operand() {
            match mode.param_address(cpu) {
                Some((c, a, _)) => Some((c, seq!['$'] + hex_string(a as nat, 4))),
                None => None,
            }
        } else {
            Some((cpu, Seq::<char>::empty()))
        },
    };
    match args {
        Some((c, a)) => Some((c, instruction_text(name, a))),
        None => None,
    }
}

/// A single instruction, with addressing mode.
#[derive(Clone, Copy, Debug, PartialEq, Eq, Structural)]
pub struct Opcode {
    pub code: u8,
    pub cycles: CycleCount,
    pub mode: AddressingMode,
}

/// A collection of opcodes performing the same operation.
#[derive(Clone, Copy)]
pub struct Instruction {
    pub name: &'static str,
    pub operation: Operation,
}

/// The addressing mode and cycle count of the first entry for `code` in an opcode list.
pub open spec fn find_code(opcodes: Seq<Opcode>, code: u8) -> Option<(AddressingMode, CycleCount)>
    decreases opcodes.len(),
{
    if opcodes.len() == 0 {
        None
    } else if opcodes[0].code == code {
        Some((opcodes[0].mode, opcodes[0].cycles))
    } else {
        find_code(opcodes.drop_first(), code)
    }
}

/// What decoding an opcode gives: the operation, its mnemonic, its addressing mode and
/// its cycle count.
pub struct Decoded {
    pub operation: Operation,
    pub name: Seq<char>,
    pub mode: AddressingMode,
    pub cycles: CycleCount,
}

/// The first instruction of `table` with an entry for `code`.
pub open spec fn find_in_table(table: Seq<Instruction>, code: u8) -> Option<Decoded>
    decreases table.len(),
{
    if table.len() == 0 {
        None
    } else {
        match find_code(opcodes_of(table[0].operation), code) {
            Some((mode, cycles)) => Some(
                Decoded { operation: table[0].operation, name: table[0].name@, mode, cycles },
            ),
            None => find_in_table(table.drop_first(), code),
        }
    }
}

/// What an opcode decodes to, by the instruction table.
pub open spec fn decode_spec(code: u8) -> Option<Decoded> {
    find_in_table(instruction_table_spec(), code)
}

impl Instruction {
    /// Returns the addressing mode and cycle count of `code`, or None if this instruction
    /// does not contain it.
    pub fn find(&self, code: u8) -> (r: Option<(AddressingMode, CycleCount)>)
        ensures
            r == find_code(opcodes_of(self.operation), code),
    {
        let opcodes = self.opcodes();
        let mut i: usize = 0;
        assert(opcodes@.skip(0) =~= opcodes@);
        while i < opcodes.len()
            invariant
                opcodes@ == opcodes_of(self.operation),
                i <= opcodes@.len(),
                find_code(opcodes@, code) == find_code(opcodes@.skip(i as int), code),
            decreases opcodes@.len() - i,
        {
            assert(opcodes@.skip(i as int).drop_first() =~= opcodes@.skip(i as int + 1));
            if opcodes[i].code == code {
                return Some((opcodes[i].mode, opcodes[i].cycles));
            }
            i += 1;
        }
        None
    }

    /// Format the instruction to a human-readable string, used for debugging: the
    /// mnemonic and the operand as the mode shows it.
    pub fn format(&self, cpu: &mut Cpu, mode: &AddressingMode) -> (r: String)
        requires
            format_result(self.name@, *old(cpu), *mode) is Some,
        ensures
            Some((*final(cpu), r@)) == format_result(self.name@, *old(cpu), *mode),
    {
        let mut args: Vec<char> = Vec::new();
        match mode {
            AddressingMode::Immediate => {
                args.push('#');
                args.push('$');
                let value = mode.fetch_param(cpu).0;
                push_hex(&mut args, value as u16, 2);
            },
            AddressingMode::Relative => {
                args.push('$');
                let addr = mode.fetch_param_address(cpu).0;
                push_hex(&mut args, addr.wrapping_add(1), 2);
            },
            AddressingMode::ZeroPage => {
                args.push('$');
                let addr = mode.fetch_param_address(cpu).0;
                push_hex(&mut args, addr, 2);
            },
            AddressingMode::Accumulator => {
                args.push('A');
            },
            _ => {
                if mode.has_arguments() {
                    args.push('$');
                    let addr = mode.fetch_param_address(cpu).0;
                    push_hex(&mut args, addr, 4);
                }
            },
        }
        let mut text: Vec<char> = Vec::new();
        let name = self.name;
        let n = name.unicode_len();
        let mut i: usize = 0;
        while i < n
            invariant
                i <= n,
                n == name@.len(),
                text@ == name@.subrange(0, i as int),
            decreases n - i,
        {
            text.push(name.get_char(i));
            i += 1;
        }
        assert(name@.subrange(0, n as int) =~= name@);
        pad_to(&mut text, 0, 3);
        assert(text@.subrange(0, 0) + pad_right(name@, 3) =~= pad_right(name@, 3)) by {
            assert(name@.subrange(0, 0) =~= Seq::<char>::empty());
        }
        text.push(' ');
        let start = text.len();
        let mut j: usize = 0;
        while j < args.len()
            invariant
                j <= args@.len(),
                start == text@.len() - j,
                text@ == pad_right(name@, 3).push(' ') + args@.subrange(0, j as int),
            decreases args@.len() - j,
        {
            text.push(args[j]);
            j += 1;
        }
        assert(args@.subrange(0, args@.len() as int) =~= args@);
        pad_to(&mut text, start, 6);
        let ghost before = pad_right(name@, 3).push(' ');
        assert(text@ =~= instruction_text(self.name@, args@)) by {
            assert((before + args@).subrange(0, start as int) =~= before);
            assert((before + args@).subrange(start as int, (before + args@).len() as int) =~= args@);
        }
        crate::util::string_of_chars(&text)
    }

    /// The opcodes of the instruction, each with its cycle count and addressing mode.
    pub fn opcodes(&self) -> (r: &'static [Opcode])
        ensures
            r@ == opcodes_of(self.operation),
    {
        opcode_list(self.operation)
    }

    /// Search through all instructions for a given opcode, and return the instruction,
    /// the addressing mode and the cycle count.
    pub fn decode(code: u8) -> (r: Option<(Instruction, AddressingMode, CycleCount)>)
        ensures
            r matches Some((i, mode, cycles)) ==> decode_spec(code) == Some(
                Decoded { operation: i.operation, name: i.name@, mode, cycles },
            ),
            r is None ==> decode_spec(code) is None,
    {
        let table = instruction_table();
        let ghost all = table@;
        let mut i: usize = 0;
        assert(all.skip(0) =~= all);
        while i < table.len()
            invariant
                table@ == all,
                all == instruction_table_spec(),
                i <= all.len(),
                find_in_table(all, code) == find_in_table(all.skip(i as int), code),
            decreases all.len() - i,
        {
            assert(all.skip(i as int).drop_first() =~= all.skip(i as int + 1));
            assert(all.skip(i as int)[0] == all[i as int]);
            match table[i].find(code) {
                Some((mode, cycles)) => {
                    return Some((table[i], mode, cycles));
                },
                None => {},
            }
            i += 1;
        }
        None
    }
}

/// The opcodes of each instruction, in the order of the table.
pub open spec fn opcodes_of(op: Operation) -> Seq<Opcode> {
    match op {
        Operation::Brk => seq![Opcode { code: 0x00u8, cycles: 7usize, mode: AddressingMode::Implied }],
        Operation::Rti => seq![Opcode { code: 0x40u8, cycles: 6usize, mode: AddressingMode::Implied }],
        Operation::Bcs => seq![Opcode { code: 0xB0u8, cycles: 2usize, mode: AddressingMode::Relative }],
        Operation::Bcc => seq![Opcode { code: 0x90u8, cycles: 2usize, mode: AddressingMode::Relative }],
        Operation::Beq => seq![Opcode { code: 0xF0u8, cycles: 2usize, mode: AddressingMode::Relative }],
        Operation::Bne => seq![Opcode { code: 0xD0u8, cycles: 2usize, mode: AddressingMode::Relative }],
        Operation::Bmi => seq![Opcode { code: 0x30u8, cycles: 2usize, mode: AddressingMode::Relative }],
        Operation::Bpl => seq![Opcode { code: 0x10u8, cycles: 2usize, mode: AddressingMode::Relative }],
        Operation::Bvs => seq![Opcode { code: 0x70u8, cycles: 2usize, mode: AddressingMode::Relative }],
        Operation::Bvc => seq![Opcode { code: 0x50u8, cycles: 2usize, mode: AddressingMode::Relative }],
        Operation::Clv => seq![Opcode { code: 0xB8u8, cycles: 2usize, mode: AddressingMode::Implied }],
        Operation::Clc => seq![Opcode { code: 0x18u8, cycles: 2usize, mode: AddressingMode::Implied }],
        Operation::Cld => seq![Opcode { code: 0xD8u8, cycles: 2usize, mode: AddressingMode::Implied }],
        Operation::Cli => seq![Opcode { code: 0x58u8, cycles: 2usize, mode: AddressingMode::Implied }],
        Operation::Sec => seq![Opcode { code: 0x38u8, cycles: 2usize, mode: AddressingMode::Implied }],
        Operation::Sed => seq![Opcode { code: 0xF8u8, cycles: 2usize, mode: AddressingMode::Implied }],
        Operation::Sei => seq![Opcode { code: 0x78u8, cycles: 2usize, mode: AddressingMode::Implied }],
        Operation::Tax => seq![Opcode { code: 0xAAu8, cycles: 2usize, mode: AddressingMode::Implied }],
        Operation::Tay => seq![Opcode { code: 0xA8u8, cycles: 2usize, mode: AddressingMode::Implied }],
        Operation::Txa => seq![Opcode { code: 0x8Au8, cycles: 2usize, mode: AddressingMode::Implied }],
        Operation::Tya => seq![Opcode { code: 0x98u8, cycles: 2usize, mode: AddressingMode::Implied }, Opcode { code: 0x89u8, cycles: 2usize, mode: AddressingMode::Implied }],
        Operation::Jsr => seq![Opcode { code: 0x20u8, cycles: 6usize, mode: AddressingMode::Absolute }],
        Operation::Rts => seq![Opcode { code: 0x60u8, cycles: 6usize, mode: AddressingMode::Implied }],
        Operation::Php => seq![Opcode { code: 0x08u8, cycles: 3usize, mode: AddressingMode::Implied }],
        Operation::Plp => seq![Opcode { code: 0x28u8, cycles: 4usize, mode: AddressingMode::Implied }],
        Operation::Pha => seq![Opcode { code: 0x48u8, cycles: 3usize, mode: AddressingMode::Implied }],
        Operation::Pla => seq![Opcode { code: 0x68u8, cycles: 4usize, mode: AddressingMode::Implied }],
        Operation::Tsx => seq![Opcode { code: 0xBAu8, cycles: 2usize, mode: AddressingMode::Implied }],
        Operation::Txs => seq![Opcode { code: 0x9Au8, cycles: 2usize, mode: AddressingMode::Implied }],
        Operation::Nop => seq![Opcode { code: 0x80u8, cycles: 2usize, mode: AddressingMode::Immediate }, Opcode { code: 0x0Cu8, cycles: 4usize, mode: AddressingMode::Absolute }, Opcode { code: 0x1Cu8, cycles: 4usize, mode: AddressingMode::AbsoluteX }, Opcode { code: 0x3Cu8, cycles: 4usize, mode: AddressingMode::AbsoluteX }, Opcode { code: 0x5Cu8, cycles: 4usize, mode: AddressingMode::AbsoluteX }, Opcode { code: 0x7Cu8, cycles: 4usize, mode: AddressingMode::AbsoluteX }, Opcode { code: 0xDCu8, cycles: 4usize, mode: AddressingMode::AbsoluteX }, Opcode { code: 0xFCu8, cycles: 4usize, mode: AddressingMode::AbsoluteX }, Opcode { code: 0xEAu8, cycles: 2usize, mode: AddressingMode::Implied }, Opcode { code: 0x1Au8, cycles: 2usize, mode: AddressingMode::Implied }, Opcode { code: 0x3Au8, cycles: 2usize, mode: AddressingMode::Implied }, Opcode { code: 0x5Au8, cycles: 2usize, mode: AddressingMode::Implied }, Opcode { code: 0x7Au8, cycles: 2usize, mode: AddressingMode::Implied }, Opcode { code: 0xDAu8, cycles: 2usize, mode: AddressingMode::Implied }, Opcode { code: 0xFAu8, cycles: 2usize, mode: AddressingMode::Implied }, Opcode { code: 0xFAu8, cycles: 2usize, mode: AddressingMode::Implied }, Opcode { code: 0x04u8, cycles: 3usize, mode: AddressingMode::ZeroPage }, Opcode { code: 0x44u8, cycles: 3usize, mode: AddressingMode::ZeroPage }, Opcode { code: 0x64u8, cycles: 3usize, mode: AddressingMode::ZeroPage }, Opcode { code: 0x14u8, cycles: 4usize, mode: AddressingMode::ZeroPageX }, Opcode { code: 0x34u8, cycles: 4usize, mode: AddressingMode::ZeroPageX }, Opcode { code: 0x54u8, cycles: 4usize, mode: AddressingMode::ZeroPageX }, Opcode { code: 0x74u8, cycles: 4usize, mode: AddressingMode::ZeroPageX }, Opcode { code: 0xD4u8, cycles: 4usize, mode: AddressingMode::ZeroPageX }, Opcode { code: 0xF4u8, cycles: 4usize, mode: AddressingMode::ZeroPageX }],
        Operation::Bit => seq![Opcode { code: 0x24u8, cycles: 3usize, mode: AddressingMode::ZeroPage }, Opcode { code: 0x2Cu8, cycles: 4usize, mode: AddressingMode::Absolute }],
        Operation::Jmp => seq![Opcode { code: 0x4Cu8, cycles: 3usize, mode: AddressingMode::Absolute }, Opcode { code: 0x6Cu8, cycles: 5usize, mode: AddressingMode::Indirect }],
        Operation::Inx => seq![Opcode { code: 0xE8u8, cycles: 2usize, mode: AddressingMode::Implied }],
        Operation::Iny => seq![Opcode { code: 0xC8u8, cycles: 2usize, mode: AddressingMode::Implied }],
        Operation::Inc => seq![Opcode { code: 0xE6u8, cycles: 5usize, mode: AddressingMode::ZeroPage }, Opcode { code: 0xF6u8, cycles: 6usize, mode: AddressingMode::ZeroPageX }, Opcode { code: 0xEEu8, cycles: 6usize, mode: AddressingMode::Absolute }, Opcode { code: 0xFEu8, cycles: 7usize, mode: AddressingMode::AbsoluteX }],
        Operation::Dex => seq![Opcode { code: 0xCAu8, cycles: 2usize, mode: AddressingMode::Implied }],
        Operation::Dey => seq![Opcode { code: 0x88u8, cycles: 2usize, mode: AddressingMode::Implied }],
        Operation::Dec => seq![Opcode { code: 0xC6u8, cycles: 5usize, mode: AddressingMode::ZeroPage }, Opcode { code: 0xD6u8, cycles: 6usize, mode: AddressingMode::ZeroPageX }, Opcode { code: 0xCEu8, cycles: 6usize, mode: AddressingMode::Absolute }, Opcode { code: 0xDEu8, cycles: 7usize, mode: AddressingMode::AbsoluteX }],
        Operation::Adc => seq![Opcode { code: 0x69u8, cycles: 2usize, mode: AddressingMode::Immediate }, Opcode { code: 0x65u8, cycles: 3usize, mode: AddressingMode::ZeroPage }, Opcode { code: 0x75u8, cycles: 4usize, mode: AddressingMode::ZeroPageX }, Opcode { code: 0x6Du8, cycles: 4usize, mode: AddressingMode::Absolute }, Opcode { code: 0x7Du8, cycles: 4usize, mode: AddressingMode::AbsoluteX }, Opcode { code: 0x79u8, cycles: 4usize, mode: AddressingMode::AbsoluteY }, Opcode { code: 0x61u8, cycles: 6usize, mode: AddressingMode::IndirectX }, Opcode { code: 0x71u8, cycles: 5usize, mode: AddressingMode::IndirectY }],
        Operation::Sbc => seq![Opcode { code: 0xE9u8, cycles: 2usize, mode: AddressingMode::Immediate }, Opcode { code: 0xEBu8, cycles: 2usize, mode: AddressingMode::Immediate }, Opcode { code: 0xE5u8, cycles: 3usize, mode: AddressingMode::ZeroPage }, Opcode { code: 0xF5u8, cycles: 4usize, mode: AddressingMode::ZeroPageX }, Opcode { code: 0xEDu8, cycles: 4usize, mode: AddressingMode::Absolute }, Opcode { code: 0xFDu8, cycles: 4usize, mode: AddressingMode::AbsoluteX }, Opcode { code: 0xF9u8, cycles: 4usize, mode: AddressingMode::AbsoluteY }, Opcode { code: 0xE1u8, cycles: 6usize, mode: AddressingMode::IndirectX }, Opcode { code: 0xF1u8, cycles: 5usize, mode: AddressingMode::IndirectY }],
        Operation::Lsr => seq![Opcode { code: 0x4Au8, cycles: 2usize, mode: AddressingMode::Accumulator }, Opcode { code: 0x46u8, cycles: 5usize, mode: AddressingMode::ZeroPage }, Opcode { code: 0x56u8, cycles: 6usize, mode: AddressingMode::ZeroPageX }, Opcode { code: 0x4Eu8, cycles: 6usize, mode: AddressingMode::Absolute }, Opcode { code: 0x5Eu8, cycles: 7usize, mode: AddressingMode::AbsoluteX }],
        Operation::Asl => seq![Opcode { code: 0x0Au8, cycles: 2usize, mode: AddressingMode::Accumulator }, Opcode { code: 0x06u8, cycles: 5usize, mode: AddressingMode::ZeroPage }, Opcode { code: 0x16u8, cycles: 6usize, mode: AddressingMode::ZeroPageX }, Opcode { code: 0x0Eu8, cycles: 6usize, mode: AddressingMode::Absolute }, Opcode { code: 0x1Eu8, cycles: 7usize, mode: AddressingMode::AbsoluteX }],
        Operation::Rol => seq![Opcode { code: 0x2Au8, cycles: 2usize, mode: AddressingMode::Accumulator }, Opcode { code: 0x26u8, cycles: 5usize, mode: AddressingMode::ZeroPage }, Opcode { code: 0x36u8, cycles: 6usize, mode: AddressingMode::ZeroPageX }, Opcode { code: 0x2Eu8, cycles: 6usize, mode: AddressingMode::Absolute }, Opcode { code: 0x3Eu8, cycles: 7usize, mode: AddressingMode::AbsoluteX }],
        Operation::Ror => seq![Opcode { code: 0x6Au8, cycles: 2usize, mode: AddressingMode::Accumulator }, Opcode { code: 0x66u8, cycles: 5usize, mode: AddressingMode::ZeroPage }, Opcode { code: 0x76u8, cycles: 6usize, mode: AddressingMode::ZeroPageX }, Opcode { code: 0x6Eu8, cycles: 6usize, mode: AddressingMode::Absolute }, Opcode { code: 0x7Eu8, cycles: 7usize, mode: AddressingMode::AbsoluteX }],
        Operation::And => seq![Opcode { code: 0x29u8, cycles: 2usize, mode: AddressingMode::Immediate }, Opcode { code: 0x25u8, cycles: 3usize, mode: AddressingMode::ZeroPage }, Opcode { code: 0x35u8, cycles: 4usize, mode: AddressingMode::ZeroPageX }, Opcode { code: 0x2Du8, cycles: 4usize, mode: AddressingMode::Absolute }, Opcode { code: 0x3Du8, cycles: 4usize, mode: AddressingMode::AbsoluteX }, Opcode { code: 0x39u8, cycles: 4usize, mode: AddressingMode::AbsoluteY }, Opcode { code: 0x21u8, cycles: 6usize, mode: AddressingMode::IndirectX }, Opcode { code: 0x31u8, cycles: 5usize, mode: AddressingMode::IndirectY }],
        Operation::Eor => seq![Opcode { code: 0x49u8, cycles: 2usize, mode: AddressingMode::Immediate }, Opcode { code: 0x45u8, cycles: 3usize, mode: AddressingMode::ZeroPage }, Opcode { code: 0x55u8, cycles: 4usize, mode: AddressingMode::ZeroPageX }, Opcode { code: 0x4Du8, cycles: 4usize, mode: AddressingMode::Absolute }, Opcode { code: 0x5Du8, cycles: 4usize, mode: AddressingMode::AbsoluteX }, Opcode { code: 0x59u8, cycles: 4usize, mode: AddressingMode::AbsoluteY }, Opcode { code: 0x41u8, cycles: 6usize, mode: AddressingMode::IndirectX }, Opcode { code: 0x51u8, cycles: 5usize, mode: AddressingMode::IndirectY }],
        Operation::Ora => seq![Opcode { code: 0x09u8, cycles: 2usize, mode: AddressingMode::Immediate }, Opcode { code: 0x05u8, cycles: 3usize, mode: AddressingMode::ZeroPage }, Opcode { code: 0x15u8, cycles: 4usize, mode: AddressingMode::ZeroPageX }, Opcode { code: 0x0Du8, cycles: 4usize, mode: AddressingMode::Absolute }, Opcode { code: 0x1Du8, cycles: 4usize, mode: AddressingMode::AbsoluteX }, Opcode { code: 0x19u8, cycles: 4usize, mode: AddressingMode::AbsoluteY }, Opcode { code: 0x01u8, cycles: 6usize, mode: AddressingMode::IndirectX }, Opcode { code: 0x11u8, cycles: 5usize, mode: AddressingMode::IndirectY }],
        Operation::Cmp => seq![Opcode { code: 0xC9u8, cycles: 2usize, mode: AddressingMode::Immediate }, Opcode { code: 0xC5u8, cycles: 3usize, mode: AddressingMode::ZeroPage }, Opcode { code: 0xD5u8, cycles: 4usize, mode: AddressingMode::ZeroPageX }, Opcode { code: 0xCDu8, cycles: 4usize, mode: AddressingMode::Absolute }, Opcode { code: 0xDDu8, cycles: 4usize, mode: AddressingMode::AbsoluteX }, Opcode { code: 0xD9u8, cycles: 4usize, mode: AddressingMode::AbsoluteY }, Opcode { code: 0xC1u8, cycles: 6usize, mode: AddressingMode::IndirectX }, Opcode { code: 0xD1u8, cycles: 5usize, mode: AddressingMode::IndirectY }],
        Operation::Cpx => seq![Opcode { code: 0xE0u8, cycles: 2usize, mode: AddressingMode::Immediate }, Opcode { code: 0xE4u8, cycles: 3usize, mode: AddressingMode::ZeroPage }, Opcode { code: 0xECu8, cycles: 4usize, mode: AddressingMode::Absolute }],
        Operation::Cpy => seq![Opcode { code: 0xC0u8, cycles: 2usize, mode: AddressingMode::Immediate }, Opcode { code: 0xC4u8, cycles: 3usize, mode: AddressingMode::ZeroPage }, Opcode { code: 0xCCu8, cycles: 4usize, mode: AddressingMode::Absolute }],
        Operation::Lda => seq![Opcode { code: 0xA9u8, cycles: 2usize, mode: AddressingMode::Immediate }, Opcode { code: 0xA5u8, cycles: 3usize, mode: AddressingMode::ZeroPage }, Opcode { code: 0xB5u8, cycles: 4usize, mode: AddressingMode::ZeroPageX }, Opcode { code: 0xADu8, cycles: 4usize, mode: AddressingMode::Absolute }, Opcode { code: 0xBDu8, cycles: 4usize, mode: AddressingMode::AbsoluteX }, Opcode { code: 0xB9u8, cycles: 4usize, mode: AddressingMode::AbsoluteY }, Opcode { code: 0xA1u8, cycles: 6usize, mode: AddressingMode::IndirectX }, Opcode { code: 0xB1u8, cycles: 5usize, mode: AddressingMode::IndirectY }],
        Operation::Ldx => seq![Opcode { code: 0xA2u8, cycles: 2usize, mode: AddressingMode::Immediate }, Opcode { code: 0xA6u8, cycles: 3usize, mode: AddressingMode::ZeroPage }, Opcode { code: 0xB6u8, cycles: 4usize, mode: AddressingMode::ZeroPageY }, Opcode { code: 0xAEu8, cycles: 4usize, mode: AddressingMode::Absolute }, Opcode { code: 0xBEu8, cycles: 4usize, mode: AddressingMode::AbsoluteY }],
        Operation::Ldy => seq![Opcode { code: 0xA0u8, cycles: 2usize, mode: AddressingMode::Immediate }, Opcode { code: 0xA4u8, cycles: 3usize, mode: AddressingMode::ZeroPage }, Opcode { code: 0xB4u8, cycles: 4usize, mode: AddressingMode::ZeroPageX }, Opcode { code: 0xACu8, cycles: 4usize, mode: AddressingMode::Absolute }, Opcode { code: 0xBCu8, cycles: 4usize, mode: AddressingMode::AbsoluteX }],
        Operation::Sta => seq![Opcode { code: 0x85u8, cycles: 3usize, mode: AddressingMode::ZeroPage }, Opcode { code: 0x95u8, cycles: 4usize, mode: AddressingMode::ZeroPageX }, Opcode { code: 0x8Du8, cycles: 4usize, mode: AddressingMode::Absolute }, Opcode { code: 0x9Du8, cycles: 5usize, mode: AddressingMode::AbsoluteX }, Opcode { code: 0x99u8, cycles: 5usize, mode: AddressingMode::AbsoluteY }, Opcode { code: 0x81u8, cycles: 6usize, mode: AddressingMode::IndirectX }, Opcode { code: 0x91u8, cycles: 6usize, mode: AddressingMode::IndirectY }],
        Operation::Stx => seq![Opcode { code: 0x86u8, cycles: 3usize, mode: AddressingMode::ZeroPage }, Opcode { code: 0x96u8, cycles: 4usize, mode: AddressingMode::ZeroPageY }, Opcode { code: 0x8Eu8, cycles: 4usize, mode: AddressingMode::Absolute }],
        Operation::Sty => seq![Opcode { code: 0x84u8, cycles: 3usize, mode: AddressingMode::ZeroPage }, Opcode { code: 0x94u8, cycles: 4usize, mode: AddressingMode::ZeroPageX }, Opcode { code: 0x8Cu8, cycles: 4usize, mode: AddressingMode::Absolute }],
        Operation::Lax => seq![Opcode { code: 0xA7u8, cycles: 3usize, mode: AddressingMode::ZeroPage }, Opcode { code: 0xB7u8, cycles: 4usize, mode: AddressingMode::ZeroPageY }, Opcode { code: 0xAFu8, cycles: 4usize, mode: AddressingMode::Absolute }, Opcode { code: 0xBFu8, cycles: 4usize, mode: AddressingMode::AbsoluteY }, Opcode { code: 0xA3u8, cycles: 6usize, mode: AddressingMode::IndirectX }, Opcode { code: 0xB3u8, cycles: 5usize, mode: AddressingMode::IndirectY }],
        Operation::Sax => seq![Opcode { code: 0x87u8, cycles: 3usize, mode: AddressingMode::ZeroPage }, Opcode { code: 0x97u8, cycles: 4usize, mode: AddressingMode::ZeroPageY }, Opcode { code: 0x8Fu8, cycles: 4usize, mode: AddressingMode::Absolute }, Opcode { code: 0x83u8, cycles: 6usize, mode: AddressingMode::IndirectX }],
        Operation::Dcp => seq![Opcode { code: 0xC7u8, cycles: 5usize, mode: AddressingMode::ZeroPage }, Opcode { code: 0xD7u8, cycles: 6usize, mode: AddressingMode::ZeroPageX }, Opcode { code: 0xCFu8, cycles: 6usize, mode: AddressingMode::Absolute }, Opcode { code: 0xDFu8, cycles: 7usize, mode: AddressingMode::AbsoluteX }, Opcode { code: 0xDBu8, cycles: 7usize, mode: AddressingMode::AbsoluteY }, Opcode { code: 0xC3u8, cycles: 8usize, mode: AddressingMode::IndirectX }, Opcode { code: 0xD3u8, cycles: 8usize, mode: AddressingMode::IndirectY }],
        Operation::Isc => seq![Opcode { code: 0xE7u8, cycles: 5usize, mode: AddressingMode::ZeroPage }, Opcode { code: 0xF7u8, cycles: 6usize, mode: AddressingMode::ZeroPageX }, Opcode { code: 0xEFu8, cycles: 6usize, mode: AddressingMode::Absolute }, Opcode { code: 0xFFu8, cycles: 7usize, mode: AddressingMode::AbsoluteX }, Opcode { code: 0xFBu8, cycles: 7usize, mode: AddressingMode::AbsoluteY }, Opcode { code: 0xE3u8, cycles: 8usize, mode: AddressingMode::IndirectX }, Opcode { code: 0xF3u8, cycles: 8usize, mode: AddressingMode::IndirectY }],
        Operation::Slo => seq![Opcode { code: 0x07u8, cycles: 5usize, mode: AddressingMode::ZeroPage }, Opcode { code: 0x17u8, cycles: 6usize, mode: AddressingMode::ZeroPageX }, Opcode { code: 0x0Fu8, cycles: 6usize, mode: AddressingMode::Absolute }, Opcode { code: 0x1Fu8, cycles: 7usize, mode: AddressingMode::AbsoluteX }, Opcode { code: 0x1Bu8, cycles: 7usize, mode: AddressingMode::AbsoluteY }, Opcode { code: 0x03u8, cycles: 8usize, mode: AddressingMode::IndirectX }, Opcode { code: 0x13u8, cycles: 8usize, mode: AddressingMode::IndirectY }],
        Operation::Rla => seq![Opcode { code: 0x27u8, cycles: 5usize, mode: AddressingMode::ZeroPage }, Opcode { code: 0x37u8, cycles: 6usize, mode: AddressingMode::ZeroPageX }, Opcode { code: 0x2Fu8, cycles: 6usize, mode: AddressingMode::Absolute }, Opcode { code: 0x3Fu8, cycles: 7usize, mode: AddressingMode::AbsoluteX }, Opcode { code: 0x3Bu8, cycles: 7usize, mode: AddressingMode::AbsoluteY }, Opcode { code: 0x23u8, cycles: 8usize, mode: AddressingMode::IndirectX }, Opcode { code: 0x33u8, cycles: 8usize, mode: AddressingMode::IndirectY }],
        Operation::Sre => seq![Opcode { code: 0x47u8, cycles: 5usize, mode: AddressingMode::ZeroPage }, Opcode { code: 0x57u8, cycles: 6usize, mode: AddressingMode::ZeroPageX }, Opcode { code: 0x4Fu8, cycles: 6usize, mode: AddressingMode::Absolute }, Opcode { code: 0x5Fu8, cycles: 7usize, mode: AddressingMode::AbsoluteX }, Opcode { code: 0x5Bu8, cycles: 7usize, mode: AddressingMode::AbsoluteY }, Opcode { code: 0x43u8, cycles: 8usize, mode: AddressingMode::IndirectX }, Opcode { code: 0x53u8, cycles: 8usize, mode: AddressingMode::IndirectY }],
        Operation::Rra => seq![Opcode { code: 0x67u8, cycles: 5usize, mode: AddressingMode::ZeroPage }, Opcode { code: 0x77u8, cycles: 6usize, mode: AddressingMode::ZeroPageX }, Opcode { code: 0x6Fu8, cycles: 6usize, mode: AddressingMode::Absolute }, Opcode { code: 0x7Fu8, cycles: 7usize, mode: AddressingMode::AbsoluteX }, Opcode { code: 0x7Bu8, cycles: 7usize, mode: AddressingMode::AbsoluteY }, Opcode { code: 0x63u8, cycles: 8usize, mode: AddressingMode::IndirectX }, Opcode { code: 0x73u8, cycles: 8usize, mode: AddressingMode::IndirectY }],
        Operation::Alr => seq![Opcode { code: 0x4Bu8, cycles: 2usize, mode: AddressingMode::Immediate }],
    }
}

/// The opcodes of each instruction.
fn opcode_list(op: Operation) -> (r: &'static [Opcode])
    ensures
        r@ == opcodes_of(op),
{
    match op {
        Operation::Brk => {
            let r: &'static [Opcode] = &[Opcode { code: 0x00, cycles: 7, mode: AddressingMode::Implied }];
            assert(r@ =~= opcodes_of(op));
            r
        },
        Operation::Rti => {
            let r: &'static [Opcode] = &[Opcode { code: 0x40, cycles: 6, mode: AddressingMode::Implied }];
            assert(r@ =~= opcodes_of(op));
            r
        },
        Operation::Bcs => {
            let r: &'static [Opcode] = &[Opcode { code: 0xB0, cycles: 2, mode: AddressingMode::Relative }];
            assert(r@ =~= opcodes_of(op));
            r
        },
        Operation::Bcc => {
            let r: &'static [Opcode] = &[Opcode { code: 0x90, cycles: 2, mode: AddressingMode::Relative }];
            assert(r@ =~= opcodes_of(op));
            r
        },
        Operation::Beq => {
            let r: &'static [Opcode] = &[Opcode { code: 0xF0, cycles: 2, mode: AddressingMode::Relative }];
            assert(r@ =~= opcodes_of(op));
            r
        },
        Operation::Bne => {
            let r: &'static [Opcode] = &[Opcode { code: 0xD0, cycles: 2, mode: AddressingMode::Relative }];
            assert(r@ =~= opcodes_of(op));
            r
        },
        Operation::Bmi => {
            let r: &'static [Opcode] = &[Opcode { code: 0x30, cycles: 2, mode: AddressingMode::Relative }];
            assert(r@ =~= opcodes_of(op));
            r
        },
        Operation::Bpl => {
            let r: &'static [Opcode] = &[Opcode { code: 0x10, cycles: 2, mode: AddressingMode::Relative }];
            assert(r@ =~= opcodes_of(op));
            r
        },
        Operation::Bvs => {
            let r: &'static [Opcode] = &[Opcode { code: 0x70, cycles: 2, mode: AddressingMode::Relative }];
            assert(r@ =~= opcodes_of(op));
            r
        },
        Operation::Bvc => {
            let r: &'static [Opcode] = &[Opcode { code: 0x50, cycles: 2, mode: AddressingMode::Relative }];
            assert(r@ =~= opcodes_of(op));
            r
        },
        Operation::Clv => {
            let r: &'static [Opcode] = &[Opcode { code: 0xB8, cycles: 2, mode: AddressingMode::Implied }];
            assert(r@ =~= opcodes_of(op));
            r
        },
        Operation::Clc => {
            let r: &'static [Opcode] = &[Opcode { code: 0x18, cycles: 2, mode: AddressingMode::Implied }];
            assert(r@ =~= opcodes_of(op));
            r
        },
        Operation::Cld => {
            let r: &'static [Opcode] = &[Opcode { code: 0xD8, cycles: 2, mode: AddressingMode::Implied }];
            assert(r@ =~= opcodes_of(op));
            r
        },
        Operation::Cli => {
            let r: &'static [Opcode] = &[Opcode { code: 0x58, cycles: 2, mode: AddressingMode::Implied }];
            assert(r@ =~= opcodes_of(op));
            r
        },
        Operation::Sec => {
            let r: &'static [Opcode] = &[Opcode { code: 0x38, cycles: 2, mode: AddressingMode::Implied }];
            assert(r@ =~= opcodes_of(op));
            r
        },
        Operation::Sed => {
            let r: &'static [Opcode] = &[Opcode { code: 0xF8, cycles: 2, mode: AddressingMode::Implied }];
            assert(r@ =~= opcodes_of(op));
            r
        },
        Operation::Sei => {
            let r: &'static [Opcode] = &[Opcode { code: 0x78, cycles: 2, mode: AddressingMode::Implied }];
            assert(r@ =~= opcodes_of(op));
            r
        },
        Operation::Tax => {
            let r: &'static [Opcode] = &[Opcode { code: 0xAA, cycles: 2, mode: AddressingMode::Implied }];
            assert(r@ =~= opcodes_of(op));
            r
        },
        Operation::Tay => {
            let r: &'static [Opcode] = &[Opcode { code: 0xA8, cycles: 2, mode: AddressingMode::Implied }];
            assert(r@ =~= opcodes_of(op));
            r
        },
        Operation::Txa => {
            let r: &'static [Opcode] = &[Opcode { code: 0x8A, cycles: 2, mode: AddressingMode::Implied }];
            assert(r@ =~= opcodes_of(op));
            r
        },
        Operation::Tya => {
            let r: &'static [Opcode] = &[Opcode { code: 0x98, cycles: 2, mode: AddressingMode::Implied }, Opcode { code: 0x89, cycles: 2, mode: AddressingMode::Implied }];
            assert(r@ =~= opcodes_of(op));
            r
        },
        Operation::Jsr => {
            let r: &'static [Opcode] = &[Opcode { code: 0x20, cycles: 6, mode: AddressingMode::Absolute }];
            assert(r@ =~= opcodes_of(op));
            r
        },
        Operation::Rts => {
            let r: &'static [Opcode] = &[Opcode { code: 0x60, cycles: 6, mode: AddressingMode::Implied }];
            assert(r@ =~= opcodes_of(op));
            r
        },
        Operation::Php => {
            let r: &'static [Opcode] = &[Opcode { code: 0x08, cycles: 3, mode: AddressingMode::Implied }];
            assert(r@ =~= opcodes_of(op));
            r
        },
        Operation::Plp => {
            let r: &'static [Opcode] = &[Opcode { code: 0x28, cycles: 4, mode: AddressingMode::Implied }];
            assert(r@ =~= opcodes_of(op));
            r
        },
        Operation::Pha => {
            let r: &'static [Opcode] = &[Opcode { code: 0x48, cycles: 3, mode: AddressingMode::Implied }];
            assert(r@ =~= opcodes_of(op));
            r
        },
        Operation::Pla => {
            let r: &'static [Opcode] = &[Opcode { code: 0x68, cycles: 4, mode: AddressingMode::Implied }];
            assert(r@ =~= opcodes_of(op));
            r
        },
        Operation::Tsx => {
            let r: &'static [Opcode] = &[Opcode { code: 0xBA, cycles: 2, mode: AddressingMode::Implied }];
            assert(r@ =~= opcodes_of(op));
            r
        },
        Operation::Txs => {
            let r: &'static [Opcode] = &[Opcode { code: 0x9A, cycles: 2, mode: AddressingMode::Implied }];
            assert(r@ =~= opcodes_of(op));
            r
        },
        Operation::Nop => {
            let r: &'static [Opcode] = &[Opcode { code: 0x80, cycles: 2, mode: AddressingMode::Immediate }, Opcode { code: 0x0C, cycles: 4, mode: AddressingMode::Absolute }, Opcode { code: 0x1C, cycles: 4, mode: AddressingMode::AbsoluteX }, Opcode { code: 0x3C, cycles: 4, mode: AddressingMode::AbsoluteX }, Opcode { code: 0x5C, cycles: 4, mode: AddressingMode::AbsoluteX }, Opcode { code: 0x7C, cycles: 4, mode: AddressingMode::AbsoluteX }, Opcode { code: 0xDC, cycles: 4, mode: AddressingMode::AbsoluteX }, Opcode { code: 0xFC, cycles: 4, mode: AddressingMode::AbsoluteX }, Opcode { code: 0xEA, cycles: 2, mode: AddressingMode::Implied }, Opcode { code: 0x1A, cycles: 2, mode: AddressingMode::Implied }, Opcode { code: 0x3A, cycles: 2, mode: AddressingMode::Implied }, Opcode { code: 0x5A, cycles: 2, mode: AddressingMode::Implied }, Opcode { code: 0x7A, cycles: 2, mode: AddressingMode::Implied }, Opcode { code: 0xDA, cycles: 2, mode: AddressingMode::Implied }, Opcode { code: 0xFA, cycles: 2, mode: AddressingMode::Implied }, Opcode { code: 0xFA, cycles: 2, mode: AddressingMode::Implied }, Opcode { code: 0x04, cycles: 3, mode: AddressingMode::ZeroPage }, Opcode { code: 0x44, cycles: 3, mode: AddressingMode::ZeroPage }, Opcode { code: 0x64, cycles: 3, mode: AddressingMode::ZeroPage }, Opcode { code: 0x14, cycles: 4, mode: AddressingMode::ZeroPageX }, Opcode { code: 0x34, cycles: 4, mode: AddressingMode::ZeroPageX }, Opcode { code: 0x54, cycles: 4, mode: AddressingMode::ZeroPageX }, Opcode { code: 0x74, cycles: 4, mode: AddressingMode::ZeroPageX }, Opcode { code: 0xD4, cycles: 4, mode: AddressingMode::ZeroPageX }, Opcode { code: 0xF4, cycles: 4, mode: AddressingMode::ZeroPageX }];
            assert(r@ =~= opcodes_of(op));
            r
        },
        Operation::Bit => {
            let r: &'static [Opcode] = &[Opcode { code: 0x24, cycles: 3, mode: AddressingMode::ZeroPage }, Opcode { code: 0x2C, cycles: 4, mode: AddressingMode::Absolute }];
            assert(r@ =~= opcodes_of(op));
            r
        },
        Operation::Jmp => {
            let r: &'static [Opcode] = &[Opcode { code: 0x4C, cycles: 3, mode: AddressingMode::Absolute }, Opcode { code: 0x6C, cycles: 5, mode: AddressingMode::Indirect }];
            assert(r@ =~= opcodes_of(op));
            r
        },
        Operation::Inx => {
            let r: &'static [Opcode] = &[Opcode { code: 0xE8, cycles: 2, mode: AddressingMode::Implied }];
            assert(r@ =~= opcodes_of(op));
            r
        },
        Operation::Iny => {
            let r: &'static [Opcode] = &[Opcode { code: 0xC8, cycles: 2, mode: AddressingMode::Implied }];
            assert(r@ =~= opcodes_of(op));
            r
        },
        Operation::Inc => {
            let r: &'static [Opcode] = &[Opcode { code: 0xE6, cycles: 5, mode: AddressingMode::ZeroPage }, Opcode { code: 0xF6, cycles: 6, mode: AddressingMode::ZeroPageX }, Opcode { code: 0xEE, cycles: 6, mode: AddressingMode::Absolute }, Opcode { code: 0xFE, cycles: 7, mode: AddressingMode::AbsoluteX }];
            assert(r@ =~= opcodes_of(op));
            r
        },
        Operation::Dex => {
            let r: &'static [Opcode] = &[Opcode { code: 0xCA, cycles: 2, mode: AddressingMode::Implied }];
            assert(r@ =~= opcodes_of(op));
            r
        },
        Operation::Dey => {
            let r: &'static [Opcode] = &[Opcode { code: 0x88, cycles: 2, mode: AddressingMode::Implied }];
            assert(r@ =~= opcodes_of(op));
            r
        },
        Operation::Dec => {
            let r: &'static [Opcode] = &[Opcode { code: 0xC6, cycles: 5, mode: AddressingMode::ZeroPage }, Opcode { code: 0xD6, cycles: 6, mode: AddressingMode::ZeroPageX }, Opcode { code: 0xCE, cycles: 6, mode: AddressingMode::Absolute }, Opcode { code: 0xDE, cycles: 7, mode: AddressingMode::AbsoluteX }];
            assert(r@ =~= opcodes_of(op));
            r
        },
        Operation::Adc => {
            let r: &'static [Opcode] = &[Opcode { code: 0x69, cycles: 2, mode: AddressingMode::Immediate }, Opcode { code: 0x65, cycles: 3, mode: AddressingMode::ZeroPage }, Opcode { code: 0x75, cycles: 4, mode: AddressingMode::ZeroPageX }, Opcode { code: 0x6D, cycles: 4, mode: AddressingMode::Absolute }, Opcode { code: 0x7D, cycles: 4, mode: AddressingMode::AbsoluteX }, Opcode { code: 0x79, cycles: 4, mode: AddressingMode::AbsoluteY }, Opcode { code: 0x61, cycles: 6, mode: AddressingMode::IndirectX }, Opcode { code: 0x71, cycles: 5, mode: AddressingMode::IndirectY }];
            assert(r@ =~= opcodes_of(op));
            r
        },
        Operation::Sbc => {
            let r: &'static [Opcode] = &[Opcode { code: 0xE9, cycles: 2, mode: AddressingMode::Immediate }, Opcode { code: 0xEB, cycles: 2, mode: AddressingMode::Immediate }, Opcode { code: 0xE5, cycles: 3, mode: AddressingMode::ZeroPage }, Opcode { code: 0xF5, cycles: 4, mode: AddressingMode::ZeroPageX }, Opcode { code: 0xED, cycles: 4, mode: AddressingMode::Absolute }, Opcode { code: 0xFD, cycles: 4, mode: AddressingMode::AbsoluteX }, Opcode { code: 0xF9, cycles: 4, mode: AddressingMode::AbsoluteY }, Opcode { code: 0xE1, cycles: 6, mode: AddressingMode::IndirectX }, Opcode { code: 0xF1, cycles: 5, mode: AddressingMode::IndirectY }];
            assert(r@ =~= opcodes_of(op));
            r
        },
        Operation::Lsr => {
            let r: &'static [Opcode] = &[Opcode { code: 0x4A, cycles: 2, mode: AddressingMode::Accumulator }, Opcode { code: 0x46, cycles: 5, mode: AddressingMode::ZeroPage }, Opcode { code: 0x56, cycles: 6, mode: AddressingMode::ZeroPageX }, Opcode { code: 0x4E, cycles: 6, mode: AddressingMode::Absolute }, Opcode { code: 0x5E, cycles: 7, mode: AddressingMode::AbsoluteX }];
            assert(r@ =~= opcodes_of(op));
            r
        },
        Operation::Asl => {
            let r: &'static [Opcode] = &[Opcode { code: 0x0A, cycles: 2, mode: AddressingMode::Accumulator }, Opcode { code: 0x06, cycles: 5, mode: AddressingMode::ZeroPage }, Opcode { code: 0x16, cycles: 6, mode: AddressingMode::ZeroPageX }, Opcode { code: 0x0E, cycles: 6, mode: AddressingMode::Absolute }, Opcode { code: 0x1E, cycles: 7, mode: AddressingMode::AbsoluteX }];
            assert(r@ =~= opcodes_of(op));
            r
        },
        Operation::Rol => {
            let r: &'static [Opcode] = &[Opcode { code: 0x2A, cycles: 2, mode: AddressingMode::Accumulator }, Opcode { code: 0x26, cycles: 5, mode: AddressingMode::ZeroPage }, Opcode { code: 0x36, cycles: 6, mode: AddressingMode::ZeroPageX }, Opcode { code: 0x2E, cycles: 6, mode: AddressingMode::Absolute }, Opcode { code: 0x3E, cycles: 7, mode: AddressingMode::AbsoluteX }];
            assert(r@ =~= opcodes_of(op));
            r
        },
        Operation::Ror => {
            let r: &'static [Opcode] = &[Opcode { code: 0x6A, cycles: 2, mode: AddressingMode::Accumulator }, Opcode { code: 0x66, cycles: 5, mode: AddressingMode::ZeroPage }, Opcode { code: 0x76, cycles: 6, mode: AddressingMode::ZeroPageX }, Opcode { code: 0x6E, cycles: 6, mode: AddressingMode::Absolute }, Opcode { code: 0x7E, cycles: 7, mode: AddressingMode::AbsoluteX }];
            assert(r@ =~= opcodes_of(op));
            r
        },
        Operation::And => {
            let r: &'static [Opcode] = &[Opcode { code: 0x29, cycles: 2, mode: AddressingMode::Immediate }, Opcode { code: 0x25, cycles: 3, mode: AddressingMode::ZeroPage }, Opcode { code: 0x35, cycles: 4, mode: AddressingMode::ZeroPageX }, Opcode { code: 0x2D, cycles: 4, mode: AddressingMode::Absolute }, Opcode { code: 0x3D, cycles: 4, mode: AddressingMode::AbsoluteX }, Opcode { code: 0x39, cycles: 4, mode: AddressingMode::AbsoluteY }, Opcode { code: 0x21, cycles: 6, mode: AddressingMode::IndirectX }, Opcode { code: 0x31, cycles: 5, mode: AddressingMode::IndirectY }];
            assert(r@ =~= opcodes_of(op));
            r
        },
        Operation::Eor => {
            let r: &'static [Opcode] = &[Opcode { code: 0x49, cycles: 2, mode: AddressingMode::Immediate }, Opcode { code: 0x45, cycles: 3, mode: AddressingMode::ZeroPage }, Opcode { code: 0x55, cycles: 4, mode: AddressingMode::ZeroPageX }, Opcode { code: 0x4D, cycles: 4, mode: AddressingMode::Absolute }, Opcode { code: 0x5D, cycles: 4, mode: AddressingMode::AbsoluteX }, Opcode { code: 0x59, cycles: 4, mode: AddressingMode::AbsoluteY }, Opcode { code: 0x41, cycles: 6, mode: AddressingMode::IndirectX }, Opcode { code: 0x51, cycles: 5, mode: AddressingMode::IndirectY }];
            assert(r@ =~= opcodes_of(op));
            r
        },
        Operation::Ora => {
            let r: &'static [Opcode] = &[Opcode { code: 0x09, cycles: 2, mode: AddressingMode::Immediate }, Opcode { code: 0x05, cycles: 3, mode: AddressingMode::ZeroPage }, Opcode { code: 0x15, cycles: 4, mode: AddressingMode::ZeroPageX }, Opcode { code: 0x0D, cycles: 4, mode: AddressingMode::Absolute }, Opcode { code: 0x1D, cycles: 4, mode: AddressingMode::AbsoluteX }, Opcode { code: 0x19, cycles: 4, mode: AddressingMode::AbsoluteY }, Opcode { code: 0x01, cycles: 6, mode: AddressingMode::IndirectX }, Opcode { code: 0x11, cycles: 5, mode: AddressingMode::IndirectY }];
            assert(r@ =~= opcodes_of(op));
            r
        },
        Operation::Cmp => {
            let r: &'static [Opcode] = &[Opcode { code: 0xC9, cycles: 2, mode: AddressingMode::Immediate }, Opcode { code: 0xC5, cycles: 3, mode: AddressingMode::ZeroPage }, Opcode { code: 0xD5, cycles: 4, mode: AddressingMode::ZeroPageX }, Opcode { code: 0xCD, cycles: 4, mode: AddressingMode::Absolute }, Opcode { code: 0xDD, cycles: 4, mode: AddressingMode::AbsoluteX }, Opcode { code: 0xD9, cycles: 4, mode: AddressingMode::AbsoluteY }, Opcode { code: 0xC1, cycles: 6, mode: AddressingMode::IndirectX }, Opcode { code: 0xD1, cycles: 5, mode: AddressingMode::IndirectY }];
            assert(r@ =~= opcodes_of(op));
            r
        },
        Operation::Cpx => {
            let r: &'static [Opcode] = &[Opcode { code: 0xE0, cycles: 2, mode: AddressingMode::Immediate }, Opcode { code: 0xE4, cycles: 3, mode: AddressingMode::ZeroPage }, Opcode { code: 0xEC, cycles: 4, mode: AddressingMode::Absolute }];
            assert(r@ =~= opcodes_of(op));
            r
        },
        Operation::Cpy => {
            let r: &'static [Opcode] = &[Opcode { code: 0xC0, cycles: 2, mode: AddressingMode::Immediate }, Opcode { code: 0xC4, cycles: 3, mode: AddressingMode::ZeroPage }, Opcode { code: 0xCC, cycles: 4, mode: AddressingMode::Absolute }];
            assert(r@ =~= opcodes_of(op));
            r
        },
        Operation::Lda => {
            let r: &'static [Opcode] = &[Opcode { code: 0xA9, cycles: 2, mode: AddressingMode::Immediate }, Opcode { code: 0xA5, cycles: 3, mode: AddressingMode::ZeroPage }, Opcode { code: 0xB5, cycles: 4, mode: AddressingMode::ZeroPageX }, Opcode { code: 0xAD, cycles: 4, mode: AddressingMode::Absolute }, Opcode { code: 0xBD, cycles: 4, mode: AddressingMode::AbsoluteX }, Opcode { code: 0xB9, cycles: 4, mode: AddressingMode::AbsoluteY }, Opcode { code: 0xA1, cycles: 6, mode: AddressingMode::IndirectX }, Opcode { code: 0xB1, cycles: 5, mode: AddressingMode::IndirectY }];
            assert(r@ =~= opcodes_of(op));
            r
        },
        Operation::Ldx => {
            let r: &'static [Opcode] = &[Opcode { code: 0xA2, cycles: 2, mode: AddressingMode::Immediate }, Opcode { code: 0xA6, cycles: 3, mode: AddressingMode::ZeroPage }, Opcode { code: 0xB6, cycles: 4, mode: AddressingMode::ZeroPageY }, Opcode { code: 0xAE, cycles: 4, mode: AddressingMode::Absolute }, Opcode { code: 0xBE, cycles: 4, mode: AddressingMode::AbsoluteY }];
            assert(r@ =~= opcodes_of(op));
            r
        },
        Operation::Ldy => {
            let r: &'static [Opcode] = &[Opcode { code: 0xA0, cycles: 2, mode: AddressingMode::Immediate }, Opcode { code: 0xA4, cycles: 3, mode: AddressingMode::ZeroPage }, Opcode { code: 0xB4, cycles: 4, mode: AddressingMode::ZeroPageX }, Opcode { code: 0xAC, cycles: 4, mode: AddressingMode::Absolute }, Opcode { code: 0xBC, cycles: 4, mode: AddressingMode::AbsoluteX }];
            assert(r@ =~= opcodes_of(op));
            r
        },
        Operation::Sta => {
            let r: &'static [Opcode] = &[Opcode { code: 0x85, cycles: 3, mode: AddressingMode::ZeroPage }, Opcode { code: 0x95, cycles: 4, mode: AddressingMode::ZeroPageX }, Opcode { code: 0x8D, cycles: 4, mode: AddressingMode::Absolute }, Opcode { code: 0x9D, cycles: 5, mode: AddressingMode::AbsoluteX }, Opcode { code: 0x99, cycles: 5, mode: AddressingMode::AbsoluteY }, Opcode { code: 0x81, cycles: 6, mode: AddressingMode::IndirectX }, Opcode { code: 0x91, cycles: 6, mode: AddressingMode::IndirectY }];
            assert(r@ =~= opcodes_of(op));
            r
        },
        Operation::Stx => {
            let r: &'static [Opcode] = &[Opcode { code: 0x86, cycles: 3, mode: AddressingMode::ZeroPage }, Opcode { code: 0x96, cycles: 4, mode: AddressingMode::ZeroPageY }, Opcode { code: 0x8E, cycles: 4, mode: AddressingMode::Absolute }];
            assert(r@ =~= opcodes_of(op));
            r
        },
        Operation::Sty => {
            let r: &'static [Opcode] = &[Opcode { code: 0x84, cycles: 3, mode: AddressingMode::ZeroPage }, Opcode { code: 0x94, cycles: 4, mode: AddressingMode::ZeroPageX }, Opcode { code: 0x8C, cycles: 4, mode: AddressingMode::Absolute }];
            assert(r@ =~= opcodes_of(op));
            r
        },
        Operation::Lax => {
            let r: &'static [Opcode] = &[Opcode { code: 0xA7, cycles: 3, mode: AddressingMode::ZeroPage }, Opcode { code: 0xB7, cycles: 4, mode: AddressingMode::ZeroPageY }, Opcode { code: 0xAF, cycles: 4, mode: AddressingMode::Absolute }, Opcode { code: 0xBF, cycles: 4, mode: AddressingMode::AbsoluteY }, Opcode { code: 0xA3, cycles: 6, mode: AddressingMode::IndirectX }, Opcode { code: 0xB3, cycles: 5, mode: AddressingMode::IndirectY }];
            assert(r@ =~= opcodes_of(op));
            r
        },
        Operation::Sax => {
            let r: &'static [Opcode] = &[Opcode { code: 0x87, cycles: 3, mode: AddressingMode::ZeroPage }, Opcode { code: 0x97, cycles: 4, mode: AddressingMode::ZeroPageY }, Opcode { code: 0x8F, cycles: 4, mode: AddressingMode::Absolute }, Opcode { code: 0x83, cycles: 6, mode: AddressingMode::IndirectX }];
            assert(r@ =~= opcodes_of(op));
            r
        },
        Operation::Dcp => {
            let r: &'static [Opcode] = &[Opcode { code: 0xC7, cycles: 5, mode: AddressingMode::ZeroPage }, Opcode { code: 0xD7, cycles: 6, mode: AddressingMode::ZeroPageX }, Opcode { code: 0xCF, cycles: 6, mode: AddressingMode::Absolute }, Opcode { code: 0xDF, cycles: 7, mode: AddressingMode::AbsoluteX }, Opcode { code: 0xDB, cycles: 7, mode: AddressingMode::AbsoluteY }, Opcode { code: 0xC3, cycles: 8, mode: AddressingMode::IndirectX }, Opcode { code: 0xD3, cycles: 8, mode: AddressingMode::IndirectY }];
            assert(r@ =~= opcodes_of(op));
            r
        },
        Operation::Isc => {
            let r: &'static [Opcode] = &[Opcode { code: 0xE7, cycles: 5, mode: AddressingMode::ZeroPage }, Opcode { code: 0xF7, cycles: 6, mode: AddressingMode::ZeroPageX }, Opcode { code: 0xEF, cycles: 6, mode: AddressingMode::Absolute }, Opcode { code: 0xFF, cycles: 7, mode: AddressingMode::AbsoluteX }, Opcode { code: 0xFB, cycles: 7, mode: AddressingMode::AbsoluteY }, Opcode { code: 0xE3, cycles: 8, mode: AddressingMode::IndirectX }, Opcode { code: 0xF3, cycles: 8, mode: AddressingMode::IndirectY }];
            assert(r@ =~= opcodes_of(op));
            r
        },
        Operation::Slo => {
            let r: &'static [Opcode] = &[Opcode { code: 0x07, cycles: 5, mode: AddressingMode::ZeroPage }, Opcode { code: 0x17, cycles: 6, mode: AddressingMode::ZeroPageX }, Opcode { code: 0x0F, cycles: 6, mode: AddressingMode::Absolute }, Opcode { code: 0x1F, cycles: 7, mode: AddressingMode::AbsoluteX }, Opcode { code: 0x1B, cycles: 7, mode: AddressingMode::AbsoluteY }, Opcode { code: 0x03, cycles: 8, mode: AddressingMode::IndirectX }, Opcode { code: 0x13, cycles: 8, mode: AddressingMode::IndirectY }];
            assert(r@ =~= opcodes_of(op));
            r
        },
        Operation::Rla => {
            let r: &'static [Opcode] = &[Opcode { code: 0x27, cycles: 5, mode: AddressingMode::ZeroPage }, Opcode { code: 0x37, cycles: 6, mode: AddressingMode::ZeroPageX }, Opcode { code: 0x2F, cycles: 6, mode: AddressingMode::Absolute }, Opcode { code: 0x3F, cycles: 7, mode: AddressingMode::AbsoluteX }, Opcode { code: 0x3B, cycles: 7, mode: AddressingMode::AbsoluteY }, Opcode { code: 0x23, cycles: 8, mode: AddressingMode::IndirectX }, Opcode { code: 0x33, cycles: 8, mode: AddressingMode::IndirectY }];
            assert(r@ =~= opcodes_of(op));
            r
        },
        Operation::Sre => {
            let r: &'static [Opcode] = &[Opcode { code: 0x47, cycles: 5, mode: AddressingMode::ZeroPage }, Opcode { code: 0x57, cycles: 6, mode: AddressingMode::ZeroPageX }, Opcode { code: 0x4F, cycles: 6, mode: AddressingMode::Absolute }, Opcode { code: 0x5F, cycles: 7, mode: AddressingMode::AbsoluteX }, Opcode { code: 0x5B, cycles: 7, mode: AddressingMode::AbsoluteY }, Opcode { code: 0x43, cycles: 8, mode: AddressingMode::IndirectX }, Opcode { code: 0x53, cycles: 8, mode: AddressingMode::IndirectY }];
            assert(r@ =~= opcodes_of(op));
            r
        },
        Operation::Rra => {
            let r: &'static [Opcode] = &[Opcode { code: 0x67, cycles: 5, mode: AddressingMode::ZeroPage }, Opcode { code: 0x77, cycles: 6, mode: AddressingMode::ZeroPageX }, Opcode { code: 0x6F, cycles: 6, mode: AddressingMode::Absolute }, Opcode { code: 0x7F, cycles: 7, mode: AddressingMode::AbsoluteX }, Opcode { code: 0x7B, cycles: 7, mode: AddressingMode::AbsoluteY }, Opcode { code: 0x63, cycles: 8, mode: AddressingMode::IndirectX }, Opcode { code: 0x73, cycles: 8, mode: AddressingMode::IndirectY }];
            assert(r@ =~= opcodes_of(op));
            r
        },
        Operation::Alr => {
            let r: &'static [Opcode] = &[Opcode { code: 0x4B, cycles: 2, mode: AddressingMode::Immediate }];
            assert(r@ =~= opcodes_of(op));
            r
        },
    }
}

/// The instruction table, in lookup order.
pub open spec fn instruction_table_spec() -> Seq<Instruction> {
    seq![
        Instruction { name: "BRK", operation: Operation::Brk },
        Instruction { name: "RTI", operation: Operation::Rti },
        Instruction { name: "BCS", operation: Operation::Bcs },
        Instruction { name: "BCC", operation: Operation::Bcc },
        Instruction { name: "BEQ", operation: Operation::Beq },
        Instruction { name: "BNE", operation: Operation::Bne },
        Instruction { name: "BMI", operation: Operation::Bmi },
        Instruction { name: "BPL", operation: Operation::Bpl },
        Instruction { name: "BVS", operation: Operation::Bvs },
        Instruction { name: "BVC", operation: Operation::Bvc },
        Instruction { name: "CLV", operation: Operation::Clv },
        Instruction { name: "CLC", operation: Operation::Clc },
        Instruction { name: "CLD", operation: Operation::Cld },
        Instruction { name: "CLI", operation: Operation::Cli },
        Instruction { name: "SEC", operation: Operation::Sec },
        Instruction { name: "SED", operation: Operation::Sed },
        Instruction { name: "SEI", operation: Operation::Sei },
        Instruction { name: "TAX", operation: Operation::Tax },
        Instruction { name: "TAY", operation: Operation::Tay },
        Instruction { name: "TXA", operation: Operation::Txa },
        Instruction { name: "TYA", operation: Operation::Tya },
        Instruction { name: "JSR", operation: Operation::Jsr },
        Instruction { name: "RTS", operation: Operation::Rts },
        Instruction { name: "PHP", operation: Operation::Php },
        Instruction { name: "PLP", operation: Operation::Plp },
        Instruction { name: "PHA", operation: Operation::Pha },
        Instruction { name: "PLA", operation: Operation::Pla },
        Instruction { name: "TSX", operation: Operation::Tsx },
        Instruction { name: "TXS", operation: Operation::Txs },
        Instruction { name: "NOP", operation: Operation::Nop },
        Instruction { name: "BIT", operation: Operation::Bit },
        Instruction { name: "JMP", operation: Operation::Jmp },
        Instruction { name: "INX", operation: Operation::Inx },
        Instruction { name: "INY", operation: Operation::Iny },
        Instruction { name: "INC", operation: Operation::Inc },
        Instruction { name: "DEX", operation: Operation::Dex },
        Instruction { name: "DEY", operation: Operation::Dey },
        Instruction { name: "DEC", operation: Operation::Dec },
        Instruction { name: "ADC", operation: Operation::Adc },
        Instruction { name: "SBC", operation: Operation::Sbc },
        Instruction { name: "LSR", operation: Operation::Lsr },
        Instruction { name: "ASL", operation: Operation::Asl },
        Instruction { name: "ROL", operation: Operation::Rol },
        Instruction { name: "ROR", operation: Operation::Ror },
        Instruction { name: "AND", operation: Operation::And },
        Instruction { name: "EOR", operation: Operation::Eor },
        Instruction { name: "ORA", operation: Operation::Ora },
        Instruction { name: "CMP", operation: Operation::Cmp },
        Instruction { name: "CPX", operation: Operation::Cpx },
        Instruction { name: "CPY", operation: Operation::Cpy },
        Instruction { name: "LDA", operation: Operation::Lda },
        Instruction { name: "LDX", operation: Operation::Ldx },
        Instruction { name: "LDY", operation: Operation::Ldy },
        Instruction { name: "STA", operation: Operation::Sta },
        Instruction { name: "STX", operation: Operation::Stx },
        Instruction { name: "STY", operation: Operation::Sty },
        Instruction { name: "LAX", operation: Operation::Lax },
        Instruction { name: "SAX", operation: Operation::Sax },
        Instruction { name: "DCP", operation: Operation::Dcp },
        Instruction { name: "ISC", operation: Operation::Isc },
        Instruction { name: "SLO", operation: Operation::Slo },
        Instruction { name: "RLA", operation: Operation::Rla },
        Instruction { name: "SRE", operation: Operation::Sre },
        Instruction { name: "RRA", operation: Operation::Rra },
        Instruction { name: "ALR", operation: Operation::Alr },
    ]
}

/// The instruction table, in lookup order.
fn instruction_table() -> (r: Vec<Instruction>)
    ensures
        r@ == instruction_table_spec(),
{
    let r = vec![
        Instruction { name: "BRK", operation: Operation::Brk },
        Instruction { name: "RTI", operation: Operation::Rti },
        Instruction { name: "BCS", operation: Operation::Bcs },
        Instruction { name: "BCC", operation: Operation::Bcc },
        Instruction { name: "BEQ", operation: Operation::Beq },
        Instruction { name: "BNE", operation: Operation::Bne },
        Instruction { name: "BMI", operation: Operation::Bmi },
        Instruction { name: "BPL", operation: Operation::Bpl },
        Instruction { name: "BVS", operation: Operation::Bvs },
        Instruction { name: "BVC", operation: Operation::Bvc },
        Instruction { name: "CLV", operation: Operation::Clv },
        Instruction { name: "CLC", operation: Operation::Clc },
        Instruction { name: "CLD", operation: Operation::Cld },
        Instruction { name: "CLI", operation: Operation::Cli },
        Instruction { name: "SEC", operation: Operation::Sec },
        Instruction { name: "SED", operation: Operation::Sed },
        Instruction { name: "SEI", operation: Operation::Sei },
        Instruction { name: "TAX", operation: Operation::Tax },
        Instruction { name: "TAY", operation: Operation::Tay },
        Instruction { name: "TXA", operation: Operation::Txa },
        Instruction { name: "TYA", operation: Operation::Tya },
        Instruction { name: "JSR", operation: Operation::Jsr },
        Instruction { name: "RTS", operation: Operation::Rts },
        Instruction { name: "PHP", operation: Operation::Php },
        Instruction { name: "PLP", operation: Operation::Plp },
        Instruction { name: "PHA", operation: Operation::Pha },
        Instruction { name: "PLA", operation: Operation::Pla },
        Instruction { name: "TSX", operation: Operation::Tsx },
        Instruction { name: "TXS", operation: Operation::Txs },
        Instruction { name: "NOP", operation: Operation::Nop },
        Instruction { name: "BIT", operation: Operation::Bit },
        Instruction { name: "JMP", operation: Operation::Jmp },
        Instruction { name: "INX", operation: Operation::Inx },
        Instruction { name: "INY", operation: Operation::Iny },
        Instruction { name: "INC", operation: Operation::Inc },
        Instruction { name: "DEX", operation: Operation::Dex },
        Instruction { name: "DEY", operation: Operation::Dey },
        Instruction { name: "DEC", operation: Operation::Dec },
        Instruction { name: "ADC", operation: Operation::Adc },
        Instruction { name: "SBC", operation: Operation::Sbc },
        Instruction { name: "LSR", operation: Operation::Lsr },
        Instruction { name: "ASL", operation: Operation::Asl },
        Instruction { name: "ROL", operation: Operation::Rol },
        Instruction { name: "ROR", operation: Operation::Ror },
        Instruction { name: "AND", operation: Operation::And },
        Instruction { name: "EOR", operation: Operation::Eor },
        Instruction { name: "ORA", operation: Operation::Ora },
        Instruction { name: "CMP", operation: Operation::Cmp },
        Instruction { name: "CPX", operation: Operation::Cpx },
        Instruction { name: "CPY", operation: Operation::Cpy },
        Instruction { name: "LDA", operation: Operation::Lda },
        Instruction { name: "LDX", operation: Operation::Ldx },
        Instruction { name: "LDY", operation: Operation::Ldy },
        Instruction { name: "STA", operation: Operation::Sta },
        Instruction { name: "STX", operation: Operation::Stx },
        Instruction { name: "STY", operation: Operation::Sty },
        Instruction { name: "LAX", operation: Operation::Lax },
        Instruction { name: "SAX", operation: Operation::Sax },
        Instruction { name: "DCP", operation: Operation::Dcp },
        Instruction { name: "ISC", operation: Operation::Isc },
        Instruction { name: "SLO", operation: Operation::Slo },
        Instruction { name: "RLA", operation: Operation::Rla },
        Instruction { name: "SRE", operation: Operation::Sre },
        Instruction { name: "RRA", operation: Operation::Rra },
        Instruction { name: "ALR", operation: Operation::Alr },
    ];
    assert(r@ =~= instruction_table_spec());
    r
}

} // verus!
