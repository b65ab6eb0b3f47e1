//! Laws of the instruction set: what the arithmetic, logic, shift, comparison and branch
//! instructions do to the registers and the flags, stated over numbers and the bits
//! themselves.

use super::addressing_mode::AddressingMode;
use super::flags::CpuFlags;
use super::instructions::{
    adc_result, and_result, asl_result, bcc_result, bcs_result, beq_result, bmi_result, bne_result,
    bpl_result, branch_result, bvc_result, bvs_result, carry_in, cmp_result, cpx_result, cpy_result,
    dex_result, dey_result, eor_result, inx_result, iny_result, lsr_result, ora_result, rol_result,
    php_result, plp_result, ror_result, rts_result, jsr_result, sbc_result, set_flag,
};
use super::STACK_OFFSET;
use crate::bus::Bus;
use super::Cpu;
use crate::util::{bit_of, with_bit};
use vstd::prelude::*;

verus! {

/// What a comparison of `register` with `operand` leaves in the flags: carry when the
/// register is at least the operand (as unsigned bytes), zero when they are equal, and
/// negative when bit 7 of their difference (modulo 256) is set.
pub open spec fn compared_flags(flags: CpuFlags, register: u8, operand: u8) -> bool {
    &&& (flags.0 & 0x01 != 0) == (register >= operand)
    &&& (flags.0 & 0x02 != 0) == (register == operand)
    &&& (flags.0 & 0x80 != 0) == ((register as int - operand as int + 256) % 256 >= 128)
}

/// The byte facts behind the arithmetic instructions. `g` is `f` after the carry, the
/// negative and zero bits of `result` and then the overflow bit were written, as
/// `set_flag`, `flagged` and `set_flag` write them: each bit reads back, and the bits
/// between them stay. Then the overflow rule of addition (both operands of one sign, a
/// result of the other) and of subtraction (operands of different signs, a result of
/// the sign of the subtrahend), and shifts of `v` by one place in numbers, with a carry
/// of 0 or 1 shifted in.
proof fn lemma_flag_bits(f: u8, carry: bool, result: u8, overflow: bool, a: u8, v: u8)
    by (bit_vector)
    ensures
        ({
            let g0 = with_bit(with_bit(with_bit(f, 0, carry), 7, bit_of(result, 7)), 1, result == 0);
            let g = with_bit(g0, 6, overflow);
            &&& (g0 & 0x01 != 0) == carry
            &&& (g0 & 0x02 != 0) == (result == 0)
            &&& (g0 & 0x80 != 0) == (result >= 128)
            &&& g0 & 0x7C == f & 0x7C
            &&& (g & 0x01 != 0) == carry
            &&& (g & 0x02 != 0) == (result == 0)
            &&& (g & 0x80 != 0) == (result >= 128)
            &&& (g & 0x40 != 0) == overflow
            &&& g & 0x3C == f & 0x3C
        }),
        (((a ^ result) & (v ^ result)) & 0x80 != 0) == ((a >= 128) == (v >= 128) && (result
            >= 128) != (a >= 128)),
        (((a ^ result) & !(v ^ result)) & 0x80 != 0) == ((a >= 128) != (v >= 128) && (result
            >= 128) != (a >= 128)),
        (v >> 1u8) == v / 2,
        ((v >> 1u8) | 0x80u8) == v / 2 + 128,
        (v << 1u8) == (v % 128) * 2,
        ((v << 1u8) | 1u8) == (v % 128) * 2 + 1,
        ((v << 1u8) | 0u8) == (v << 1u8),
        ((v >> 1u8) | 0u8) == (v >> 1u8),
        (1u8 << 7u8) == 0x80u8,
        (0u8 << 7u8) == 0u8,
        bit_of(v, 0) == (v % 2 == 1),
        bit_of(v, 7) == (v >= 128),
        bit_of(f, 0) == (f & 0x01 != 0),
        with_bit(f, 0, bit_of(f, 0)) == f,
{
}

/// The flags of a comparison through `set_flag` and `flagged` are the comparison's.
proof fn lemma_compare_bits(c: Cpu, register: u8, operand: u8)
    ensures
        compared_flags(
            set_flag(c, 0, register >= operand).flagged(register.wrapping_sub(operand)).flags,
            register,
            operand,
        ),
        set_flag(c, 0, register >= operand).flagged(register.wrapping_sub(operand)).flags.0 & 0x7C
            == c.flags.0 & 0x7C,
{
    let d = register.wrapping_sub(operand);
    lemma_flag_bits(c.flags.0, register >= operand, d, false, 0, 0);
    assert(d as int == (register as int - operand as int + 256) % 256);
    assert((d == 0) == (register == operand));
}

/// CMP: the carry is set exactly when the accumulator is at least the operand (equal
/// values set it), zero exactly when they are equal, negative from bit 7 of A - M; the
/// registers and the other flags stay as they were.
pub proof fn lemma_cmp_flags(cpu: Cpu, mode: AddressingMode)
    requires
        cmp_result(cpu, mode) is Some,
    ensures
        ({
            let operand = mode.param(cpu).unwrap().1;
            let r = cmp_result(cpu, mode).unwrap();
            &&& compared_flags(r.flags, cpu.accumulator, operand)
            &&& r.flags.0 & 0x7C == cpu.flags.0 & 0x7C
            &&& r.accumulator == cpu.accumulator
            &&& r.register_x == cpu.register_x
            &&& r.register_y == cpu.register_y
        }),
{
    reveal(cmp_result);
    let (c, v, crossed) = mode.param(cpu).unwrap();
    lemma_param_keeps_registers(cpu, mode);
    lemma_compare_bits(c, cpu.accumulator, v);
}

/// CPX: as CMP, with X in place of the accumulator.
pub proof fn lemma_cpx_flags(cpu: Cpu, mode: AddressingMode)
    requires
        cpx_result(cpu, mode) is Some,
    ensures
        ({
            let operand = mode.param(cpu).unwrap().1;
            let r = cpx_result(cpu, mode).unwrap();
            &&& compared_flags(r.flags, cpu.register_x, operand)
            &&& r.flags.0 & 0x7C == cpu.flags.0 & 0x7C
            &&& r.accumulator == cpu.accumulator
            &&& r.register_x == cpu.register_x
            &&& r.register_y == cpu.register_y
        }),
{
    reveal(cpx_result);
    let (c, v, crossed) = mode.param(cpu).unwrap();
    lemma_param_keeps_registers(cpu, mode);
    lemma_compare_bits(c, cpu.register_x, v);
}

/// CPY: as CMP, with Y in place of the accumulator.
pub proof fn lemma_cpy_flags(cpu: Cpu, mode: AddressingMode)
    requires
        cpy_result(cpu, mode) is Some,
    ensures
        ({
            let operand = mode.param(cpu).unwrap().1;
            let r = cpy_result(cpu, mode).unwrap();
            &&& compared_flags(r.flags, cpu.register_y, operand)
            &&& r.flags.0 & 0x7C == cpu.flags.0 & 0x7C
            &&& r.accumulator == cpu.accumulator
            &&& r.register_x == cpu.register_x
            &&& r.register_y == cpu.register_y
        }),
{
    reveal(cpy_result);
    let (c, v, crossed) = mode.param(cpu).unwrap();
    lemma_param_keeps_registers(cpu, mode);
    lemma_compare_bits(c, cpu.register_y, v);
}

/// Fetching an operand only reads through the bus: the registers and flags stay.
proof fn lemma_param_keeps_registers(cpu: Cpu, mode: AddressingMode)
    requires
        mode.param(cpu) is Some,
    ensures
        ({
            let c = mode.param(cpu).unwrap().0;
            &&& c.flags == cpu.flags
            &&& c.accumulator == cpu.accumulator
            &&& c.register_x == cpu.register_x
            &&& c.register_y == cpu.register_y
        }),
{
}

/// ADC: the accumulator becomes A + M + C modulo 256; the carry is set exactly when the
/// sum passes 255, zero and negative follow the result, and overflow is set exactly when
/// A and M have one sign and the result the other. X, Y and the other flags stay.
pub proof fn lemma_adc(cpu: Cpu, mode: AddressingMode)
    requires
        adc_result(cpu, mode) is Some,
    ensures
        ({
            let a = cpu.accumulator;
            let v = mode.param(cpu).unwrap().1;
            let sum = a + v + (if cpu.flags.0 & 0x01 != 0 { 1int } else { 0 });
            let r = adc_result(cpu, mode).unwrap();
            let f = r.flags.0;
            &&& r.accumulator == sum % 256
            &&& (f & 0x01 != 0) == (sum > 255)
            &&& (f & 0x02 != 0) == (r.accumulator == 0)
            &&& (f & 0x80 != 0) == (r.accumulator >= 128)
            &&& (f & 0x40 != 0) == ((a >= 128) == (v >= 128) && (r.accumulator >= 128) != (a
                >= 128))
            &&& f & 0x3C == cpu.flags.0 & 0x3C
            &&& r.register_x == cpu.register_x
            &&& r.register_y == cpu.register_y
        }),
{
    reveal(adc_result);
    let (c, v, crossed) = mode.param(cpu).unwrap();
    lemma_param_keeps_registers(cpu, mode);
    let sum = cpu.accumulator + v + carry_in(cpu);
    let result = (sum % 256) as u8;
    lemma_flag_bits(
        cpu.flags.0,
        sum > 255,
        result,
        ((cpu.accumulator ^ result) & (v ^ result)) & 0x80 != 0,
        cpu.accumulator,
        v,
    );
}

/// SBC: the accumulator becomes A - M - (1 - C) modulo 256; the carry is set exactly when
/// no borrow was needed (the difference is not negative), zero and negative follow the
/// result, and overflow is set exactly when A and M have different signs and the result
/// has the sign of M. X, Y and the other flags stay.
pub proof fn lemma_sbc(cpu: Cpu, mode: AddressingMode)
    requires
        sbc_result(cpu, mode) is Some,
    ensures
        ({
            let a = cpu.accumulator;
            let v = mode.param(cpu).unwrap().1;
            let diff = a - v - (if cpu.flags.0 & 0x01 != 0 { 0int } else { 1 });
            let r = sbc_result(cpu, mode).unwrap();
            let f = r.flags.0;
            &&& r.accumulator == (diff + 256) % 256
            &&& (f & 0x01 != 0) == (diff >= 0)
            &&& (f & 0x02 != 0) == (r.accumulator == 0)
            &&& (f & 0x80 != 0) == (r.accumulator >= 128)
            &&& (f & 0x40 != 0) == ((a >= 128) != (v >= 128) && (r.accumulator >= 128) != (a
                >= 128))
            &&& f & 0x3C == cpu.flags.0 & 0x3C
            &&& r.register_x == cpu.register_x
            &&& r.register_y == cpu.register_y
        }),
{
    reveal(sbc_result);
    let (c, v, crossed) = mode.param(cpu).unwrap();
    lemma_param_keeps_registers(cpu, mode);
    let diff = cpu.accumulator - v - (1 - carry_in(cpu));
    let result = ((diff + 256) % 256) as u8;
    lemma_flag_bits(
        cpu.flags.0,
        diff >= 0,
        result,
        ((cpu.accumulator ^ result) & !(v ^ result)) & 0x80 != 0,
        cpu.accumulator,
        v,
    );
}

/// AND, EOR and ORA combine the operand into the accumulator bit by bit; zero and
/// negative follow the result, and the carry, overflow and other flags stay.
pub proof fn lemma_logic(cpu: Cpu, mode: AddressingMode)
    ensures
        and_result(cpu, mode) is Some ==> ({
            let r = and_result(cpu, mode).unwrap();
            &&& r.accumulator == cpu.accumulator & mode.param(cpu).unwrap().1
            &&& (r.flags.0 & 0x02 != 0) == (r.accumulator == 0)
            &&& (r.flags.0 & 0x80 != 0) == (r.accumulator >= 128)
            &&& (r.flags.0 & 0x01 != 0) == (cpu.flags.0 & 0x01 != 0)
            &&& r.flags.0 & 0x7C == cpu.flags.0 & 0x7C
        }),
        eor_result(cpu, mode) is Some ==> ({
            let r = eor_result(cpu, mode).unwrap();
            &&& r.accumulator == cpu.accumulator ^ mode.param(cpu).unwrap().1
            &&& (r.flags.0 & 0x02 != 0) == (r.accumulator == 0)
            &&& (r.flags.0 & 0x80 != 0) == (r.accumulator >= 128)
            &&& (r.flags.0 & 0x01 != 0) == (cpu.flags.0 & 0x01 != 0)
            &&& r.flags.0 & 0x7C == cpu.flags.0 & 0x7C
        }),
        ora_result(cpu, mode) is Some ==> ({
            let r = ora_result(cpu, mode).unwrap();
            &&& r.accumulator == cpu.accumulator | mode.param(cpu).unwrap().1
            &&& (r.flags.0 & 0x02 != 0) == (r.accumulator == 0)
            &&& (r.flags.0 & 0x80 != 0) == (r.accumulator >= 128)
            &&& (r.flags.0 & 0x01 != 0) == (cpu.flags.0 & 0x01 != 0)
            &&& r.flags.0 & 0x7C == cpu.flags.0 & 0x7C
        }),
{
    reveal(and_result);
    reveal(eor_result);
    reveal(ora_result);
    if mode.param(cpu) is Some {
        let v = mode.param(cpu).unwrap().1;
        let f = cpu.flags.0;
        lemma_param_keeps_registers(cpu, mode);
        lemma_flag_bits(f, bit_of(f, 0), cpu.accumulator & v, false, 0, 0);
        lemma_flag_bits(f, bit_of(f, 0), cpu.accumulator ^ v, false, 0, 0);
        lemma_flag_bits(f, bit_of(f, 0), cpu.accumulator | v, false, 0, 0);
    }
}

/// The shifts of the accumulator, in numbers: ASL doubles it (modulo 256) and LSR halves
/// it; ROL and ROR do the same and bring the old carry in at bit 0 and bit 7. The bit
/// shifted out (bit 7 to the left, bit 0 to the right) becomes the carry; zero and
/// negative follow the result, and overflow and the other flags stay.
pub proof fn lemma_shift_accumulator(cpu: Cpu)
    ensures
        ({
            let a = cpu.accumulator;
            let carry: int = if cpu.flags.0 & 0x01 != 0 { 1 } else { 0 };
            let asl = asl_result(cpu, AddressingMode::Accumulator).unwrap();
            let lsr = lsr_result(cpu, AddressingMode::Accumulator).unwrap();
            let rol = rol_result(cpu, AddressingMode::Accumulator).unwrap();
            let ror = ror_result(cpu, AddressingMode::Accumulator).unwrap();
            &&& asl.accumulator == (a % 128) * 2
            &&& (asl.flags.0 & 0x01 != 0) == (a >= 128)
            &&& lsr.accumulator == a / 2
            &&& (lsr.flags.0 & 0x01 != 0) == (a % 2 == 1)
            &&& rol.accumulator == (a % 128) * 2 + carry
            &&& (rol.flags.0 & 0x01 != 0) == (a >= 128)
            &&& ror.accumulator == a / 2 + 128 * carry
            &&& (ror.flags.0 & 0x01 != 0) == (a % 2 == 1)
            &&& (asl.flags.0 & 0x02 != 0) == (asl.accumulator == 0)
            &&& (asl.flags.0 & 0x80 != 0) == (asl.accumulator >= 128)
            &&& (lsr.flags.0 & 0x02 != 0) == (lsr.accumulator == 0)
            &&& (lsr.flags.0 & 0x80 != 0) == (lsr.accumulator >= 128)
            &&& (rol.flags.0 & 0x02 != 0) == (rol.accumulator == 0)
            &&& (rol.flags.0 & 0x80 != 0) == (rol.accumulator >= 128)
            &&& (ror.flags.0 & 0x02 != 0) == (ror.accumulator == 0)
            &&& (ror.flags.0 & 0x80 != 0) == (ror.accumulator >= 128)
            &&& asl.flags.0 & 0x7C == cpu.flags.0 & 0x7C
            &&& lsr.flags.0 & 0x7C == cpu.flags.0 & 0x7C
            &&& rol.flags.0 & 0x7C == cpu.flags.0 & 0x7C
            &&& ror.flags.0 & 0x7C == cpu.flags.0 & 0x7C
        }),
{
    reveal(asl_result);
    reveal(lsr_result);
    reveal(rol_result);
    reveal(ror_result);
    let a = cpu.accumulator;
    let f = cpu.flags.0;
    lemma_flag_bits(f, false, 0, false, 0, a);
    let rolled: u8 = ((a << 1u8) | (carry_in(cpu) as u8)) as u8;
    let rored: u8 = ((a >> 1u8) | ((carry_in(cpu) as u8) << 7u8)) as u8;
    lemma_flag_bits(f, bit_of(a, 7), a << 1u8, false, 0, a);
    lemma_flag_bits(f, bit_of(a, 0), a >> 1u8, false, 0, a);
    lemma_flag_bits(f, bit_of(a, 7), rolled, false, 0, a);
    lemma_flag_bits(f, bit_of(a, 0), rored, false, 0, a);
}

/// INX, INY, DEX and DEY count the register up or down by one modulo 256; zero and
/// negative follow the new value, and the carry, overflow and other flags stay.
pub proof fn lemma_count(cpu: Cpu, mode: AddressingMode)
    ensures
        ({
            let inx = inx_result(cpu, mode).unwrap();
            let iny = iny_result(cpu, mode).unwrap();
            let dex = dex_result(cpu, mode).unwrap();
            let dey = dey_result(cpu, mode).unwrap();
            &&& inx.register_x == (cpu.register_x + 1) % 256
            &&& iny.register_y == (cpu.register_y + 1) % 256
            &&& dex.register_x == (cpu.register_x + 255) % 256
            &&& dey.register_y == (cpu.register_y + 255) % 256
            &&& (inx.flags.0 & 0x02 != 0) == (inx.register_x == 0)
            &&& (inx.flags.0 & 0x80 != 0) == (inx.register_x >= 128)
            &&& (iny.flags.0 & 0x02 != 0) == (iny.register_y == 0)
            &&& (iny.flags.0 & 0x80 != 0) == (iny.register_y >= 128)
            &&& (dex.flags.0 & 0x02 != 0) == (dex.register_x == 0)
            &&& (dex.flags.0 & 0x80 != 0) == (dex.register_x >= 128)
            &&& (dey.flags.0 & 0x02 != 0) == (dey.register_y == 0)
            &&& (dey.flags.0 & 0x80 != 0) == (dey.register_y >= 128)
            &&& (inx.flags.0 & 0x01 != 0) == (cpu.flags.0 & 0x01 != 0)
            &&& (dex.flags.0 & 0x01 != 0) == (cpu.flags.0 & 0x01 != 0)
            &&& inx.flags.0 & 0x7C == cpu.flags.0 & 0x7C
            &&& dex.flags.0 & 0x7C == cpu.flags.0 & 0x7C
            &&& inx.accumulator == cpu.accumulator
            &&& dex.accumulator == cpu.accumulator
        }),
{
    reveal(inx_result);
    reveal(iny_result);
    reveal(dex_result);
    reveal(dey_result);
    let f = cpu.flags.0;
    lemma_flag_bits(f, bit_of(f, 0), cpu.register_x.wrapping_add(1), false, 0, 0);
    lemma_flag_bits(f, bit_of(f, 0), cpu.register_y.wrapping_add(1), false, 0, 0);
    lemma_flag_bits(f, bit_of(f, 0), cpu.register_x.wrapping_sub(1), false, 0, 0);
    lemma_flag_bits(f, bit_of(f, 0), cpu.register_y.wrapping_sub(1), false, 0, 0);
}

/// Each conditional branch is taken exactly when its flag reads as it asks: BCS on carry
/// set and BCC on carry clear, BEQ and BNE on zero, BMI and BPL on negative, BVS and BVC
/// on overflow.
pub proof fn lemma_branch_conditions(cpu: Cpu, mode: AddressingMode)
    ensures
        bcs_result(cpu, mode) == branch_result(cpu, mode, cpu.flags.0 & 0x01 != 0),
        bcc_result(cpu, mode) == branch_result(cpu, mode, cpu.flags.0 & 0x01 == 0),
        beq_result(cpu, mode) == branch_result(cpu, mode, cpu.flags.0 & 0x02 != 0),
        bne_result(cpu, mode) == branch_result(cpu, mode, cpu.flags.0 & 0x02 == 0),
        bmi_result(cpu, mode) == branch_result(cpu, mode, cpu.flags.0 & 0x80 != 0),
        bpl_result(cpu, mode) == branch_result(cpu, mode, cpu.flags.0 & 0x80 == 0),
        bvs_result(cpu, mode) == branch_result(cpu, mode, cpu.flags.0 & 0x40 != 0),
        bvc_result(cpu, mode) == branch_result(cpu, mode, cpu.flags.0 & 0x40 == 0),
{
    reveal(bcs_result);
    reveal(bcc_result);
    reveal(beq_result);
    reveal(bne_result);
    reveal(bmi_result);
    reveal(bpl_result);
    reveal(bvs_result);
    reveal(bvc_result);
    crate::util::lemma_bit_masks(cpu.flags.0);
}

/// A branch not taken goes on to the next instruction, two bytes on, and changes nothing
/// else; a branch taken moves the program counter from there by the byte after the
/// opcode, read as a signed number from -128 to 127.
pub proof fn lemma_branch_target(cpu: Cpu, condition: bool)
    ensures
        !condition ==> branch_result(cpu, AddressingMode::Relative, condition) == Some(
            Cpu { program_counter: ((cpu.program_counter + 2) % 0x10000) as u16, ..cpu },
        ),
        condition && branch_result(cpu, AddressingMode::Relative, condition) is Some ==> ({
            let offset = cpu.read_at(((cpu.program_counter + 1) % 0x10000) as u16).unwrap().1;
            let signed: int = if offset < 128 { offset as int } else { offset - 256 };
            branch_result(cpu, AddressingMode::Relative, condition).unwrap().program_counter == (
            cpu.program_counter + 2 + signed + 0x10000) % 0x10000
        }),
{
    reveal(branch_result);
}

/// A read through the bus leaves its cheats as they were.
proof fn lemma_read_keeps_cheats(c: Cpu, address: u16)
    requires
        c.read_at(address) is Some,
    ensures
        c.read_at(address).unwrap().0.bus.cheats == c.bus.cheats,
        c.read_at(address).unwrap().0.stack_pointer == c.stack_pointer,
{
    reveal(Bus::read_result);
}

/// JSR then RTS returns to the instruction after the three-byte JSR, with the stack
/// pointer back where it was (unless a cheat substitutes reads of the two stack slots).
pub proof fn lemma_jsr_then_rts(cpu: Cpu)
    requires
        jsr_result(cpu, AddressingMode::Absolute) is Some,
        cpu.bus.active_cheat((STACK_OFFSET + cpu.stack_pointer) as u16) is None,
        cpu.bus.active_cheat((STACK_OFFSET + cpu.stack_pointer.wrapping_sub(1)) as u16) is None,
    ensures
        rts_result(jsr_result(cpu, AddressingMode::Absolute).unwrap(), AddressingMode::Implied)
            matches Some(r) && r.program_counter == (cpu.program_counter + 3) % 0x10000
            && r.stack_pointer == cpu.stack_pointer,
{
    reveal(jsr_result);
    reveal(rts_result);
    let after_opcode = cpu.program_counter.wrapping_add(1);
    let (c0, lo) = cpu.read_at(after_opcode).unwrap();
    lemma_read_keeps_cheats(cpu, after_opcode);
    lemma_read_keeps_cheats(c0, (after_opcode + 1) as u16);
    let (c1, addr, _) = AddressingMode::Absolute.param_address(cpu).unwrap();
    assert(c1.bus.cheats == cpu.bus.cheats);
    assert(c1.stack_pointer == cpu.stack_pointer);
    let ret = cpu.program_counter.wrapping_add(3).wrapping_sub(1);
    super::lemma_push_pop_word(c1, ret);
    let c2 = c1.pushed_word(ret).unwrap();
    let j = Cpu { program_counter: addr, ..c2 };
    assert(j.popped_word() matches Some((c, w)) && w == ret && c.stack_pointer
        == cpu.stack_pointer);
}

/// A non-maskable interrupt takes three bytes of stack (the program counter and the
/// flags) and sets the interrupt-disable flag; the other flags stay.
pub proof fn lemma_nmi_flags(cpu: Cpu)
    requires
        cpu.nmi_result() is Some,
    ensures
        ({
            let r = cpu.nmi_result().unwrap();
            &&& r.flags.0 & 0x04 != 0
            &&& forall|k: u8| k < 8 && k != 2 ==> bit_of(#[trigger] r.flags.0, k) == bit_of(
                cpu.flags.0,
                k,
            )
            &&& r.stack_pointer == (cpu.stack_pointer + 253) % 256
        }),
{
    let r = cpu.nmi_result().unwrap();
    crate::util::lemma_with_bit(cpu.flags.0, 2, true, 2);
    crate::util::lemma_bit_masks(r.flags.0);
    assert forall|k: u8| k < 8 && k != 2 implies bit_of(r.flags.0, k) == bit_of(cpu.flags.0, k) by {
        crate::util::lemma_with_bit(cpu.flags.0, 2, true, k);
    }
}

/// Zero page indexing adds X or Y to the byte after the opcode and wraps within the zero
/// page; it never counts as a page crossing.
pub proof fn lemma_zero_page_indexed(cpu: Cpu)
    ensures
        ({
            let operand_at = ((cpu.program_counter + 1) % 0x10000) as u16;
            &&& AddressingMode::ZeroPageX.param_address(cpu) matches Some((_, a, crossed)) ==> a
                == (cpu.read_at(operand_at).unwrap().1 + cpu.register_x) % 256 && !crossed
            &&& AddressingMode::ZeroPageY.param_address(cpu) matches Some((_, a, crossed)) ==> a
                == (cpu.read_at(operand_at).unwrap().1 + cpu.register_y) % 256 && !crossed
        }),
{
}

/// Absolute indexing adds X or Y to the 16-bit base after the opcode (wrapping past
/// `$FFFF`), and counts a page crossing exactly when the result lies on another page
/// than the base.
pub proof fn lemma_absolute_indexed(cpu: Cpu)
    ensures
        ({
            let operand_at = ((cpu.program_counter + 1) % 0x10000) as u16;
            &&& AddressingMode::AbsoluteX.param_address(cpu) matches Some((_, a, crossed)) ==> {
                let base = cpu.word_at(operand_at).unwrap().1;
                &&& a == (base + cpu.register_x) % 0x10000
                &&& crossed == (base / 256 != a / 256)
            }
            &&& AddressingMode::AbsoluteY.param_address(cpu) matches Some((_, a, crossed)) ==> {
                let base = cpu.word_at(operand_at).unwrap().1;
                &&& a == (base + cpu.register_y) % 0x10000
                &&& crossed == (base / 256 != a / 256)
            }
        }),
{
}

/// PHP then PLP gives the flags back, with the break flag (bit 4) clear and bit 5 set,
/// and the stack pointer where it was (unless a cheat substitutes reads of the stack
/// slot).
pub proof fn lemma_php_then_plp(cpu: Cpu)
    requires
        cpu.bus.active_cheat((STACK_OFFSET + cpu.stack_pointer) as u16) is None,
    ensures
        php_result(cpu, AddressingMode::Implied) is Some,
        plp_result(php_result(cpu, AddressingMode::Implied).unwrap(), AddressingMode::Implied)
            matches Some(r) && r.stack_pointer == cpu.stack_pointer && r.flags.0 & 0x10 == 0
            && r.flags.0 & 0x20 != 0 && forall|k: u8|
            k < 8 && k != 4 && k != 5 ==> bit_of(#[trigger] r.flags.0, k) == bit_of(
                cpu.flags.0,
                k,
            ),
{
    reveal(php_result);
    reveal(plp_result);
    let f = cpu.flags.0;
    let pushed = with_bit(with_bit(f, 4, true), 5, true);
    super::lemma_push_pop_byte(cpu, pushed);
    let back = with_bit(with_bit(pushed, 4, false), 5, true);
    crate::util::lemma_with_bit(pushed, 4, false, 4);
    crate::util::lemma_with_bit(with_bit(pushed, 4, false), 5, true, 4);
    crate::util::lemma_with_bit(with_bit(pushed, 4, false), 5, true, 5);
    crate::util::lemma_bit_masks(back);
    assert forall|k: u8| k < 8 && k != 4 && k != 5 implies bit_of(back, k) == bit_of(f, k) by {
        crate::util::lemma_with_bit(f, 4, true, k);
        crate::util::lemma_with_bit(with_bit(f, 4, true), 5, true, k);
        crate::util::lemma_with_bit(pushed, 4, false, k);
        crate::util::lemma_with_bit(with_bit(pushed, 4, false), 5, true, k);
    }
}

} // verus!
