//! Decoding of the regular part of the 6502 opcode space: an opcode `aaabbbcc` names an
//! instruction by `aaa` within the group `cc`, and an addressing mode by `bbb`.
//! See https://www.nesdev.org/wiki/CPU_unofficial_opcodes

use vstd::prelude::*;

verus! {

/// The instruction groups, by the low two bits of an opcode.
#[derive(Clone, Copy, Debug, PartialEq, Eq, Structural)]
pub enum Group {
    One,
    Two,
    Three,
}

/// The group that the low two bits of an opcode name; `11` names none.
pub open spec fn group_of(bits: u8) -> Option<Group> {
    if bits == 1 {
        Some(Group::One)
    } else if bits == 2 {
        Some(Group::Two)
    } else if bits == 0 {
        Some(Group::Three)
    } else {
        None
    }
}

impl Group {
    /// The group that the low two bits of an opcode name.
    pub fn from(group_bits: u8) -> (r: Option<Group>)
        ensures
            r == group_of(group_bits),
    {
        match group_bits {
            0b01 => Some(Group::One),
            0b10 => Some(Group::Two),
            0b00 => Some(Group::Three),
            _ => None,
        }
    }
}

/// Addressing modes.
#[derive(Clone, Copy, Debug, PartialEq, Eq, Structural)]
pub enum AdressingMode {
    Implied,
    Relative,
    Immediate,
    Accumulator,
    Indirect,
    IndirectX,
    IndirectY,
    Absolute,
    AbsoluteX,
    AbsoluteY,
    ZeroPage,
    ZeroPageX,
    ZeroPageY,
}

/// Instructions.
#[allow(non_camel_case_types)]
#[derive(Clone, Copy, Debug, PartialEq, Eq, Structural)]
pub enum Opcode {
    ADC,
    AND,
    ASL,
    BCC,
    BCS,
    BEQ,
    BIT,
    BMI,
    BNE,
    BPL,
    BRK,
    BVC,
    BVS,
    CLC,
    CLD,
    CLI,
    CLV,
    CMP,
    CPX,
    CPY,
    DEC,
    DEX,
    DEY,
    EOR,
    INC,
    INX,
    INY,
    JMP_ABSOLUTE,
    JMP_INDIRECT,
    JSR,
    LDA,
    LDX,
    LDY,
    LSR,
    NOP,
    ORA,
    PHA,
    PHP,
    PLA,
    PLP,
    ROL,
    ROR,
    RTI,
    RTS,
    SBC,
    SEC,
    SED,
    SEI,
    STA,
    STX,
    STY,
    TAX,
    TAY,
    TSX,
    TXA,
    TXS,
    TYA,
}

/// The addressing mode that the middle bits `bbb` name within a group, before the
/// exceptions of single instructions.
pub open spec fn base_mode(mode_bits: u8, group: Group) -> Option<AdressingMode> {
    match group {
        Group::One => if mode_bits == 0b011 {
            Some(AdressingMode::Absolute)
        } else if mode_bits == 0b111 {
            Some(AdressingMode::AbsoluteX)
        } else if mode_bits == 0b110 {
            Some(AdressingMode::AbsoluteY)
        } else if mode_bits == 0b000 {
            Some(AdressingMode::IndirectX)
        } else if mode_bits == 0b100 {
            Some(AdressingMode::IndirectY)
        } else if mode_bits == 0b001 {
            Some(AdressingMode::ZeroPage)
        } else if mode_bits == 0b101 {
            Some(AdressingMode::ZeroPageX)
        } else if mode_bits == 0b010 {
            Some(AdressingMode::Immediate)
        } else {
            None
        },
        Group::Two => if mode_bits == 0b011 {
            Some(AdressingMode::Absolute)
        } else if mode_bits == 0b111 {
            Some(AdressingMode::AbsoluteX)
        } else if mode_bits == 0b001 {
            Some(AdressingMode::ZeroPage)
        } else if mode_bits == 0b101 {
            Some(AdressingMode::ZeroPageX)
        } else if mode_bits == 0b000 {
            Some(AdressingMode::Immediate)
        } else if mode_bits == 0b010 {
            Some(AdressingMode::Accumulator)
        } else {
            None
        },
        Group::Three => if mode_bits == 0b011 {
            Some(AdressingMode::Absolute)
        } else if mode_bits == 0b111 {
            Some(AdressingMode::AbsoluteX)
        } else if mode_bits == 0b001 {
            Some(AdressingMode::ZeroPage)
        } else if mode_bits == 0b101 {
            Some(AdressingMode::ZeroPageX)
        } else if mode_bits == 0b000 {
            Some(AdressingMode::Immediate)
        } else {
            None
        },
    }
}

/// The exceptions to the regular decoding: the combinations that do not exist, and
/// the instructions whose index register or indirection differs from the group's.
pub open spec fn quirk_mode(instr: Opcode, mode: AdressingMode, group: Group) -> Option<
    AdressingMode,
> {
    match group {
        Group::One => if instr == Opcode::STA && mode == AdressingMode::Immediate {
            None
        } else {
            Some(mode)
        },
        Group::Two => if instr == Opcode::STX && mode == AdressingMode::AbsoluteY {
            None
        } else if (instr == Opcode::STX || instr == Opcode::LDX) && mode == AdressingMode::ZeroPageX {
            Some(AdressingMode::ZeroPageY)
        } else if instr == Opcode::LDX && mode == AdressingMode::AbsoluteX {
            Some(AdressingMode::AbsoluteY)
        } else if mode == AdressingMode::Immediate && (instr == Opcode::ASL || instr == Opcode::ROL
            || instr == Opcode::LSR || instr == Opcode::ROR || instr == Opcode::STX || instr
            == Opcode::DEC || instr == Opcode::INC) {
            None
        } else if mode == AdressingMode::Accumulator && (instr == Opcode::STX || instr
            == Opcode::LDX || instr == Opcode::DEC || instr == Opcode::INC) {
            None
        } else {
            Some(mode)
        },
        Group::Three => {
            let jmp = instr == Opcode::JMP_ABSOLUTE || instr == Opcode::JMP_INDIRECT;
            if mode == AdressingMode::Immediate && (jmp || instr == Opcode::BIT || instr
                == Opcode::STY) {
                None
            } else if mode == AdressingMode::ZeroPage && jmp {
                None
            } else if mode == AdressingMode::ZeroPageX && (jmp || instr == Opcode::BIT || instr
                == Opcode::CPY || instr == Opcode::CPX) {
                None
            } else if mode == AdressingMode::AbsoluteX && (jmp || instr == Opcode::BIT || instr
                == Opcode::STY || instr == Opcode::CPY || instr == Opcode::CPX) {
                None
            } else if mode == AdressingMode::Absolute && instr == Opcode::JMP_INDIRECT {
                Some(AdressingMode::Indirect)
            } else {
                Some(mode)
            }
        },
    }
}

/// The addressing mode of an instruction of a group, by the middle bits of its opcode.
pub open spec fn mode_of(mode_bits: u8, group: Group, instr: Opcode) -> Option<AdressingMode> {
    match base_mode(mode_bits, group) {
        Some(mode) => quirk_mode(instr, mode, group),
        None => None,
    }
}

impl AdressingMode {
    /// The addressing mode that the middle bits of an opcode name for an instruction of
    /// a group.
    pub fn from(mode_bits: u8, group: Group, instr: Opcode) -> (r: Option<AdressingMode>)
        ensures
            r == mode_of(mode_bits, group, instr),
    {
        let mode = match group {
            Group::One => match mode_bits {
                0b011 => Some(AdressingMode::Absolute),
                0b111 => Some(AdressingMode::AbsoluteX),
                0b110 => Some(AdressingMode::AbsoluteY),
                0b000 => Some(AdressingMode::IndirectX),
                0b100 => Some(AdressingMode::IndirectY),
                0b001 => Some(AdressingMode::ZeroPage),
                0b101 => Some(AdressingMode::ZeroPageX),
                0b010 => Some(AdressingMode::Immediate),
                _ => None,
            },
            Group::Two => match mode_bits {
                0b011 => Some(AdressingMode::Absolute),
                0b111 => Some(AdressingMode::AbsoluteX),
                0b001 => Some(AdressingMode::ZeroPage),
                0b101 => Some(AdressingMode::ZeroPageX),
                0b000 => Some(AdressingMode::Immediate),
                0b010 => Some(AdressingMode::Accumulator),
                _ => None,
            },
            Group::Three => match mode_bits {
                0b011 => Some(AdressingMode::Absolute),
                0b111 => Some(AdressingMode::AbsoluteX),
                0b001 => Some(AdressingMode::ZeroPage),
                0b101 => Some(AdressingMode::ZeroPageX),
                0b000 => Some(AdressingMode::Immediate),
                _ => None,
            },
        };
        match mode {
            Some(mode) => Self::handle_quirks(instr, mode, group),
            None => None,
        }
    }

    /// Apply the exceptions of single instructions to a decoded addressing mode.
    pub fn handle_quirks(instr: Opcode, mode: AdressingMode, group: Group) -> (r: Option<
        AdressingMode,
    >)
        ensures
            r == quirk_mode(instr, mode, group),
    {
        match group {
            Group::One => match (instr, mode) {
                (Opcode::STA, Self::Immediate) => None,
                _ => Some(mode),
            },
            Group::Two => match (instr, mode) {
                (Opcode::STX, Self::AbsoluteY) => None,
                (Opcode::STX, Self::ZeroPageX) => Some(Self::ZeroPageY),
                (Opcode::LDX, Self::ZeroPageX) => Some(Self::ZeroPageY),
                (Opcode::LDX, Self::AbsoluteX) => Some(Self::AbsoluteY),
                (_, Self::Immediate) => match instr {
                    Opcode::ASL | Opcode::ROL | Opcode::LSR | Opcode::ROR | Opcode::STX
                    | Opcode::DEC | Opcode::INC => None,
                    _ => Some(mode),
                },
                (_, Self::Accumulator) => match instr {
                    Opcode::STX | Opcode::LDX | Opcode::DEC | Opcode::INC => None,
                    _ => Some(mode),
                },
                _ => Some(mode),
            },
            Group::Three => match (instr, mode) {
                (_, Self::Immediate) => match instr {
                    Opcode::BIT | Opcode::JMP_ABSOLUTE | Opcode::JMP_INDIRECT | Opcode::STY => None,
                    _ => Some(mode),
                },
                (_, Self::ZeroPage) => match instr {
                    Opcode::JMP_ABSOLUTE | Opcode::JMP_INDIRECT => None,
                    _ => Some(mode),
                },
                (_, Self::ZeroPageX) => match instr {
                    Opcode::BIT | Opcode::JMP_ABSOLUTE | Opcode::JMP_INDIRECT | Opcode::CPY
                    | Opcode::CPX => None,
                    _ => Some(mode),
                },
                (_, Self::AbsoluteX) => match instr {
                    Opcode::BIT | Opcode::JMP_ABSOLUTE | Opcode::JMP_INDIRECT | Opcode::STY
                    | Opcode::CPY | Opcode::CPX => None,
                    _ => Some(mode),
                },
                (_, Self::Absolute) => match instr {
                    Opcode::JMP_ABSOLUTE => Some(Self::Absolute),
                    Opcode::JMP_INDIRECT => Some(Self::Indirect),
                    _ => Some(mode),
                },
                _ => Some(mode),
            },
        }
    }
}

/// The instruction that the high bits `aaa` name within a group; group three has none
/// at `000`.
pub open spec fn instruction_of(opcode_bits: u8, group: Group) -> Option<Opcode> {
    match group {
        Group::One => if opcode_bits == 0 {
            Some(Opcode::ORA)
        } else if opcode_bits == 1 {
            Some(Opcode::AND)
        } else if opcode_bits == 2 {
            Some(Opcode::EOR)
        } else if opcode_bits == 3 {
            Some(Opcode::ADC)
        } else if opcode_bits == 4 {
            Some(Opcode::STA)
        } else if opcode_bits == 5 {
            Some(Opcode::LDA)
        } else if opcode_bits == 6 {
            Some(Opcode::CMP)
        } else if opcode_bits == 7 {
            Some(Opcode::SBC)
        } else {
            None
        },
        Group::Two => if opcode_bits == 0 {
            Some(Opcode::ASL)
        } else if opcode_bits == 1 {
            Some(Opcode::ROL)
        } else if opcode_bits == 2 {
            Some(Opcode::LSR)
        } else if opcode_bits == 3 {
            Some(Opcode::ROR)
        } else if opcode_bits == 4 {
            Some(Opcode::STX)
        } else if opcode_bits == 5 {
            Some(Opcode::LDX)
        } else if opcode_bits == 6 {
            Some(Opcode::DEC)
        } else if opcode_bits == 7 {
            Some(Opcode::INC)
        } else {
            None
        },
        Group::Three => if opcode_bits == 1 {
            Some(Opcode::BIT)
        } else if opcode_bits == 2 {
            Some(Opcode::JMP_INDIRECT)
        } else if opcode_bits == 3 {
            Some(Opcode::JMP_ABSOLUTE)
        } else if opcode_bits == 4 {
            Some(Opcode::STY)
        } else if opcode_bits == 5 {
            Some(Opcode::LDY)
        } else if opcode_bits == 6 {
            Some(Opcode::CPY)
        } else if opcode_bits == 7 {
            Some(Opcode::CPX)
        } else {
            None
        },
    }
}

/// The instruction of an opcode of the regular part: by group `cc` (bits 0-1) and index
/// `aaa` (bits 5-7).
pub open spec fn opcode_instruction(opcode: u8) -> Option<Opcode> {
    match group_of(opcode & 0b11) {
        Some(group) => instruction_of(opcode >> 5, group),
        None => None,
    }
}

impl Opcode {
    /// Bits 5-7: the instruction within its group.
    pub fn mask_opcode(opcode: u8) -> (r: u8)
        ensures
            r == opcode >> 5,
            r < 8,
    {
        assert((opcode & 0b111_000_00u8) >> 5u8 == opcode >> 5u8 && opcode >> 5u8 < 8) by (bit_vector);
        (opcode & 0b111_000_00) >> 5
    }

    /// Bits 2-4: the addressing mode.
    pub fn mask_mode(opcode: u8) -> (r: u8)
        ensures
            r == (opcode >> 2) & 0b111,
            r < 8,
    {
        assert((opcode & 0b000_111_00u8) >> 2u8 == (opcode >> 2u8) & 7u8 && (opcode >> 2u8) & 7u8 < 8) by (bit_vector);
        (opcode & 0b000_111_00) >> 2
    }

    /// Bits 0-1: the group.
    pub fn mask_group(opcode: u8) -> (r: u8)
        ensures
            r == opcode & 0b11,
    {
        opcode & 0b000_000_11
    }

    /// The instruction of an opcode of the regular part of the opcode space.
    pub fn from(opcode: u8) -> (r: Option<Opcode>)
        ensures
            r == opcode_instruction(opcode),
    {
        let opcode_bits = Self::mask_opcode(opcode);
        let mode_bits = Self::mask_mode(opcode);
        let group = match Group::from(Self::mask_group(opcode)) {
            Some(g) => g,
            None => {
                return None;
            },
        };
        let instr = match group {
            Group::One => match opcode_bits {
                0b000 => Some(Self::ORA),
                0b001 => Some(Self::AND),
                0b010 => Some(Self::EOR),
                0b011 => Some(Self::ADC),
                0b100 => Some(Self::STA),
                0b101 => Some(Self::LDA),
                0b110 => Some(Self::CMP),
                0b111 => Some(Self::SBC),
                _ => None,
            },
            Group::Two => match opcode_bits {
                0b000 => Some(Self::ASL),
                0b001 => Some(Self::ROL),
                0b010 => Some(Self::LSR),
                0b011 => Some(Self::ROR),
                0b100 => Some(Self::STX),
                0b101 => Some(Self::LDX),
                0b110 => Some(Self::DEC),
                0b111 => Some(Self::INC),
                _ => None,
            },
            Group::Three => match opcode_bits {
                0b001 => Some(Self::BIT),
                0b010 => Some(Self::JMP_INDIRECT),
                0b011 => Some(Self::JMP_ABSOLUTE),
                0b100 => Some(Self::STY),
                0b101 => Some(Self::LDY),
                0b110 => Some(Self::CPY),
                0b111 => Some(Self::CPX),
                _ => None,
            },
        };
        match instr {
            Some(instr) => {
                let _mode = AdressingMode::from(mode_bits, group, instr);
                Some(instr)
            },
            None => None,
        }
    }
}

} // verus!
