//! Decoded instructions and the decoder's opcode table.

use crate::cpu::NMOS6502;
use crate::halt::ExecutionHalt;
use crate::mem::Memory;
use crate::ppu::PPU;
use vstd::prelude::*;

verus! {

/// An instruction's operand as it stands in the instruction stream, tagged
/// with the addressing mode that says how to use it.
#[derive(Debug, Clone, Copy, PartialEq, Eq, Structural)]
pub enum Value {
    Implied,
    /// A zero-page pointer, indexed by X before it is followed.
    PreIdxInd(u8),
    Immediate(u8),
    Absolute(u16),
    /// A signed displacement from the address after the instruction.
    Relative(i8),
    ZeroPage(u8),
    ZeroPageX(u8),
    AbsoluteX(u16),
}

/// An addressing mode without its operand.
#[derive(Debug, Clone, Copy, PartialEq, Eq, Structural)]
pub enum Mode {
    Implied,
    PreIdxInd,
    Immediate,
    Absolute,
    Relative,
    ZeroPage,
    ZeroPageX,
    AbsoluteX,
}

/// The operations the decoder knows, and `Unknown` for every other opcode byte.
#[derive(Debug, Clone, Copy, PartialEq, Eq, Structural)]
pub enum Opcode {
    PHP,
    ORA,
    ASL,
    BPL,
    CLC,
    JSR,
    BIT,
    PLP,
    AND,
    ROL,
    BMI,
    SEC,
    RTI,
    PHA,
    EOR,
    LSR,
    JMP,
    BVC,
    RTS,
    PLA,
    ADC,
    ROR,
    BVS,
    SEI,
    STX,
    STA,
    DEY,
    TXA,
    BCC,
    TYA,
    TXS,
    LDY,
    LDX,
    LDA,
    TAY,
    TAX,
    BCS,
    CLV,
    TSX,
    CPY,
    INY,
    CMP,
    DEX,
    BNE,
    CLD,
    CPX,
    INX,
    SBC,
    NOP,
    BEQ,
    SED,
    Unknown(u8),
}

/// A decoded operation with its operand.
#[derive(Debug, Clone, Copy, PartialEq, Eq, Structural)]
pub struct Instruction(pub Opcode, pub Value);

impl Mode {
    /// How many operand bytes follow the opcode byte.
    pub open spec fn operand_len(self) -> u16 {
        match self {
            Mode::Implied => 0,
            Mode::Absolute | Mode::AbsoluteX => 2,
            _ => 1,
        }
    }
}

/// A byte read as a two's-complement number: 0x80 to 0xFF stand for -128 to -1.
pub open spec fn signed(byte: u8) -> i8 {
    if byte < 128 {
        byte as i8
    } else {
        (byte - 256) as i8
    }
}

/// The word whose low byte is `lo` and whose high byte is `hi`.
pub open spec fn word(lo: u8, hi: u8) -> u16 {
    (hi as int * 256 + lo as int) as u16
}

/// The branches.
pub open spec fn is_branch(op: Opcode) -> bool {
    match op {
        Opcode::BPL | Opcode::BMI | Opcode::BVC | Opcode::BVS | Opcode::BCC | Opcode::BCS
        | Opcode::BNE | Opcode::BEQ => true,
        _ => false,
    }
}

impl Value {
    /// The operand that one byte of the instruction stream gives in `mode`.
    /// A relative operand is that byte as a signed number.
    pub open spec fn spec_of_byte(mode: Mode, byte: u8) -> Value {
        match mode {
            Mode::PreIdxInd => Value::PreIdxInd(byte),
            Mode::Immediate => Value::Immediate(byte),
            Mode::Relative => Value::Relative(signed(byte)),
            Mode::ZeroPage => Value::ZeroPage(byte),
            _ => Value::ZeroPageX(byte),
        }
    }

    /// The operand that a little-endian word of the instruction stream gives
    /// in `mode`.
    pub open spec fn spec_of_word(mode: Mode, w: u16) -> Value {
        match mode {
            Mode::Absolute => Value::Absolute(w),
            _ => Value::AbsoluteX(w),
        }
    }

    #[verifier::when_used_as_spec(spec_of_byte)]
    pub fn of_byte(mode: Mode, byte: u8) -> (v: Value)
        ensures
            v == Self::spec_of_byte(mode, byte),
    {
        match mode {
            Mode::PreIdxInd => Value::PreIdxInd(byte),
            Mode::Immediate => Value::Immediate(byte),
            Mode::Relative => {
                assert(byte as i8 == signed(byte)) by (bit_vector);
                Value::Relative(byte as i8)
            },
            Mode::ZeroPage => Value::ZeroPage(byte),
            _ => Value::ZeroPageX(byte),
        }
    }

    #[verifier::when_used_as_spec(spec_of_word)]
    pub fn of_word(mode: Mode, w: u16) -> (v: Value)
        ensures
            v == Self::spec_of_word(mode, w),
    {
        match mode {
            Mode::Absolute => Value::Absolute(w),
            _ => Value::AbsoluteX(w),
        }
    }

    /// The addressing mode that the operand is tagged with.
    pub open spec fn mode(self) -> Mode {
        match self {
            Value::Implied => Mode::Implied,
            Value::PreIdxInd(_) => Mode::PreIdxInd,
            Value::Immediate(_) => Mode::Immediate,
            Value::Absolute(_) => Mode::Absolute,
            Value::Relative(_) => Mode::Relative,
            Value::ZeroPage(_) => Mode::ZeroPage,
            Value::ZeroPageX(_) => Mode::ZeroPageX,
            Value::AbsoluteX(_) => Mode::AbsoluteX,
        }
    }
}

impl Opcode {
    /// Whether the operation is a branch.
    pub fn is_branch(self) -> (b: bool)
        ensures
            b == is_branch(self),
    {
        match self {
            Opcode::BPL | Opcode::BMI | Opcode::BVC | Opcode::BVS | Opcode::BCC | Opcode::BCS
            | Opcode::BNE | Opcode::BEQ => true,
            _ => false,
        }
    }
}

impl Instruction {
    /// The opcode table: the operation and addressing mode that an opcode byte
    /// selects, or `None` for a byte that selects none.
    pub open spec fn spec_lookup(op: u8) -> Option<(Opcode, Mode)> {
        match op {
            0x01 => Some((Opcode::ORA, Mode::PreIdxInd)),
            0x08 => Some((Opcode::PHP, Mode::Implied)),
            0x09 => Some((Opcode::ORA, Mode::Immediate)),
            0x0A => Some((Opcode::ASL, Mode::Implied)),
            0x10 => Some((Opcode::BPL, Mode::Relative)),
            0x18 => Some((Opcode::CLC, Mode::Implied)),
            0x20 => Some((Opcode::JSR, Mode::Absolute)),
            0x21 => Some((Opcode::AND, Mode::PreIdxInd)),
            0x24 => Some((Opcode::BIT, Mode::ZeroPage)),
            0x28 => Some((Opcode::PLP, Mode::Implied)),
            0x29 => Some((Opcode::AND, Mode::Immediate)),
            0x2A => Some((Opcode::ROL, Mode::Implied)),
            0x2C => Some((Opcode::BIT, Mode::Absolute)),
            0x30 => Some((Opcode::BMI, Mode::Relative)),
            0x38 => Some((Opcode::SEC, Mode::Implied)),
            0x40 => Some((Opcode::RTI, Mode::Implied)),
            0x41 => Some((Opcode::EOR, Mode::PreIdxInd)),
            0x48 => Some((Opcode::PHA, Mode::Implied)),
            0x49 => Some((Opcode::EOR, Mode::Immediate)),
            0x4A => Some((Opcode::LSR, Mode::Implied)),
            0x4C => Some((Opcode::JMP, Mode::Absolute)),
            0x50 => Some((Opcode::BVC, Mode::Relative)),
            0x60 => Some((Opcode::RTS, Mode::Implied)),
            0x61 => Some((Opcode::ADC, Mode::PreIdxInd)),
            0x65 => Some((Opcode::ADC, Mode::ZeroPage)),
            0x68 => Some((Opcode::PLA, Mode::Implied)),
            0x69 => Some((Opcode::ADC, Mode::Immediate)),
            0x6A => Some((Opcode::ROR, Mode::Implied)),
            0x70 => Some((Opcode::BVS, Mode::Relative)),
            0x78 => Some((Opcode::SEI, Mode::Implied)),
            0x81 => Some((Opcode::STA, Mode::PreIdxInd)),
            0x85 => Some((Opcode::STA, Mode::ZeroPage)),
            0x86 => Some((Opcode::STX, Mode::ZeroPage)),
            0x88 => Some((Opcode::DEY, Mode::Implied)),
            0x8A => Some((Opcode::TXA, Mode::Implied)),
            0x8D => Some((Opcode::STA, Mode::Absolute)),
            0x8E => Some((Opcode::STX, Mode::Absolute)),
            0x90 => Some((Opcode::BCC, Mode::Relative)),
            0x95 => Some((Opcode::STA, Mode::ZeroPageX)),
            0x98 => Some((Opcode::TYA, Mode::Implied)),
            0x9A => Some((Opcode::TXS, Mode::Implied)),
            0x9D => Some((Opcode::STA, Mode::AbsoluteX)),
            0xA0 => Some((Opcode::LDY, Mode::Immediate)),
            0xA1 => Some((Opcode::LDA, Mode::PreIdxInd)),
            0xA2 => Some((Opcode::LDX, Mode::Immediate)),
            0xA5 => Some((Opcode::LDA, Mode::ZeroPage)),
            0xA8 => Some((Opcode::TAY, Mode::Implied)),
            0xA9 => Some((Opcode::LDA, Mode::Immediate)),
            0xAA => Some((Opcode::TAX, Mode::Implied)),
            0xAD => Some((Opcode::LDA, Mode::Absolute)),
            0xAE => Some((Opcode::LDX, Mode::Absolute)),
            0xB0 => Some((Opcode::BCS, Mode::Relative)),
            0xB8 => Some((Opcode::CLV, Mode::Implied)),
            0xBA => Some((Opcode::TSX, Mode::Implied)),
            0xC0 => Some((Opcode::CPY, Mode::Immediate)),
            0xC1 => Some((Opcode::CMP, Mode::PreIdxInd)),
            0xC8 => Some((Opcode::INY, Mode::Implied)),
            0xC9 => Some((Opcode::CMP, Mode::Immediate)),
            0xCA => Some((Opcode::DEX, Mode::Implied)),
            0xD0 => Some((Opcode::BNE, Mode::Relative)),
            0xD8 => Some((Opcode::CLD, Mode::Implied)),
            0xE0 => Some((Opcode::CPX, Mode::Immediate)),
            0xE1 => Some((Opcode::SBC, Mode::PreIdxInd)),
            0xE8 => Some((Opcode::INX, Mode::Implied)),
            0xE9 => Some((Opcode::SBC, Mode::Immediate)),
            0xEA => Some((Opcode::NOP, Mode::Implied)),
            0xF0 => Some((Opcode::BEQ, Mode::Relative)),
            0xF8 => Some((Opcode::SED, Mode::Implied)),
            _ => None,
        }
    }

    #[verifier::when_used_as_spec(spec_lookup)]
    pub fn lookup(op: u8) -> (entry: Option<(Opcode, Mode)>)
        ensures
            entry == Self::spec_lookup(op),
    {
        match op {
            0x01 => Some((Opcode::ORA, Mode::PreIdxInd)),
            0x08 => Some((Opcode::PHP, Mode::Implied)),
            0x09 => Some((Opcode::ORA, Mode::Immediate)),
            0x0A => Some((Opcode::ASL, Mode::Implied)),
            0x10 => Some((Opcode::BPL, Mode::Relative)),
            0x18 => Some((Opcode::CLC, Mode::Implied)),
            0x20 => Some((Opcode::JSR, Mode::Absolute)),
            0x21 => Some((Opcode::AND, Mode::PreIdxInd)),
            0x24 => Some((Opcode::BIT, Mode::ZeroPage)),
            0x28 => Some((Opcode::PLP, Mode::Implied)),
            0x29 => Some((Opcode::AND, Mode::Immediate)),
            0x2A => Some((Opcode::ROL, Mode::Implied)),
            0x2C => Some((Opcode::BIT, Mode::Absolute)),
            0x30 => Some((Opcode::BMI, Mode::Relative)),
            0x38 => Some((Opcode::SEC, Mode::Implied)),
            0x40 => Some((Opcode::RTI, Mode::Implied)),
            0x41 => Some((Opcode::EOR, Mode::PreIdxInd)),
            0x48 => Some((Opcode::PHA, Mode::Implied)),
            0x49 => Some((Opcode::EOR, Mode::Immediate)),
            0x4A => Some((Opcode::LSR, Mode::Implied)),
            0x4C => Some((Opcode::JMP, Mode::Absolute)),
            0x50 => Some((Opcode::BVC, Mode::Relative)),
            0x60 => Some((Opcode::RTS, Mode::Implied)),
            0x61 => Some((Opcode::ADC, Mode::PreIdxInd)),
            0x65 => Some((Opcode::ADC, Mode::ZeroPage)),
            0x68 => Some((Opcode::PLA, Mode::Implied)),
            0x69 => Some((Opcode::ADC, Mode::Immediate)),
            0x6A => Some((Opcode::ROR, Mode::Implied)),
            0x70 => Some((Opcode::BVS, Mode::Relative)),
            0x78 => Some((Opcode::SEI, Mode::Implied)),
            0x81 => Some((Opcode::STA, Mode::PreIdxInd)),
            0x85 => Some((Opcode::STA, Mode::ZeroPage)),
            0x86 => Some((Opcode::STX, Mode::ZeroPage)),
            0x88 => Some((Opcode::DEY, Mode::Implied)),
            0x8A => Some((Opcode::TXA, Mode::Implied)),
            0x8D => Some((Opcode::STA, Mode::Absolute)),
            0x8E => Some((Opcode::STX, Mode::Absolute)),
            0x90 => Some((Opcode::BCC, Mode::Relative)),
            0x95 => Some((Opcode::STA, Mode::ZeroPageX)),
            0x98 => Some((Opcode::TYA, Mode::Implied)),
            0x9A => Some((Opcode::TXS, Mode::Implied)),
            0x9D => Some((Opcode::STA, Mode::AbsoluteX)),
            0xA0 => Some((Opcode::LDY, Mode::Immediate)),
            0xA1 => Some((Opcode::LDA, Mode::PreIdxInd)),
            0xA2 => Some((Opcode::LDX, Mode::Immediate)),
            0xA5 => Some((Opcode::LDA, Mode::ZeroPage)),
            0xA8 => Some((Opcode::TAY, Mode::Implied)),
            0xA9 => Some((Opcode::LDA, Mode::Immediate)),
            0xAA => Some((Opcode::TAX, Mode::Implied)),
            0xAD => Some((Opcode::LDA, Mode::Absolute)),
            0xAE => Some((Opcode::LDX, Mode::Absolute)),
            0xB0 => Some((Opcode::BCS, Mode::Relative)),
            0xB8 => Some((Opcode::CLV, Mode::Implied)),
            0xBA => Some((Opcode::TSX, Mode::Implied)),
            0xC0 => Some((Opcode::CPY, Mode::Immediate)),
            0xC1 => Some((Opcode::CMP, Mode::PreIdxInd)),
            0xC8 => Some((Opcode::INY, Mode::Implied)),
            0xC9 => Some((Opcode::CMP, Mode::Immediate)),
            0xCA => Some((Opcode::DEX, Mode::Implied)),
            0xD0 => Some((Opcode::BNE, Mode::Relative)),
            0xD8 => Some((Opcode::CLD, Mode::Implied)),
            0xE0 => Some((Opcode::CPX, Mode::Immediate)),
            0xE1 => Some((Opcode::SBC, Mode::PreIdxInd)),
            0xE8 => Some((Opcode::INX, Mode::Implied)),
            0xE9 => Some((Opcode::SBC, Mode::Immediate)),
            0xEA => Some((Opcode::NOP, Mode::Implied)),
            0xF0 => Some((Opcode::BEQ, Mode::Relative)),
            0xF8 => Some((Opcode::SED, Mode::Implied)),
            _ => None,
        }
    }

    /// Decodes the instruction at the program counter of `cpu`, reading the
    /// opcode and operand bytes over the bus. The decoder itself moves the
    /// program counter past what it decodes; the length it returns is for the
    /// caller's information. An opcode byte that the table does not hold
    /// decodes to `Unknown`, with a length of 0 and the counter unmoved.
    pub fn get(
        cpu: &mut NMOS6502,
        mem: &Memory,
        ppu: &mut PPU,
    ) -> (r: Result<(u16, Instruction), ExecutionHalt>)
        ensures
            old(cpu).with(mem@, old(ppu)@).decode().came_out(r, *final(cpu), mem@, final(ppu)@),
            r matches Ok(d) ==> {
                &&& final(cpu).pc == old(cpu).pc.wrapping_add(d.0)
                &&& d.0 == if d.1.0 is Unknown {
                    0
                } else {
                    d.1.len()
                }
            },
    {
        let start: u16 = cpu.pc;
        let byte: u8 = match cpu.read8_pc(mem, ppu) {
            Ok(byte) => byte,
            Err(e) => {
                return Err(e);
            },
        };
        match Instruction::lookup(byte) {
            None => {
                cpu.pc = start;
                Ok((0, Instruction(Opcode::Unknown(byte), Value::Implied)))
            },
            Some((op, mode)) => match mode {
                Mode::Implied => Ok((1, Instruction(op, Value::Implied))),
                Mode::Absolute | Mode::AbsoluteX => match cpu.read16_pc(mem, ppu) {
                    Ok(w) => Ok((3, Instruction(op, Value::of_word(mode, w)))),
                    Err(e) => Err(e),
                },
                _ => match cpu.read8_pc(mem, ppu) {
                    Ok(b) => Ok((2, Instruction(op, Value::of_byte(mode, b)))),
                    Err(e) => Err(e),
                },
            },
        }
    }

    /// The instruction's length in the instruction stream, opcode byte
    /// included: 1 for implied, 2 for a one-byte operand, 3 for a two-byte one.
    pub open spec fn len(self) -> u16 {
        (1 + self.1.mode().operand_len()) as u16
    }
}

} // verus!
