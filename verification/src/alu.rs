//! What each operation does to the registers and flags, given its 8-bit
//! operand. Nothing here touches memory.

use crate::cpu::NMOS6502;
use crate::flags::PFlag;
use crate::inst::Opcode;
use vstd::prelude::*;

verus! {

/// The 9-bit sum that ADC forms: both operands and the carry in.
pub open spec fn adc_sum(a: u8, val: u8, carry: bool) -> int {
    a + val + if carry {
        1int
    } else {
        0int
    }
}

/// Signed overflow of an addition, read off the sign bits: both operands have
/// the same sign and the result has the other one.
pub open spec fn sign_overflow(a: u8, val: u8, result: u8) -> bool {
    (a ^ result) & (val ^ result) & 0x80 != 0
}

/// The loads: they set a register to the operand.
pub open spec fn is_load(op: Opcode) -> bool {
    op == Opcode::LDA || op == Opcode::LDX || op == Opcode::LDY
}

/// The transfers: they set a register to another register.
pub open spec fn is_transfer(op: Opcode) -> bool {
    match op {
        Opcode::TAX | Opcode::TAY | Opcode::TXA | Opcode::TYA | Opcode::TSX | Opcode::TXS => true,
        _ => false,
    }
}

/// The logic, arithmetic, compare and bit-test operations.
pub open spec fn is_arith(op: Opcode) -> bool {
    match op {
        Opcode::AND | Opcode::ORA | Opcode::EOR | Opcode::ADC | Opcode::SBC | Opcode::CMP
        | Opcode::CPX | Opcode::CPY | Opcode::BIT => true,
        _ => false,
    }
}

/// The increments, decrements, shifts and rotates.
pub open spec fn is_step(op: Opcode) -> bool {
    match op {
        Opcode::INX | Opcode::INY | Opcode::DEX | Opcode::DEY | Opcode::ASL | Opcode::LSR
        | Opcode::ROL | Opcode::ROR => true,
        _ => false,
    }
}

/// The operations that set or clear one flag.
pub open spec fn is_flag_op(op: Opcode) -> bool {
    match op {
        Opcode::CLC | Opcode::SEC | Opcode::SEI | Opcode::CLD | Opcode::SED | Opcode::CLV => true,
        _ => false,
    }
}

/// The operations that combine a register with an 8-bit operand.
pub open spec fn is_operand_op(op: Opcode) -> bool {
    is_load(op) || is_arith(op)
}

/// The operations that work on the registers and flags alone.
pub open spec fn is_register_op(op: Opcode) -> bool {
    is_transfer(op) || is_step(op) || is_flag_op(op) || op == Opcode::NOP
}

impl Opcode {
    /// Whether the operation combines a register with an 8-bit operand.
    pub fn takes_operand(self) -> (b: bool)
        ensures
            b == is_operand_op(self),
    {
        match self {
            Opcode::LDA | Opcode::LDX | Opcode::LDY | Opcode::AND | Opcode::ORA | Opcode::EOR
            | Opcode::ADC | Opcode::SBC | Opcode::CMP | Opcode::CPX | Opcode::CPY | Opcode::BIT => {
                true
            },
            _ => false,
        }
    }

    /// Whether the operation works on the registers and flags alone.
    pub fn is_register_op(self) -> (b: bool)
        ensures
            b == is_register_op(self),
    {
        match self {
            Opcode::TAX | Opcode::TAY | Opcode::TXA | Opcode::TYA | Opcode::TSX | Opcode::TXS
            | Opcode::INX | Opcode::INY | Opcode::DEX | Opcode::DEY | Opcode::ASL | Opcode::LSR
            | Opcode::ROL | Opcode::ROR | Opcode::CLC | Opcode::SEC | Opcode::SEI | Opcode::CLD
            | Opcode::SED | Opcode::CLV | Opcode::NOP => true,
            _ => false,
        }
    }
}

impl NMOS6502 {
    /// The accumulator set to `val`, with Zero and Negative following it.
    pub open spec fn with_a(self, val: u8) -> NMOS6502 {
        NMOS6502 { a: val, p_flags: self.p_flags.with_nz(val), ..self }
    }

    /// X set to `val`, with Zero and Negative following it.
    pub open spec fn with_x(self, val: u8) -> NMOS6502 {
        NMOS6502 { x: val, p_flags: self.p_flags.with_nz(val), ..self }
    }

    /// Y set to `val`, with Zero and Negative following it.
    pub open spec fn with_y(self, val: u8) -> NMOS6502 {
        NMOS6502 { y: val, p_flags: self.p_flags.with_nz(val), ..self }
    }

    /// Add with carry: the accumulator takes the low 8 bits of the 9-bit sum,
    /// Carry its bit 8, Overflow the signed overflow.
    pub open spec fn after_adc(self, val: u8) -> NMOS6502 {
        let sum = adc_sum(self.a, val, self.p_flags.carry);
        let result = (sum % 256) as u8;
        NMOS6502 {
            a: result,
            p_flags: PFlag {
                carry: sum >= 256,
                overflow: sign_overflow(self.a, val, result),
                ..self.p_flags.with_nz(result)
            },
            ..self
        }
    }

    /// Subtract with borrow: the addition above, of the operand's one's
    /// complement.
    pub open spec fn after_sbc(self, val: u8) -> NMOS6502 {
        self.after_adc(val ^ 0xFF)
    }

    /// Compare: Carry is set iff `reg >= val`; Zero and Negative follow the
    /// wrapping difference. No register changes.
    pub open spec fn compared(self, reg: u8, val: u8) -> NMOS6502 {
        NMOS6502 {
            p_flags: self.p_flags.with_nz(reg.wrapping_sub(val)).with_carry(reg >= val),
            ..self
        }
    }

    /// Bit test: Negative and Overflow copy bits 7 and 6 of the operand, Zero
    /// is set iff the operand and the accumulator share no bit.
    pub open spec fn bit_tested(self, val: u8) -> NMOS6502 {
        NMOS6502 {
            p_flags: PFlag {
                negative: val & 0x80 != 0,
                overflow: val & 0x40 != 0,
                zero: val & self.a == 0,
                ..self.p_flags
            },
            ..self
        }
    }

    /// A shift or rotate of the accumulator: `result` goes to the accumulator
    /// and the bit that left it to Carry.
    pub open spec fn shifted(self, result: u8, out: bool) -> NMOS6502 {
        NMOS6502 { a: result, p_flags: self.p_flags.with_nz(result).with_carry(out), ..self }
    }

    /// The registers after `op`, where `op` works on the registers alone or
    /// combines one with the operand `val`. Any other operation leaves them as
    /// they are.
    pub open spec fn after_op(self, op: Opcode, val: u8) -> NMOS6502 {
        let p = self.p_flags;
        match op {
            Opcode::LDA => self.with_a(val),
            Opcode::LDX => self.with_x(val),
            Opcode::LDY => self.with_y(val),
            Opcode::AND => self.with_a(self.a & val),
            Opcode::ORA => self.with_a(self.a | val),
            Opcode::EOR => self.with_a(self.a ^ val),
            Opcode::ADC => self.after_adc(val),
            Opcode::SBC => self.after_sbc(val),
            Opcode::CMP => self.compared(self.a, val),
            Opcode::CPX => self.compared(self.x, val),
            Opcode::CPY => self.compared(self.y, val),
            Opcode::BIT => self.bit_tested(val),
            Opcode::TAX => self.with_x(self.a),
            Opcode::TAY => self.with_y(self.a),
            Opcode::TXA => self.with_a(self.x),
            Opcode::TYA => self.with_a(self.y),
            Opcode::TSX => self.with_x(self.sp),
            Opcode::TXS => NMOS6502 { sp: self.x, ..self },
            Opcode::INX => self.with_x(self.x.wrapping_add(1)),
            Opcode::INY => self.with_y(self.y.wrapping_add(1)),
            Opcode::DEX => self.with_x(self.x.wrapping_sub(1)),
            Opcode::DEY => self.with_y(self.y.wrapping_sub(1)),
            Opcode::ASL => self.shifted(self.a << 1, self.a & 0x80 != 0),
            Opcode::LSR => self.shifted(self.a >> 1, self.a & 0x01 != 0),
            Opcode::ROL => self.shifted(
                (self.a << 1) | if p.carry {
                    0x01u8
                } else {
                    0u8
                },
                self.a & 0x80 != 0,
            ),
            Opcode::ROR => self.shifted(
                (self.a >> 1) | if p.carry {
                    0x80u8
                } else {
                    0u8
                },
                self.a & 0x01 != 0,
            ),
            Opcode::CLC => NMOS6502 { p_flags: p.with_carry(false), ..self },
            Opcode::SEC => NMOS6502 { p_flags: p.with_carry(true), ..self },
            Opcode::SEI => NMOS6502 { p_flags: PFlag { interrupt: true, ..p }, ..self },
            Opcode::CLD => NMOS6502 { p_flags: PFlag { decimal: false, ..p }, ..self },
            Opcode::SED => NMOS6502 { p_flags: PFlag { decimal: true, ..p }, ..self },
            Opcode::CLV => NMOS6502 { p_flags: PFlag { overflow: false, ..p }, ..self },
            _ => self,
        }
    }

    /// Sets or clears Carry.
    pub fn set_carry(&mut self, val: bool)
        ensures
            *final(self) == (NMOS6502 { p_flags: old(self).p_flags.with_carry(val), ..*old(self) }),
    {
        self.p_flags.carry = val;
    }

    /// Recomputes Zero and Negative from a result: Zero is set iff `val` is 0,
    /// Negative iff bit 7 of `val` is 1.
    pub fn set_nz(&mut self, val: u8)
        ensures
            *final(self) == (NMOS6502 { p_flags: old(self).p_flags.with_nz(val), ..*old(self) }),
            final(self).p_flags.zero == (val == 0),
            final(self).p_flags.negative == (val & 0x80 != 0),
    {
        self.p_flags.zero = val == 0;
        self.p_flags.negative = val & 0x80 != 0;
    }

    /// Adds `val` and Carry to the accumulator.
    fn adc(&mut self, val: u8)
        ensures
            *final(self) == old(self).after_adc(val),
    {
        let a: u8 = self.a;
        let carry_in: u16 = if self.p_flags.carry {
            1
        } else {
            0
        };
        let sum: u16 = a as u16 + val as u16 + carry_in;
        proof {
            lemma_nine_bits(sum);
        }
        let result: u8 = (sum & 0xFF) as u8;
        self.a = result;
        self.set_nz(result);
        self.set_carry(sum & 0x100 != 0);
        self.p_flags.overflow = (a ^ result) & (val ^ result) & 0x80 != 0;
    }

    /// Compares a register's value with `val`.
    fn compare(&mut self, reg: u8, val: u8)
        ensures
            *final(self) == old(self).compared(reg, val),
    {
        self.set_nz(reg.wrapping_sub(val));
        self.set_carry(reg >= val);
    }

    /// Stores a shifted accumulator and the bit that left it.
    fn shift(&mut self, result: u8, out: bool)
        ensures
            *final(self) == old(self).shifted(result, out),
    {
        self.a = result;
        self.set_nz(result);
        self.set_carry(out);
    }

    /// The loads.
    fn apply_load(&mut self, op: Opcode, val: u8)
        requires
            is_load(op),
        ensures
            *final(self) == old(self).after_op(op, val),
    {
        match op {
            Opcode::LDA => {
                self.a = val;
            },
            Opcode::LDX => {
                self.x = val;
            },
            _ => {
                self.y = val;
            },
        }
        self.set_nz(val);
    }

    /// The transfers. They take no operand: `val` is there for the contract
    /// only.
    fn apply_transfer(&mut self, op: Opcode, Ghost(val): Ghost<u8>)
        requires
            is_transfer(op),
        ensures
            *final(self) == old(self).after_op(op, val),
    {
        match op {
            Opcode::TAX => {
                self.x = self.a;
                self.set_nz(self.x);
            },
            Opcode::TAY => {
                self.y = self.a;
                self.set_nz(self.y);
            },
            Opcode::TXA => {
                self.a = self.x;
                self.set_nz(self.a);
            },
            Opcode::TYA => {
                self.a = self.y;
                self.set_nz(self.a);
            },
            Opcode::TSX => {
                self.x = self.sp;
                self.set_nz(self.x);
            },
            _ => {
                self.sp = self.x;
            },
        }
    }

    /// The logic, arithmetic, compare and bit-test operations.
    fn apply_arith(&mut self, op: Opcode, val: u8)
        requires
            is_arith(op),
        ensures
            *final(self) == old(self).after_op(op, val),
    {
        match op {
            Opcode::AND => {
                self.a = self.a & val;
                self.set_nz(self.a);
            },
            Opcode::ORA => {
                self.a = self.a | val;
                self.set_nz(self.a);
            },
            Opcode::EOR => {
                self.a = self.a ^ val;
                self.set_nz(self.a);
            },
            Opcode::ADC => self.adc(val),
            Opcode::SBC => self.adc(val ^ 0xFF),
            Opcode::CMP => self.compare(self.a, val),
            Opcode::CPX => self.compare(self.x, val),
            Opcode::CPY => self.compare(self.y, val),
            _ => {
                self.p_flags.negative = val & 0x80 != 0;
                self.p_flags.overflow = val & 0x40 != 0;
                self.p_flags.zero = val & self.a == 0;
            },
        }
    }

    /// The increments, decrements, shifts and rotates. They take no operand:
    /// `val` is there for the contract only.
    fn apply_step(&mut self, op: Opcode, Ghost(val): Ghost<u8>)
        requires
            is_step(op),
        ensures
            *final(self) == old(self).after_op(op, val),
    {
        match op {
            Opcode::INX => {
                self.x = self.x.wrapping_add(1);
                self.set_nz(self.x);
            },
            Opcode::INY => {
                self.y = self.y.wrapping_add(1);
                self.set_nz(self.y);
            },
            Opcode::DEX => {
                self.x = self.x.wrapping_sub(1);
                self.set_nz(self.x);
            },
            Opcode::DEY => {
                self.y = self.y.wrapping_sub(1);
                self.set_nz(self.y);
            },
            Opcode::ASL => self.shift(self.a << 1, self.a & 0x80 != 0),
            Opcode::LSR => self.shift(self.a >> 1, self.a & 0x01 != 0),
            Opcode::ROL => {
                let low: u8 = if self.p_flags.carry {
                    0x01
                } else {
                    0
                };
                self.shift((self.a << 1) | low, self.a & 0x80 != 0)
            },
            _ => {
                let high: u8 = if self.p_flags.carry {
                    0x80
                } else {
                    0
                };
                self.shift((self.a >> 1) | high, self.a & 0x01 != 0)
            },
        }
    }

    /// The operations that set or clear one flag. They take no operand: `val`
    /// is there for the contract only.
    fn apply_flag(&mut self, op: Opcode, Ghost(val): Ghost<u8>)
        requires
            is_flag_op(op),
        ensures
            *final(self) == old(self).after_op(op, val),
    {
        let p = self.p_flags;
        self.p_flags = match op {
            Opcode::CLC => PFlag { carry: false, ..p },
            Opcode::SEC => PFlag { carry: true, ..p },
            Opcode::SEI => PFlag { interrupt: true, ..p },
            Opcode::CLD => PFlag { decimal: false, ..p },
            Opcode::SED => PFlag { decimal: true, ..p },
            _ => PFlag { overflow: false, ..p },
        };
    }

    /// Carries out an operation that works on the registers alone or combines
    /// one with the operand `val`.
    pub fn apply(&mut self, op: Opcode, val: u8)
        ensures
            *final(self) == old(self).after_op(op, val),
    {
        match op {
            Opcode::LDA | Opcode::LDX | Opcode::LDY => self.apply_load(op, val),
            Opcode::TAX | Opcode::TAY | Opcode::TXA | Opcode::TYA | Opcode::TSX | Opcode::TXS => {
                self.apply_transfer(op, Ghost(val))
            },
            Opcode::AND | Opcode::ORA | Opcode::EOR | Opcode::ADC | Opcode::SBC | Opcode::CMP
            | Opcode::CPX | Opcode::CPY | Opcode::BIT => self.apply_arith(op, val),
            Opcode::INX | Opcode::INY | Opcode::DEX | Opcode::DEY | Opcode::ASL | Opcode::LSR
            | Opcode::ROL | Opcode::ROR => self.apply_step(op, Ghost(val)),
            Opcode::CLC | Opcode::SEC | Opcode::SEI | Opcode::CLD | Opcode::SED | Opcode::CLV => {
                self.apply_flag(op, Ghost(val))
            },
            _ => {},
        }
    }
}

/// Of a sum of at most 9 bits, the low 8 bits are the sum modulo 256 and bit 8
/// says whether it reached 256.
pub proof fn lemma_nine_bits(sum: u16)
    by (bit_vector)
    requires
        sum < 512,
    ensures
        sum & 0xFF == sum % 256,
        (sum & 0x100 != 0) == (sum >= 256),
{
}

} // verus!
