//! The CPU's status register: eight independent one-bit flags.

use vstd::prelude::*;

verus! {

pub const FLAG_C: u8 = 0b0000_0001;

pub const FLAG_Z: u8 = 0b0000_0010;

pub const FLAG_I: u8 = 0b0000_0100;

pub const FLAG_D: u8 = 0b0000_1000;

pub const FLAG_B: u8 = 0b0001_0000;

pub const FLAG_X: u8 = 0b0010_0000;

pub const FLAG_V: u8 = 0b0100_0000;

pub const FLAG_N: u8 = 0b1000_0000;

/// The status flags, one `bool` per bit of the status byte.
#[derive(Debug, Clone, Copy, PartialEq, Eq, Structural)]
pub struct PFlag {
    /// Bit 0.
    pub carry: bool,
    /// Bit 1.
    pub zero: bool,
    /// Bit 2.
    pub interrupt: bool,
    /// Bit 3.
    pub decimal: bool,
    /// Bit 4. Only meaningful in a status byte that was pushed to the stack.
    pub brk: bool,
    /// Bit 5, which has no function and reads as 1.
    pub unused: bool,
    /// Bit 6.
    pub overflow: bool,
    /// Bit 7.
    pub negative: bool,
}

/// `mask` if `on`, else no bit.
pub open spec fn bit_if(on: bool, mask: u8) -> u8 {
    if on {
        mask
    } else {
        0
    }
}

impl PFlag {
    /// The status byte: bit `k` is set exactly when flag `k` is.
    pub open spec fn spec_bits(self) -> u8 {
        bit_if(self.carry, FLAG_C) | bit_if(self.zero, FLAG_Z) | bit_if(self.interrupt, FLAG_I)
            | bit_if(self.decimal, FLAG_D) | bit_if(self.brk, FLAG_B) | bit_if(
            self.unused,
            FLAG_X,
        ) | bit_if(self.overflow, FLAG_V) | bit_if(self.negative, FLAG_N)
    }

    /// The flags that a status byte stands for.
    pub open spec fn spec_from_bits(b: u8) -> PFlag {
        PFlag {
            carry: b & FLAG_C != 0,
            zero: b & FLAG_Z != 0,
            interrupt: b & FLAG_I != 0,
            decimal: b & FLAG_D != 0,
            brk: b & FLAG_B != 0,
            unused: b & FLAG_X != 0,
            overflow: b & FLAG_V != 0,
            negative: b & FLAG_N != 0,
        }
    }

    /// No flag set.
    pub open spec fn spec_empty() -> PFlag {
        PFlag {
            carry: false,
            zero: false,
            interrupt: false,
            decimal: false,
            brk: false,
            unused: false,
            overflow: false,
            negative: false,
        }
    }

    /// The flags with Zero and Negative recomputed from a result byte, the
    /// others kept: Zero is set iff `val` is 0, Negative iff bit 7 of `val` is 1.
    pub open spec fn with_nz(self, val: u8) -> PFlag {
        PFlag { zero: val == 0, negative: val & 0x80 != 0, ..self }
    }

    /// The flags with Carry replaced.
    pub open spec fn with_carry(self, val: bool) -> PFlag {
        PFlag { carry: val, ..self }
    }

    /// The flags that a pulled status byte restores: bits 4 and 5 of the byte
    /// are masked out, so Break comes back clear, and the unused bit stays 1.
    pub open spec fn pulled(b: u8) -> PFlag {
        PFlag { unused: true, ..Self::spec_from_bits(b & 0b1100_1111) }
    }

    /// The flags that a return from interrupt restores: the byte as it was
    /// pushed, but for the unused bit, which stays 1.
    pub open spec fn restored(b: u8) -> PFlag {
        PFlag { unused: true, ..Self::spec_from_bits(b) }
    }

    /// Whether two flag sets agree on every bit but 4 and 5.
    pub open spec fn same_but_bits_4_5(self, other: PFlag) -> bool {
        &&& self.carry == other.carry
        &&& self.zero == other.zero
        &&& self.interrupt == other.interrupt
        &&& self.decimal == other.decimal
        &&& self.overflow == other.overflow
        &&& self.negative == other.negative
    }

    #[verifier::when_used_as_spec(spec_empty)]
    pub fn empty() -> (f: PFlag)
        ensures
            f == Self::spec_empty(),
    {
        PFlag {
            carry: false,
            zero: false,
            interrupt: false,
            decimal: false,
            brk: false,
            unused: false,
            overflow: false,
            negative: false,
        }
    }

    #[verifier::when_used_as_spec(spec_bits)]
    pub fn bits(self) -> (b: u8)
        ensures
            b == self.spec_bits(),
    {
        let c: u8 = if self.carry { FLAG_C } else { 0 };
        let z: u8 = if self.zero { FLAG_Z } else { 0 };
        let i: u8 = if self.interrupt { FLAG_I } else { 0 };
        let d: u8 = if self.decimal { FLAG_D } else { 0 };
        let b: u8 = if self.brk { FLAG_B } else { 0 };
        let x: u8 = if self.unused { FLAG_X } else { 0 };
        let v: u8 = if self.overflow { FLAG_V } else { 0 };
        let n: u8 = if self.negative { FLAG_N } else { 0 };
        c | z | i | d | b | x | v | n
    }

    #[verifier::when_used_as_spec(spec_from_bits)]
    pub fn from_bits(b: u8) -> (f: PFlag)
        ensures
            f == Self::spec_from_bits(b),
    {
        PFlag {
            carry: b & FLAG_C != 0,
            zero: b & FLAG_Z != 0,
            interrupt: b & FLAG_I != 0,
            decimal: b & FLAG_D != 0,
            brk: b & FLAG_B != 0,
            unused: b & FLAG_X != 0,
            overflow: b & FLAG_V != 0,
            negative: b & FLAG_N != 0,
        }
    }

    /// Every status byte is the byte of the flags it stands for.
    pub proof fn lemma_bits_of_from_bits(b: u8)
        ensures
            Self::spec_from_bits(b).spec_bits() == b,
    {
        assert((if b & 1 != 0 { 1u8 } else { 0 }) | (if b & 2 != 0 { 2u8 } else { 0 }) | (if b & 4
            != 0 { 4u8 } else { 0 }) | (if b & 8 != 0 { 8u8 } else { 0 }) | (if b & 16 != 0 {
            16u8
        } else {
            0
        }) | (if b & 32 != 0 { 32u8 } else { 0 }) | (if b & 64 != 0 { 64u8 } else { 0 }) | (if b
            & 128 != 0 { 128u8 } else { 0 }) == b) by (bit_vector);
    }

    /// Every flag set is recovered from its status byte.
    pub proof fn lemma_from_bits_of_bits(self)
        ensures
            Self::spec_from_bits(self.spec_bits()) == self,
    {
        let c = self.carry;
        let z = self.zero;
        let i = self.interrupt;
        let d = self.decimal;
        let k = self.brk;
        let x = self.unused;
        let v = self.overflow;
        let n = self.negative;
        assert({
            let b = (if c { 1u8 } else { 0 }) | (if z { 2u8 } else { 0 }) | (if i { 4u8 } else { 0 })
                | (if d { 8u8 } else { 0 }) | (if k { 16u8 } else { 0 }) | (if x { 32u8 } else { 0 })
                | (if v { 64u8 } else { 0 }) | (if n { 128u8 } else { 0 });
            &&& (b & 1 != 0) == c
            &&& (b & 2 != 0) == z
            &&& (b & 4 != 0) == i
            &&& (b & 8 != 0) == d
            &&& (b & 16 != 0) == k
            &&& (b & 32 != 0) == x
            &&& (b & 64 != 0) == v
            &&& (b & 128 != 0) == n
        }) by (bit_vector);
    }
}

} // verus!
