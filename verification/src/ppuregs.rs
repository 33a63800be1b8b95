//! The picture unit's control register, decoded into its named fields.

use vstd::prelude::*;
use vstd::std_specs::convert::FromSpecImpl;

verus! {

/// Which of the four nametables the picture is based on (control bits 0–1).
#[derive(Debug, Clone, Copy, PartialEq, Eq, Structural)]
pub enum BaseNameTable {
    Zero,
    One,
    Two,
    Three,
}

/// How far the VRAM address moves after a data-port access (control bit 2).
#[derive(Debug, Clone, Copy, PartialEq, Eq, Structural)]
pub enum VRAMINC {
    Add1Across,
    Add32Down,
}

/// Pattern table used for 8x8 sprites (control bit 3).
#[derive(Debug, Clone, Copy, PartialEq, Eq, Structural)]
pub enum SpriteAddr {
    Zero,
    One,
}

/// Pattern table used for the background (control bit 4).
#[derive(Debug, Clone, Copy, PartialEq, Eq, Structural)]
pub enum BGPatternTableAddr {
    Zero,
    One,
}

/// Sprite height (control bit 5).
#[derive(Debug, Clone, Copy, PartialEq, Eq, Structural)]
pub enum SpriteSize {
    EightSq,
    Eight16,
}

/// Whether the unit drives or reads its EXT pins (control bit 6).
#[derive(Debug, Clone, Copy, PartialEq, Eq, Structural)]
pub enum MasterSlave {
    Master,
    Slave,
}

/// The control register, one field per group of bits of the byte written to it.
#[derive(Debug, Clone, Copy, PartialEq, Eq, Structural)]
pub struct PPUCTL {
    pub nametable: BaseNameTable,
    pub vraminc: VRAMINC,
    pub spriteaddr: SpriteAddr,
    pub backaddr: BGPatternTableAddr,
    pub spritesize: SpriteSize,
    pub masterslave: MasterSlave,
    /// Control bit 7: raise the CPU's NMI at the start of vertical blank.
    pub nmi: bool,
}

impl BaseNameTable {
    /// Bits 0 and 1 give the number of the nametable.
    pub open spec fn decode(val: u8) -> Self {
        let low: u8 = val & 0b11;
        if low == 0b00 {
            BaseNameTable::Zero
        } else if low == 0b01 {
            BaseNameTable::One
        } else if low == 0b10 {
            BaseNameTable::Two
        } else {
            BaseNameTable::Three
        }
    }
}

impl From<u8> for BaseNameTable {
    fn from(val: u8) -> (r: Self) {
        let low: u8 = val & 0b11;
        if low == 0b00 {
            BaseNameTable::Zero
        } else if low == 0b01 {
            BaseNameTable::One
        } else if low == 0b10 {
            BaseNameTable::Two
        } else {
            BaseNameTable::Three
        }
    }
}

impl FromSpecImpl<u8> for BaseNameTable {
    open spec fn obeys_from_spec() -> bool {
        true
    }

    open spec fn from_spec(val: u8) -> Self {
        Self::decode(val)
    }
}

impl BaseNameTable {
    /// The nametable's base address in the picture unit's address space.
    pub open spec fn base(self) -> u16 {
        let table = self;
        match table {
            BaseNameTable::Zero => 0x2000,
            BaseNameTable::One => 0x2400,
            BaseNameTable::Two => 0x2800,
            BaseNameTable::Three => 0x2C00,
        }
    }
}

impl From<BaseNameTable> for u16 {
    fn from(table: BaseNameTable) -> (addr: Self) {
        match table {
            BaseNameTable::Zero => 0x2000,
            BaseNameTable::One => 0x2400,
            BaseNameTable::Two => 0x2800,
            BaseNameTable::Three => 0x2C00,
        }
    }
}

impl FromSpecImpl<BaseNameTable> for u16 {
    open spec fn obeys_from_spec() -> bool {
        true
    }

    open spec fn from_spec(table: BaseNameTable) -> Self {
        table.base()
    }
}

impl VRAMINC {
    /// Bit 2 clear steps by one (across), set steps by 32 (down).
    pub open spec fn decode(val: u8) -> Self {
        if val & 0b100 == 0 {
            VRAMINC::Add1Across
        } else {
            VRAMINC::Add32Down
        }
    }
}

impl From<u8> for VRAMINC {
    fn from(val: u8) -> (r: Self) {
        if val & 0b100 == 0 {
            VRAMINC::Add1Across
        } else {
            VRAMINC::Add32Down
        }
    }
}

impl FromSpecImpl<u8> for VRAMINC {
    open spec fn obeys_from_spec() -> bool {
        true
    }

    open spec fn from_spec(val: u8) -> Self {
        Self::decode(val)
    }
}

impl SpriteAddr {
    /// Bit 3 selects the sprite pattern table.
    pub open spec fn decode(val: u8) -> Self {
        if val & 0b1000 == 0 {
            SpriteAddr::Zero
        } else {
            SpriteAddr::One
        }
    }
}

impl From<u8> for SpriteAddr {
    fn from(val: u8) -> (r: Self) {
        if val & 0b1000 == 0 {
            SpriteAddr::Zero
        } else {
            SpriteAddr::One
        }
    }
}

impl FromSpecImpl<u8> for SpriteAddr {
    open spec fn obeys_from_spec() -> bool {
        true
    }

    open spec fn from_spec(val: u8) -> Self {
        Self::decode(val)
    }
}

impl SpriteAddr {
    /// The pattern table's base address in the picture unit's address space.
    pub open spec fn base(self) -> u16 {
        let table = self;
        match table {
            SpriteAddr::Zero => 0x0000,
            SpriteAddr::One => 0x1000,
        }
    }
}

impl From<SpriteAddr> for u16 {
    fn from(table: SpriteAddr) -> (addr: Self) {
        match table {
            SpriteAddr::Zero => 0x0000,
            SpriteAddr::One => 0x1000,
        }
    }
}

impl FromSpecImpl<SpriteAddr> for u16 {
    open spec fn obeys_from_spec() -> bool {
        true
    }

    open spec fn from_spec(table: SpriteAddr) -> Self {
        table.base()
    }
}

impl BGPatternTableAddr {
    /// Bit 4 selects the background pattern table.
    pub open spec fn decode(val: u8) -> Self {
        if val & 0b10000 == 0 {
            BGPatternTableAddr::Zero
        } else {
            BGPatternTableAddr::One
        }
    }
}

impl From<u8> for BGPatternTableAddr {
    fn from(val: u8) -> (r: Self) {
        if val & 0b10000 == 0 {
            BGPatternTableAddr::Zero
        } else {
            BGPatternTableAddr::One
        }
    }
}

impl FromSpecImpl<u8> for BGPatternTableAddr {
    open spec fn obeys_from_spec() -> bool {
        true
    }

    open spec fn from_spec(val: u8) -> Self {
        Self::decode(val)
    }
}

impl BGPatternTableAddr {
    /// The pattern table's base address in the picture unit's address space.
    pub open spec fn base(self) -> u16 {
        let table = self;
        match table {
            BGPatternTableAddr::Zero => 0x0000,
            BGPatternTableAddr::One => 0x1000,
        }
    }
}

impl From<BGPatternTableAddr> for u16 {
    fn from(table: BGPatternTableAddr) -> (addr: Self) {
        match table {
            BGPatternTableAddr::Zero => 0x0000,
            BGPatternTableAddr::One => 0x1000,
        }
    }
}

impl FromSpecImpl<BGPatternTableAddr> for u16 {
    open spec fn obeys_from_spec() -> bool {
        true
    }

    open spec fn from_spec(table: BGPatternTableAddr) -> Self {
        table.base()
    }
}

impl SpriteSize {
    /// Bit 5 clear is 8x8 sprites, set is 8x16.
    pub open spec fn decode(val: u8) -> Self {
        if val & 0b100000 == 0 {
            SpriteSize::EightSq
        } else {
            SpriteSize::Eight16
        }
    }
}

impl From<u8> for SpriteSize {
    fn from(val: u8) -> (r: Self) {
        if val & 0b100000 == 0 {
            SpriteSize::EightSq
        } else {
            SpriteSize::Eight16
        }
    }
}

impl FromSpecImpl<u8> for SpriteSize {
    open spec fn obeys_from_spec() -> bool {
        true
    }

    open spec fn from_spec(val: u8) -> Self {
        Self::decode(val)
    }
}

impl MasterSlave {
    /// Bit 6 clear is master, set is slave.
    pub open spec fn decode(val: u8) -> Self {
        if val & 0b1000000 == 0 {
            MasterSlave::Master
        } else {
            MasterSlave::Slave
        }
    }
}

impl From<u8> for MasterSlave {
    fn from(val: u8) -> (r: Self) {
        if val & 0b1000000 == 0 {
            MasterSlave::Master
        } else {
            MasterSlave::Slave
        }
    }
}

impl FromSpecImpl<u8> for MasterSlave {
    open spec fn obeys_from_spec() -> bool {
        true
    }

    open spec fn from_spec(val: u8) -> Self {
        Self::decode(val)
    }
}

impl VRAMINC {
    /// The step that the mode stands for: 1 or 32.
    pub open spec fn spec_step(self) -> u16 {
        match self {
            VRAMINC::Add1Across => 1,
            VRAMINC::Add32Down => 32,
        }
    }

    #[verifier::when_used_as_spec(spec_step)]
    pub fn step(self) -> (n: u16)
        ensures
            n == self.spec_step(),
    {
        match self {
            VRAMINC::Add1Across => 1,
            VRAMINC::Add32Down => 32,
        }
    }
}

impl PPUCTL {
    /// Each field is decoded from its own bits of `val`; NMI is enabled exactly
    /// when bit 7 is set.
    pub open spec fn decode(val: u8) -> Self {
        PPUCTL {
            nametable: BaseNameTable::decode(val),
            vraminc: VRAMINC::decode(val),
            spriteaddr: SpriteAddr::decode(val),
            backaddr: BGPatternTableAddr::decode(val),
            spritesize: SpriteSize::decode(val),
            masterslave: MasterSlave::decode(val),
            nmi: val & 0b10000000 != 0,
        }
    }
}

impl From<u8> for PPUCTL {
    fn from(val: u8) -> (ctl: Self) {
        PPUCTL {
            nametable: BaseNameTable::from(val),
            vraminc: VRAMINC::from(val),
            spriteaddr: SpriteAddr::from(val),
            backaddr: BGPatternTableAddr::from(val),
            spritesize: SpriteSize::from(val),
            masterslave: MasterSlave::from(val),
            nmi: val & 0b10000000 != 0,
        }
    }
}

impl FromSpecImpl<u8> for PPUCTL {
    open spec fn obeys_from_spec() -> bool {
        true
    }

    open spec fn from_spec(val: u8) -> Self {
        Self::decode(val)
    }
}

} // verus!
