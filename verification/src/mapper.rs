//! Mapper policy: where in program ROM a cartridge-space address lands.

use crate::cart::PRG_BANK;
use crate::halt::ExecutionHalt;
use vstd::prelude::*;

verus! {

/// The first address of cartridge space.
pub const CART_BASE: u16 = 0x8000;

/// The first address of the upper half of cartridge space.
pub const CART_HIGH: u16 = 0xC000;

/// Where the last 16 KiB bank of a program ROM of `prg_len` bytes begins (0
/// where the ROM is shorter than a bank).
pub open spec fn last_bank(prg_len: int) -> int {
    if prg_len >= PRG_BANK {
        prg_len - PRG_BANK
    } else {
        0
    }
}

/// The index into a program ROM of `prg_len` bytes that `addr` reads through
/// mapper `mapper`.
///
/// Mapper 0 maps 0x8000–0xBFFF to the first bank and 0xC000–0xFFFF to the last
/// one. Mapper 1 maps both halves to the first bank. An address below 0x8000
/// is no cartridge address, and any other mapper is not supported.
pub open spec fn spec_translate(
    mapper: u8,
    prg_len: int,
    addr: u16,
) -> Result<int, ExecutionHalt> {
    if addr < CART_BASE {
        Err(ExecutionHalt::BusFault(addr))
    } else if mapper == 0 {
        if addr < CART_HIGH {
            Ok(addr - CART_BASE)
        } else {
            Ok(last_bank(prg_len) + (addr - CART_HIGH))
        }
    } else if mapper == 1 {
        if addr < CART_HIGH {
            Ok(addr - CART_BASE)
        } else {
            Ok(addr - CART_HIGH)
        }
    } else {
        Err(ExecutionHalt::UnsupportedMapper(mapper))
    }
}

/// Translates a bus address to an index into program ROM.
pub fn translate(mapper: u8, prg_len: usize, addr: u16) -> (r: Result<usize, ExecutionHalt>)
    ensures
        match r {
            Ok(i) => spec_translate(mapper, prg_len as int, addr) == Ok::<int, ExecutionHalt>(
                i as int,
            ),
            Err(e) => spec_translate(mapper, prg_len as int, addr) == Err::<int, _>(e),
        },
{
    if addr < CART_BASE {
        Err(ExecutionHalt::BusFault(addr))
    } else if mapper == 0 {
        if addr < CART_HIGH {
            Ok((addr - CART_BASE) as usize)
        } else {
            let base: usize = if prg_len >= PRG_BANK {
                prg_len - PRG_BANK
            } else {
                0
            };
            Ok(base + (addr - CART_HIGH) as usize)
        }
    } else if mapper == 1 {
        if addr < CART_HIGH {
            Ok((addr - CART_BASE) as usize)
        } else {
            Ok((addr - CART_HIGH) as usize)
        }
    } else {
        Err(ExecutionHalt::UnsupportedMapper(mapper))
    }
}

/// With mapper 0 or 1 and a program ROM of at least 32 KiB, every cartridge
/// address lands inside the ROM.
pub proof fn lemma_translate_in_rom(mapper: u8, prg_len: int, addr: u16)
    requires
        mapper <= 1,
        prg_len >= 0x8000,
        addr >= CART_BASE,
    ensures
        spec_translate(mapper, prg_len, addr) is Ok,
        0 <= spec_translate(mapper, prg_len, addr)->Ok_0 < prg_len,
{
}

/// Mapper 0 with 32 KiB of program ROM maps cartridge space one to one.
pub proof fn lemma_nrom_identity(addr: u16)
    requires
        addr >= CART_BASE,
    ensures
        spec_translate(0, 0x8000, addr) == Ok::<int, ExecutionHalt>(addr - CART_BASE),
{
}

} // verus!
