//! The memory bus: 2 KiB of work RAM, the picture unit's register ports and
//! the cartridge's program ROM, each in its own window of the 16-bit address
//! space.

use crate::cart::{CartModel, NESCart};
use crate::halt::ExecutionHalt;
use crate::mapper::{lemma_translate_in_rom, spec_translate, translate, CART_BASE};
use crate::ppu::{PpuModel, PPU};
use vstd::prelude::*;

verus! {

/// The end of the window that work RAM is mirrored across.
pub const RAM_END: u16 = 0x2000;

/// The end of the window that the picture unit's ports are mirrored across.
pub const PPU_END: u16 = 0x4000;

/// A port of a peripheral that is not emulated: writes to it are accepted and
/// dropped.
pub const QUIET_PORT: u16 = 0x4017;

/// What the bus holds itself: the work RAM and the cartridge.
#[derive(Debug, Clone)]
pub struct Memory {
    pub cart: NESCart,
    pub ram: [u8; 0x800],
}

/// The bus memory as a mathematical value.
pub ghost struct MemModel {
    pub cart: CartModel,
    pub ram: Seq<u8>,
}

impl View for Memory {
    type V = MemModel;

    open spec fn view(&self) -> MemModel {
        MemModel { cart: self.cart@, ram: self.ram@ }
    }
}

/// The cell of work RAM that `addr` mirrors to.
pub open spec fn ram_index(addr: u16) -> int {
    addr as int % 0x800
}

/// The cell of work RAM that holds the stack cell `sp`: the stack is page 1,
/// 0x0100 to 0x01FF.
pub open spec fn stack_index(sp: u8) -> int {
    0x100 + sp as int
}

impl MemModel {
    /// The RAM has its 2 KiB and the cartridge is well formed.
    pub open spec fn wf(self) -> bool {
        &&& self.ram.len() == 0x800
        &&& self.cart.wf()
    }

    /// What a read of the cartridge-space address `addr` returns: the byte of
    /// program ROM that the mapper points at, or a bus fault where it points
    /// past the ROM.
    pub open spec fn rom_read(self, addr: u16) -> Result<u8, ExecutionHalt> {
        match spec_translate(self.cart.mapper, self.cart.prg.len() as int, addr) {
            Ok(i) => if i < self.cart.prg.len() {
                Ok(self.cart.prg[i])
            } else {
                Err(ExecutionHalt::BusFault(addr))
            },
            Err(e) => Err(e),
        }
    }

    /// What a read of `addr` returns where `addr` is no port of the picture
    /// unit: a cell of work RAM, mirrored every 0x800 below 0x2000, or a byte
    /// of program ROM from 0x8000 on. Nothing else can be read.
    pub open spec fn peek(self, addr: u16) -> Result<u8, ExecutionHalt> {
        if addr < RAM_END {
            Ok(self.ram[ram_index(addr)])
        } else if addr >= CART_BASE {
            self.rom_read(addr)
        } else {
            Err(ExecutionHalt::BusFault(addr))
        }
    }

    /// What a read of `addr` returns, with the picture unit in state `ppu`:
    /// from 0x2000 to 0x3FFF the picture unit's port, else what the memory
    /// itself holds.
    pub open spec fn read(self, ppu: PpuModel, addr: u16) -> Result<u8, ExecutionHalt> {
        if RAM_END <= addr < PPU_END {
            ppu.read(addr)
        } else {
            self.peek(addr)
        }
    }

    /// The picture unit after a read of `addr`.
    pub open spec fn ppu_after_read(ppu: PpuModel, addr: u16) -> PpuModel {
        if RAM_END <= addr < PPU_END {
            ppu.after_read(addr)
        } else {
            ppu
        }
    }

    /// Whether a write to `addr` is accepted: work RAM, the writable ports of
    /// the picture unit, and the quiet port.
    pub open spec fn takes_write(addr: u16) -> bool {
        ||| addr < RAM_END
        ||| RAM_END <= addr < PPU_END && PpuModel::writable(addr)
        ||| addr == QUIET_PORT
    }

    /// How a write to `addr` comes out: a write that is not accepted is a bus
    /// fault on `addr`.
    pub open spec fn write_result(addr: u16) -> Result<(), ExecutionHalt> {
        if Self::takes_write(addr) {
            Ok(())
        } else {
            Err(ExecutionHalt::BusFault(addr))
        }
    }

    /// The byte in the stack cell that `sp` points at.
    pub open spec fn stack_at(self, sp: u8) -> u8 {
        self.ram[stack_index(sp)]
    }

    /// The memory with `val` in the stack cell that `sp` points at.
    pub open spec fn stacked(self, sp: u8, val: u8) -> MemModel {
        MemModel { ram: self.ram.update(stack_index(sp), val), ..self }
    }

    /// The memory after a write of `val` to `addr`: only a write to work RAM
    /// changes it.
    pub open spec fn after_write(self, addr: u16, val: u8) -> MemModel {
        if addr < RAM_END {
            MemModel { ram: self.ram.update(ram_index(addr), val), ..self }
        } else {
            self
        }
    }

    /// The picture unit after a write of `val` to `addr`.
    pub open spec fn ppu_after_write(ppu: PpuModel, addr: u16, val: u8) -> PpuModel {
        if RAM_END <= addr < PPU_END {
            ppu.after_write(addr, val)
        } else {
            ppu
        }
    }
}

impl Memory {
    /// A memory with cleared work RAM around a cartridge.
    pub fn new(cart: NESCart) -> (mem: Memory)
        ensures
            mem@.cart == cart@,
            mem@.ram == Seq::new(0x800, |i: int| 0u8),
            mem.cart == cart,
    {
        let mem = Memory { cart, ram: [0u8;0x800] };
        assert(mem@.ram =~= Seq::new(0x800, |i: int| 0u8));
        mem
    }

    /// Reads the byte at `addr`. A read of a picture-unit port goes to `ppu`
    /// and has that port's side effect; any other read changes nothing.
    pub fn read8(&self, ppu: &mut PPU, addr: u16) -> (r: Result<u8, ExecutionHalt>)
        ensures
            r == self@.read(old(ppu)@, addr),
            final(ppu)@ == MemModel::ppu_after_read(old(ppu)@, addr),
    {
        if RAM_END <= addr && addr < PPU_END {
            ppu.read8(addr)
        } else {
            self.peek(addr)
        }
    }

    /// Reads the byte at `addr` from work RAM or program ROM. The picture
    /// unit's ports are not reached this way: an address among them is a bus
    /// fault here.
    pub fn peek(&self, addr: u16) -> (r: Result<u8, ExecutionHalt>)
        ensures
            r == self@.peek(addr),
    {
        if addr < RAM_END {
            Ok(self.ram[(addr % 0x800) as usize])
        } else if addr >= CART_BASE {
            match translate(self.cart.header.mapper, self.cart.prg_rom.len(), addr) {
                Ok(i) => {
                    if i < self.cart.prg_rom.len() {
                        Ok(self.cart.prg_rom[i])
                    } else {
                        Err(ExecutionHalt::BusFault(addr))
                    }
                },
                Err(e) => Err(e),
            }
        } else {
            Err(ExecutionHalt::BusFault(addr))
        }
    }

    /// Writes `val` to `addr`. A write that is not accepted is a bus fault on
    /// `addr` and changes nothing.
    pub fn write8(&mut self, ppu: &mut PPU, addr: u16, val: u8) -> (r: Result<(), ExecutionHalt>)
        ensures
            r == MemModel::write_result(addr),
            final(self)@ == old(self)@.after_write(addr, val),
            final(ppu)@ == MemModel::ppu_after_write(old(ppu)@, addr, val),
    {
        if addr < RAM_END {
            let i: usize = (addr % 0x800) as usize;
            self.ram[i] = val;
            Ok(())
        } else if addr < PPU_END {
            ppu.write8(addr, val)
        } else if addr == QUIET_PORT {
            Ok(())
        } else {
            Err(ExecutionHalt::BusFault(addr))
        }
    }
}

/// Every address falls in exactly one window: work RAM, the picture unit's
/// ports, program ROM, or none. What lies in none cannot be read, and of it
/// only the quiet port takes a write.
pub proof fn lemma_windows(mem: MemModel, ppu: PpuModel, addr: u16)
    ensures
        addr < RAM_END ==> mem.read(ppu, addr) is Ok && MemModel::takes_write(addr),
        RAM_END <= addr < PPU_END ==> {
            &&& mem.read(ppu, addr) == ppu.read(addr)
            &&& MemModel::takes_write(addr) == PpuModel::writable(addr)
        },
        PPU_END <= addr < CART_BASE ==> {
            &&& mem.read(ppu, addr) == Err::<u8, _>(ExecutionHalt::BusFault(addr))
            &&& MemModel::takes_write(addr) == (addr == QUIET_PORT)
        },
        addr >= CART_BASE ==> mem.read(ppu, addr) == mem.rom_read(addr) && !MemModel::takes_write(
            addr,
        ),
{
}

/// Work RAM is mirrored every 0x800 bytes below 0x2000: an address reads and
/// writes the cell that its remainder by 0x800 does.
pub proof fn lemma_ram_mirrored(mem: MemModel, ppu: PpuModel, addr: u16, val: u8)
    requires
        addr < RAM_END,
    ensures
        mem.read(ppu, addr) == mem.read(ppu, (addr % 0x800) as u16),
        mem.after_write(addr, val) == mem.after_write((addr % 0x800) as u16, val),
{
}

/// The picture unit's ports are mirrored every 8 bytes from 0x2000 to 0x3FFF:
/// an address reaches the port that its remainder by 8 names, and a fault
/// names the address that was used.
pub proof fn lemma_ports_mirrored(ppu: PpuModel, addr: u16, val: u8)
    requires
        RAM_END <= addr < PPU_END,
    ensures
        ppu.after_read(addr) == ppu.after_read((0x2000 + addr % 8) as u16),
        ppu.after_write(addr, val) == ppu.after_write((0x2000 + addr % 8) as u16, val),
        PpuModel::readable(addr) == PpuModel::readable((0x2000 + addr % 8) as u16),
        PpuModel::writable(addr) == PpuModel::writable((0x2000 + addr % 8) as u16),
        PpuModel::readable(addr) ==> ppu.read(addr) == ppu.read((0x2000 + addr % 8) as u16),
        !PpuModel::readable(addr) ==> ppu.read(addr) == Err::<u8, _>(
            ExecutionHalt::BusFault(addr),
        ),
{
}

/// What is written to work RAM is read back from it, at the address and at
/// each of its mirrors, and no other cell changes.
pub proof fn lemma_ram_write_read(mem: MemModel, ppu: PpuModel, addr: u16, other: u16, val: u8)
    requires
        mem.ram.len() == 0x800,
        addr < RAM_END,
        other < RAM_END,
    ensures
        mem.after_write(addr, val).read(ppu, other) == if other % 0x800 == addr % 0x800 {
            Ok::<u8, ExecutionHalt>(val)
        } else {
            mem.read(ppu, other)
        },
{
}

/// The stack cells are the bus addresses 0x0100 to 0x01FF: a bus write to one
/// stores into the stack, and a bus read of one gives what the stack holds.
pub proof fn lemma_stack_on_bus(mem: MemModel, ppu: PpuModel, sp: u8, val: u8)
    ensures
        MemModel::takes_write((0x100 + sp) as u16),
        mem.after_write((0x100 + sp) as u16, val) == mem.stacked(sp, val),
        mem.read(ppu, (0x100 + sp) as u16) == Ok::<u8, ExecutionHalt>(mem.stack_at(sp)),
{
}

/// In a well-formed memory whose cartridge uses mapper 0 or 1, every read of
/// work RAM and of cartridge space succeeds.
pub proof fn lemma_read_succeeds(mem: MemModel, ppu: PpuModel, addr: u16)
    requires
        mem.wf(),
        mem.cart.mapper <= 1,
        addr < RAM_END || addr >= CART_BASE,
    ensures
        mem.read(ppu, addr) is Ok,
{
    if addr >= CART_BASE {
        lemma_translate_in_rom(mem.cart.mapper, mem.cart.prg.len() as int, addr);
    }
}

} // verus!
