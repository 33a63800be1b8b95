//! The picture unit's timing engine: the dot and scanline counters, vertical
//! blank, the NMI condition, and the register ports that the bus maps in.

use crate::halt::ExecutionHalt;
use crate::mem::{MemModel, Memory};
use crate::ppuregs::PPUCTL;
use vstd::prelude::*;

verus! {

/// Scanlines per frame: `y` counts 0 to 260.
pub const HEIGHT: u16 = 261;

/// Dots per scanline: `x` counts 0 to 339.
pub const WIDTH: u16 = 340;

/// The scanline on which vertical blank begins.
pub const VBLANK_LINE: u16 = 241;

/// The status register's vertical-blank bit.
pub const VBLANK: u8 = 0x80;

/// Ticks after power-on during which the unit raises no NMI.
pub const WARM_UP: u64 = 29658;

/// Ticks in one frame.
pub const FRAME: u32 = 88740;

/// Bytes that one OAM DMA moves.
pub const DMA_LEN: usize = 255;

/// The bus address of byte `i` of the page `page`.
pub open spec fn dma_addr(page: u8, i: int) -> u16 {
    (page as int * 256 + i) as u16
}

/// The picture unit: its registers, its counters, VRAM and OAM.
#[derive(Debug, Clone)]
pub struct PPU {
    pub ppuctl: PPUCTL,
    /// The VRAM address latch that the address port fills.
    pub ppuaddr: u16,
    /// Current scanline.
    pub y: u16,
    /// Current dot on the scanline.
    pub x: u16,
    pub ppustatus: u8,
    pub vram: [u8; 0x4000],
    /// The write toggle shared by the scroll and address ports: 0 before the
    /// first write of a pair, 1 before the second.
    pub w: u8,
    pub xscroll: u8,
    pub yscroll: u8,
    pub oamaddr: u8,
    pub oam: [u8; 0x100],
    /// Ticks since power-on. It stops at the largest `u64`.
    pub cycles: u64,
}

/// The picture unit as a mathematical value.
pub ghost struct PpuModel {
    pub ppuctl: PPUCTL,
    pub ppuaddr: u16,
    pub y: u16,
    pub x: u16,
    pub ppustatus: u8,
    pub vram: Seq<u8>,
    pub w: u8,
    pub xscroll: u8,
    pub yscroll: u8,
    pub oamaddr: u8,
    pub oam: Seq<u8>,
    pub cycles: u64,
}

impl View for PPU {
    type V = PpuModel;

    open spec fn view(&self) -> PpuModel {
        PpuModel {
            ppuctl: self.ppuctl,
            ppuaddr: self.ppuaddr,
            y: self.y,
            x: self.x,
            ppustatus: self.ppustatus,
            vram: self.vram@,
            w: self.w,
            xscroll: self.xscroll,
            yscroll: self.yscroll,
            oamaddr: self.oamaddr,
            oam: self.oam@,
            cycles: self.cycles,
        }
    }
}

/// The register port that a bus address selects: the ports repeat every 8
/// bytes.
pub open spec fn port(addr: u16) -> u16 {
    addr % 8
}

impl PpuModel {
    /// The counters are in range, the write toggle is 0 or 1, and the status
    /// register's vertical-blank bit is set exactly on scanlines 241 to 260.
    pub open spec fn wf(self) -> bool {
        &&& self.x < WIDTH
        &&& self.y < HEIGHT
        &&& self.w <= 1
        &&& self.vram.len() == 0x4000
        &&& self.oam.len() == 0x100
        &&& self.in_vblank() == (self.y >= VBLANK_LINE)
    }

    pub open spec fn in_vblank(self) -> bool {
        self.ppustatus & VBLANK != 0
    }

    /// The state at power-on: everything zero but the control register, which
    /// is decoded from `ppuctl`.
    pub open spec fn power_on(ppuctl: u8) -> PpuModel {
        PpuModel {
            ppuctl: PPUCTL::decode(ppuctl),
            ppuaddr: 0,
            y: 0,
            x: 0,
            ppustatus: 0,
            vram: Seq::new(0x4000, |i: int| 0u8),
            w: 0,
            xscroll: 0,
            yscroll: 0,
            oamaddr: 0,
            oam: Seq::new(0x100, |i: int| 0u8),
            cycles: 0,
        }
    }

    /// Whether the next tick ends the scanline.
    pub open spec fn at_line_end(self) -> bool {
        self.x >= WIDTH - 1
    }

    pub open spec fn next_x(self) -> u16 {
        if self.at_line_end() {
            0
        } else {
            (self.x + 1) as u16
        }
    }

    pub open spec fn next_y(self) -> u16 {
        if !self.at_line_end() {
            self.y
        } else if self.y >= HEIGHT - 1 {
            0
        } else {
            (self.y + 1) as u16
        }
    }

    pub open spec fn next_cycles(self) -> u64 {
        if self.cycles < u64::MAX {
            (self.cycles + 1) as u64
        } else {
            self.cycles
        }
    }

    /// The status register after the next tick: the vertical-blank bit is set
    /// when the scanline counter arrives at 241 and cleared when it wraps to 0.
    pub open spec fn next_status(self) -> u8 {
        if self.at_line_end() && self.next_y() == VBLANK_LINE {
            self.ppustatus | VBLANK
        } else if self.at_line_end() && self.next_y() == 0 {
            self.ppustatus & 0x7F
        } else {
            self.ppustatus
        }
    }

    /// The unit one dot later.
    pub open spec fn tick(self) -> PpuModel {
        PpuModel {
            x: self.next_x(),
            y: self.next_y(),
            ppustatus: self.next_status(),
            cycles: self.next_cycles(),
            ..self
        }
    }

    /// Whether the next tick raises the NMI: it arrives at dot 1 of scanline
    /// 241 with NMI enabled and the warm-up behind it.
    pub open spec fn raises_nmi(self) -> bool {
        &&& self.next_y() == VBLANK_LINE
        &&& self.next_x() == 1
        &&& self.ppuctl.nmi
        &&& self.next_cycles() > WARM_UP
    }

    /// The unit `n` dots later.
    pub open spec fn run(self, n: nat) -> PpuModel
        decreases n,
    {
        if n == 0 {
            self
        } else {
            self.run((n - 1) as nat).tick()
        }
    }

    /// How many of the next `n` ticks raise the NMI.
    pub open spec fn nmi_count(self, n: nat) -> nat
        decreases n,
    {
        if n == 0 {
            0
        } else {
            let before = self.run((n - 1) as nat);
            self.nmi_count((n - 1) as nat) + if before.raises_nmi() {
                1nat
            } else {
                0nat
            }
        }
    }

    /// The first halt among the DMA's reads of bytes `from` to 254 of the page
    /// `page`, or `None` where they all succeed.
    pub open spec fn dma_fault(self, mem: MemModel, page: u8, from: nat) -> Option<ExecutionHalt>
        decreases DMA_LEN - from,
    {
        if from >= DMA_LEN {
            None
        } else {
            match mem.read(self, dma_addr(page, from as int)) {
                Err(e) => Some(e),
                Ok(_) => self.dma_fault(mem, page, from + 1),
            }
        }
    }

    /// Which byte of the page a DMA puts in OAM cell `cell`: the cells are
    /// filled from the OAM address on, wrapping at 256, so one cell gets none.
    pub open spec fn dma_source(self, cell: int) -> int {
        (cell - self.oamaddr + 0x100) % 0x100
    }

    /// The unit after a DMA of the page `page` whose reads all succeed.
    pub open spec fn after_dma(self, mem: MemModel, page: u8) -> PpuModel {
        PpuModel {
            oam: Seq::new(
                0x100,
                |cell: int|
                    if self.dma_source(cell) < DMA_LEN {
                        mem.read(self, dma_addr(page, self.dma_source(cell)))->Ok_0
                    } else {
                        self.oam[cell]
                    },
            ),
            ..self
        }
    }

    /// The cell of VRAM that the data port reaches: the address latch, folded
    /// into the 16 KiB that the unit has.
    pub open spec fn vram_index(self) -> int {
        self.ppuaddr as int % 0x4000
    }

    /// The address latch after a data-port access: moved on by 1 or by 32 as
    /// the control register's increment mode says, wrapping at 16 bits.
    pub open spec fn bumped(self) -> u16 {
        self.ppuaddr.wrapping_add(self.ppuctl.vraminc.spec_step())
    }

    /// Ports 2 (status) and 7 (data) can be read.
    pub open spec fn readable(addr: u16) -> bool {
        port(addr) == 2 || port(addr) == 7
    }

    /// Every port but 2 (status) and 4 (OAM data) can be written.
    pub open spec fn writable(addr: u16) -> bool {
        port(addr) != 2 && port(addr) != 4
    }

    /// How a write to the port at `addr` comes out: a port that cannot be
    /// written gives a bus fault on `addr`.
    pub open spec fn write_result(addr: u16) -> Result<(), ExecutionHalt> {
        if Self::writable(addr) {
            Ok(())
        } else {
            Err(ExecutionHalt::BusFault(addr))
        }
    }

    /// What a read of the port at `addr` returns.
    pub open spec fn read(self, addr: u16) -> Result<u8, ExecutionHalt> {
        if port(addr) == 2 {
            Ok(self.ppustatus)
        } else if port(addr) == 7 {
            Ok(self.vram[self.vram_index()])
        } else {
            Err(ExecutionHalt::BusFault(addr))
        }
    }

    /// The unit after a read of the port at `addr`: a data-port read moves the
    /// address latch on, any other read changes nothing.
    pub open spec fn after_read(self, addr: u16) -> PpuModel {
        if port(addr) == 7 {
            PpuModel { ppuaddr: self.bumped(), ..self }
        } else {
            self
        }
    }

    /// The unit after `val` is written to the port at `addr`; unchanged where
    /// the port cannot be written.
    pub open spec fn after_write(self, addr: u16, val: u8) -> PpuModel {
        let p = port(addr);
        if p == 0 {
            PpuModel { ppuctl: PPUCTL::decode(val), ..self }
        } else if p == 3 {
            PpuModel { oamaddr: val, ..self }
        } else if p == 5 {
            if self.w == 0 {
                PpuModel { xscroll: val, w: 1, ..self }
            } else {
                PpuModel { yscroll: val, w: 0, ..self }
            }
        } else if p == 6 {
            if self.w == 0 {
                PpuModel { ppuaddr: ((val as u16) << 8) | (self.ppuaddr & 0x00FF), w: 1, ..self }
            } else {
                PpuModel { ppuaddr: (self.ppuaddr & 0xFF00) | (val as u16), w: 0, ..self }
            }
        } else if p == 7 {
            PpuModel {
                vram: self.vram.update(self.vram_index(), val),
                ppuaddr: self.bumped(),
                ..self
            }
        } else {
            self
        }
    }
}

impl PPU {
    /// The unit at power-on, with `ppuctl` in its control register.
    pub fn new(ppuctl: u8) -> (ppu: PPU)
        ensures
            ppu@ == PpuModel::power_on(ppuctl),
            ppu@.wf(),
    {
        let ppu = PPU {
            ppuctl: PPUCTL::from(ppuctl),
            ppuaddr: 0u16,
            y: 0u16,
            x: 0u16,
            ppustatus: 0u8,
            vram: [0u8;0x4000],
            w: 0u8,
            xscroll: 0u8,
            yscroll: 0u8,
            oamaddr: 0u8,
            oam: [0u8;0x100],
            cycles: 0u64,
        };
        proof {
            assert(ppu@.vram =~= PpuModel::power_on(ppuctl).vram);
            assert(ppu@.oam =~= PpuModel::power_on(ppuctl).oam);
            assert(0u8 & 0x80u8 == 0) by (bit_vector);
        }
        ppu
    }

    /// One dot of the picture unit's clock. Returns the state of the interrupt
    /// line: `true` on the one tick of a frame that raises the NMI.
    pub fn step(&mut self) -> (nmi: bool)
        ensures
            final(self)@ == old(self)@.tick(),
            nmi == old(self)@.raises_nmi(),
            old(self)@.wf() ==> final(self)@.wf(),
    {
        proof {
            lemma_vblank_bit(self.ppustatus);
        }
        if self.cycles < u64::MAX {
            self.cycles += 1;
        }
        if self.x >= WIDTH - 1 {
            self.x = 0;
            if self.y >= HEIGHT - 1 {
                self.y = 0;
                self.ppustatus = self.ppustatus & 0x7F;
            } else {
                self.y += 1;
                if self.y == VBLANK_LINE {
                    self.ppustatus = self.ppustatus | VBLANK;
                }
            }
        } else {
            self.x += 1;
        }
        self.y == VBLANK_LINE && self.x == 1 && self.ppuctl.nmi && self.cycles > WARM_UP
    }

    /// Reads the register port that `addr` selects. Port 2 gives the status
    /// register and port 7 the VRAM cell under the address latch; the other
    /// ports are write-only, and reading one is a bus fault.
    pub fn read8(&mut self, addr: u16) -> (r: Result<u8, ExecutionHalt>)
        ensures
            r == old(self)@.read(addr),
            final(self)@ == old(self)@.after_read(addr),
            r is Ok <==> PpuModel::readable(addr),
            old(self)@.wf() ==> final(self)@.wf(),
    {
        let p: u16 = addr % 8;
        if p == 2 {
            Ok(self.ppustatus)
        } else if p == 7 {
            let val: u8 = self.vram[(self.ppuaddr % 0x4000) as usize];
            self.ppuaddr = self.ppuaddr.wrapping_add(self.ppuctl.vraminc.step());
            Ok(val)
        } else {
            Err(ExecutionHalt::BusFault(addr))
        }
    }

    /// Writes `val` to the register port that `addr` selects. Ports 2 and 4
    /// take no write: that is a bus fault, and the unit is unchanged.
    pub fn write8(&mut self, addr: u16, val: u8) -> (r: Result<(), ExecutionHalt>)
        ensures
            final(self)@ == old(self)@.after_write(addr, val),
            r == PpuModel::write_result(addr),
            old(self)@.wf() ==> final(self)@.wf(),
    {
        let p: u16 = addr % 8;
        if p == 0 {
            self.ppuctl = PPUCTL::from(val);
            Ok(())
        } else if p == 1 {
            Ok(())
        } else if p == 3 {
            self.oamaddr = val;
            Ok(())
        } else if p == 5 {
            if self.w == 0 {
                self.xscroll = val;
                self.w = 1;
            } else {
                self.yscroll = val;
                self.w = 0;
            }
            Ok(())
        } else if p == 6 {
            if self.w == 0 {
                self.ppuaddr = ((val as u16) << 8) | (self.ppuaddr & 0x00FF);
                self.w = 1;
            } else {
                self.ppuaddr = (self.ppuaddr & 0xFF00) | (val as u16);
                self.w = 0;
            }
            Ok(())
        } else if p == 7 {
            let i: usize = (self.ppuaddr % 0x4000) as usize;
            self.vram[i] = val;
            self.ppuaddr = self.ppuaddr.wrapping_add(self.ppuctl.vraminc.step());
            Ok(())
        } else {
            Err(ExecutionHalt::BusFault(addr))
        }
    }
}

impl PPU {
    /// OAM DMA: copies bytes 0 to 254 of the CPU page `port` into OAM, the
    /// first to the cell at the OAM address and the next ones after it,
    /// wrapping within OAM's 256 cells. The bytes are read over the bus; where
    /// one cannot be read, that halt is returned and OAM is as it was.
    pub fn oamdma(&mut self, mem: &Memory, port: u8) -> (r: Result<(), ExecutionHalt>)
        ensures
            match old(self)@.dma_fault(mem@, port, 0) {
                Some(e) => r == Err::<(), _>(e) && final(self)@ == old(self)@,
                None => r == Ok::<(), ExecutionHalt>(()) && final(self)@ == old(self)@.after_dma(
                    mem@,
                    port,
                ),
            },
            old(self)@.wf() ==> final(self)@.wf(),
    {
        let base: u16 = (port as u16) * 256;
        if 0x20 <= port && port < 0x40 {
            // The page lies among this unit's own ports, and its first byte is
            // port 0, which cannot be read.
            assert(dma_addr(port, 0) == base);
            return Err(ExecutionHalt::BusFault(base));
        }
        let ghost start = self@;
        let mut page: Vec<u8> = Vec::new();
        let mut i: usize = 0;
        while i < DMA_LEN
            invariant
                i <= DMA_LEN,
                base == port * 256,
                !(0x20 <= port < 0x40),
                page@.len() == i,
                self@ == start,
                start.dma_fault(mem@, port, 0) == start.dma_fault(mem@, port, i as nat),
                forall|k: int|
                    0 <= k < i ==> mem@.read(start, dma_addr(port, k)) == Ok::<u8, ExecutionHalt>(
                        #[trigger] page@[k],
                    ),
            decreases DMA_LEN - i,
        {
            assert(dma_addr(port, i as int) == base + i);
            assert(mem@.read(start, dma_addr(port, i as int)) == mem@.peek(dma_addr(port, i as int)));
            match mem.peek(base + i as u16) {
                Ok(byte) => page.push(byte),
                Err(e) => {
                    return Err(e);
                },
            }
            i += 1;
        }
        let at: usize = self.oamaddr as usize;
        let mut i: usize = 0;
        while i < DMA_LEN
            invariant
                i <= DMA_LEN,
                page@.len() == DMA_LEN,
                start.oam.len() == 0x100,
                at == start.oamaddr,
                self@ == (PpuModel { oam: self.oam@, ..start }),
                forall|cell: int|
                    0 <= cell < 0x100 ==> #[trigger] self.oam@[cell] == if start.dma_source(cell)
                        < i {
                        page@[start.dma_source(cell)]
                    } else {
                        start.oam[cell]
                    },
            decreases DMA_LEN - i,
        {
            self.oam[(at + i) % 0x100] = page[i];
            i += 1;
        }
        assert(self@.oam =~= start.after_dma(mem@, port).oam);
        Ok(())
    }
}

/// Setting the vertical-blank bit sets it, masking it clears it.
pub proof fn lemma_vblank_bit(s: u8)
    by (bit_vector)
    ensures
        (s | 0x80u8) & 0x80u8 != 0,
        (s & 0x7Fu8) & 0x80u8 == 0,
{
}

} // verus!
