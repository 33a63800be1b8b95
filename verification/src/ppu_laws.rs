//! What holds of the picture unit's clock over a whole frame.

use crate::halt::ExecutionHalt;
use crate::ppu::{lemma_vblank_bit, PpuModel, FRAME, HEIGHT, VBLANK_LINE, WARM_UP, WIDTH};
use vstd::prelude::*;

verus! {

/// The tick on which a frame that starts at dot 0 of scanline 0 arrives at dot
/// 0 of scanline 241.
pub const VBLANK_START: u32 = 81940;

/// A tick keeps a well-formed unit well formed.
pub proof fn lemma_tick_keeps_wf(p: PpuModel)
    requires
        p.wf(),
    ensures
        p.tick().wf(),
{
    lemma_vblank_bit(p.ppustatus);
}

/// Reading or writing a register port keeps a well-formed unit well formed:
/// no port reaches the counters or the status register.
pub proof fn lemma_port_access_keeps_wf(p: PpuModel, addr: u16, val: u8)
    requires
        p.wf(),
    ensures
        p.after_read(addr).wf(),
        p.after_write(addr, val).wf(),
{
}

/// The address latch is filled by two writes to the address port, the high
/// byte first: from a cleared write toggle they leave the address at
/// `hi * 256 + lo` and the toggle cleared again.
pub proof fn lemma_address_latch(p: PpuModel, hi: u8, lo: u8)
    requires
        p.w == 0,
    ensures
        p.after_write(0x2006, hi).after_write(0x2006, lo).ppuaddr == hi * 256 + lo,
        p.after_write(0x2006, hi).after_write(0x2006, lo).w == 0,
{
    let a = p.ppuaddr;
    assert(((((hi as u16) << 8) | (a & 0x00FF)) & 0xFF00) | (lo as u16) == hi * 256 + lo)
        by (bit_vector);
}

/// A write to the data port stores the byte in VRAM under the address latch
/// and moves the latch on by the control register's step; a read of the port
/// then finds the byte when the latch is set back.
pub proof fn lemma_data_port_round_trip(p: PpuModel, val: u8)
    requires
        p.wf(),
    ensures
        ({
            let written = p.after_write(0x2007, val);
            let back = PpuModel { ppuaddr: p.ppuaddr, ..written };
            &&& written.ppuaddr == (p.ppuaddr + p.ppuctl.vraminc.spec_step()) % 0x10000
            &&& back.read(0x2007) == Ok::<u8, ExecutionHalt>(val)
        }),
{
}

/// Ticks touch the counters and the status register only, and the tick count
/// never goes down.
pub proof fn lemma_run_keeps_registers(p: PpuModel, n: nat)
    ensures
        p.run(n) == (PpuModel {
            x: p.run(n).x,
            y: p.run(n).y,
            ppustatus: p.run(n).ppustatus,
            cycles: p.run(n).cycles,
            ..p
        }),
        p.run(n).cycles >= p.cycles,
        p.run(n).cycles >= n || p.run(n).cycles == u64::MAX,
    decreases n,
{
    if n > 0 {
        lemma_run_keeps_registers(p, (n - 1) as nat);
    }
}

/// Any number of ticks keeps a well-formed unit well formed: the counters stay
/// in range, and the vertical-blank bit is set exactly on scanlines 241 to
/// 260.
pub proof fn lemma_run_keeps_wf(p: PpuModel, n: nat)
    requires
        p.wf(),
    ensures
        p.run(n).wf(),
    decreases n,
{
    if n > 0 {
        lemma_run_keeps_wf(p, (n - 1) as nat);
        lemma_tick_keeps_wf(p.run((n - 1) as nat));
    }
}

/// Where the unit stands `n` ticks into a run from dot 0 of scanline 0: a
/// scanline takes 340 ticks, a frame 261 scanlines.
pub proof fn lemma_position(p: PpuModel, n: nat)
    requires
        p.x == 0,
        p.y == 0,
    ensures
        p.run(n).x == n % (WIDTH as nat),
        p.run(n).y == (n / (WIDTH as nat)) % (HEIGHT as nat),
    decreases n,
{
    if n > 0 {
        lemma_position(p, (n - 1) as nat);
    }
}

/// The law of vertical blank, for a run from dot 0 of scanline 0 of a
/// well-formed unit, over one frame and the first dot of the next.
///
/// The status register's vertical-blank bit is clear up to tick 81940, on
/// which the unit arrives at dot 0 of scanline 241; it is set from there to
/// the end of the frame; and it is clear again on tick 88740, on which the
/// unit arrives at dot 0 of scanline 0 of the next frame. With NMI enabled,
/// exactly one tick of the frame raises the NMI: the one that arrives at dot 1
/// of scanline 241. With NMI disabled none does. The warm-up is over by then
/// on any such run, because the tick that raises the NMI is later than tick
/// 29658.
pub proof fn lemma_vblank_frame(p: PpuModel, n: nat)
    requires
        p.wf(),
        p.x == 0,
        p.y == 0,
        n <= FRAME,
    ensures
        p.run(n).in_vblank() <==> VBLANK_START <= n < FRAME,
        n == VBLANK_START ==> p.run(n).x == 0 && p.run(n).y == VBLANK_LINE,
        n == FRAME ==> p.run(n).x == 0 && p.run(n).y == 0,
        n < FRAME ==> (p.run(n).raises_nmi() <==> p.ppuctl.nmi && n == VBLANK_START),
        p.run(n).raises_nmi() ==> p.run(n + 1).x == 1 && p.run(n + 1).y == VBLANK_LINE,
        p.nmi_count(n) == if p.ppuctl.nmi && n > VBLANK_START {
            1nat
        } else {
            0nat
        },
    decreases n,
{
    lemma_position(p, n);
    lemma_position(p, n + 1);
    lemma_run_keeps_wf(p, n);
    lemma_run_keeps_registers(p, n);
    assert(p.run(n + 1) == p.run(n).tick());
    if n > 0 {
        lemma_vblank_frame(p, (n - 1) as nat);
    }
}

/// No NMI is raised before the warm-up is over, whatever the counters say.
pub proof fn lemma_no_nmi_while_warming_up(p: PpuModel)
    requires
        p.cycles < WARM_UP,
    ensures
        !p.raises_nmi(),
{
}

/// No NMI is raised while NMI is disabled.
pub proof fn lemma_no_nmi_while_disabled(p: PpuModel)
    requires
        !p.ppuctl.nmi,
    ensures
        !p.raises_nmi(),
{
}

} // verus!
