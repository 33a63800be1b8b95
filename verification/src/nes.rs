//! The console: the CPU, the bus memory and the picture unit, owned side by
//! side, and the coordinator that keeps their clocks in step.

use crate::cart::NESCart;
use crate::cpu::NMOS6502;
use crate::halt::ExecutionHalt;
use crate::machine::Machine;
use crate::machine_laws::lemma_turn_keeps_wf;
use crate::mem::{MemModel, Memory};
use crate::ppu::{PpuModel, PPU};
use vstd::prelude::*;

verus! {

/// The console.
#[derive(Debug)]
pub struct NES {
    pub mem: Memory,
    pub cpu: NMOS6502,
    pub ppu: PPU,
    /// The cooperative stop signal: once set, the coordinator halts at the top
    /// of its next turn.
    pub kill: bool,
}

impl NES {
    /// The console as a mathematical value.
    pub open spec fn machine(self) -> Machine {
        self.cpu.with(self.mem@, self.ppu@)
    }

    /// The console at power-on around a cartridge.
    pub open spec fn power_on(cart: NESCart) -> Machine {
        Machine {
            cpu: NMOS6502::power_on(),
            mem: MemModel { cart: cart@, ram: Seq::new(0x800, |i: int| 0u8) },
            ppu: PpuModel::power_on(0),
        }
    }

    /// A console at power-on around a cartridge. It is well formed where the
    /// cartridge is.
    pub fn new(cart: NESCart) -> (nes: NES)
        ensures
            nes.machine() == Self::power_on(cart),
            nes.mem.cart == cart,
            !nes.kill,
            cart@.wf() ==> nes.machine().wf(),
    {
        NES { mem: Memory::new(cart), cpu: NMOS6502::new(), ppu: PPU::new(0u8), kill: false }
    }

    /// Resets the CPU.
    pub fn reset(&mut self) -> (r: Result<(), ExecutionHalt>)
        ensures
            old(self).machine().reset().came_out(
                r,
                final(self).cpu,
                final(self).mem@,
                final(self).ppu@,
            ),
            final(self).kill == old(self).kill,
            old(self).machine().wf() ==> final(self).machine().wf(),
    {
        self.cpu.reset(&self.mem, &mut self.ppu)
    }

    /// One turn of the coordinator: an instruction of the CPU, then three dots
    /// of the picture unit, then the NMI if a dot raised it. A halt of the CPU
    /// ends the turn there. With the stop signal set the turn does nothing and
    /// halts with `Ended`.
    pub fn step(&mut self) -> (r: Result<(), ExecutionHalt>)
        ensures
            final(self).kill == old(self).kill,
            old(self).kill ==> {
                &&& r == Err::<(), _>(ExecutionHalt::Ended)
                &&& final(self).machine() == old(self).machine()
            },
            !old(self).kill ==> old(self).machine().turn().came_out(
                r,
                final(self).cpu,
                final(self).mem@,
                final(self).ppu@,
            ),
            old(self).machine().wf() ==> final(self).machine().wf(),
    {
        proof {
            if self.machine().wf() {
                lemma_turn_keeps_wf(self.machine());
            }
        }
        if self.kill {
            return Err(ExecutionHalt::Ended);
        }
        match self.cpu.step(&mut self.mem, &mut self.ppu) {
            Ok(()) => {},
            Err(e) => {
                return Err(e);
            },
        }
        let first: bool = self.ppu.step();
        let second: bool = self.ppu.step();
        let third: bool = self.ppu.step();
        if first || second || third {
            self.cpu.nmi(&mut self.mem, &mut self.ppu)
        } else {
            Ok(())
        }
    }

    /// Up to `steps` turns of the coordinator: it stops at the first halt and
    /// returns it.
    #[verifier::rlimit(50)]
    pub fn run(&mut self, steps: u64) -> (r: Result<(), ExecutionHalt>)
        ensures
            final(self).kill == old(self).kill,
            old(self).kill && steps > 0 ==> {
                &&& r == Err::<(), _>(ExecutionHalt::Ended)
                &&& final(self).machine() == old(self).machine()
            },
            !old(self).kill ==> old(self).machine().turns(steps as nat).came_out(
                r,
                final(self).cpu,
                final(self).mem@,
                final(self).ppu@,
            ),
            old(self).machine().wf() ==> final(self).machine().wf(),
    {
        let mut left: u64 = steps;
        while left > 0
            invariant
                self.kill == old(self).kill,
                left <= steps,
                old(self).kill ==> left == steps && self.machine() == old(self).machine(),
                old(self).machine().wf() ==> self.machine().wf(),
                !old(self).kill ==> old(self).machine().turns(steps as nat) == self.machine().turns(
                    left as nat,
                ),
            decreases left,
        {
            match self.step() {
                Ok(()) => {},
                Err(e) => {
                    return Err(e);
                },
            }
            left -= 1;
        }
        Ok(())
    }
}

} // verus!
