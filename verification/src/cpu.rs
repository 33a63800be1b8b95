//! The CPU: its registers, and the interpreter that fetches, decodes and
//! executes one instruction at a time.

use crate::flags::PFlag;
use crate::halt::ExecutionHalt;
use crate::inst::{word, Instruction, Opcode, Value};
use crate::machine::{branch_taken, Machine, NMI_VECTOR, RESET_VECTOR};
use crate::mem::{MemModel, Memory};
use crate::ppu::{PpuModel, PPU};
use vstd::prelude::*;

verus! {

/// The registers of the CPU. The stack pointer indexes page 1, 0x0100 to
/// 0x01FF, and wraps within it.
#[derive(Debug, Clone, Copy, PartialEq, Eq, Structural)]
pub struct NMOS6502 {
    pub a: u8,
    pub x: u8,
    pub y: u8,
    pub sp: u8,
    pub pc: u16,
    pub p_flags: PFlag,
}

impl NMOS6502 {
    /// The registers at power-on: all zero, but for the unused flag, which
    /// reads 1.
    pub open spec fn power_on() -> NMOS6502 {
        NMOS6502 {
            a: 0,
            x: 0,
            y: 0,
            sp: 0,
            pc: 0,
            p_flags: PFlag { unused: true, ..PFlag::spec_empty() },
        }
    }

    /// The unused flag reads 1.
    pub open spec fn wf(self) -> bool {
        self.p_flags.unused
    }

    /// The machine that these registers make with a memory and a picture
    /// unit.
    pub open spec fn with(self, mem: MemModel, ppu: PpuModel) -> Machine {
        Machine { cpu: self, mem, ppu }
    }

    /// The CPU at power-on.
    pub fn new() -> (cpu: NMOS6502)
        ensures
            cpu == Self::power_on(),
            cpu.wf(),
    {
        let mut p_flags = PFlag::empty();
        p_flags.unused = true;
        NMOS6502 { a: 0u8, x: 0u8, y: 0u8, sp: 0u8, pc: 0u16, p_flags }
    }

    /// Loads the program counter from the reset vector at 0xFFFC and sets
    /// InterruptDisable and the unused flag. Where the vector cannot be read,
    /// that halt is returned and nothing changes.
    pub fn reset(&mut self, mem: &Memory, ppu: &mut PPU) -> (r: Result<(), ExecutionHalt>)
        ensures
            old(self).with(mem@, old(ppu)@).reset().came_out(r, *final(self), mem@, final(ppu)@),
    {
        match self.read16(mem, ppu, RESET_VECTOR) {
            Ok(vector) => {
                self.pc = vector;
                self.p_flags.interrupt = true;
                self.p_flags.unused = true;
                Ok(())
            },
            Err(e) => Err(e),
        }
    }

    /// Services an NMI: pushes the program counter and then the flags, with
    /// Break clear, sets InterruptDisable and continues at the handler that
    /// the vector at 0xFFFA names. Where the vector cannot be read, that halt
    /// is returned and nothing changes.
    pub fn nmi(&mut self, mem: &mut Memory, ppu: &mut PPU) -> (r: Result<(), ExecutionHalt>)
        ensures
            old(self).with(old(mem)@, old(ppu)@).nmi().came_out(
                r,
                *final(self),
                final(mem)@,
                final(ppu)@,
            ),
    {
        match self.read16(mem, ppu, NMI_VECTOR) {
            Ok(vector) => {
                self.push16(mem, self.pc);
                let mut pushed = self.p_flags;
                pushed.brk = false;
                self.push8(mem, pushed.bits());
                self.p_flags.interrupt = true;
                self.pc = vector;
                Ok(())
            },
            Err(e) => Err(e),
        }
    }

    /// One instruction: decodes at the program counter, which moves past the
    /// instruction, then executes.
    pub fn step(&mut self, mem: &mut Memory, ppu: &mut PPU) -> (r: Result<(), ExecutionHalt>)
        ensures
            old(self).with(old(mem)@, old(ppu)@).step().came_out(
                r,
                *final(self),
                final(mem)@,
                final(ppu)@,
            ),
    {
        match Instruction::get(self, mem, ppu) {
            Ok((_, inst)) => self.execute(mem, ppu, inst),
            Err(e) => Err(e),
        }
    }

    /// Executes a decoded instruction, with the program counter already past
    /// it.
    pub fn execute(
        &mut self,
        mem: &mut Memory,
        ppu: &mut PPU,
        inst: Instruction,
    ) -> (r: Result<(), ExecutionHalt>)
        ensures
            old(self).with(old(mem)@, old(ppu)@).execute(inst).came_out(
                r,
                *final(self),
                final(mem)@,
                final(ppu)@,
            ),
    {
        let op = inst.0;
        match inst.1 {
            Value::Implied => self.execute_implied(mem, Ghost(ppu@), op),
            Value::Immediate(val) => {
                if op.takes_operand() {
                    self.apply(op, val);
                    Ok(())
                } else {
                    Err(ExecutionHalt::UnimplementedInstruction(inst))
                }
            },
            Value::Relative(offset) => {
                if op.is_branch() {
                    if self.takes_branch(op) {
                        self.pc = self.pc.wrapping_add_signed(offset as i16);
                    }
                    Ok(())
                } else {
                    Err(ExecutionHalt::UnimplementedInstruction(inst))
                }
            },
            Value::ZeroPage(zp) => match op {
                Opcode::LDA | Opcode::BIT => self.apply_at(mem, ppu, op, zp as u16),
                Opcode::STA => self.write8(mem, ppu, zp as u16, self.a),
                Opcode::STX => self.write8(mem, ppu, zp as u16, self.x),
                _ => Err(ExecutionHalt::UnimplementedInstruction(inst)),
            },
            Value::Absolute(addr) => match op {
                Opcode::LDA | Opcode::LDX => self.apply_at(mem, ppu, op, addr),
                Opcode::STA => self.write8(mem, ppu, addr, self.a),
                Opcode::STX => self.write8(mem, ppu, addr, self.x),
                Opcode::JMP => {
                    self.pc = addr;
                    Ok(())
                },
                Opcode::JSR => {
                    self.push16(mem, self.pc.wrapping_sub(1));
                    self.pc = addr;
                    Ok(())
                },
                _ => Err(ExecutionHalt::UnimplementedInstruction(inst)),
            },
            _ => Err(ExecutionHalt::UnimplementedInstruction(inst)),
        }
    }

    /// The implied instructions. None of them reaches the picture unit, whose
    /// state is passed for the contract's sake only.
    fn execute_implied(
        &mut self,
        mem: &mut Memory,
        Ghost(ppu): Ghost<PpuModel>,
        op: Opcode,
    ) -> (r: Result<(), ExecutionHalt>)
        ensures
            old(self).with(old(mem)@, ppu).execute_implied(op).came_out(
                r,
                *final(self),
                final(mem)@,
                ppu,
            ),
    {
        match op {
            Opcode::PHA => {
                self.push8(mem, self.a);
                Ok(())
            },
            Opcode::PHP => {
                self.push8(mem, self.p_flags.bits());
                Ok(())
            },
            Opcode::PLA => {
                self.pull_a(mem, Ghost(ppu));
                Ok(())
            },
            Opcode::PLP => {
                self.pull_flags(mem, Ghost(ppu));
                Ok(())
            },
            Opcode::RTS => {
                self.return_from_subroutine(mem, Ghost(ppu));
                Ok(())
            },
            Opcode::RTI => {
                self.return_from_interrupt(mem, Ghost(ppu));
                Ok(())
            },
            _ => {
                if op.is_register_op() {
                    self.apply(op, 0);
                    Ok(())
                } else {
                    Err(ExecutionHalt::UnimplementedInstruction(Instruction(op, Value::Implied)))
                }
            },
        }
    }

    /// PLA: pulls the accumulator.
    fn pull_a(&mut self, mem: &Memory, Ghost(ppu): Ghost<PpuModel>)
        ensures
            old(self).with(mem@, ppu).execute_implied(Opcode::PLA).next == final(self).with(
                mem@,
                ppu,
            ),
    {
        let val: u8 = self.pop8(mem);
        self.apply(Opcode::LDA, val);
    }

    /// PLP: pulls the flags, but for bits 4 and 5.
    fn pull_flags(&mut self, mem: &Memory, Ghost(ppu): Ghost<PpuModel>)
        ensures
            old(self).with(mem@, ppu).execute_implied(Opcode::PLP).next == final(self).with(
                mem@,
                ppu,
            ),
    {
        let val: u8 = self.pop8(mem);
        self.p_flags = PFlag::from_bits(val & 0b1100_1111);
        self.p_flags.unused = true;
    }

    /// RTS: pulls the return address and continues one past it.
    fn return_from_subroutine(&mut self, mem: &Memory, Ghost(ppu): Ghost<PpuModel>)
        ensures
            old(self).with(mem@, ppu).execute_implied(Opcode::RTS).next == final(self).with(
                mem@,
                ppu,
            ),
    {
        let ret: u16 = self.pop16(mem);
        self.pc = ret.wrapping_add(1);
    }

    /// RTI: pulls the flags and then the address to continue at.
    #[verifier::rlimit(50)]
    fn return_from_interrupt(&mut self, mem: &Memory, Ghost(ppu): Ghost<PpuModel>)
        ensures
            old(self).with(mem@, ppu).execute_implied(Opcode::RTI).next == final(self).with(
                mem@,
                ppu,
            ),
    {
        let val: u8 = self.pop8(mem);
        let ret: u16 = self.pop16(mem);
        self.p_flags = PFlag::from_bits(val);
        self.p_flags.unused = true;
        self.pc = ret;
    }

    /// Reads the operand at `addr` and carries out `op` on it.
    fn apply_at(
        &mut self,
        mem: &Memory,
        ppu: &mut PPU,
        op: Opcode,
        addr: u16,
    ) -> (r: Result<(), ExecutionHalt>)
        ensures
            old(self).with(mem@, old(ppu)@).operate_at(op, addr).came_out(
                r,
                *final(self),
                mem@,
                final(ppu)@,
            ),
    {
        match self.read8(mem, ppu, addr) {
            Ok(val) => {
                self.apply(op, val);
                Ok(())
            },
            Err(e) => Err(e),
        }
    }

    /// Whether the branch `op` is taken under the current flags.
    fn takes_branch(&self, op: Opcode) -> (taken: bool)
        ensures
            taken == branch_taken(op, self.p_flags),
    {
        match op {
            Opcode::BPL => !self.p_flags.negative,
            Opcode::BMI => self.p_flags.negative,
            Opcode::BVC => !self.p_flags.overflow,
            Opcode::BVS => self.p_flags.overflow,
            Opcode::BCC => !self.p_flags.carry,
            Opcode::BCS => self.p_flags.carry,
            Opcode::BNE => !self.p_flags.zero,
            Opcode::BEQ => self.p_flags.zero,
            _ => false,
        }
    }

    /// A bus read.
    pub fn read8(&self, mem: &Memory, ppu: &mut PPU, addr: u16) -> (r: Result<u8, ExecutionHalt>)
        ensures
            self.with(mem@, old(ppu)@).read(addr).came_out(r, *self, mem@, final(ppu)@),
    {
        mem.read8(ppu, addr)
    }

    /// A bus write.
    pub fn write8(
        &self,
        mem: &mut Memory,
        ppu: &mut PPU,
        addr: u16,
        val: u8,
    ) -> (r: Result<(), ExecutionHalt>)
        ensures
            self.with(old(mem)@, old(ppu)@).write(addr, val).came_out(
                r,
                *self,
                final(mem)@,
                final(ppu)@,
            ),
    {
        mem.write8(ppu, addr, val)
    }

    /// Reads the byte at the program counter and moves the counter past it.
    pub fn read8_pc(&mut self, mem: &Memory, ppu: &mut PPU) -> (r: Result<u8, ExecutionHalt>)
        ensures
            old(self).with(mem@, old(ppu)@).fetch8().came_out(r, *final(self), mem@, final(ppu)@),
    {
        match self.read8(mem, ppu, self.pc) {
            Ok(byte) => {
                self.pc = self.pc.wrapping_add(1);
                Ok(byte)
            },
            Err(e) => Err(e),
        }
    }

    /// Reads the little-endian word at `addr` over the bus, the low byte
    /// first.
    pub fn read16(&self, mem: &Memory, ppu: &mut PPU, addr: u16) -> (r: Result<u16, ExecutionHalt>)
        ensures
            self.with(mem@, old(ppu)@).read_word(addr).came_out(r, *self, mem@, final(ppu)@),
    {
        let lo: u8 = match self.read8(mem, ppu, addr) {
            Ok(lo) => lo,
            Err(e) => {
                return Err(e);
            },
        };
        match self.read8(mem, ppu, addr.wrapping_add(1)) {
            Ok(hi) => Ok((hi as u16) * 256 + (lo as u16)),
            Err(e) => Err(e),
        }
    }

    /// Reads the little-endian word at the program counter and moves the
    /// counter past it.
    pub fn read16_pc(&mut self, mem: &Memory, ppu: &mut PPU) -> (r: Result<u16, ExecutionHalt>)
        ensures
            old(self).with(mem@, old(ppu)@).fetch16().came_out(r, *final(self), mem@, final(ppu)@),
    {
        match self.read16(mem, ppu, self.pc) {
            Ok(w) => {
                self.pc = self.pc.wrapping_add(2);
                Ok(w)
            },
            Err(e) => Err(e),
        }
    }

    /// Pushes a byte onto the stack: it is stored at the stack pointer, which
    /// then moves down.
    pub fn push8(&mut self, mem: &mut Memory, val: u8)
        ensures
            *final(self) == (NMOS6502 { sp: old(self).sp.wrapping_sub(1), ..*old(self) }),
            final(mem)@ == old(mem)@.stacked(old(self).sp, val),
    {
        let at: usize = 0x100 + self.sp as usize;
        mem.ram[at] = val;
        self.sp = self.sp.wrapping_sub(1);
    }

    /// Pushes a word onto the stack, high byte first.
    pub fn push16(&mut self, mem: &mut Memory, val: u16)
        ensures
            *final(self) == (NMOS6502 { sp: old(self).sp.wrapping_sub(2), ..*old(self) }),
            final(mem)@ == old(mem)@.stacked(old(self).sp, (val / 256) as u8).stacked(
                old(self).sp.wrapping_sub(1),
                (val % 256) as u8,
            ),
    {
        self.push8(mem, (val / 256) as u8);
        self.push8(mem, (val % 256) as u8);
    }

    /// Pulls a byte off the stack: the stack pointer moves up, and the byte is
    /// read at it.
    pub fn pop8(&mut self, mem: &Memory) -> (val: u8)
        ensures
            *final(self) == (NMOS6502 { sp: old(self).sp.wrapping_add(1), ..*old(self) }),
            val == mem@.stack_at(final(self).sp),
    {
        self.sp = self.sp.wrapping_add(1);
        mem.ram[0x100 + self.sp as usize]
    }

    /// Pulls a word off the stack, low byte first.
    pub fn pop16(&mut self, mem: &Memory) -> (val: u16)
        ensures
            *final(self) == (NMOS6502 { sp: old(self).sp.wrapping_add(2), ..*old(self) }),
            val == word(
                mem@.stack_at(old(self).sp.wrapping_add(1)),
                mem@.stack_at(old(self).sp.wrapping_add(2)),
            ),
    {
        let lo: u8 = self.pop8(mem);
        let hi: u8 = self.pop8(mem);
        (hi as u16) * 256 + (lo as u16)
    }

    /// Overrides the program counter.
    pub fn set_pc(&mut self, val: u16)
        ensures
            *final(self) == (NMOS6502 { pc: val, ..*old(self) }),
    {
        self.pc = val;
    }

    /// Overrides the stack pointer.
    pub fn set_sp(&mut self, val: u8)
        ensures
            *final(self) == (NMOS6502 { sp: val, ..*old(self) }),
    {
        self.sp = val;
    }
}

} // verus!
