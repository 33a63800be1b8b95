//! The machine as a mathematical value, and what one instruction does to it.
//!
//! The executable interpreter is specified against the functions of this
//! module: each of its functions leaves the CPU, the bus memory and the picture
//! unit in the state that the function of the same name gives here.

use crate::alu::{is_operand_op, is_register_op};
use crate::cpu::NMOS6502;
use crate::flags::PFlag;
use crate::halt::ExecutionHalt;
use crate::inst::{is_branch, word, Instruction, Mode, Opcode, Value};
use crate::mem::MemModel;
use crate::ppu::PpuModel;
use vstd::prelude::*;

verus! {

/// Where the address of the NMI handler is kept.
pub const NMI_VECTOR: u16 = 0xFFFA;

/// Where the address of the reset handler is kept.
pub const RESET_VECTOR: u16 = 0xFFFC;

/// The CPU with everything it can reach over the bus.
pub ghost struct Machine {
    pub cpu: NMOS6502,
    pub mem: MemModel,
    pub ppu: PpuModel,
}

/// How a fallible operation came out, and the machine it left behind.
pub ghost struct Outcome<T> {
    pub result: Result<T, ExecutionHalt>,
    pub next: Machine,
}

/// A value taken from the machine, and the machine it left behind.
pub ghost struct Taken<T> {
    pub value: T,
    pub next: Machine,
}

impl<T> Outcome<T> {
    /// Whether `result`, `cpu`, `mem` and `ppu` are this outcome.
    pub open spec fn came_out(
        self,
        result: Result<T, ExecutionHalt>,
        cpu: NMOS6502,
        mem: MemModel,
        ppu: PpuModel,
    ) -> bool {
        self.result == result && self.next == (Machine { cpu, mem, ppu })
    }
}

/// Success, leaving `next`.
pub open spec fn done(next: Machine) -> Outcome<()> {
    Outcome { result: Ok(()), next }
}

/// A halt for `e`, leaving `next`.
pub open spec fn halted<T>(e: ExecutionHalt, next: Machine) -> Outcome<T> {
    Outcome { result: Err(e), next }
}

/// Whether a branch `op` is taken under the flags `p`.
pub open spec fn branch_taken(op: Opcode, p: PFlag) -> bool {
    match op {
        Opcode::BPL => !p.negative,
        Opcode::BMI => p.negative,
        Opcode::BVC => !p.overflow,
        Opcode::BVS => p.overflow,
        Opcode::BCC => !p.carry,
        Opcode::BCS => p.carry,
        Opcode::BNE => !p.zero,
        Opcode::BEQ => p.zero,
        _ => false,
    }
}

/// Where a taken branch goes: `offset` away from `pc`, the address after the
/// branch instruction, wrapping at 16 bits.
pub open spec fn branch_target(pc: u16, offset: i8) -> u16 {
    pc.wrapping_add_signed(offset as i16)
}

/// Whether the interpreter has a handler for `inst`. It has one for every
/// implied, immediate and relative instruction that the decoder produces, and
/// for some of the zero-page and absolute ones.
pub open spec fn has_handler(inst: Instruction) -> bool {
    let op = inst.0;
    match inst.1 {
        Value::Implied => {
            ||| is_register_op(op)
            ||| op == Opcode::PHA
            ||| op == Opcode::PHP
            ||| op == Opcode::PLA
            ||| op == Opcode::PLP
            ||| op == Opcode::RTS
            ||| op == Opcode::RTI
        },
        Value::Immediate(_) => is_operand_op(op),
        Value::Relative(_) => is_branch(op),
        Value::ZeroPage(_) => {
            op == Opcode::LDA || op == Opcode::BIT || op == Opcode::STA || op == Opcode::STX
        },
        Value::Absolute(_) => {
            ||| op == Opcode::LDA
            ||| op == Opcode::LDX
            ||| op == Opcode::STA
            ||| op == Opcode::STX
            ||| op == Opcode::JMP
            ||| op == Opcode::JSR
        },
        _ => false,
    }
}

impl Machine {
    /// The CPU's unused flag reads 1, and the memory and the picture unit are
    /// well formed.
    pub open spec fn wf(self) -> bool {
        &&& self.cpu.p_flags.unused
        &&& self.mem.wf()
        &&& self.ppu.wf()
    }

    /// The machine with other registers.
    pub open spec fn with_cpu(self, cpu: NMOS6502) -> Machine {
        Machine { cpu, ..self }
    }

    /// The machine with the program counter at `pc`.
    pub open spec fn at(self, pc: u16) -> Machine {
        self.with_cpu(NMOS6502 { pc, ..self.cpu })
    }

    /// A bus read of `addr`: what the memory gives with the picture unit as it
    /// is, and the picture unit after the read.
    pub open spec fn read(self, addr: u16) -> Outcome<u8> {
        Outcome {
            result: self.mem.read(self.ppu, addr),
            next: Machine { ppu: MemModel::ppu_after_read(self.ppu, addr), ..self },
        }
    }

    /// A bus write of `val` to `addr`: whether the bus takes it, and the memory
    /// and the picture unit after it.
    pub open spec fn write(self, addr: u16, val: u8) -> Outcome<()> {
        Outcome {
            result: MemModel::write_result(addr),
            next: Machine {
                mem: self.mem.after_write(addr, val),
                ppu: MemModel::ppu_after_write(self.ppu, addr, val),
                ..self
            },
        }
    }

    /// A bus read of the little-endian word at `addr`: the low byte first.
    pub open spec fn read_word(self, addr: u16) -> Outcome<u16> {
        let lo = self.read(addr);
        match lo.result {
            Err(e) => halted(e, lo.next),
            Ok(l) => {
                let hi = lo.next.read(addr.wrapping_add(1));
                match hi.result {
                    Err(e) => halted(e, hi.next),
                    Ok(h) => Outcome { result: Ok(word(l, h)), next: hi.next },
                }
            },
        }
    }

    /// Reads the byte at the program counter and moves the counter past it.
    pub open spec fn fetch8(self) -> Outcome<u8> {
        let byte = self.read(self.cpu.pc);
        if byte.result is Ok {
            Outcome { result: byte.result, next: byte.next.at(self.cpu.pc.wrapping_add(1)) }
        } else {
            byte
        }
    }

    /// Reads the word at the program counter and moves the counter past it.
    pub open spec fn fetch16(self) -> Outcome<u16> {
        let w = self.read_word(self.cpu.pc);
        if w.result is Ok {
            Outcome { result: w.result, next: w.next.at(self.cpu.pc.wrapping_add(2)) }
        } else {
            w
        }
    }

    /// Pushes a byte: it is written at the stack pointer, which then moves
    /// down, wrapping within the stack page.
    pub open spec fn push8(self, val: u8) -> Machine {
        Machine {
            cpu: NMOS6502 { sp: self.cpu.sp.wrapping_sub(1), ..self.cpu },
            mem: self.mem.stacked(self.cpu.sp, val),
            ..self
        }
    }

    /// Pulls a byte: the stack pointer moves up, wrapping within the stack
    /// page, and the byte is read at it.
    pub open spec fn pop8(self) -> Taken<u8> {
        let sp = self.cpu.sp.wrapping_add(1);
        Taken { value: self.mem.stack_at(sp), next: self.with_cpu(NMOS6502 { sp, ..self.cpu }) }
    }

    /// Pushes a word, high byte first.
    pub open spec fn push16(self, val: u16) -> Machine {
        self.push8((val / 256) as u8).push8((val % 256) as u8)
    }

    /// Pulls a word, low byte first.
    pub open spec fn pop16(self) -> Taken<u16> {
        let lo = self.pop8();
        let hi = lo.next.pop8();
        Taken { value: word(lo.value, hi.value), next: hi.next }
    }

    /// Fetches the operand that `mode` asks for and gives the decoded
    /// instruction with its length.
    pub open spec fn fetch_operand(self, op: Opcode, mode: Mode) -> Outcome<(u16, Instruction)> {
        match mode {
            Mode::Implied => Outcome {
                result: Ok((1u16, Instruction(op, Value::Implied))),
                next: self,
            },
            Mode::Absolute | Mode::AbsoluteX => {
                let w = self.fetch16();
                match w.result {
                    Err(e) => halted(e, w.next),
                    Ok(v) => Outcome {
                        result: Ok((3u16, Instruction(op, Value::spec_of_word(mode, v)))),
                        next: w.next,
                    },
                }
            },
            _ => {
                let b = self.fetch8();
                match b.result {
                    Err(e) => halted(e, b.next),
                    Ok(v) => Outcome {
                        result: Ok((2u16, Instruction(op, Value::spec_of_byte(mode, v)))),
                        next: b.next,
                    },
                }
            },
        }
    }

    /// Decodes the instruction at the program counter and moves the counter
    /// past it. An opcode byte that the table does not hold decodes to
    /// `Unknown` with a length of 0, and the counter stays where it was.
    pub open spec fn decode(self) -> Outcome<(u16, Instruction)> {
        let opcode = self.fetch8();
        match opcode.result {
            Err(e) => halted(e, opcode.next),
            Ok(byte) => match Instruction::spec_lookup(byte) {
                None => Outcome {
                    result: Ok((0u16, Instruction(Opcode::Unknown(byte), Value::Implied))),
                    next: opcode.next.at(self.cpu.pc),
                },
                Some((op, mode)) => opcode.next.fetch_operand(op, mode),
            },
        }
    }

    /// The halt for an instruction without a handler. Nothing changes.
    pub open spec fn unimplemented(self, inst: Instruction) -> Outcome<()> {
        halted(ExecutionHalt::UnimplementedInstruction(inst), self)
    }

    /// An operation on the registers alone, or on a register and the operand
    /// `val`: it always succeeds, and changes the registers as `after_op`
    /// says.
    pub open spec fn operate(self, op: Opcode, val: u8) -> Outcome<()> {
        done(self.with_cpu(self.cpu.after_op(op, val)))
    }

    /// An operation whose operand is the byte at `addr`.
    pub open spec fn operate_at(self, op: Opcode, addr: u16) -> Outcome<()> {
        let operand = self.read(addr);
        match operand.result {
            Err(e) => halted(e, operand.next),
            Ok(val) => operand.next.operate(op, val),
        }
    }

    /// The implied instructions: the stack operations, the two returns, and
    /// the operations on registers.
    pub open spec fn execute_implied(self, op: Opcode) -> Outcome<()> {
        match op {
            Opcode::PHA => done(self.push8(self.cpu.a)),
            Opcode::PHP => done(self.push8(self.cpu.p_flags.spec_bits())),
            Opcode::PLA => {
                let top = self.pop8();
                top.next.operate(Opcode::LDA, top.value)
            },
            Opcode::PLP => {
                let top = self.pop8();
                done(
                    top.next.with_cpu(
                        NMOS6502 { p_flags: PFlag::pulled(top.value), ..top.next.cpu },
                    ),
                )
            },
            Opcode::RTS => {
                let ret = self.pop16();
                done(ret.next.at(ret.value.wrapping_add(1)))
            },
            Opcode::RTI => {
                let p = self.pop8();
                let ret = p.next.pop16();
                done(
                    ret.next.with_cpu(
                        NMOS6502 {
                            p_flags: PFlag::restored(p.value),
                            pc: ret.value,
                            ..ret.next.cpu
                        },
                    ),
                )
            },
            _ => if is_register_op(op) {
                self.operate(op, 0)
            } else {
                self.unimplemented(Instruction(op, Value::Implied))
            },
        }
    }

    /// The zero-page instructions.
    pub open spec fn execute_zero_page(self, op: Opcode, zp: u8) -> Outcome<()> {
        match op {
            Opcode::LDA | Opcode::BIT => self.operate_at(op, zp as u16),
            Opcode::STA => self.write(zp as u16, self.cpu.a),
            Opcode::STX => self.write(zp as u16, self.cpu.x),
            _ => self.unimplemented(Instruction(op, Value::ZeroPage(zp))),
        }
    }

    /// The absolute instructions. JSR pushes the address of its own last byte,
    /// which is the program counter less one.
    pub open spec fn execute_absolute(self, op: Opcode, addr: u16) -> Outcome<()> {
        match op {
            Opcode::LDA | Opcode::LDX => self.operate_at(op, addr),
            Opcode::STA => self.write(addr, self.cpu.a),
            Opcode::STX => self.write(addr, self.cpu.x),
            Opcode::JMP => done(self.at(addr)),
            Opcode::JSR => done(self.push16(self.cpu.pc.wrapping_sub(1)).at(addr)),
            _ => self.unimplemented(Instruction(op, Value::Absolute(addr))),
        }
    }

    /// Executes a decoded instruction. The program counter is taken to stand
    /// after the instruction already.
    pub open spec fn execute(self, inst: Instruction) -> Outcome<()> {
        let op = inst.0;
        match inst.1 {
            Value::Implied => self.execute_implied(op),
            Value::Immediate(val) => if is_operand_op(op) {
                self.operate(op, val)
            } else {
                self.unimplemented(inst)
            },
            Value::Relative(offset) => if is_branch(op) {
                if branch_taken(op, self.cpu.p_flags) {
                    done(self.at(branch_target(self.cpu.pc, offset)))
                } else {
                    done(self)
                }
            } else {
                self.unimplemented(inst)
            },
            Value::ZeroPage(zp) => self.execute_zero_page(op, zp),
            Value::Absolute(addr) => self.execute_absolute(op, addr),
            _ => self.unimplemented(inst),
        }
    }

    /// One instruction: decode at the program counter, then execute.
    pub open spec fn step(self) -> Outcome<()> {
        let decoded = self.decode();
        match decoded.result {
            Err(e) => halted(e, decoded.next),
            Ok(d) => decoded.next.execute(d.1),
        }
    }

    /// The machine after the picture unit's three dots for one instruction.
    pub open spec fn ticked(self) -> Machine {
        Machine { ppu: self.ppu.tick().tick().tick(), ..self }
    }

    /// Whether one of the picture unit's next three dots raises the NMI.
    pub open spec fn nmi_due(self) -> bool {
        ||| self.ppu.raises_nmi()
        ||| self.ppu.tick().raises_nmi()
        ||| self.ppu.tick().tick().raises_nmi()
    }

    /// One turn of the coordinator: the CPU executes an instruction; if it
    /// does so without a halt, the picture unit runs its three dots, and if one
    /// of them raised the NMI, the CPU takes the interrupt at this boundary.
    pub open spec fn turn(self) -> Outcome<()> {
        let stepped = self.step();
        if stepped.result is Err {
            stepped
        } else if stepped.next.nmi_due() {
            stepped.next.ticked().nmi()
        } else {
            done(stepped.next.ticked())
        }
    }

    /// `n` turns of the coordinator, or as many as come before the first halt.
    pub open spec fn turns(self, n: nat) -> Outcome<()>
        decreases n,
    {
        if n == 0 {
            done(self)
        } else {
            let first = self.turn();
            if first.result is Err {
                first
            } else {
                first.next.turns((n - 1) as nat)
            }
        }
    }

    /// Reset: the program counter is loaded from the reset vector, and
    /// InterruptDisable and the unused flag are set. Where the vector cannot
    /// be read, nothing changes.
    pub open spec fn reset(self) -> Outcome<()> {
        let vector = self.read_word(RESET_VECTOR);
        match vector.result {
            Err(e) => halted(e, self),
            Ok(pc) => done(
                self.with_cpu(
                    NMOS6502 {
                        pc,
                        p_flags: PFlag { interrupt: true, unused: true, ..self.cpu.p_flags },
                        ..self.cpu
                    },
                ),
            ),
        }
    }

    /// The interrupt sequence of an NMI: the program counter and then the
    /// flags, with Break clear, are pushed; InterruptDisable is set; the
    /// program counter is loaded from the NMI vector. Where the vector cannot
    /// be read, nothing changes.
    pub open spec fn nmi(self) -> Outcome<()> {
        let vector = self.read_word(NMI_VECTOR);
        match vector.result {
            Err(e) => halted(e, self),
            Ok(pc) => {
                let pushed = self.push16(self.cpu.pc).push8(
                    (PFlag { brk: false, ..self.cpu.p_flags }).spec_bits(),
                );
                done(
                    pushed.with_cpu(
                        NMOS6502 {
                            pc,
                            p_flags: PFlag { interrupt: true, ..pushed.cpu.p_flags },
                            ..pushed.cpu
                        },
                    ),
                )
            },
        }
    }
}

} // verus!
