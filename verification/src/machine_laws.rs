//! What every step of the interpreter leaves alone, and what it keeps well
//! formed.

use crate::alu::{is_arith, is_flag_op, is_load, is_step, is_transfer};
use crate::cpu::NMOS6502;
use crate::flags::PFlag;
use crate::halt::ExecutionHalt;
use crate::inst::{Instruction, Mode, Opcode, Value};
use crate::machine::{has_handler, Machine};
use crate::ppu::PpuModel;
use crate::ppu_laws::{lemma_port_access_keeps_wf, lemma_run_keeps_wf};
use vstd::prelude::*;

verus! {

/// A bus read touches neither the registers nor the memory, keeps a
/// well-formed machine well formed, and changes nothing at all where it halts.
pub proof fn lemma_read_frame(m: Machine, addr: u16)
    ensures
        m.read(addr).next.cpu == m.cpu,
        m.read(addr).next.mem == m.mem,
        m.read(addr).result is Err ==> m.read(addr).next == m,
        m.wf() ==> m.read(addr).next.wf(),
{
    if m.wf() {
        lemma_port_access_keeps_wf(m.ppu, addr, 0);
    }
}

/// A bus write touches neither the registers nor the cartridge, keeps a
/// well-formed machine well formed, and changes nothing at all where it halts.
pub proof fn lemma_write_frame(m: Machine, addr: u16, val: u8)
    ensures
        m.write(addr, val).next.cpu == m.cpu,
        m.write(addr, val).next.mem.cart == m.mem.cart,
        m.write(addr, val).result is Err ==> m.write(addr, val).next == m,
        m.wf() ==> m.write(addr, val).next.wf(),
{
    if m.wf() {
        lemma_port_access_keeps_wf(m.ppu, addr, val);
    }
}

/// No operation on the registers touches the program counter, the unused flag
/// or Break.
pub proof fn lemma_op_frame(cpu: NMOS6502, op: Opcode, val: u8)
    ensures
        cpu.after_op(op, val).pc == cpu.pc,
        cpu.after_op(op, val).p_flags.unused == cpu.p_flags.unused,
        cpu.after_op(op, val).p_flags.brk == cpu.p_flags.brk,
{
    if is_load(op) {
    } else if is_transfer(op) {
    } else if is_arith(op) {
    } else if is_step(op) {
    } else if is_flag_op(op) {
    } else {
    }
}

/// An operation on the registers always succeeds, and touches nothing but the
/// registers.
pub proof fn lemma_operate_frame(m: Machine, op: Opcode, val: u8)
    ensures
        m.operate(op, val).result is Ok,
        m.operate(op, val).next == m.with_cpu(m.cpu.after_op(op, val)),
        m.wf() ==> m.operate(op, val).next.wf(),
{
    lemma_op_frame(m.cpu, op, val);
}

/// The stack touches nothing but the stack pointer and work RAM, and keeps a
/// well-formed machine well formed.
pub proof fn lemma_stack_frame(m: Machine, val: u8)
    ensures
        m.push8(val).cpu == (NMOS6502 { sp: m.cpu.sp.wrapping_sub(1), ..m.cpu }),
        m.push8(val).mem.cart == m.mem.cart,
        m.push8(val).ppu == m.ppu,
        m.pop8().next == m.with_cpu(NMOS6502 { sp: m.cpu.sp.wrapping_add(1), ..m.cpu }),
        m.wf() ==> m.push8(val).wf() && m.pop8().next.wf(),
{
}

/// The same of words.
pub proof fn lemma_stack_frame_word(m: Machine, val: u16)
    ensures
        m.push16(val).cpu == (NMOS6502 { sp: m.cpu.sp.wrapping_sub(2), ..m.cpu }),
        m.push16(val).mem.cart == m.mem.cart,
        m.push16(val).ppu == m.ppu,
        m.pop16().next == m.with_cpu(NMOS6502 { sp: m.cpu.sp.wrapping_add(2), ..m.cpu }),
        m.wf() ==> m.push16(val).wf() && m.pop16().next.wf(),
{
    lemma_stack_frame(m, (val / 256) as u8);
    lemma_stack_frame(m.push8((val / 256) as u8), (val % 256) as u8);
    lemma_stack_frame(m.pop8().next, 0);
}

/// What is pushed is pulled: a pull after a push gives the byte back and
/// leaves the stack pointer where it was; likewise for a word.
pub proof fn lemma_push_pop(m: Machine, byte: u8, w: u16)
    requires
        m.mem.ram.len() == 0x800,
    ensures
        m.push8(byte).pop8().value == byte,
        m.push8(byte).pop8().next.cpu == m.cpu,
        m.push16(w).pop16().value == w,
        m.push16(w).pop16().next.cpu == m.cpu,
{
}

/// Fetching a byte moves the program counter by one, or not at all where the
/// read halts, and touches nothing else but, through the read, the picture
/// unit.
pub proof fn lemma_fetch8_frame(m: Machine)
    ensures
        m.fetch8().next.mem == m.mem,
        m.fetch8().result is Ok ==> m.fetch8().next.cpu == (NMOS6502 {
            pc: m.cpu.pc.wrapping_add(1),
            ..m.cpu
        }),
        m.fetch8().result is Err ==> m.fetch8().next == m,
        m.wf() ==> m.fetch8().next.wf(),
{
    lemma_read_frame(m, m.cpu.pc);
}

/// Fetching a word moves the program counter by two, or not at all where a
/// read halts, and touches nothing else but, through the reads, the picture
/// unit.
pub proof fn lemma_fetch16_frame(m: Machine)
    ensures
        m.fetch16().next.mem == m.mem,
        m.fetch16().result is Ok ==> m.fetch16().next.cpu == (NMOS6502 {
            pc: m.cpu.pc.wrapping_add(2),
            ..m.cpu
        }),
        m.fetch16().result is Err ==> m.fetch16().next.cpu == m.cpu,
        m.wf() ==> m.fetch16().next.wf(),
{
    lemma_read_frame(m, m.cpu.pc);
    lemma_read_frame(m.read(m.cpu.pc).next, m.cpu.pc.wrapping_add(1));
}

/// The opcode table holds no `Unknown`.
pub proof fn lemma_lookup_knows(byte: u8)
    ensures
        Instruction::spec_lookup(byte) matches Some(entry) ==> !(entry.0 is Unknown),
{
}

/// Fetching the operand moves the program counter past it and reports the
/// instruction's length.
pub proof fn lemma_fetch_operand_frame(m: Machine, op: Opcode, mode: Mode)
    ensures
        m.fetch_operand(op, mode).next.mem == m.mem,
        m.fetch_operand(op, mode).next.cpu == (NMOS6502 {
            pc: m.fetch_operand(op, mode).next.cpu.pc,
            ..m.cpu
        }),
        m.fetch_operand(op, mode).result matches Ok(d) ==> {
            &&& d.1.0 == op
            &&& d.1.1.mode() == mode
            &&& d.0 == d.1.len()
            &&& m.fetch_operand(op, mode).next.cpu.pc == m.cpu.pc.wrapping_add(mode.operand_len())
        },
        m.wf() ==> m.fetch_operand(op, mode).next.wf(),
{
    lemma_fetch8_frame(m);
    lemma_fetch16_frame(m);
}

/// The decoder touches no register but the program counter, which it moves
/// by the length that it reports: the instruction's length, or 0 for an
/// unknown opcode. It touches no memory, and keeps a well-formed machine well
/// formed.
pub proof fn lemma_decode_frame(m: Machine)
    ensures
        m.decode().next.mem == m.mem,
        m.decode().next.cpu == (NMOS6502 { pc: m.decode().next.cpu.pc, ..m.cpu }),
        m.decode().result matches Ok(d) ==> {
            &&& m.decode().next.cpu.pc == m.cpu.pc.wrapping_add(d.0)
            &&& d.0 == if d.1.0 is Unknown {
                0
            } else {
                d.1.len()
            }
        },
        m.wf() ==> m.decode().next.wf(),
{
    lemma_fetch8_frame(m);
    let opcode = m.fetch8();
    if opcode.result is Ok {
        let byte = opcode.result->Ok_0;
        lemma_lookup_knows(byte);
        match Instruction::spec_lookup(byte) {
            None => {},
            Some((op, mode)) => {
                lemma_fetch_operand_frame(opcode.next, op, mode);
            },
        }
    }
}

/// An instruction halts as unimplemented exactly when it has no handler, and
/// then nothing changes.
pub proof fn lemma_unimplemented_iff_no_handler(m: Machine, inst: Instruction)
    ensures
        m.execute(inst).result is Err && m.execute(inst).result->Err_0
            is UnimplementedInstruction <==> !has_handler(inst),
        !has_handler(inst) ==> m.execute(inst) == m.unimplemented(inst),
{
    let op = inst.0;
    lemma_operate_frame(m, op, 0);
    lemma_operate_frame(m.pop8().next, Opcode::LDA, m.pop8().value);
    match inst.1 {
        Value::Implied => {},
        Value::Immediate(val) => {
            lemma_operate_frame(m, op, val);
        },
        Value::ZeroPage(zp) => {
            lemma_access_halts(m, zp as u16, m.cpu.a);
            lemma_access_halts(m, zp as u16, m.cpu.x);
            let operand = m.read(zp as u16);
            lemma_operate_frame(operand.next, op, operand.result->Ok_0);
        },
        Value::Absolute(addr) => {
            lemma_access_halts(m, addr, m.cpu.a);
            lemma_access_halts(m, addr, m.cpu.x);
            let operand = m.read(addr);
            lemma_operate_frame(operand.next, op, operand.result->Ok_0);
        },
        _ => {},
    }
}

/// A bus access never halts as an unimplemented instruction.
pub proof fn lemma_access_halts(m: Machine, addr: u16, val: u8)
    ensures
        m.read(addr).result matches Err(e) ==> e is BusFault || e is UnsupportedMapper,
        m.write(addr, val).result matches Err(e) ==> e == ExecutionHalt::BusFault(addr),
{
}

/// An unknown opcode halts the step, and the machine's registers and memory
/// are as they were.
pub proof fn lemma_unknown_opcode_halts(m: Machine)
    requires
        m.decode().result is Ok,
        m.decode().result->Ok_0.1.0 is Unknown,
    ensures
        m.step().result == Err::<(), _>(
            ExecutionHalt::UnimplementedInstruction(m.decode().result->Ok_0.1),
        ),
        m.step().next.cpu == m.cpu,
        m.step().next.mem == m.mem,
{
    lemma_decode_frame(m);
    lemma_fetch8_frame(m);
    let opcode = m.fetch8();
    let byte = opcode.result->Ok_0;
    lemma_lookup_knows(byte);
    match Instruction::spec_lookup(byte) {
        None => {},
        Some((op, mode)) => {
            lemma_fetch_operand_frame(opcode.next, op, mode);
        },
    }
}

/// Execution keeps a well-formed machine well formed, and never changes the
/// cartridge.
pub proof fn lemma_execute_keeps_wf(m: Machine, inst: Instruction)
    requires
        m.wf(),
    ensures
        m.execute(inst).next.wf(),
        m.execute(inst).next.mem.cart == m.mem.cart,
{
    let op = inst.0;
    match inst.1 {
        Value::Implied => {
            lemma_implied_keeps_wf(m, op);
        },
        Value::Immediate(val) => {
            lemma_operate_frame(m, op, val);
        },
        Value::ZeroPage(zp) => {
            lemma_at_keeps_wf(m, op, zp as u16);
        },
        Value::Absolute(addr) => {
            lemma_at_keeps_wf(m, op, addr);
            lemma_stack_frame_word(m, m.cpu.pc.wrapping_sub(1));
        },
        _ => {},
    }
}

/// The implied instructions keep a well-formed machine well formed.
proof fn lemma_implied_keeps_wf(m: Machine, op: Opcode)
    requires
        m.wf(),
    ensures
        m.execute_implied(op).next.wf(),
        m.execute_implied(op).next.mem.cart == m.mem.cart,
{
    lemma_stack_frame(m, m.cpu.a);
    lemma_stack_frame(m, m.cpu.p_flags.spec_bits());
    lemma_stack_frame_word(m, 0);
    lemma_stack_frame_word(m.pop8().next, 0);
    lemma_operate_frame(m, op, 0);
    lemma_operate_frame(m.pop8().next, Opcode::LDA, m.pop8().value);
}

/// The instructions that read or write at an address keep a well-formed
/// machine well formed.
proof fn lemma_at_keeps_wf(m: Machine, op: Opcode, addr: u16)
    requires
        m.wf(),
    ensures
        m.operate_at(op, addr).next.wf(),
        m.operate_at(op, addr).next.mem.cart == m.mem.cart,
        m.write(addr, m.cpu.a).next.wf(),
        m.write(addr, m.cpu.a).next.mem.cart == m.mem.cart,
        m.write(addr, m.cpu.x).next.wf(),
        m.write(addr, m.cpu.x).next.mem.cart == m.mem.cart,
{
    lemma_read_frame(m, addr);
    lemma_write_frame(m, addr, m.cpu.a);
    lemma_write_frame(m, addr, m.cpu.x);
    let operand = m.read(addr);
    lemma_operate_frame(operand.next, op, operand.result->Ok_0);
}

/// A step keeps a well-formed machine well formed, and never changes the
/// cartridge. In particular the unused flag reads 1 after every instruction
/// that finds it so.
pub proof fn lemma_step_keeps_wf(m: Machine)
    requires
        m.wf(),
    ensures
        m.step().next.wf(),
        m.step().next.mem.cart == m.mem.cart,
{
    lemma_decode_frame(m);
    let d = m.decode();
    if d.result is Ok {
        lemma_execute_keeps_wf(d.next, d.result->Ok_0.1);
    }
}

/// Reset keeps a well-formed machine well formed and, whatever the state
/// before, leaves the unused flag and InterruptDisable set where the reset
/// vector can be read.
pub proof fn lemma_reset_sets_flags(m: Machine)
    ensures
        m.reset().result is Ok ==> m.reset().next.cpu.wf() && m.reset().next.cpu.p_flags.interrupt,
        m.reset().result is Err ==> m.reset().next == m,
        m.wf() ==> m.reset().next.wf(),
{
}

/// The interrupt sequence keeps a well-formed machine well formed.
pub proof fn lemma_nmi_keeps_wf(m: Machine)
    requires
        m.wf(),
    ensures
        m.nmi().next.wf(),
        m.nmi().next.mem.cart == m.mem.cart,
{
    lemma_stack_frame_word(m, m.cpu.pc);
    lemma_stack_frame(m.push16(m.cpu.pc), (PFlag { brk: false, ..m.cpu.p_flags }).spec_bits());
}

/// A turn of the coordinator keeps a well-formed machine well formed, and
/// never changes the cartridge.
pub proof fn lemma_turn_keeps_wf(m: Machine)
    requires
        m.wf(),
    ensures
        m.turn().next.wf(),
        m.turn().next.mem.cart == m.mem.cart,
{
    lemma_step_keeps_wf(m);
    let s = m.step().next;
    lemma_run_keeps_wf(s.ppu, 3);
    assert(s.ppu.run(3) == s.ppu.tick().tick().tick()) by {
        reveal_with_fuel(PpuModel::run, 4);
    }
    lemma_nmi_keeps_wf(s.ticked());
}

/// Any number of turns keeps a well-formed machine well formed, and never
/// changes the cartridge.
pub proof fn lemma_turns_keep_wf(m: Machine, n: nat)
    requires
        m.wf(),
    ensures
        m.turns(n).next.wf(),
        m.turns(n).next.mem.cart == m.mem.cart,
    decreases n,
{
    if n > 0 {
        lemma_turn_keeps_wf(m);
        if m.turn().result is Ok {
            lemma_turns_keep_wf(m.turn().next, (n - 1) as nat);
        }
    }
}

} // verus!
