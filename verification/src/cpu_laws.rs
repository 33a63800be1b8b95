//! What holds of the instructions for every state and every operand.

use crate::alu::{adc_sum, is_arith, is_load, is_step, is_transfer};
use crate::cpu::NMOS6502;
use crate::flags::PFlag;
use crate::halt::ExecutionHalt;
use crate::inst::{is_branch, signed, Instruction, Opcode, Value};
use crate::machine::{branch_taken, Machine, Taken};
use crate::machine_laws::{
    lemma_decode_frame, lemma_operate_frame, lemma_push_pop, lemma_read_frame,
    lemma_stack_frame, lemma_stack_frame_word,
};
use vstd::prelude::*;

verus! {

/// The register that `op` writes a result to, as it stands in `cpu`; `None`
/// for an operation that writes to none of A, X and Y.
pub open spec fn written(cpu: NMOS6502, op: Opcode) -> Option<u8> {
    match op {
        Opcode::LDA | Opcode::TXA | Opcode::TYA | Opcode::PLA | Opcode::AND | Opcode::ORA
        | Opcode::EOR | Opcode::ADC | Opcode::SBC | Opcode::ASL | Opcode::LSR | Opcode::ROL
        | Opcode::ROR => Some(cpu.a),
        Opcode::LDX | Opcode::TAX | Opcode::TSX | Opcode::INX | Opcode::DEX => Some(cpu.x),
        Opcode::LDY | Opcode::TAY | Opcode::INY | Opcode::DEY => Some(cpu.y),
        _ => None,
    }
}

/// Whether Zero and Negative describe `v`: Zero is set iff `v` is 0, Negative
/// iff bit 7 of `v` is 1.
pub open spec fn describes(p: PFlag, v: u8) -> bool {
    p.zero == (v == 0) && p.negative == (v & 0x80 != 0)
}

/// Zero and Negative follow every result. After an instruction that writes to
/// A, X or Y (a load, a transfer, a logic or arithmetic operation, an
/// increment or decrement, a shift or rotate, a pull) Zero is set iff the
/// register now holds 0, and Negative iff bit 7 of what it holds is 1.
#[verifier::rlimit(50)]
pub proof fn lemma_zero_negative_follow_result(m: Machine, inst: Instruction)
    requires
        m.execute(inst).result is Ok,
        written(m.cpu, inst.0) is Some,
    ensures
        describes(
            m.execute(inst).next.cpu.p_flags,
            written(m.execute(inst).next.cpu, inst.0)->Some_0,
        ),
{
    let op = inst.0;
    match inst.1 {
        Value::Implied => {
            if op == Opcode::PLA {
                let top = m.pop8();
                lemma_operate_frame(top.next, Opcode::LDA, top.value);
                lemma_zero_negative_follow_op(top.next.cpu, Opcode::LDA, top.value);
            } else {
                lemma_operate_frame(m, op, 0);
                lemma_zero_negative_follow_op(m.cpu, op, 0);
            }
        },
        Value::Immediate(val) => {
            lemma_operate_frame(m, op, val);
            lemma_zero_negative_follow_op(m.cpu, op, val);
        },
        Value::ZeroPage(zp) => {
            lemma_zero_negative_follow_read(m, op, zp as u16);
        },
        Value::Absolute(addr) => {
            lemma_zero_negative_follow_read(m, op, addr);
        },
        _ => {},
    }
}

/// The same of an operation on a byte that is read over the bus.
proof fn lemma_zero_negative_follow_read(m: Machine, op: Opcode, addr: u16)
    requires
        m.operate_at(op, addr).result is Ok,
        written(m.cpu, op) is Some,
        op != Opcode::PLA,
    ensures
        describes(
            m.operate_at(op, addr).next.cpu.p_flags,
            written(m.operate_at(op, addr).next.cpu, op)->Some_0,
        ),
{
    let operand = m.read(addr);
    lemma_read_frame(m, addr);
    lemma_operate_frame(operand.next, op, operand.result->Ok_0);
    lemma_zero_negative_follow_op(m.cpu, op, operand.result->Ok_0);
}

/// The same of the registers alone: whatever `op` writes to A, X or Y, Zero
/// and Negative describe it.
pub proof fn lemma_zero_negative_follow_op(cpu: NMOS6502, op: Opcode, val: u8)
    requires
        written(cpu, op) is Some,
        op != Opcode::PLA,
    ensures
        describes(cpu.after_op(op, val).p_flags, written(cpu.after_op(op, val), op)->Some_0),
{
    if is_load(op) {
    } else if is_transfer(op) {
    } else if is_arith(op) {
    } else if is_step(op) {
    }
}

/// Addition and subtraction undo each other: adding `b` with Carry clear and
/// then subtracting `b` with Carry set gives back the accumulator, whatever
/// the flags were and whether or not the addition overflowed.
pub proof fn lemma_adc_sbc_round_trip(cpu: NMOS6502, b: u8)
    ensures
        ({
            let clear = NMOS6502 { p_flags: cpu.p_flags.with_carry(false), ..cpu };
            let sum = clear.after_op(Opcode::ADC, b);
            let set = NMOS6502 { p_flags: sum.p_flags.with_carry(true), ..sum };
            set.after_op(Opcode::SBC, b).a == cpu.a
        }),
{
    let clear = NMOS6502 { p_flags: cpu.p_flags.with_carry(false), ..cpu };
    let sum = clear.after_adc(b);
    let set = NMOS6502 { p_flags: sum.p_flags.with_carry(true), ..sum };
    assert(clear.after_op(Opcode::ADC, b) == sum);
    assert(set.after_op(Opcode::SBC, b) == set.after_adc(b ^ 0xFF));
    assert(b ^ 0xFF == 255 - b) by (bit_vector);
    assert(sum.a == (cpu.a + b) % 256);
    assert(set.after_adc(b ^ 0xFF).a == (sum.a + (255 - b) + 1) % 256);
}

/// What ADC computes, in numbers: the accumulator is the sum modulo 256, Carry
/// says that the unsigned sum passed 255, and Overflow that the signed sum
/// left the range -128 to 127.
pub proof fn lemma_adc_in_numbers(cpu: NMOS6502, val: u8)
    ensures
        ({
            let after = cpu.after_op(Opcode::ADC, val);
            let carry = if cpu.p_flags.carry {
                1int
            } else {
                0int
            };
            let signed_sum = signed(cpu.a) + signed(val) + carry;
            &&& after.a == adc_sum(cpu.a, val, cpu.p_flags.carry) % 256
            &&& after.p_flags.carry == (cpu.a + val + carry > 255)
            &&& after.p_flags.overflow == (signed_sum < -128 || signed_sum > 127)
        }),
{
    let a = cpu.a;
    let c = cpu.p_flags.carry;
    let r = cpu.after_adc(val).a;
    assert(cpu.after_op(Opcode::ADC, val) == cpu.after_adc(val));
    assert(r == (a + val + if c { 1int } else { 0int }) % 256);
    lemma_sign_overflow(a, val, c, r);
}

/// The sign-bit test for overflow says what it should.
proof fn lemma_sign_overflow(a: u8, val: u8, c: bool, r: u8)
    by (bit_vector)
    requires
        r == (a + val + if c { 1u16 } else { 0u16 }) % 256,
    ensures
        ((a ^ r) & (val ^ r) & 0x80 != 0) == ({
            let sa = if a < 128 { a as int } else { a - 256 };
            let sv = if val < 128 { val as int } else { val - 256 };
            let s = sa + sv + if c { 1int } else { 0int };
            s < -128 || s > 127
        }),
{
}

/// What a compare computes: Carry says `reg >= val`, Zero says `reg == val`.
pub proof fn lemma_compare_in_numbers(cpu: NMOS6502, reg: u8, val: u8)
    ensures
        cpu.compared(reg, val).p_flags.carry == (reg >= val),
        cpu.compared(reg, val).p_flags.zero == (reg == val),
{
}

/// What the shifts compute, in numbers: a shift left doubles modulo 256, a
/// shift right halves, and Carry takes the bit that left.
pub proof fn lemma_shifts_in_numbers(cpu: NMOS6502)
    ensures
        cpu.after_op(Opcode::ASL, 0).a == (cpu.a * 2) % 256,
        cpu.after_op(Opcode::ASL, 0).p_flags.carry == (cpu.a >= 128),
        cpu.after_op(Opcode::LSR, 0).a == cpu.a / 2,
        cpu.after_op(Opcode::LSR, 0).p_flags.carry == (cpu.a % 2 == 1),
        cpu.after_op(Opcode::ROL, 0).a == (cpu.a * 2) % 256 + if cpu.p_flags.carry {
            1int
        } else {
            0int
        },
        cpu.after_op(Opcode::ROL, 0).p_flags.carry == (cpu.a >= 128),
        cpu.after_op(Opcode::ROR, 0).a == cpu.a / 2 + if cpu.p_flags.carry {
            128int
        } else {
            0int
        },
        cpu.after_op(Opcode::ROR, 0).p_flags.carry == (cpu.a % 2 == 1),
{
    let a = cpu.a;
    assert(a << 1 == (a * 2) % 256 && (a & 0x80 != 0) == (a >= 128) && a >> 1 == a / 2 && (a & 0x01
        != 0) == (a % 2 == 1) && ((a << 1) | 1) == (a * 2) % 256 + 1 && ((a >> 1) | 0x80) == a / 2
        + 128 && ((a << 1) | 0) == (a * 2) % 256 && ((a >> 1) | 0) == a / 2) by (bit_vector);
}

/// JSR and RTS undo each other. After `JSR addr` the program counter is at
/// `addr`; after an RTS from there it is back at the instruction that follows
/// the JSR, and the stack pointer is where it was, for every `addr`, every
/// stack pointer and whatever the stack held.
#[verifier::rlimit(50)]
pub proof fn lemma_jsr_rts_round_trip(m: Machine, addr: u16)
    requires
        m.mem.ram.len() == 0x800,
    ensures
        ({
            let called = m.execute(Instruction(Opcode::JSR, Value::Absolute(addr)));
            let back = called.next.execute(Instruction(Opcode::RTS, Value::Implied));
            &&& called.result is Ok
            &&& called.next.cpu.pc == addr
            &&& back.result is Ok
            &&& back.next.cpu.pc == m.cpu.pc
            &&& back.next.cpu.sp == m.cpu.sp
        }),
{
    let ret = m.cpu.pc.wrapping_sub(1);
    let pushed = m.push16(ret);
    lemma_push_pop(m, 0, ret);
    lemma_stack_frame_word(m, ret);
    assert(pushed.at(addr).pop16() == (Taken {
        value: ret,
        next: pushed.pop16().next.at(addr),
    }));
}

/// The same of two whole steps: where the machine decodes `JSR addr` at the
/// address `P` and an RTS at `addr`, two steps leave the program counter at
/// `P + 3`, the instruction after the JSR, and the stack pointer unchanged.
#[verifier::rlimit(50)]
pub proof fn lemma_jsr_rts_steps(m: Machine, addr: u16)
    requires
        m.mem.ram.len() == 0x800,
        m.decode().result == Ok::<_, ExecutionHalt>(
            (3u16, Instruction(Opcode::JSR, Value::Absolute(addr))),
        ),
        m.step().next.decode().result == Ok::<_, ExecutionHalt>(
            (1u16, Instruction(Opcode::RTS, Value::Implied)),
        ),
    ensures
        m.step().result is Ok,
        m.step().next.cpu.pc == addr,
        m.step().next.step().result is Ok,
        m.step().next.step().next.cpu.pc == m.cpu.pc.wrapping_add(3),
        m.step().next.step().next.cpu.sp == m.cpu.sp,
{
    let decoded = m.decode().next;
    lemma_decode_frame(m);
    let ret = decoded.cpu.pc.wrapping_sub(1);
    let called = decoded.push16(ret).at(addr);
    assert(m.step().next == called);
    lemma_stack_frame_word(decoded, ret);
    lemma_decode_frame(called);
    let landed = called.decode().next;
    assert(landed == (Machine { ppu: landed.ppu, ..called.at(addr.wrapping_add(1)) }));
    lemma_push_pop(decoded, 0, ret);
    assert(landed.pop16().value == ret);
    lemma_stack_frame_word(landed, 0);
}

/// PHP and PLP undo each other but for bits 4 and 5: after a PHP and a PLP
/// every flag but Break and the unused one is as it was, and so is the stack
/// pointer, for any flags. Break comes back clear and the unused flag set.
pub proof fn lemma_php_plp_round_trip(m: Machine)
    requires
        m.mem.ram.len() == 0x800,
    ensures
        ({
            let pushed = m.execute(Instruction(Opcode::PHP, Value::Implied));
            let pulled = pushed.next.execute(Instruction(Opcode::PLP, Value::Implied));
            &&& pushed.result is Ok
            &&& pulled.result is Ok
            &&& pulled.next.cpu.p_flags.same_but_bits_4_5(m.cpu.p_flags)
            &&& pulled.next.cpu.p_flags == (PFlag { brk: false, unused: true, ..m.cpu.p_flags })
            &&& pulled.next.cpu.sp == m.cpu.sp
        }),
{
    let p = m.cpu.p_flags;
    lemma_pulled_of_bits(p);
    lemma_push_pop(m, p.spec_bits(), 0);
}

/// What PLP and RTI restore from the status byte of the flags `p`.
pub proof fn lemma_pulled_of_bits(p: PFlag)
    ensures
        PFlag::pulled(p.spec_bits()) == (PFlag { brk: false, unused: true, ..p }),
        PFlag::restored(p.spec_bits()) == (PFlag { unused: true, ..p }),
{
    p.lemma_from_bits_of_bits();
    let b = p.spec_bits();
    assert((b & 0b1100_1111) & 1 == b & 1 && (b & 0b1100_1111) & 2 == b & 2 && (b & 0b1100_1111)
        & 4 == b & 4 && (b & 0b1100_1111) & 8 == b & 8 && (b & 0b1100_1111) & 16 == 0 && (b
        & 0b1100_1111) & 32 == 0 && (b & 0b1100_1111) & 64 == b & 64 && (b & 0b1100_1111) & 128 == b
        & 128) by (bit_vector);
}

/// The NMI and RTI undo each other: after the interrupt sequence and a return
/// from interrupt the program counter, the stack pointer and every flag but
/// Break are as they were before the interrupt, given that the unused flag
/// read 1.
pub proof fn lemma_nmi_rti_round_trip(m: Machine)
    requires
        m.mem.ram.len() == 0x800,
        m.cpu.wf(),
        m.nmi().result is Ok,
    ensures
        ({
            let back = m.nmi().next.execute(Instruction(Opcode::RTI, Value::Implied));
            &&& back.result is Ok
            &&& back.next.cpu == (NMOS6502 {
                p_flags: PFlag { brk: false, ..m.cpu.p_flags },
                ..m.cpu
            })
        }),
{
    let p = PFlag { brk: false, ..m.cpu.p_flags };
    lemma_pulled_of_bits(p);
    let pushed_pc = m.push16(m.cpu.pc);
    let pushed = pushed_pc.push8(p.spec_bits());
    lemma_stack_frame_word(m, m.cpu.pc);
    lemma_push_pop(pushed_pc, p.spec_bits(), 0);
    lemma_push_pop(m, 0, m.cpu.pc);
    let entered = m.nmi().next;
    assert(entered.mem == pushed.mem);
    assert(entered.cpu.sp == pushed.cpu.sp);
    assert(entered.pop8().value == p.spec_bits());
    let flags_pulled = entered.pop8().next;
    assert(flags_pulled.mem == pushed.mem);
    assert(flags_pulled.cpu.sp == pushed_pc.cpu.sp);
    assert(flags_pulled.pop16().value == pushed_pc.pop16().value);
}

/// The branch target law. A taken branch with the displacement `offset`,
/// executed with the program counter at `pc`, the address after the branch,
/// goes to `pc + offset` modulo 0x10000; a branch that is not taken leaves the
/// counter at `pc`. Nothing else changes.
pub proof fn lemma_branch_target(m: Machine, op: Opcode, offset: i8)
    requires
        is_branch(op),
    ensures
        ({
            let after = m.execute(Instruction(op, Value::Relative(offset)));
            &&& after.result is Ok
            &&& after.next == m.at(after.next.cpu.pc)
            &&& after.next.cpu.pc == if branch_taken(op, m.cpu.p_flags) {
                (m.cpu.pc + offset) % 0x10000
            } else {
                m.cpu.pc as int
            }
        }),
{
}

/// The same of a whole step: where the machine decodes a branch with the
/// displacement `offset` at the address `P` and the branch is taken, the step
/// leaves the program counter at `(P + 2 + offset)` modulo 0x10000, 2 being
/// the length of the branch; where it is not taken, at `P + 2`.
#[verifier::rlimit(50)]
pub proof fn lemma_branch_step(m: Machine, op: Opcode, offset: i8)
    requires
        is_branch(op),
        m.decode().result == Ok::<_, ExecutionHalt>(
            (2u16, Instruction(op, Value::Relative(offset))),
        ),
    ensures
        m.step().result is Ok,
        m.step().next.cpu.pc == if branch_taken(op, m.cpu.p_flags) {
            (m.cpu.pc + 2 + offset) % 0x10000
        } else {
            (m.cpu.pc + 2) % 0x10000
        },
{
    lemma_decode_frame(m);
    lemma_branch_target(m.decode().next, op, offset);
}

} // verus!
