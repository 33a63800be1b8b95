use nes_emu::cart::NESCart;
use nes_emu::cpu::NMOS6502;
use nes_emu::flags::PFlag;
use nes_emu::halt::ExecutionHalt;
use nes_emu::inst::{Instruction, Mode, Opcode, Value};
use nes_emu::mem::Memory;
use nes_emu::nes::NES;
use nes_emu::ppu::PPU;

/// A console around a 32 KiB mapper-0 cartridge with `program` at 0x8000, an
/// RTI at 0x9000, NOPs elsewhere, the reset vector at 0x8000 and the NMI
/// vector at 0x9000. It has been reset.
fn console(program: &[u8]) -> NES {
    let mut raw = vec![0x4E, 0x45, 0x53, 0x1A, 2, 0, 0, 0];
    raw.extend_from_slice(&[0u8; 8]);
    let mut prg = vec![0xEAu8; 0x8000];
    prg[..program.len()].copy_from_slice(program);
    prg[0x1000] = 0x40;
    prg[0x7FFA] = 0x00;
    prg[0x7FFB] = 0x90;
    prg[0x7FFC] = 0x00;
    prg[0x7FFD] = 0x80;
    raw.extend_from_slice(&prg);
    let mut nes = NES::new(NESCart::parse(&raw).unwrap());
    nes.reset().unwrap();
    nes
}

fn step(nes: &mut NES) -> Result<(), ExecutionHalt> {
    nes.cpu.step(&mut nes.mem, &mut nes.ppu)
}

fn steps(nes: &mut NES, n: usize) {
    for _ in 0..n {
        step(nes).unwrap();
    }
}

fn flags(bits: u8) -> PFlag {
    PFlag::from_bits(bits)
}

#[test]
fn registers_at_power_on() {
    let cpu = NMOS6502::new();
    assert_eq!((cpu.a, cpu.x, cpu.y, cpu.sp, cpu.pc), (0, 0, 0, 0, 0));
    assert_eq!(cpu.p_flags.bits(), 0x20);
}

#[test]
fn reset_loads_the_vector_and_sets_two_flags() {
    let nes = console(&[]);
    assert_eq!(nes.cpu.pc, 0x8000);
    assert_eq!(nes.cpu.p_flags.bits(), 0x24);
    assert_eq!((nes.cpu.a, nes.cpu.x, nes.cpu.y, nes.cpu.sp), (0, 0, 0, 0));
}

#[test]
fn reset_keeps_the_other_registers_and_flags() {
    let mut nes = console(&[]);
    nes.cpu.a = 1;
    nes.cpu.x = 2;
    nes.cpu.y = 3;
    nes.cpu.sp = 4;
    nes.cpu.pc = 0x1234;
    nes.cpu.p_flags = flags(0b1100_0011);
    assert_eq!(nes.reset(), Ok(()));
    assert_eq!((nes.cpu.a, nes.cpu.x, nes.cpu.y, nes.cpu.sp), (1, 2, 3, 4));
    assert_eq!(nes.cpu.pc, 0x8000);
    assert_eq!(nes.cpu.p_flags.bits(), 0b1110_0111);
}

#[test]
fn reset_of_a_16k_cartridge_then_lda_immediate() {
    let mut raw = vec![0x4E, 0x45, 0x53, 0x1A, 1, 0, 0, 0];
    raw.extend_from_slice(&[0u8; 8]);
    let mut prg = vec![0u8; 0x4000];
    prg[0x3FFC] = 0xFD;
    prg[0x3FFD] = 0xC0;
    prg[0x00FD] = 0xA9;
    prg[0x00FE] = 0x05;
    raw.extend_from_slice(&prg);
    let mut nes = NES::new(NESCart::parse(&raw).unwrap());
    assert_eq!(nes.reset(), Ok(()));
    assert_eq!(nes.cpu.pc, 0xC0FD);
    assert_eq!(step(&mut nes), Ok(()));
    assert_eq!(nes.cpu.a, 5);
    assert!(!nes.cpu.p_flags.zero);
    assert!(!nes.cpu.p_flags.negative);
    assert_eq!(nes.cpu.pc, 0xC0FF);
}

#[test]
fn reset_halts_where_the_vector_cannot_be_read() {
    let mut raw = vec![0x4E, 0x45, 0x53, 0x1A, 2, 0, 0x20, 0];
    raw.extend_from_slice(&[0u8; 8]);
    raw.extend_from_slice(&[0u8; 0x8000]);
    let mut nes = NES::new(NESCart::parse(&raw).unwrap());
    assert_eq!(nes.reset(), Err(ExecutionHalt::UnsupportedMapper(2)));
    assert_eq!(nes.cpu, NMOS6502::new());
}

#[test]
fn ldx_0_then_dex_wraps_to_ff() {
    let mut nes = console(&[0xA2, 0x00, 0xCA]);
    step(&mut nes).unwrap();
    assert_eq!(nes.cpu.x, 0);
    assert!(nes.cpu.p_flags.zero);
    assert!(!nes.cpu.p_flags.negative);
    step(&mut nes).unwrap();
    assert_eq!(nes.cpu.x, 0xFF);
    assert!(!nes.cpu.p_flags.zero);
    assert!(nes.cpu.p_flags.negative);
    assert_eq!(nes.cpu.pc, 0x8003);
}

#[test]
fn loads_set_zero_and_negative_for_every_value() {
    for v in 0..=255u8 {
        for (opcode, reg) in [(0xA9u8, 0usize), (0xA2, 1), (0xA0, 2)] {
            let mut nes = console(&[opcode, v]);
            step(&mut nes).unwrap();
            let got = [nes.cpu.a, nes.cpu.x, nes.cpu.y][reg];
            assert_eq!(got, v);
            assert_eq!(nes.cpu.p_flags.zero, v == 0);
            assert_eq!(nes.cpu.p_flags.negative, v & 0x80 != 0);
            assert_eq!(nes.cpu.p_flags.bits() & 0x7D, 0x24);
        }
    }
}

#[test]
fn transfers_and_logic_set_zero_and_negative_for_every_value() {
    for v in 0..=255u8 {
        for op in [
            Opcode::TAX,
            Opcode::TAY,
            Opcode::TXA,
            Opcode::TYA,
            Opcode::TSX,
            Opcode::AND,
            Opcode::ORA,
            Opcode::EOR,
        ] {
            let mut cpu = NMOS6502::new();
            cpu.a = v;
            cpu.x = v;
            cpu.y = v;
            cpu.sp = v;
            let operand = match op {
                Opcode::AND => 0xFF,
                _ => 0x00,
            };
            cpu.apply(op, operand);
            let written = match op {
                Opcode::TAX | Opcode::TSX => cpu.x,
                Opcode::TAY => cpu.y,
                _ => cpu.a,
            };
            assert_eq!(written, v);
            assert_eq!(cpu.p_flags.zero, v == 0);
            assert_eq!(cpu.p_flags.negative, v & 0x80 != 0);
        }
    }
}

#[test]
fn lda_from_zero_page_and_absolute() {
    let mut nes = console(&[0xA5, 0x10, 0xAD, 0x34, 0x02, 0xAD, 0x03, 0x80, 0xAE, 0x10, 0x08]);
    nes.mem.ram[0x10] = 0x80;
    nes.mem.ram[0x234] = 0x00;
    step(&mut nes).unwrap();
    assert_eq!(nes.cpu.a, 0x80);
    assert!(nes.cpu.p_flags.negative && !nes.cpu.p_flags.zero);
    assert_eq!(nes.cpu.pc, 0x8002);
    step(&mut nes).unwrap();
    assert_eq!(nes.cpu.a, 0x00);
    assert!(!nes.cpu.p_flags.negative && nes.cpu.p_flags.zero);
    assert_eq!(nes.cpu.pc, 0x8005);
    step(&mut nes).unwrap();
    assert_eq!(nes.cpu.a, 0x34);
    step(&mut nes).unwrap();
    assert_eq!(nes.cpu.x, 0x80);
    assert_eq!(nes.cpu.pc, 0x800B);
}

#[test]
fn stores_write_without_touching_flags() {
    let mut nes = console(&[0x85, 0x20, 0x8D, 0x00, 0x03, 0x86, 0x21, 0x8E, 0x01, 0x0B]);
    nes.cpu.a = 0x00;
    nes.cpu.x = 0x99;
    let before = nes.cpu.p_flags;
    steps(&mut nes, 4);
    assert_eq!(nes.mem.ram[0x20], 0x00);
    assert_eq!(nes.mem.ram[0x300], 0x00);
    assert_eq!(nes.mem.ram[0x21], 0x99);
    assert_eq!(nes.mem.ram[0x301], 0x99);
    assert_eq!(nes.cpu.p_flags, before);
    assert_eq!(nes.cpu.pc, 0x800A);
}

#[test]
fn a_store_to_the_control_port_reaches_the_picture_unit() {
    let mut nes = console(&[0xA9, 0x80, 0x8D, 0x00, 0x20, 0xAD, 0x02, 0x20]);
    nes.ppu.ppustatus = 0x80;
    steps(&mut nes, 2);
    assert!(nes.ppu.ppuctl.nmi);
    step(&mut nes).unwrap();
    assert_eq!(nes.cpu.a, 0x80);
    assert!(nes.cpu.p_flags.negative);
}

#[test]
fn a_store_to_the_quiet_port_is_accepted() {
    let mut nes = console(&[0x8D, 0x17, 0x40]);
    nes.cpu.a = 0xFF;
    assert_eq!(step(&mut nes), Ok(()));
    assert_eq!(nes.cpu.pc, 0x8003);
}

#[test]
fn a_store_to_an_unmapped_address_is_a_bus_fault() {
    let mut nes = console(&[0x8D, 0x00, 0x50]);
    assert_eq!(step(&mut nes), Err(ExecutionHalt::BusFault(0x5000)));
    let mut nes = console(&[0xAD, 0x17, 0x40]);
    assert_eq!(step(&mut nes), Err(ExecutionHalt::BusFault(0x4017)));
    assert_eq!(nes.cpu.a, 0);
}

#[test]
fn transfers_between_registers() {
    let mut cpu = NMOS6502::new();
    cpu.a = 0x81;
    cpu.apply(Opcode::TAX, 0);
    assert_eq!(cpu.x, 0x81);
    assert!(cpu.p_flags.negative);
    cpu.apply(Opcode::TXS, 0);
    assert_eq!(cpu.sp, 0x81);
    cpu.a = 0;
    cpu.apply(Opcode::TAY, 0);
    assert_eq!(cpu.y, 0);
    assert!(cpu.p_flags.zero && !cpu.p_flags.negative);
    cpu.sp = 0x7F;
    cpu.apply(Opcode::TSX, 0);
    assert_eq!(cpu.x, 0x7F);
    assert!(!cpu.p_flags.zero && !cpu.p_flags.negative);
    cpu.apply(Opcode::TXA, 0);
    assert_eq!(cpu.a, 0x7F);
    cpu.y = 0xFF;
    cpu.apply(Opcode::TYA, 0);
    assert_eq!(cpu.a, 0xFF);
    assert!(cpu.p_flags.negative);
}

#[test]
fn txs_leaves_the_flags_alone() {
    let mut cpu = NMOS6502::new();
    cpu.x = 0;
    cpu.p_flags = flags(0xA1);
    cpu.apply(Opcode::TXS, 0);
    assert_eq!(cpu.sp, 0);
    assert_eq!(cpu.p_flags.bits(), 0xA1);
}

#[test]
fn increments_and_decrements_wrap() {
    let mut cpu = NMOS6502::new();
    cpu.x = 0xFF;
    cpu.apply(Opcode::INX, 0);
    assert_eq!(cpu.x, 0);
    assert!(cpu.p_flags.zero);
    cpu.y = 0x7F;
    cpu.apply(Opcode::INY, 0);
    assert_eq!(cpu.y, 0x80);
    assert!(cpu.p_flags.negative && !cpu.p_flags.zero);
    cpu.apply(Opcode::DEY, 0);
    assert_eq!(cpu.y, 0x7F);
    assert!(!cpu.p_flags.negative);
    cpu.y = 0;
    cpu.apply(Opcode::DEY, 0);
    assert_eq!(cpu.y, 0xFF);
    cpu.x = 1;
    cpu.apply(Opcode::DEX, 0);
    assert_eq!(cpu.x, 0);
    assert!(cpu.p_flags.zero);
}

#[test]
fn logic_operations() {
    let mut nes = console(&[0x29, 0x0F, 0x09, 0x80, 0x49, 0xFF, 0x29, 0x00]);
    nes.cpu.a = 0x3C;
    step(&mut nes).unwrap();
    assert_eq!(nes.cpu.a, 0x0C);
    step(&mut nes).unwrap();
    assert_eq!(nes.cpu.a, 0x8C);
    assert!(nes.cpu.p_flags.negative);
    step(&mut nes).unwrap();
    assert_eq!(nes.cpu.a, 0x73);
    assert!(!nes.cpu.p_flags.negative);
    step(&mut nes).unwrap();
    assert_eq!(nes.cpu.a, 0x00);
    assert!(nes.cpu.p_flags.zero);
}

/// A, Carry, Overflow, Zero, Negative after ADC.
fn adc(a: u8, operand: u8, carry: bool) -> (u8, bool, bool, bool, bool) {
    let mut cpu = NMOS6502::new();
    cpu.a = a;
    cpu.set_carry(carry);
    cpu.apply(Opcode::ADC, operand);
    let p = cpu.p_flags;
    (cpu.a, p.carry, p.overflow, p.zero, p.negative)
}

/// A, Carry, Overflow, Zero, Negative after SBC.
fn sbc(a: u8, operand: u8, carry: bool) -> (u8, bool, bool, bool, bool) {
    let mut cpu = NMOS6502::new();
    cpu.a = a;
    cpu.set_carry(carry);
    cpu.apply(Opcode::SBC, operand);
    let p = cpu.p_flags;
    (cpu.a, p.carry, p.overflow, p.zero, p.negative)
}

#[test]
fn adc_results_and_flags() {
    assert_eq!(adc(0x01, 0x01, false), (0x02, false, false, false, false));
    assert_eq!(adc(0x01, 0x01, true), (0x03, false, false, false, false));
    assert_eq!(adc(0x50, 0x50, false), (0xA0, false, true, false, true));
    assert_eq!(adc(0xFF, 0x01, false), (0x00, true, false, true, false));
    assert_eq!(adc(0xD0, 0x90, false), (0x60, true, true, false, false));
    assert_eq!(adc(0x7F, 0x00, true), (0x80, false, true, false, true));
    assert_eq!(adc(0xFF, 0xFF, true), (0xFF, true, false, false, true));
    assert_eq!(adc(0x00, 0x00, false), (0x00, false, false, true, false));
    assert_eq!(adc(0x80, 0x80, false), (0x00, true, true, true, false));
}

#[test]
fn sbc_results_and_flags() {
    assert_eq!(sbc(0x05, 0x03, true), (0x02, true, false, false, false));
    assert_eq!(sbc(0x05, 0x03, false), (0x01, true, false, false, false));
    assert_eq!(sbc(0x50, 0xF0, true), (0x60, false, false, false, false));
    assert_eq!(sbc(0x50, 0xB0, true), (0xA0, false, true, false, true));
    assert_eq!(sbc(0x00, 0x01, true), (0xFF, false, false, false, true));
    assert_eq!(sbc(0x80, 0x01, true), (0x7F, true, true, false, false));
    assert_eq!(sbc(0x42, 0x42, true), (0x00, true, false, true, false));
}

#[test]
fn adc_through_the_interpreter() {
    let mut nes = console(&[0x38, 0x69, 0x10, 0x18, 0xE9, 0x10]);
    nes.cpu.a = 0xF0;
    steps(&mut nes, 2);
    assert_eq!(nes.cpu.a, 0x01);
    assert!(nes.cpu.p_flags.carry);
    steps(&mut nes, 2);
    assert_eq!(nes.cpu.a, 0xF0);
    assert!(!nes.cpu.p_flags.carry);
    assert!(nes.cpu.p_flags.negative);
}

#[test]
fn adc_then_sbc_restores_the_accumulator_for_all_operands() {
    for a in 0..=255u8 {
        for b in 0..=255u8 {
            for p in [0x20u8, 0xFF] {
                let mut cpu = NMOS6502::new();
                cpu.p_flags = flags(p);
                cpu.a = a;
                cpu.set_carry(false);
                cpu.apply(Opcode::ADC, b);
                assert_eq!(cpu.a, a.wrapping_add(b));
                cpu.set_carry(true);
                cpu.apply(Opcode::SBC, b);
                assert_eq!(cpu.a, a);
            }
        }
    }
}

#[test]
fn adc_overflow_is_signed_overflow() {
    for a in 0..=255u8 {
        for b in 0..=255u8 {
            for carry in [false, true] {
                let (r, c, v, _, _) = adc(a, b, carry);
                let unsigned = a as u16 + b as u16 + carry as u16;
                let signed = a as i8 as i16 + b as i8 as i16 + carry as i16;
                assert_eq!(r, (unsigned & 0xFF) as u8);
                assert_eq!(c, unsigned > 0xFF);
                assert_eq!(v, !(-128..=127).contains(&signed));
            }
        }
    }
}

#[test]
fn compares_set_carry_zero_and_negative() {
    let mut nes = console(&[0xC9, 0x10, 0xC9, 0x20, 0xC9, 0x0F, 0xE0, 0x00, 0xC0, 0x81]);
    nes.cpu.a = 0x10;
    nes.cpu.x = 0x00;
    nes.cpu.y = 0x80;
    step(&mut nes).unwrap();
    assert_eq!(nes.cpu.p_flags.bits() & 0x83, 0x03);
    step(&mut nes).unwrap();
    assert_eq!(nes.cpu.p_flags.bits() & 0x83, 0x80);
    step(&mut nes).unwrap();
    assert_eq!(nes.cpu.p_flags.bits() & 0x83, 0x01);
    step(&mut nes).unwrap();
    assert_eq!(nes.cpu.p_flags.bits() & 0x83, 0x03);
    step(&mut nes).unwrap();
    assert_eq!(nes.cpu.p_flags.bits() & 0x83, 0x80);
    assert_eq!((nes.cpu.a, nes.cpu.x, nes.cpu.y), (0x10, 0x00, 0x80));
}

#[test]
fn compare_wraps_instead_of_saturating() {
    let mut cpu = NMOS6502::new();
    cpu.a = 0x00;
    cpu.apply(Opcode::CMP, 0xFF);
    assert!(!cpu.p_flags.carry && !cpu.p_flags.zero && !cpu.p_flags.negative);
    cpu.a = 0x01;
    cpu.apply(Opcode::CMP, 0x02);
    assert!(!cpu.p_flags.carry && !cpu.p_flags.zero && cpu.p_flags.negative);
}

#[test]
fn bit_copies_bits_7_and_6_and_tests_the_mask() {
    let mut nes = console(&[0x24, 0x40, 0x24, 0x41, 0x24, 0x42]);
    nes.mem.ram[0x40] = 0xC0;
    nes.mem.ram[0x41] = 0x01;
    nes.mem.ram[0x42] = 0x40;
    nes.cpu.a = 0x01;
    step(&mut nes).unwrap();
    assert_eq!(nes.cpu.p_flags.bits() & 0xC2, 0xC2);
    step(&mut nes).unwrap();
    assert_eq!(nes.cpu.p_flags.bits() & 0xC2, 0x00);
    step(&mut nes).unwrap();
    assert_eq!(nes.cpu.p_flags.bits() & 0xC2, 0x42);
    assert_eq!(nes.cpu.a, 0x01);
}

/// A and Carry, Zero, Negative after a shift or rotate.
fn shift(op: Opcode, a: u8, carry: bool) -> (u8, bool, bool, bool) {
    let mut cpu = NMOS6502::new();
    cpu.a = a;
    cpu.set_carry(carry);
    cpu.apply(op, 0);
    (cpu.a, cpu.p_flags.carry, cpu.p_flags.zero, cpu.p_flags.negative)
}

#[test]
fn shifts_move_the_lost_bit_into_carry() {
    assert_eq!(shift(Opcode::ASL, 0x81, false), (0x02, true, false, false));
    assert_eq!(shift(Opcode::ASL, 0x40, true), (0x80, false, false, true));
    assert_eq!(shift(Opcode::ASL, 0x80, false), (0x00, true, true, false));
    assert_eq!(shift(Opcode::LSR, 0x01, false), (0x00, true, true, false));
    assert_eq!(shift(Opcode::LSR, 0x82, true), (0x41, false, false, false));
}

#[test]
fn rotates_bring_the_old_carry_in() {
    assert_eq!(shift(Opcode::ROL, 0x80, true), (0x01, true, false, false));
    assert_eq!(shift(Opcode::ROL, 0x80, false), (0x00, true, true, false));
    assert_eq!(shift(Opcode::ROL, 0x40, true), (0x81, false, false, true));
    assert_eq!(shift(Opcode::ROR, 0x01, true), (0x80, true, false, true));
    assert_eq!(shift(Opcode::ROR, 0x01, false), (0x00, true, true, false));
    assert_eq!(shift(Opcode::ROR, 0x02, true), (0x81, false, false, true));
}

#[test]
fn shifts_through_the_interpreter() {
    let mut nes = console(&[0x0A, 0x2A, 0x4A, 0x6A]);
    nes.cpu.a = 0xC0;
    step(&mut nes).unwrap();
    assert_eq!((nes.cpu.a, nes.cpu.p_flags.carry), (0x80, true));
    step(&mut nes).unwrap();
    assert_eq!((nes.cpu.a, nes.cpu.p_flags.carry), (0x01, true));
    step(&mut nes).unwrap();
    assert_eq!((nes.cpu.a, nes.cpu.p_flags.carry), (0x00, true));
    step(&mut nes).unwrap();
    assert_eq!((nes.cpu.a, nes.cpu.p_flags.carry), (0x80, false));
    assert_eq!(nes.cpu.pc, 0x8004);
}

#[test]
fn flag_instructions_touch_one_flag_each() {
    let mut nes = console(&[0x38, 0xF8, 0x78, 0x18, 0xD8, 0xB8, 0xEA]);
    nes.cpu.p_flags = flags(0x60);
    step(&mut nes).unwrap();
    assert_eq!(nes.cpu.p_flags.bits(), 0x61);
    step(&mut nes).unwrap();
    assert_eq!(nes.cpu.p_flags.bits(), 0x69);
    step(&mut nes).unwrap();
    assert_eq!(nes.cpu.p_flags.bits(), 0x6D);
    step(&mut nes).unwrap();
    assert_eq!(nes.cpu.p_flags.bits(), 0x6C);
    step(&mut nes).unwrap();
    assert_eq!(nes.cpu.p_flags.bits(), 0x64);
    step(&mut nes).unwrap();
    assert_eq!(nes.cpu.p_flags.bits(), 0x24);
    let before = nes.cpu;
    step(&mut nes).unwrap();
    assert_eq!(nes.cpu.pc, 0x8007);
    nes.cpu.pc = before.pc;
    assert_eq!(nes.cpu, before);
}

#[test]
fn set_nz_and_set_carry() {
    let mut cpu = NMOS6502::new();
    cpu.set_nz(0);
    assert_eq!(cpu.p_flags.bits(), 0x22);
    cpu.set_nz(0x80);
    assert_eq!(cpu.p_flags.bits(), 0xA0);
    cpu.set_nz(0x7F);
    assert_eq!(cpu.p_flags.bits(), 0x20);
    cpu.set_carry(true);
    assert_eq!(cpu.p_flags.bits(), 0x21);
    cpu.set_carry(false);
    assert_eq!(cpu.p_flags.bits(), 0x20);
}

#[test]
fn each_branch_follows_its_flag() {
    let table: [(u8, u8, bool); 8] = [
        (0x10, 0x80, false),
        (0x30, 0x80, true),
        (0x50, 0x40, false),
        (0x70, 0x40, true),
        (0x90, 0x01, false),
        (0xB0, 0x01, true),
        (0xD0, 0x02, false),
        (0xF0, 0x02, true),
    ];
    for (opcode, mask, taken_when_set) in table {
        for set in [false, true] {
            let mut nes = console(&[opcode, 0x10]);
            nes.cpu.p_flags = flags(if set { mask } else { !mask });
            let before = nes.cpu.p_flags;
            step(&mut nes).unwrap();
            let taken = set == taken_when_set;
            assert_eq!(nes.cpu.pc, if taken { 0x8012 } else { 0x8002 });
            assert_eq!(nes.cpu.p_flags, before);
        }
    }
}

#[test]
fn a_taken_branch_lands_at_p_plus_2_plus_offset() {
    for offset in [-128i8, -3, -2, -1, 0, 1, 2, 127] {
        let mut nes = console(&[0xEA, 0xEA, 0xD0, offset as u8]);
        steps(&mut nes, 2);
        assert_eq!(nes.cpu.pc, 0x8002);
        nes.cpu.p_flags.zero = false;
        step(&mut nes).unwrap();
        let expected = (0x8002i32 + 2 + offset as i32).rem_euclid(0x10000) as u16;
        assert_eq!(nes.cpu.pc, expected);
    }
}

#[test]
fn a_branch_target_wraps_at_16_bits() {
    let mut nes = console(&[]);
    nes.cpu.pc = 0x0001;
    nes.cpu.p_flags.zero = false;
    let branch = Instruction(Opcode::BNE, Value::Relative(-2));
    assert_eq!(nes.cpu.execute(&mut nes.mem, &mut nes.ppu, branch), Ok(()));
    assert_eq!(nes.cpu.pc, 0xFFFF);
    nes.cpu.pc = 0xFFFF;
    let branch = Instruction(Opcode::BNE, Value::Relative(127));
    assert_eq!(nes.cpu.execute(&mut nes.mem, &mut nes.ppu, branch), Ok(()));
    assert_eq!(nes.cpu.pc, 0x007E);
}

#[test]
fn jmp_goes_to_its_operand() {
    let mut nes = console(&[0x4C, 0x34, 0x92]);
    let before = nes.cpu;
    step(&mut nes).unwrap();
    assert_eq!(nes.cpu.pc, 0x9234);
    assert_eq!(nes.cpu, NMOS6502 { pc: 0x9234, ..before });
}

#[test]
fn jsr_pushes_the_return_address_less_one_high_byte_first() {
    let mut nes = console(&[0xEA, 0x20, 0x10, 0x80]);
    nes.cpu.set_sp(0xFF);
    steps(&mut nes, 2);
    assert_eq!(nes.cpu.pc, 0x8010);
    assert_eq!(nes.cpu.sp, 0xFD);
    assert_eq!(nes.mem.ram[0x1FF], 0x80);
    assert_eq!(nes.mem.ram[0x1FE], 0x03);
}

#[test]
fn jsr_then_rts_returns_behind_the_jsr() {
    for target in [0x8010u16, 0x9000, 0xBFFF, 0xF000] {
        for sp in [0xFFu8, 0x80, 0x01, 0x00] {
            let lo = target as u8;
            let hi = (target >> 8) as u8;
            let mut nes = console(&[0xEA, 0x20, lo, hi]);
            nes.mem.cart.prg_rom[target as usize - 0x8000] = 0x60;
            nes.cpu.set_sp(sp);
            steps(&mut nes, 2);
            assert_eq!(nes.cpu.pc, target);
            assert_eq!(nes.cpu.sp, sp.wrapping_sub(2));
            step(&mut nes).unwrap();
            assert_eq!(nes.cpu.pc, 0x8004);
            assert_eq!(nes.cpu.sp, sp);
        }
    }
}

#[test]
fn jsr_to_any_address_and_rts_by_hand() {
    for addr in [0x0000u16, 0x00FF, 0x1234, 0x7FFF, 0xFFFF] {
        let mut nes = console(&[]);
        nes.cpu.pc = 0x8003;
        let jsr = Instruction(Opcode::JSR, Value::Absolute(addr));
        assert_eq!(nes.cpu.execute(&mut nes.mem, &mut nes.ppu, jsr), Ok(()));
        assert_eq!(nes.cpu.pc, addr);
        let rts = Instruction(Opcode::RTS, Value::Implied);
        assert_eq!(nes.cpu.execute(&mut nes.mem, &mut nes.ppu, rts), Ok(()));
        assert_eq!(nes.cpu.pc, 0x8003);
        assert_eq!(nes.cpu.sp, 0);
    }
}

#[test]
fn the_stack_wraps_within_page_1() {
    let mut nes = console(&[0x48, 0x48, 0x68, 0x68]);
    assert_eq!(nes.cpu.sp, 0x00);
    nes.cpu.a = 0xAB;
    step(&mut nes).unwrap();
    assert_eq!(nes.cpu.sp, 0xFF);
    assert_eq!(nes.mem.ram[0x100], 0xAB);
    nes.cpu.a = 0xCD;
    step(&mut nes).unwrap();
    assert_eq!(nes.cpu.sp, 0xFE);
    assert_eq!(nes.mem.ram[0x1FF], 0xCD);
    nes.cpu.a = 0;
    step(&mut nes).unwrap();
    assert_eq!((nes.cpu.a, nes.cpu.sp), (0xCD, 0xFF));
    step(&mut nes).unwrap();
    assert_eq!((nes.cpu.a, nes.cpu.sp), (0xAB, 0x00));
}

#[test]
fn push_and_pop_are_mirror_images() {
    let mut cpu = NMOS6502::new();
    let mut nes = console(&[]);
    cpu.set_sp(0x42);
    cpu.push8(&mut nes.mem, 0x11);
    assert_eq!(nes.mem.ram[0x142], 0x11);
    assert_eq!(cpu.sp, 0x41);
    cpu.push16(&mut nes.mem, 0xBEEF);
    assert_eq!(nes.mem.ram[0x141], 0xBE);
    assert_eq!(nes.mem.ram[0x140], 0xEF);
    assert_eq!(cpu.sp, 0x3F);
    assert_eq!(cpu.pop16(&nes.mem), 0xBEEF);
    assert_eq!(cpu.sp, 0x41);
    assert_eq!(cpu.pop8(&nes.mem), 0x11);
    assert_eq!(cpu.sp, 0x42);
}

#[test]
fn pla_sets_zero_and_negative() {
    let mut nes = console(&[0x68, 0x68]);
    nes.cpu.set_sp(0x10);
    nes.mem.ram[0x111] = 0x00;
    nes.mem.ram[0x112] = 0xF0;
    nes.cpu.a = 0x55;
    step(&mut nes).unwrap();
    assert_eq!(nes.cpu.a, 0x00);
    assert!(nes.cpu.p_flags.zero && !nes.cpu.p_flags.negative);
    step(&mut nes).unwrap();
    assert_eq!(nes.cpu.a, 0xF0);
    assert!(!nes.cpu.p_flags.zero && nes.cpu.p_flags.negative);
    assert_eq!(nes.cpu.sp, 0x12);
}

#[test]
fn php_pushes_the_raw_status_byte() {
    let mut nes = console(&[0x08]);
    nes.cpu.set_sp(0xFF);
    nes.cpu.p_flags = flags(0xB5);
    step(&mut nes).unwrap();
    assert_eq!(nes.mem.ram[0x1FF], 0xB5);
    assert_eq!(nes.cpu.sp, 0xFE);
    assert_eq!(nes.cpu.p_flags.bits(), 0xB5);
}

#[test]
fn plp_masks_break_and_keeps_the_unused_bit() {
    let mut nes = console(&[0x28, 0x28]);
    nes.cpu.set_sp(0x10);
    nes.mem.ram[0x111] = 0xFF;
    nes.mem.ram[0x112] = 0x00;
    step(&mut nes).unwrap();
    assert_eq!(nes.cpu.p_flags.bits(), 0xEF);
    step(&mut nes).unwrap();
    assert_eq!(nes.cpu.p_flags.bits(), 0x20);
}

#[test]
fn php_then_plp_keeps_every_flag_but_bits_4_and_5() {
    for bits in 0..=255u8 {
        let mut nes = console(&[0x08, 0x28]);
        nes.cpu.set_sp(0xFF);
        nes.cpu.p_flags = flags(bits);
        steps(&mut nes, 2);
        let after = nes.cpu.p_flags.bits();
        assert_eq!(after & 0xCF, bits & 0xCF);
        assert_eq!(after & 0x30, 0x20);
        assert_eq!(nes.cpu.sp, 0xFF);
    }
}

#[test]
fn rti_pulls_the_flags_first_and_then_the_address() {
    let mut nes = console(&[0x40]);
    nes.cpu.set_sp(0xFC);
    nes.mem.ram[0x1FD] = 0xD3;
    nes.mem.ram[0x1FE] = 0x34;
    nes.mem.ram[0x1FF] = 0x92;
    step(&mut nes).unwrap();
    assert_eq!(nes.cpu.pc, 0x9234);
    assert_eq!(nes.cpu.p_flags.bits(), 0xF3);
    assert_eq!(nes.cpu.sp, 0xFF);
}

#[test]
fn nmi_enters_the_handler_and_rti_comes_back() {
    let mut nes = console(&[0xEA]);
    nes.cpu.set_sp(0xFF);
    nes.cpu.set_pc(0x8123);
    nes.cpu.p_flags = flags(0xF1);
    assert_eq!(nes.cpu.nmi(&mut nes.mem, &mut nes.ppu), Ok(()));
    assert_eq!(nes.cpu.pc, 0x9000);
    assert_eq!(nes.cpu.sp, 0xFC);
    assert_eq!(nes.mem.ram[0x1FF], 0x81);
    assert_eq!(nes.mem.ram[0x1FE], 0x23);
    assert_eq!(nes.mem.ram[0x1FD], 0xE1);
    assert_eq!(nes.cpu.p_flags.bits(), 0xF5);
    step(&mut nes).unwrap();
    assert_eq!(nes.cpu.pc, 0x8123);
    assert_eq!(nes.cpu.sp, 0xFF);
    assert_eq!(nes.cpu.p_flags.bits(), 0xE1);
}

#[test]
fn nmi_changes_nothing_where_the_vector_cannot_be_read() {
    let mut nes = console(&[]);
    nes.mem.cart.header.mapper = 7;
    let before = nes.cpu;
    assert_eq!(
        nes.cpu.nmi(&mut nes.mem, &mut nes.ppu),
        Err(ExecutionHalt::UnsupportedMapper(7))
    );
    assert_eq!(nes.cpu, before);
    assert!(nes.mem.ram.iter().all(|&b| b == 0));
}

#[test]
fn an_unknown_opcode_halts_with_the_counter_unmoved() {
    for opcode in [0x00u8, 0x02, 0xFF, 0xA3] {
        let mut nes = console(&[opcode, 0x12]);
        let before = nes.cpu;
        let unknown = Instruction(Opcode::Unknown(opcode), Value::Implied);
        assert_eq!(step(&mut nes), Err(ExecutionHalt::UnimplementedInstruction(unknown)));
        assert_eq!(nes.cpu, before);
    }
}

#[test]
fn decoded_instructions_without_a_handler_halt() {
    let cases: [(&[u8], Instruction, u16); 12] = [
        (&[0x01, 0x10], Instruction(Opcode::ORA, Value::PreIdxInd(0x10)), 2),
        (&[0x21, 0x11], Instruction(Opcode::AND, Value::PreIdxInd(0x11)), 2),
        (&[0x2C, 0x34, 0x12], Instruction(Opcode::BIT, Value::Absolute(0x1234)), 3),
        (&[0x41, 0x12], Instruction(Opcode::EOR, Value::PreIdxInd(0x12)), 2),
        (&[0x61, 0x13], Instruction(Opcode::ADC, Value::PreIdxInd(0x13)), 2),
        (&[0x65, 0x14], Instruction(Opcode::ADC, Value::ZeroPage(0x14)), 2),
        (&[0x81, 0x15], Instruction(Opcode::STA, Value::PreIdxInd(0x15)), 2),
        (&[0x95, 0x16], Instruction(Opcode::STA, Value::ZeroPageX(0x16)), 2),
        (&[0x9D, 0x00, 0x02], Instruction(Opcode::STA, Value::AbsoluteX(0x0200)), 3),
        (&[0xA1, 0x17], Instruction(Opcode::LDA, Value::PreIdxInd(0x17)), 2),
        (&[0xC1, 0x18], Instruction(Opcode::CMP, Value::PreIdxInd(0x18)), 2),
        (&[0xE1, 0x19], Instruction(Opcode::SBC, Value::PreIdxInd(0x19)), 2),
    ];
    for (program, inst, len) in cases {
        let mut nes = console(program);
        nes.cpu.a = 0x77;
        let before = nes.cpu;
        assert_eq!(step(&mut nes), Err(ExecutionHalt::UnimplementedInstruction(inst)));
        assert_eq!(nes.cpu, NMOS6502 { pc: 0x8000 + len, ..before });
        assert!(nes.mem.ram.iter().all(|&b| b == 0));
    }
}

#[test]
fn instructions_that_no_opcode_decodes_to_have_no_handler() {
    let mut nes = console(&[]);
    let before = nes.cpu;
    for inst in [
        Instruction(Opcode::LDA, Value::Implied),
        Instruction(Opcode::JMP, Value::Implied),
        Instruction(Opcode::NOP, Value::Immediate(1)),
        Instruction(Opcode::STA, Value::Immediate(1)),
        Instruction(Opcode::LDA, Value::Relative(1)),
        Instruction(Opcode::LDY, Value::ZeroPage(1)),
        Instruction(Opcode::LDY, Value::Absolute(1)),
        Instruction(Opcode::RTS, Value::Absolute(1)),
        Instruction(Opcode::Unknown(0xEA), Value::Implied),
    ] {
        assert_eq!(
            nes.cpu.execute(&mut nes.mem, &mut nes.ppu, inst),
            Err(ExecutionHalt::UnimplementedInstruction(inst))
        );
        assert_eq!(nes.cpu, before);
    }
}

#[test]
fn the_decoder_reports_lengths_and_moves_the_counter() {
    let decode = |program: &[u8]| {
        let mut nes = console(program);
        let got = Instruction::get(&mut nes.cpu, &nes.mem, &mut nes.ppu);
        (got, nes.cpu.pc)
    };
    assert_eq!(decode(&[0xEA]), (Ok((1, Instruction(Opcode::NOP, Value::Implied))), 0x8001));
    assert_eq!(
        decode(&[0xA9, 0x05]),
        (Ok((2, Instruction(Opcode::LDA, Value::Immediate(0x05)))), 0x8002)
    );
    assert_eq!(
        decode(&[0x85, 0x44]),
        (Ok((2, Instruction(Opcode::STA, Value::ZeroPage(0x44)))), 0x8002)
    );
    assert_eq!(
        decode(&[0x95, 0x44]),
        (Ok((2, Instruction(Opcode::STA, Value::ZeroPageX(0x44)))), 0x8002)
    );
    assert_eq!(
        decode(&[0xA1, 0x44]),
        (Ok((2, Instruction(Opcode::LDA, Value::PreIdxInd(0x44)))), 0x8002)
    );
    assert_eq!(
        decode(&[0x4C, 0x34, 0x12]),
        (Ok((3, Instruction(Opcode::JMP, Value::Absolute(0x1234)))), 0x8003)
    );
    assert_eq!(
        decode(&[0x9D, 0xFF, 0x01]),
        (Ok((3, Instruction(Opcode::STA, Value::AbsoluteX(0x01FF)))), 0x8003)
    );
    assert_eq!(
        decode(&[0x02]),
        (Ok((0, Instruction(Opcode::Unknown(0x02), Value::Implied))), 0x8000)
    );
}

#[test]
fn relative_operands_are_signed() {
    let decode = |byte: u8| {
        let mut nes = console(&[0xD0, byte]);
        Instruction::get(&mut nes.cpu, &nes.mem, &mut nes.ppu).unwrap().1
    };
    assert_eq!(decode(0x00), Instruction(Opcode::BNE, Value::Relative(0)));
    assert_eq!(decode(0x7F), Instruction(Opcode::BNE, Value::Relative(127)));
    assert_eq!(decode(0x80), Instruction(Opcode::BNE, Value::Relative(-128)));
    assert_eq!(decode(0xFE), Instruction(Opcode::BNE, Value::Relative(-2)));
    assert_eq!(decode(0xFF), Instruction(Opcode::BNE, Value::Relative(-1)));
}

#[test]
fn the_opcode_table_has_68_entries() {
    let known = (0..=255u8).filter(|&op| Instruction::lookup(op).is_some()).count();
    assert_eq!(known, 68);
    assert_eq!(Instruction::lookup(0xA9), Some((Opcode::LDA, Mode::Immediate)));
    assert_eq!(Instruction::lookup(0x20), Some((Opcode::JSR, Mode::Absolute)));
    assert_eq!(Instruction::lookup(0x81), Some((Opcode::STA, Mode::PreIdxInd)));
    assert_eq!(Instruction::lookup(0xF0), Some((Opcode::BEQ, Mode::Relative)));
    assert_eq!(Instruction::lookup(0x60), Some((Opcode::RTS, Mode::Implied)));
    assert_eq!(Instruction::lookup(0x00), None);
}

#[test]
fn every_decoded_instruction_either_runs_or_halts_as_unimplemented() {
    let mut handled = 0;
    for opcode in 0..=255u8 {
        let mut nes = console(&[opcode, 0x10, 0x00]);
        nes.cpu.set_sp(0x80);
        match step(&mut nes) {
            Ok(()) => handled += 1,
            Err(ExecutionHalt::UnimplementedInstruction(_)) => {}
            Err(other) => panic!("opcode {:02X} halted with {:?}", opcode, other),
        }
    }
    assert_eq!(handled, 56);
}

#[test]
fn the_program_counter_wraps_at_the_top_of_memory() {
    let mut nes = console(&[]);
    nes.cpu.set_pc(0xFFFF);
    nes.mem.cart.prg_rom[0x7FFF] = 0xEA;
    assert_eq!(step(&mut nes), Ok(()));
    assert_eq!(nes.cpu.pc, 0x0000);

    nes.cpu.set_pc(0xFFFF);
    nes.mem.cart.prg_rom[0x7FFF] = 0xA9;
    nes.mem.ram[0] = 0x42;
    assert_eq!(step(&mut nes), Ok(()));
    assert_eq!((nes.cpu.a, nes.cpu.pc), (0x42, 0x0001));
}

#[test]
fn a_fetch_from_an_unmapped_address_is_a_bus_fault() {
    let mut nes = console(&[]);
    nes.cpu.set_pc(0x4020);
    assert_eq!(step(&mut nes), Err(ExecutionHalt::BusFault(0x4020)));
    assert_eq!(nes.cpu.pc, 0x4020);
}

#[test]
fn code_runs_from_ram() {
    let mut nes = console(&[]);
    nes.mem.ram[0x200] = 0xA9;
    nes.mem.ram[0x201] = 0x99;
    nes.cpu.set_pc(0x0200);
    assert_eq!(step(&mut nes), Ok(()));
    assert_eq!((nes.cpu.a, nes.cpu.pc), (0x99, 0x0202));
}

#[test]
fn bus_helpers_of_the_cpu() {
    let mut nes = console(&[0x11, 0x22, 0x33]);
    assert_eq!(nes.cpu.read8(&nes.mem, &mut nes.ppu, 0x8001), Ok(0x22));
    assert_eq!(nes.cpu.write8(&mut nes.mem, &mut nes.ppu, 0x0005, 0x66), Ok(()));
    assert_eq!(nes.mem.ram[5], 0x66);
    assert_eq!(nes.cpu.read8_pc(&nes.mem, &mut nes.ppu), Ok(0x11));
    assert_eq!(nes.cpu.pc, 0x8001);
    assert_eq!(nes.cpu.read16_pc(&nes.mem, &mut nes.ppu), Ok(0x3322));
    assert_eq!(nes.cpu.pc, 0x8003);
    assert_eq!(nes.cpu.read16(&nes.mem, &mut nes.ppu, 0x8000), Ok(0x2211));
    assert_eq!(nes.cpu.read16(&nes.mem, &mut nes.ppu, 0xFFFC), Ok(0x8000));
    assert_eq!(nes.cpu.read16(&nes.mem, &mut nes.ppu, 0xFFFF), Ok(0x00EA));
    assert_eq!(nes.cpu.read16(&nes.mem, &mut nes.ppu, 0x0004), Ok(0x6600));
    assert_eq!(
        nes.cpu.read16(&nes.mem, &mut nes.ppu, 0x1FFF),
        Err(ExecutionHalt::BusFault(0x2000))
    );
    assert_eq!(nes.cpu.pc, 0x8003);
}

#[test]
fn operation_classes() {
    let classed = |byte: u8| {
        let (op, _) = Instruction::lookup(byte).unwrap();
        (op.takes_operand(), op.is_register_op(), op.is_branch())
    };
    assert_eq!(classed(0xA9), (true, false, false));
    assert_eq!(classed(0x24), (true, false, false));
    assert_eq!(classed(0xE9), (true, false, false));
    assert_eq!(classed(0xAA), (false, true, false));
    assert_eq!(classed(0xEA), (false, true, false));
    assert_eq!(classed(0x9A), (false, true, false));
    assert_eq!(classed(0x6A), (false, true, false));
    assert_eq!(classed(0xD0), (false, false, true));
    assert_eq!(classed(0x10), (false, false, true));
    assert_eq!(classed(0x20), (false, false, false));
    assert_eq!(classed(0x48), (false, false, false));
    assert_eq!(classed(0x85), (false, false, false));
    assert_eq!(classed(0x40), (false, false, false));
    let unknown = Opcode::Unknown(0xA9);
    assert!(!unknown.takes_operand() && !unknown.is_register_op() && !unknown.is_branch());
    let mut operand = 0;
    let mut register = 0;
    let mut branch = 0;
    for byte in 0..=255u8 {
        if let Some((op, mode)) = Instruction::lookup(byte) {
            operand += (mode == Mode::Immediate && op.takes_operand()) as u32;
            register += (mode == Mode::Implied && op.is_register_op()) as u32;
            branch += (mode == Mode::Relative && op.is_branch()) as u32;
        }
    }
    assert_eq!((operand, register, branch), (11, 21, 8));
}

#[test]
fn operands_by_mode() {
    assert_eq!(Value::of_byte(Mode::Immediate, 0x80), Value::Immediate(0x80));
    assert_eq!(Value::of_byte(Mode::ZeroPage, 0x80), Value::ZeroPage(0x80));
    assert_eq!(Value::of_byte(Mode::ZeroPageX, 0x80), Value::ZeroPageX(0x80));
    assert_eq!(Value::of_byte(Mode::PreIdxInd, 0x80), Value::PreIdxInd(0x80));
    assert_eq!(Value::of_byte(Mode::Relative, 0x80), Value::Relative(-128));
    assert_eq!(Value::of_byte(Mode::Relative, 0x7F), Value::Relative(127));
    assert_eq!(Value::of_word(Mode::Absolute, 0xBEEF), Value::Absolute(0xBEEF));
    assert_eq!(Value::of_word(Mode::AbsoluteX, 0xBEEF), Value::AbsoluteX(0xBEEF));
}

#[test]
fn set_pc_and_set_sp() {
    let mut cpu = NMOS6502::new();
    cpu.set_pc(0xC000);
    cpu.set_sp(0xFD);
    assert_eq!(cpu, NMOS6502 { pc: 0xC000, sp: 0xFD, ..NMOS6502::new() });
}

#[test]
fn no_instruction_clears_the_unused_flag() {
    for opcode in 0..=255u8 {
        let mut nes = console(&[opcode, 0x10, 0x00]);
        nes.cpu.set_sp(0x80);
        nes.mem.ram[0x181] = 0x00;
        nes.mem.ram[0x182] = 0x00;
        let _ = step(&mut nes);
        assert!(nes.cpu.p_flags.unused, "opcode {:02X}", opcode);
    }
}

#[test]
fn memory_and_picture_unit_are_separate_values() {
    let mut raw = vec![0x4E, 0x45, 0x53, 0x1A, 2, 0, 0, 0];
    raw.extend_from_slice(&[0u8; 8]);
    raw.extend_from_slice(&[0xEA; 0x8000]);
    let mut mem = Memory::new(NESCart::parse(&raw).unwrap());
    let mut ppu = PPU::new(0);
    let mut cpu = NMOS6502::new();
    cpu.set_pc(0x8000);
    assert_eq!(cpu.step(&mut mem, &mut ppu), Ok(()));
    assert_eq!(cpu.pc, 0x8001);
    assert_eq!(ppu.cycles, 0);
}
