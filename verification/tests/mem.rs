use nes_emu::cart::NESCart;
use nes_emu::halt::ExecutionHalt;
use nes_emu::mem::Memory;
use nes_emu::ppu::PPU;

/// A memory around a cartridge of `banks` program banks whose byte `i` is
/// `i % 253`, with the given mapper number.
fn bus_memory(banks: u8, mapper: u8) -> Memory {
    let mut raw = vec![0x4E, 0x45, 0x53, 0x1A, banks, 0, mapper << 4, mapper & 0xF0];
    raw.extend_from_slice(&[0u8; 8]);
    for i in 0..(banks as usize * 16384) {
        raw.push((i % 253) as u8);
    }
    Memory::new(NESCart::parse(&raw).unwrap())
}

#[test]
fn work_ram_starts_cleared() {
    let mem = bus_memory(2, 0);
    let mut ppu = PPU::new(0);
    for addr in [0x0000u16, 0x0001, 0x07FF, 0x0800, 0x1FFF] {
        assert_eq!(mem.read8(&mut ppu, addr), Ok(0));
    }
}

#[test]
fn work_ram_is_mirrored_every_0x800() {
    let mut mem = bus_memory(2, 0);
    let mut ppu = PPU::new(0);
    assert_eq!(mem.write8(&mut ppu, 0x0001, 7), Ok(()));
    assert_eq!(mem.read8(&mut ppu, 0x0001), Ok(7));
    assert_eq!(mem.read8(&mut ppu, 0x0801), Ok(7));
    assert_eq!(mem.read8(&mut ppu, 0x1001), Ok(7));
    assert_eq!(mem.read8(&mut ppu, 0x1801), Ok(7));
    assert_eq!(mem.read8(&mut ppu, 0x0002), Ok(0));
    assert_eq!(mem.write8(&mut ppu, 0x1FFF, 9), Ok(()));
    assert_eq!(mem.ram[0x7FF], 9);
    assert_eq!(mem.read8(&mut ppu, 0x07FF), Ok(9));
}

#[test]
fn ram_reads_leave_the_picture_unit_alone() {
    let mem = bus_memory(2, 0);
    let mut ppu = PPU::new(0);
    ppu.ppuaddr = 0x1234;
    assert_eq!(mem.read8(&mut ppu, 0x0007), Ok(0));
    assert_eq!(mem.read8(&mut ppu, 0x8007), Ok(7));
    assert_eq!(ppu.ppuaddr, 0x1234);
}

#[test]
fn picture_unit_ports_are_mirrored_every_8() {
    let mut mem = bus_memory(2, 0);
    let mut ppu = PPU::new(0);
    assert_eq!(mem.write8(&mut ppu, 0x2008, 0x80), Ok(()));
    assert!(ppu.ppuctl.nmi);
    assert_eq!(mem.write8(&mut ppu, 0x3FF8, 0x00), Ok(()));
    assert!(!ppu.ppuctl.nmi);
    ppu.ppustatus = 0xA5;
    assert_eq!(mem.read8(&mut ppu, 0x2002), Ok(0xA5));
    assert_eq!(mem.read8(&mut ppu, 0x200A), Ok(0xA5));
    assert_eq!(mem.read8(&mut ppu, 0x3FFA), Ok(0xA5));
}

#[test]
fn a_port_write_does_not_reach_ram() {
    let mut mem = bus_memory(2, 0);
    let mut ppu = PPU::new(0);
    assert_eq!(mem.write8(&mut ppu, 0x2003, 0x44), Ok(()));
    assert_eq!(ppu.oamaddr, 0x44);
    assert!(mem.ram.iter().all(|&b| b == 0));
}

#[test]
fn a_data_port_read_over_the_bus_moves_the_latch() {
    let mem = bus_memory(2, 0);
    let mut ppu = PPU::new(0);
    ppu.vram[0x0123] = 0x5A;
    ppu.ppuaddr = 0x0123;
    assert_eq!(mem.read8(&mut ppu, 0x2007), Ok(0x5A));
    assert_eq!(ppu.ppuaddr, 0x0124);
}

#[test]
fn ports_that_cannot_be_accessed_are_bus_faults() {
    let mut mem = bus_memory(2, 0);
    let mut ppu = PPU::new(0);
    assert_eq!(mem.read8(&mut ppu, 0x2000), Err(ExecutionHalt::BusFault(0x2000)));
    assert_eq!(mem.read8(&mut ppu, 0x2006), Err(ExecutionHalt::BusFault(0x2006)));
    assert_eq!(mem.write8(&mut ppu, 0x2002, 1), Err(ExecutionHalt::BusFault(0x2002)));
    assert_eq!(mem.write8(&mut ppu, 0x200C, 1), Err(ExecutionHalt::BusFault(0x200C)));
}

#[test]
fn the_quiet_port_takes_writes_and_drops_them() {
    let mut mem = bus_memory(2, 0);
    let mut ppu = PPU::new(0);
    assert_eq!(mem.write8(&mut ppu, 0x4017, 0xFF), Ok(()));
    assert!(mem.ram.iter().all(|&b| b == 0));
    assert_eq!(mem.read8(&mut ppu, 0x4017), Err(ExecutionHalt::BusFault(0x4017)));
}

#[test]
fn unmapped_addresses_are_bus_faults() {
    let mut mem = bus_memory(2, 0);
    let mut ppu = PPU::new(0);
    for addr in [0x4000u16, 0x4016, 0x4018, 0x5000, 0x6000, 0x7FFF] {
        assert_eq!(mem.read8(&mut ppu, addr), Err(ExecutionHalt::BusFault(addr)));
        assert_eq!(mem.write8(&mut ppu, addr, 1), Err(ExecutionHalt::BusFault(addr)));
    }
}

#[test]
fn program_rom_cannot_be_written() {
    let mut mem = bus_memory(2, 0);
    let mut ppu = PPU::new(0);
    assert_eq!(mem.write8(&mut ppu, 0x8000, 1), Err(ExecutionHalt::BusFault(0x8000)));
    assert_eq!(mem.write8(&mut ppu, 0xFFFF, 1), Err(ExecutionHalt::BusFault(0xFFFF)));
    assert_eq!(mem.read8(&mut ppu, 0x8000), Ok(0));
}

#[test]
fn program_rom_is_read_through_mapper_0() {
    let mem = bus_memory(2, 0);
    let mut ppu = PPU::new(0);
    assert_eq!(mem.read8(&mut ppu, 0x8000), Ok(0));
    assert_eq!(mem.read8(&mut ppu, 0x8001), Ok(1));
    assert_eq!(mem.read8(&mut ppu, 0x80FD), Ok(0));
    assert_eq!(mem.read8(&mut ppu, 0xC000), Ok((0x4000 % 253) as u8));
    assert_eq!(mem.read8(&mut ppu, 0xFFFF), Ok((0x7FFF % 253) as u8));
}

#[test]
fn a_single_bank_is_seen_in_both_halves() {
    let mem = bus_memory(1, 0);
    let mut ppu = PPU::new(0);
    for offset in [0u16, 1, 0x1234, 0x3FFF] {
        let low = mem.read8(&mut ppu, 0x8000 + offset);
        assert_eq!(low, Ok((offset as usize % 253) as u8));
        assert_eq!(mem.read8(&mut ppu, 0xC000 + offset), low);
    }
}

#[test]
fn four_banks_show_the_first_and_the_last() {
    let mem = bus_memory(4, 0);
    let mut ppu = PPU::new(0);
    assert_eq!(mem.read8(&mut ppu, 0x8005), Ok(5));
    assert_eq!(mem.read8(&mut ppu, 0xC005), Ok((0xC005usize % 253) as u8));
}

#[test]
fn mapper_1_shows_the_first_bank_twice() {
    let mem = bus_memory(2, 1);
    let mut ppu = PPU::new(0);
    assert_eq!(mem.cart.header.mapper, 1);
    assert_eq!(mem.read8(&mut ppu, 0x8005), Ok(5));
    assert_eq!(mem.read8(&mut ppu, 0xC005), Ok(5));
    assert_eq!(mem.read8(&mut ppu, 0xFFFF), Ok((0x3FFF % 253) as u8));
}

#[test]
fn an_unknown_mapper_halts_every_rom_read() {
    let mem = bus_memory(2, 2);
    let mut ppu = PPU::new(0);
    assert_eq!(mem.read8(&mut ppu, 0x8000), Err(ExecutionHalt::UnsupportedMapper(2)));
    assert_eq!(mem.read8(&mut ppu, 0xFFFC), Err(ExecutionHalt::UnsupportedMapper(2)));
    assert_eq!(mem.read8(&mut ppu, 0x0000), Ok(0));
}

#[test]
fn a_read_past_a_shortened_rom_is_a_bus_fault() {
    let mut mem = bus_memory(2, 0);
    mem.cart.prg_rom.truncate(0x10);
    let mut ppu = PPU::new(0);
    assert_eq!(mem.read8(&mut ppu, 0x800F), Ok(0x0F));
    assert_eq!(mem.read8(&mut ppu, 0x8010), Err(ExecutionHalt::BusFault(0x8010)));
}

#[test]
fn peek_sees_ram_and_rom_but_no_port() {
    let mut mem = bus_memory(2, 0);
    mem.ram[3] = 0x33;
    assert_eq!(mem.peek(0x0803), Ok(0x33));
    assert_eq!(mem.peek(0x8003), Ok(3));
    assert_eq!(mem.peek(0x2002), Err(ExecutionHalt::BusFault(0x2002)));
    assert_eq!(mem.peek(0x2007), Err(ExecutionHalt::BusFault(0x2007)));
    assert_eq!(mem.peek(0x4017), Err(ExecutionHalt::BusFault(0x4017)));
}
