use nes_core::cartridge::{Cartridge, CartridgeHeader};
use nes_core::cpu::addressing::{index_address, Target};
use nes_core::cpu::decode::{mode_length, modify_cycles, read_cycles, store_cycles, Mode};
use nes_core::cpu::instructions::{asl, lda, sta};
use nes_core::cpu::{Status, CPU};
use nes_core::system::System;

fn header(prg_banks: u8) -> CartridgeHeader {
    CartridgeHeader {
        ines: true,
        nes2: false,
        prg_rom_size: prg_banks,
        chr_rom_size: 0,
        flags: 0,
        mapper: 0,
        submapper: 0,
        prg_msb_rom_size: 0,
        chr_msb_rom_size: 0,
        prg_ram_size: 0,
        chr_ram_size: 0,
        cpu_ppu_timing: 0,
        is_vs_unisystem: false,
        vs_unisystem: 0,
        is_extended_console: false,
        extended_console: 0,
        misc_roms: 0,
        default_expansion_device: 0,
    }
}

/// A machine with two banks of program ROM that hold `program` from 0x8000 on.
fn machine(program: &[u8]) -> System {
    let mut prg = vec![0u8; 0x8000];
    prg[..program.len()].copy_from_slice(program);
    System::new(Cartridge { header: header(2), prg_rom: prg, chr_rom: vec![] })
}

/// A processor that has left reset behind, with every flag clear but the reserved one.
fn processor() -> CPU {
    let mut cpu = CPU::new();
    cpu.reset_requested = false;
    cpu.status = Status::new();
    cpu.pc = 0x8000;
    cpu
}

const MODES: [Mode; 13] = [
    Mode::Implied,
    Mode::Accumulator,
    Mode::Immediate,
    Mode::ZeroPage,
    Mode::ZeroPageX,
    Mode::ZeroPageY,
    Mode::Absolute,
    Mode::AbsoluteX,
    Mode::AbsoluteY,
    Mode::Indirect,
    Mode::IndirectX,
    Mode::IndirectY,
    Mode::Relative,
];

#[test]
fn lengths_by_mode() {
    let lengths: Vec<u16> = MODES.iter().map(|mode| mode_length(*mode)).collect();
    assert_eq!(lengths, vec![1, 1, 2, 2, 2, 2, 3, 3, 3, 3, 2, 2, 2]);
}

#[test]
fn read_cycles_by_mode() {
    let cycles: Vec<u64> = MODES.iter().map(|mode| read_cycles(*mode)).collect();
    assert_eq!(cycles, vec![2, 2, 2, 3, 4, 4, 4, 4, 4, 2, 6, 5, 2]);
}

#[test]
fn store_cycles_by_mode() {
    let cycles: Vec<u64> = MODES.iter().map(|mode| store_cycles(*mode)).collect();
    assert_eq!(cycles, vec![2, 2, 2, 3, 4, 4, 4, 5, 5, 2, 6, 6, 2]);
}

#[test]
fn modify_cycles_by_mode() {
    let cycles: Vec<u64> = MODES.iter().map(|mode| modify_cycles(*mode)).collect();
    assert_eq!(cycles, vec![2, 2, 2, 5, 6, 2, 6, 7, 2, 2, 2, 2, 2]);
}

#[test]
fn indexing_adds_and_reports_the_page_change() {
    assert_eq!(index_address(0x1234, 0x10), Target { address: 0x1244, crossed: false });
    assert_eq!(index_address(0x12F0, 0x0F), Target { address: 0x12FF, crossed: false });
    assert_eq!(index_address(0x12F0, 0x10), Target { address: 0x1300, crossed: true });
    assert_eq!(index_address(0x12FF, 0x00), Target { address: 0x12FF, crossed: false });
    assert_eq!(index_address(0x12FF, 0x01), Target { address: 0x1300, crossed: true });
    assert_eq!(index_address(0x1200, 0xFF), Target { address: 0x12FF, crossed: false });
}

#[test]
fn indexing_wraps_at_the_top_of_the_address_space() {
    assert_eq!(index_address(0xFFFF, 0x01), Target { address: 0x0000, crossed: true });
    assert_eq!(index_address(0xFF80, 0xFF), Target { address: 0x007F, crossed: true });
    assert_eq!(index_address(0xFF00, 0xFF), Target { address: 0xFFFF, crossed: false });
}

#[test]
fn indexing_crosses_exactly_when_the_low_byte_carries() {
    for base in (0..=0xFFFFu16).step_by(37) {
        for index in 0..=255u8 {
            let target = index_address(base, index);
            assert_eq!(target.address, base.wrapping_add(index as u16));
            assert_eq!(target.crossed, (base & 0xFF) + index as u16 > 0xFF);
        }
    }
}

#[test]
fn effective_addresses_by_mode() {
    let mut system = machine(&[]);
    system.ram[0x0300] = 0x78;
    system.ram[0x0301] = 0x56;
    system.ram[0x45] = 0x34;
    system.ram[0x46] = 0x12;
    system.ram[0x40] = 0xF0;
    system.ram[0x41] = 0x02;
    let mut cpu = processor();
    cpu.x = 0x05;
    cpu.y = 0x20;
    let at = |address: u16| Target { address, crossed: false };
    assert_eq!(cpu.operand_address(&system, Mode::ZeroPage, 0x40, 0x99), at(0x0040));
    assert_eq!(cpu.operand_address(&system, Mode::ZeroPageX, 0x40, 0x99), at(0x0045));
    assert_eq!(cpu.operand_address(&system, Mode::ZeroPageY, 0x40, 0x99), at(0x0060));
    assert_eq!(cpu.operand_address(&system, Mode::Absolute, 0x00, 0x03), at(0x0300));
    assert_eq!(cpu.operand_address(&system, Mode::AbsoluteX, 0x00, 0x03), at(0x0305));
    assert_eq!(cpu.operand_address(&system, Mode::AbsoluteY, 0x00, 0x03), at(0x0320));
    assert_eq!(cpu.operand_address(&system, Mode::Indirect, 0x00, 0x03), at(0x5678));
    assert_eq!(cpu.operand_address(&system, Mode::IndirectX, 0x40, 0x99), at(0x1234));
    assert_eq!(
        cpu.operand_address(&system, Mode::IndirectY, 0x40, 0x99),
        Target { address: 0x0310, crossed: true }
    );
    for mode in [Mode::Implied, Mode::Accumulator, Mode::Immediate, Mode::Relative] {
        assert_eq!(cpu.operand_address(&system, mode, 0x40, 0x03), at(0x0000));
    }
}

#[test]
fn zero_page_indexing_wraps_within_page_zero() {
    let system = machine(&[]);
    let mut cpu = processor();
    cpu.x = 0x20;
    cpu.y = 0xFF;
    assert_eq!(cpu.operand_address(&system, Mode::ZeroPageX, 0xF0, 0).address, 0x0010);
    assert_eq!(cpu.operand_address(&system, Mode::ZeroPageY, 0x01, 0).address, 0x0000);
}

#[test]
fn zero_page_pointers_wrap_within_page_zero() {
    let mut system = machine(&[]);
    system.ram[0xFF] = 0xCD;
    system.ram[0x00] = 0xAB;
    system.ram[0x100] = 0x11;
    let mut cpu = processor();
    assert_eq!(cpu.get_zero_page_word(&system, 0xFF), 0xABCD);
    assert_eq!(cpu.operand_address(&system, Mode::IndirectY, 0xFF, 0).address, 0xABCD);
    cpu.x = 0x0F;
    assert_eq!(cpu.operand_address(&system, Mode::IndirectX, 0xF0, 0).address, 0xABCD);
}

#[test]
fn the_indirect_jump_pointer_reads_across_pages() {
    let mut system = machine(&[]);
    system.ram[0x02FF] = 0x34;
    system.ram[0x0300] = 0x12;
    system.ram[0x0200] = 0x99;
    let cpu = processor();
    assert_eq!(cpu.operand_address(&system, Mode::Indirect, 0xFF, 0x02).address, 0x1234);
}

#[test]
fn operand_values_by_mode() {
    let mut system = machine(&[0xA9, 0x01]);
    system.ram[0x40] = 0x11;
    system.ram[0x45] = 0x22;
    system.ram[0x0305] = 0x33;
    let mut cpu = processor();
    cpu.a = 0x77;
    cpu.x = 0x05;
    assert_eq!(cpu.read_operand(&system, Mode::Immediate, 0x40, 0x03), (0x40, false));
    assert_eq!(cpu.read_operand(&system, Mode::Accumulator, 0x40, 0x03), (0x77, false));
    assert_eq!(cpu.read_operand(&system, Mode::ZeroPage, 0x40, 0x03), (0x11, false));
    assert_eq!(cpu.read_operand(&system, Mode::ZeroPageX, 0x40, 0x03), (0x22, false));
    assert_eq!(cpu.read_operand(&system, Mode::AbsoluteX, 0x00, 0x03), (0x33, false));
    assert_eq!(cpu.read_operand(&system, Mode::Absolute, 0x00, 0x80), (0xA9, false));
    cpu.x = 0xFF;
    assert_eq!(cpu.read_operand(&system, Mode::AbsoluteX, 0x06, 0x02), (0x33, true));
}

#[test]
fn get_indirect_address_selects_the_mode() {
    let mut system = machine(&[]);
    system.ram[0x40] = 0xF0;
    system.ram[0x41] = 0x02;
    system.ram[0x45] = 0x34;
    system.ram[0x46] = 0x12;
    let mut cpu = processor();
    cpu.x = 0x05;
    cpu.y = 0x20;
    assert_eq!(cpu.get_indirect_address(&system, 0x40, 0), 0x1234);
    assert_eq!(cpu.get_indirect_address(&system, 0x40, 1), 0x0310);
    assert_eq!(cpu.get_indirect_address(&system, 0x40, 0xFF), 0x0310);
}

#[test]
fn absolute_x_costs_one_more_cycle_across_a_page() {
    let mut system = machine(&[]);
    for (low, x) in [(0xFFu8, 0x01u8), (0x80, 0x80), (0x01, 0xFF), (0xFF, 0xFF)] {
        let mut crossing = processor();
        crossing.x = x;
        let mut staying = processor();
        staying.x = 0x00;
        let crossed = lda(&mut crossing, 0xBD, low, 0x02, &mut system);
        let stayed = lda(&mut staying, 0xBD, low, 0x02, &mut system);
        assert_eq!(stayed, 4);
        assert_eq!(crossed, stayed + 1);
    }
    for (low, x) in [(0x00u8, 0xFFu8), (0xFE, 0x01), (0x7F, 0x80), (0x00, 0x00)] {
        let mut cpu = processor();
        cpu.x = x;
        assert_eq!(lda(&mut cpu, 0xBD, low, 0x02, &mut system), 4);
    }
}

#[test]
fn absolute_x_penalty_for_every_low_byte_and_index() {
    let mut system = machine(&[]);
    for low in 0..=255u8 {
        for x in 0..=255u8 {
            let mut cpu = processor();
            cpu.x = x;
            let cycles = lda(&mut cpu, 0xBD, low, 0x03, &mut system);
            assert_eq!(cycles, if low as u16 + x as u16 > 0xFF { 5 } else { 4 });
        }
    }
}

#[test]
fn stores_and_in_place_operations_pay_the_penalty_too() {
    let mut system = machine(&[]);
    let mut cpu = processor();
    cpu.x = 0x01;
    assert_eq!(sta(&mut cpu, 0x9D, 0xFE, 0x02, &mut system), 5);
    assert_eq!(sta(&mut cpu, 0x9D, 0xFF, 0x02, &mut system), 6);
    assert_eq!(asl(&mut cpu, 0x1E, 0xFE, 0x02, &mut system), 7);
    assert_eq!(asl(&mut cpu, 0x1E, 0xFF, 0x02, &mut system), 8);
    cpu.y = 0x01;
    assert_eq!(sta(&mut cpu, 0x99, 0xFF, 0x02, &mut system), 6);
    system.ram[0x10] = 0xFF;
    system.ram[0x11] = 0x02;
    assert_eq!(sta(&mut cpu, 0x91, 0x10, 0x00, &mut system), 7);
    assert_eq!(lda(&mut cpu, 0xB1, 0x10, 0x00, &mut system), 6);
    assert_eq!(lda(&mut cpu, 0xB9, 0xFF, 0x02, &mut system), 5);
}
