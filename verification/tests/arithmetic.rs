use nes_core::cartridge::{Cartridge, CartridgeHeader};
use nes_core::cpu::instructions::{adc, cmp, cpx, cpy, sbc};
use nes_core::cpu::{Status, CPU};
use nes_core::system::System;

fn header(prg_banks: u8) -> CartridgeHeader {
    CartridgeHeader {
        ines: true,
        nes2: false,
        prg_rom_size: prg_banks,
        chr_rom_size: 0,
        flags: 0,
        mapper: 0,
        submapper: 0,
        prg_msb_rom_size: 0,
        chr_msb_rom_size: 0,
        prg_ram_size: 0,
        chr_ram_size: 0,
        cpu_ppu_timing: 0,
        is_vs_unisystem: false,
        vs_unisystem: 0,
        is_extended_console: false,
        extended_console: 0,
        misc_roms: 0,
        default_expansion_device: 0,
    }
}

/// A machine with two banks of program ROM that hold `program` from 0x8000 on.
fn machine(program: &[u8]) -> System {
    let mut prg = vec![0u8; 0x8000];
    prg[..program.len()].copy_from_slice(program);
    System::new(Cartridge { header: header(2), prg_rom: prg, chr_rom: vec![] })
}

/// A processor that has left reset behind, with every flag clear but the reserved one.
fn processor() -> CPU {
    let mut cpu = CPU::new();
    cpu.reset_requested = false;
    cpu.status = Status::new();
    cpu.pc = 0x8000;
    cpu
}

fn signed(value: u8) -> i32 {
    value as i8 as i32
}

#[test]
fn adc_adds_the_operand_and_the_carry() {
    let mut system = machine(&[]);
    let mut cpu = processor();
    cpu.a = 0x10;
    cpu.status.carry = true;
    let cycles = adc(&mut cpu, 0x69, 0x22, 0, &mut system);
    assert_eq!(cycles, 2);
    assert_eq!(cpu.a, 0x33);
    assert_eq!(cpu.pc, 0x8002);
    assert!(!cpu.status.carry && !cpu.status.overflow && !cpu.status.zero && !cpu.status.negative);
}

#[test]
fn adc_matches_twos_complement_addition_for_every_triple() {
    let mut system = machine(&[]);
    for a in 0..=255u8 {
        for m in 0..=255u8 {
            for carry in [false, true] {
                let mut cpu = processor();
                cpu.a = a;
                cpu.status.carry = carry;
                adc(&mut cpu, 0x69, m, 0, &mut system);
                let sum = a as u32 + m as u32 + carry as u32;
                let signed_sum = signed(a) + signed(m) + carry as i32;
                assert_eq!(cpu.a as u32, sum % 256);
                assert_eq!(cpu.status.carry, sum > 255);
                assert_eq!(cpu.status.overflow, signed_sum < -128 || signed_sum > 127);
                assert_eq!(
                    cpu.status.overflow,
                    (a ^ m) & 0x80 == 0 && (a ^ cpu.a) & 0x80 != 0
                );
                assert_eq!(cpu.status.zero, cpu.a == 0);
                assert_eq!(cpu.status.negative, cpu.a & 0x80 != 0);
            }
        }
    }
}

#[test]
fn adc_edge_cases() {
    let mut system = machine(&[]);
    // 0x7F + 0x01 overflows into the sign bit
    let mut cpu = processor();
    cpu.a = 0x7F;
    adc(&mut cpu, 0x69, 0x01, 0, &mut system);
    assert_eq!(cpu.a, 0x80);
    assert!(cpu.status.overflow && cpu.status.negative && !cpu.status.carry && !cpu.status.zero);
    // 0xFF + 0x01 carries to zero
    let mut cpu = processor();
    cpu.a = 0xFF;
    adc(&mut cpu, 0x69, 0x01, 0, &mut system);
    assert_eq!(cpu.a, 0x00);
    assert!(cpu.status.carry && cpu.status.zero && !cpu.status.overflow && !cpu.status.negative);
    // 0x80 + 0x80 overflows and carries
    let mut cpu = processor();
    cpu.a = 0x80;
    adc(&mut cpu, 0x69, 0x80, 0, &mut system);
    assert_eq!(cpu.a, 0x00);
    assert!(cpu.status.carry && cpu.status.zero && cpu.status.overflow && !cpu.status.negative);
    // operands of different sign never overflow
    let mut cpu = processor();
    cpu.a = 0x50;
    adc(&mut cpu, 0x69, 0xD0, 0, &mut system);
    assert_eq!(cpu.a, 0x20);
    assert!(cpu.status.carry && !cpu.status.overflow);
}

#[test]
fn adc_leaves_the_other_flags_and_registers() {
    let mut system = machine(&[]);
    let mut cpu = processor();
    cpu.status.decimal_mode = true;
    cpu.status.interrupt_disable = true;
    cpu.status.break_mode = true;
    cpu.x = 7;
    cpu.y = 8;
    cpu.sp = 0x44;
    adc(&mut cpu, 0x69, 1, 0, &mut system);
    assert!(cpu.status.decimal_mode && cpu.status.interrupt_disable && cpu.status.break_mode);
    assert!(cpu.status.reserved);
    assert_eq!((cpu.x, cpu.y, cpu.sp), (7, 8, 0x44));
    assert_eq!(system.ram, vec![0u8; 0x800]);
}

#[test]
fn adc_reads_its_operand_in_every_mode() {
    let mut system = machine(&[]);
    system.ram[0x10] = 1;
    system.ram[0x15] = 2;
    system.ram[0x0300] = 3;
    system.ram[0x0305] = 4;
    system.ram[0x0306] = 5;
    system.ram[0x20] = 0x00;
    system.ram[0x21] = 0x04;
    system.ram[0x0400] = 6;
    system.ram[0x0406] = 7;
    system.ram[0x25] = 0x10;
    system.ram[0x26] = 0x05;
    system.ram[0x0510] = 8;
    let cases: [(u8, u8, u8, u8, u64, u16); 8] = [
        (0x69, 0x09, 0x00, 0x09, 2, 2),
        (0x65, 0x10, 0x00, 1, 3, 2),
        (0x75, 0x10, 0x00, 2, 4, 2),
        (0x6D, 0x00, 0x03, 3, 4, 3),
        (0x7D, 0x00, 0x03, 4, 4, 3),
        (0x79, 0x00, 0x03, 5, 4, 3),
        (0x61, 0x20, 0x00, 8, 6, 2),
        (0x71, 0x20, 0x00, 7, 5, 2),
    ];
    for (opcode, operand, operand2, value, cycles, length) in cases {
        let mut cpu = processor();
        cpu.x = 5;
        cpu.y = 6;
        cpu.a = 0x40;
        let spent = adc(&mut cpu, opcode, operand, operand2, &mut system);
        assert_eq!(cpu.a, 0x40 + value, "opcode {:#04X}", opcode);
        assert_eq!(spent, cycles, "opcode {:#04X}", opcode);
        assert_eq!(cpu.pc, 0x8000 + length, "opcode {:#04X}", opcode);
    }
}

#[test]
fn a_handler_leaves_a_foreign_opcode_alone() {
    let mut system = machine(&[]);
    let mut cpu = processor();
    cpu.a = 5;
    let before = cpu;
    assert_eq!(adc(&mut cpu, 0xE9, 1, 0, &mut system), 2);
    assert_eq!(cpu, before);
    assert_eq!(sbc(&mut cpu, 0x69, 1, 0, &mut system), 2);
    assert_eq!(cpu, before);
    assert_eq!(cmp(&mut cpu, 0xE0, 1, 0, &mut system), 2);
    assert_eq!(cpx(&mut cpu, 0xC9, 1, 0, &mut system), 2);
    assert_eq!(cpy(&mut cpu, 0xEA, 1, 0, &mut system), 2);
    assert_eq!(cpu, before);
}

#[test]
fn sbc_subtracts_the_operand_and_the_borrow() {
    let mut system = machine(&[]);
    let mut cpu = processor();
    cpu.a = 0x50;
    cpu.status.carry = true;
    let cycles = sbc(&mut cpu, 0xE9, 0x20, 0, &mut system);
    assert_eq!(cycles, 2);
    assert_eq!(cpu.a, 0x30);
    assert!(cpu.status.carry && !cpu.status.overflow && !cpu.status.zero && !cpu.status.negative);
    let mut cpu = processor();
    cpu.a = 0x50;
    sbc(&mut cpu, 0xE9, 0x20, 0, &mut system);
    assert_eq!(cpu.a, 0x2F);
    assert!(cpu.status.carry);
}

#[test]
fn sbc_matches_twos_complement_subtraction_for_every_triple() {
    let mut system = machine(&[]);
    for a in 0..=255u8 {
        for m in 0..=255u8 {
            for carry in [false, true] {
                let mut cpu = processor();
                cpu.a = a;
                cpu.status.carry = carry;
                sbc(&mut cpu, 0xE9, m, 0, &mut system);
                let difference = a as i32 - m as i32 - (1 - carry as i32);
                let signed_difference = signed(a) - signed(m) - (1 - carry as i32);
                assert_eq!(cpu.a as i32, difference.rem_euclid(256));
                assert_eq!(cpu.status.carry, difference >= 0);
                assert_eq!(
                    cpu.status.overflow,
                    signed_difference < -128 || signed_difference > 127
                );
                assert_eq!(cpu.status.zero, cpu.a == 0);
                assert_eq!(cpu.status.negative, cpu.a & 0x80 != 0);
            }
        }
    }
}

#[test]
fn sbc_is_adc_of_the_complement() {
    let mut system = machine(&[]);
    for (a, m, carry) in [(0x00u8, 0x00u8, false), (0x80, 0x01, true), (0x7F, 0xFF, true), (0x12, 0x34, false)] {
        let mut left = processor();
        left.a = a;
        left.status.carry = carry;
        let mut right = left;
        sbc(&mut left, 0xE9, m, 0, &mut system);
        adc(&mut right, 0x69, !m, 0, &mut system);
        assert_eq!(left, right);
    }
}

#[test]
fn sbc_edge_cases() {
    let mut system = machine(&[]);
    // 0x80 - 0x01 overflows out of the negative range
    let mut cpu = processor();
    cpu.a = 0x80;
    cpu.status.carry = true;
    sbc(&mut cpu, 0xE9, 0x01, 0, &mut system);
    assert_eq!(cpu.a, 0x7F);
    assert!(cpu.status.overflow && cpu.status.carry && !cpu.status.negative);
    // 0x00 - 0x01 borrows
    let mut cpu = processor();
    cpu.status.carry = true;
    sbc(&mut cpu, 0xE9, 0x01, 0, &mut system);
    assert_eq!(cpu.a, 0xFF);
    assert!(!cpu.status.carry && cpu.status.negative && !cpu.status.overflow);
    // equal operands give zero
    let mut cpu = processor();
    cpu.a = 0x42;
    cpu.status.carry = true;
    sbc(&mut cpu, 0xE9, 0x42, 0, &mut system);
    assert_eq!(cpu.a, 0x00);
    assert!(cpu.status.zero && cpu.status.carry);
}

#[test]
fn sbc_reads_its_operand_in_every_mode() {
    let mut system = machine(&[]);
    system.ram[0x10] = 1;
    system.ram[0x15] = 2;
    system.ram[0x0300] = 3;
    system.ram[0x0305] = 4;
    system.ram[0x0306] = 5;
    system.ram[0x20] = 0x00;
    system.ram[0x21] = 0x04;
    system.ram[0x0406] = 7;
    system.ram[0x25] = 0x10;
    system.ram[0x26] = 0x05;
    system.ram[0x0510] = 8;
    let cases: [(u8, u8, u8, u8, u64, u16); 8] = [
        (0xE9, 0x09, 0x00, 0x09, 2, 2),
        (0xE5, 0x10, 0x00, 1, 3, 2),
        (0xF5, 0x10, 0x00, 2, 4, 2),
        (0xED, 0x00, 0x03, 3, 4, 3),
        (0xFD, 0x00, 0x03, 4, 4, 3),
        (0xF9, 0x00, 0x03, 5, 4, 3),
        (0xE1, 0x20, 0x00, 8, 6, 2),
        (0xF1, 0x20, 0x00, 7, 5, 2),
    ];
    for (opcode, operand, operand2, value, cycles, length) in cases {
        let mut cpu = processor();
        cpu.x = 5;
        cpu.y = 6;
        cpu.a = 0x40;
        cpu.status.carry = true;
        let spent = sbc(&mut cpu, opcode, operand, operand2, &mut system);
        assert_eq!(cpu.a, 0x40 - value, "opcode {:#04X}", opcode);
        assert_eq!(spent, cycles, "opcode {:#04X}", opcode);
        assert_eq!(cpu.pc, 0x8000 + length, "opcode {:#04X}", opcode);
    }
}

#[test]
fn cmp_sets_carry_zero_and_negative() {
    let mut system = machine(&[]);
    for a in 0..=255u8 {
        for m in 0..=255u8 {
            let mut cpu = processor();
            cpu.a = a;
            cpu.status.overflow = true;
            let cycles = cmp(&mut cpu, 0xC9, m, 0, &mut system);
            assert_eq!(cycles, 2);
            assert_eq!(cpu.a, a);
            assert_eq!(cpu.status.carry, a >= m);
            assert_eq!(cpu.status.zero, a == m);
            assert_eq!(cpu.status.negative, a.wrapping_sub(m) & 0x80 != 0);
            assert!(cpu.status.overflow);
            assert_eq!(cpu.pc, 0x8002);
        }
    }
}

#[test]
fn cmp_reads_its_operand_in_every_mode() {
    let mut system = machine(&[]);
    system.ram[0x10] = 0x40;
    system.ram[0x15] = 0x40;
    system.ram[0x0300] = 0x40;
    system.ram[0x0305] = 0x40;
    system.ram[0x0306] = 0x40;
    system.ram[0x20] = 0x00;
    system.ram[0x21] = 0x04;
    system.ram[0x0406] = 0x40;
    system.ram[0x25] = 0x10;
    system.ram[0x26] = 0x05;
    system.ram[0x0510] = 0x40;
    let cases: [(u8, u8, u8, u64, u16); 8] = [
        (0xC9, 0x40, 0x00, 2, 2),
        (0xC5, 0x10, 0x00, 3, 2),
        (0xD5, 0x10, 0x00, 4, 2),
        (0xCD, 0x00, 0x03, 4, 3),
        (0xDD, 0x00, 0x03, 4, 3),
        (0xD9, 0x00, 0x03, 4, 3),
        (0xC1, 0x20, 0x00, 6, 2),
        (0xD1, 0x20, 0x00, 5, 2),
    ];
    for (opcode, operand, operand2, cycles, length) in cases {
        let mut cpu = processor();
        cpu.x = 5;
        cpu.y = 6;
        cpu.a = 0x40;
        let spent = cmp(&mut cpu, opcode, operand, operand2, &mut system);
        assert!(cpu.status.zero && cpu.status.carry && !cpu.status.negative, "opcode {:#04X}", opcode);
        assert_eq!(spent, cycles, "opcode {:#04X}", opcode);
        assert_eq!(cpu.pc, 0x8000 + length, "opcode {:#04X}", opcode);
    }
}

#[test]
fn cpx_compares_x() {
    let mut system = machine(&[]);
    system.ram[0x10] = 0x30;
    system.ram[0x0300] = 0x10;
    let mut cpu = processor();
    cpu.x = 0x20;
    cpu.a = 0xFF;
    assert_eq!(cpx(&mut cpu, 0xE0, 0x20, 0, &mut system), 2);
    assert!(cpu.status.zero && cpu.status.carry && !cpu.status.negative);
    assert_eq!(cpx(&mut cpu, 0xE4, 0x10, 0, &mut system), 3);
    assert!(!cpu.status.zero && !cpu.status.carry && cpu.status.negative);
    assert_eq!(cpx(&mut cpu, 0xEC, 0x00, 0x03, &mut system), 4);
    assert!(!cpu.status.zero && cpu.status.carry && !cpu.status.negative);
    assert_eq!(cpu.pc, 0x8007);
    assert_eq!(cpu.x, 0x20);
}

#[test]
fn cpy_compares_y() {
    let mut system = machine(&[]);
    system.ram[0x10] = 0x30;
    system.ram[0x0300] = 0x10;
    let mut cpu = processor();
    cpu.y = 0x20;
    cpu.a = 0xFF;
    cpu.x = 0xFF;
    assert_eq!(cpy(&mut cpu, 0xC0, 0x20, 0, &mut system), 2);
    assert!(cpu.status.zero && cpu.status.carry && !cpu.status.negative);
    assert_eq!(cpy(&mut cpu, 0xC4, 0x10, 0, &mut system), 3);
    assert!(!cpu.status.zero && !cpu.status.carry && cpu.status.negative);
    assert_eq!(cpy(&mut cpu, 0xCC, 0x00, 0x03, &mut system), 4);
    assert!(!cpu.status.zero && cpu.status.carry && !cpu.status.negative);
    assert_eq!(cpu.pc, 0x8007);
    assert_eq!(cpu.y, 0x20);
}
