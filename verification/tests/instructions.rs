use nes_core::cartridge::{Cartridge, CartridgeHeader};
use nes_core::cpu::alu::{shift_left, shift_right};
use nes_core::cpu::decode::Operation;
use nes_core::cpu::instructions::{
    and, asl, bit, clc, cld, cli, clv, dec, dex, dey, eor, inc, inx, iny, lda, ldx, ldy, lsr,
    modify_value, nop, ora, pha, php, pla, plp, rol, ror, sec, sed, sei, sta, stx, sty, tax, tay,
    tsx, txa, txs, tya,
};
use nes_core::cpu::{Status, CPU};
use nes_core::system::System;

fn header(prg_banks: u8) -> CartridgeHeader {
    CartridgeHeader {
        ines: true,
        nes2: false,
        prg_rom_size: prg_banks,
        chr_rom_size: 0,
        flags: 0,
        mapper: 0,
        submapper: 0,
        prg_msb_rom_size: 0,
        chr_msb_rom_size: 0,
        prg_ram_size: 0,
        chr_ram_size: 0,
        cpu_ppu_timing: 0,
        is_vs_unisystem: false,
        vs_unisystem: 0,
        is_extended_console: false,
        extended_console: 0,
        misc_roms: 0,
        default_expansion_device: 0,
    }
}

/// A machine with two banks of program ROM that hold `program` from 0x8000 on.
fn machine(program: &[u8]) -> System {
    let mut prg = vec![0u8; 0x8000];
    prg[..program.len()].copy_from_slice(program);
    System::new(Cartridge { header: header(2), prg_rom: prg, chr_rom: vec![] })
}

/// A processor that has left reset behind, with every flag clear but the reserved one.
fn processor() -> CPU {
    let mut cpu = CPU::new();
    cpu.reset_requested = false;
    cpu.status = Status::new();
    cpu.pc = 0x8000;
    cpu
}

fn loaded(system: &mut System) {
    system.ram[0x10] = 0x0F;
    system.ram[0x15] = 0xF0;
    system.ram[0x16] = 0x3C;
    system.ram[0x0300] = 0xAA;
    system.ram[0x0305] = 0x55;
    system.ram[0x0306] = 0x81;
    system.ram[0x20] = 0x00;
    system.ram[0x21] = 0x04;
    system.ram[0x0406] = 0x18;
    system.ram[0x25] = 0x10;
    system.ram[0x26] = 0x05;
    system.ram[0x0510] = 0xC3;
}

// opcode, operand, operand2, value read, cycles, length; with X = 5 and Y = 6
const READS: [(usize, u8, u8, u8, u64, u16); 8] = [
    (0, 0x5A, 0x00, 0x5A, 2, 2),
    (1, 0x10, 0x00, 0x0F, 3, 2),
    (2, 0x10, 0x00, 0xF0, 4, 2),
    (3, 0x00, 0x03, 0xAA, 4, 3),
    (4, 0x00, 0x03, 0x55, 4, 3),
    (5, 0x00, 0x03, 0x81, 4, 3),
    (6, 0x20, 0x00, 0xC3, 6, 2),
    (7, 0x20, 0x00, 0x18, 5, 2),
];

#[test]
fn and_keeps_the_shared_bits() {
    let mut system = machine(&[]);
    loaded(&mut system);
    let opcodes = [0x29u8, 0x25, 0x35, 0x2D, 0x3D, 0x39, 0x21, 0x31];
    for (which, operand, operand2, value, cycles, length) in READS {
        let mut cpu = processor();
        cpu.x = 5;
        cpu.y = 6;
        cpu.a = 0x99;
        cpu.status.carry = true;
        cpu.status.overflow = true;
        let spent = and(&mut cpu, opcodes[which], operand, operand2, &mut system);
        assert_eq!(cpu.a, 0x99 & value);
        assert_eq!(spent, cycles);
        assert_eq!(cpu.pc, 0x8000 + length);
        assert_eq!(cpu.status.zero, 0x99 & value == 0);
        assert_eq!(cpu.status.negative, 0x99 & value >= 0x80);
        assert!(cpu.status.carry && cpu.status.overflow);
    }
}

#[test]
fn ora_sets_the_bits_of_the_operand() {
    let mut system = machine(&[]);
    loaded(&mut system);
    let opcodes = [0x09u8, 0x05, 0x15, 0x0D, 0x1D, 0x19, 0x01, 0x11];
    for (which, operand, operand2, value, cycles, length) in READS {
        let mut cpu = processor();
        cpu.x = 5;
        cpu.y = 6;
        cpu.a = 0x21;
        let spent = ora(&mut cpu, opcodes[which], operand, operand2, &mut system);
        assert_eq!(cpu.a, 0x21 | value);
        assert_eq!(spent, cycles);
        assert_eq!(cpu.pc, 0x8000 + length);
        assert!(!cpu.status.zero);
        assert_eq!(cpu.status.negative, (0x21 | value) >= 0x80);
        assert!(!cpu.status.carry && !cpu.status.overflow);
    }
}

#[test]
fn eor_flips_the_bits_of_the_operand() {
    let mut system = machine(&[]);
    loaded(&mut system);
    let opcodes = [0x49u8, 0x45, 0x55, 0x4D, 0x5D, 0x59, 0x41, 0x51];
    for (which, operand, operand2, value, cycles, length) in READS {
        let mut cpu = processor();
        cpu.x = 5;
        cpu.y = 6;
        cpu.a = 0xAA;
        let spent = eor(&mut cpu, opcodes[which], operand, operand2, &mut system);
        assert_eq!(cpu.a, 0xAA ^ value);
        assert_eq!(spent, cycles);
        assert_eq!(cpu.pc, 0x8000 + length);
        assert_eq!(cpu.status.zero, value == 0xAA);
        assert_eq!(cpu.status.negative, (0xAA ^ value) >= 0x80);
    }
}

#[test]
fn lda_loads_the_accumulator() {
    let mut system = machine(&[]);
    loaded(&mut system);
    let opcodes = [0xA9u8, 0xA5, 0xB5, 0xAD, 0xBD, 0xB9, 0xA1, 0xB1];
    for (which, operand, operand2, value, cycles, length) in READS {
        let mut cpu = processor();
        cpu.x = 5;
        cpu.y = 6;
        let spent = lda(&mut cpu, opcodes[which], operand, operand2, &mut system);
        assert_eq!(cpu.a, value);
        assert_eq!(spent, cycles);
        assert_eq!(cpu.pc, 0x8000 + length);
        assert!(!cpu.status.zero);
        assert_eq!(cpu.status.negative, value >= 0x80);
        assert_eq!((cpu.x, cpu.y), (5, 6));
    }
}

#[test]
fn loads_set_zero_and_negative() {
    let mut system = machine(&[]);
    let mut cpu = processor();
    lda(&mut cpu, 0xA9, 0x00, 0, &mut system);
    assert!(cpu.status.zero && !cpu.status.negative);
    ldx(&mut cpu, 0xA2, 0x80, 0, &mut system);
    assert!(!cpu.status.zero && cpu.status.negative);
    ldy(&mut cpu, 0xA0, 0x7F, 0, &mut system);
    assert!(!cpu.status.zero && !cpu.status.negative);
    assert_eq!((cpu.a, cpu.x, cpu.y), (0x00, 0x80, 0x7F));
}

#[test]
fn ldx_loads_x() {
    let mut system = machine(&[]);
    loaded(&mut system);
    // immediate, zero page, zero page Y, absolute, absolute Y
    let cases: [(u8, u8, u8, u8, u64, u16); 5] = [
        (0xA2, 0x5A, 0x00, 0x5A, 2, 2),
        (0xA6, 0x10, 0x00, 0x0F, 3, 2),
        (0xB6, 0x10, 0x00, 0x3C, 4, 2),
        (0xAE, 0x00, 0x03, 0xAA, 4, 3),
        (0xBE, 0x00, 0x03, 0x81, 4, 3),
    ];
    for (opcode, operand, operand2, value, cycles, length) in cases {
        let mut cpu = processor();
        cpu.x = 5;
        cpu.y = 6;
        let spent = ldx(&mut cpu, opcode, operand, operand2, &mut system);
        assert_eq!(cpu.x, value);
        assert_eq!(spent, cycles);
        assert_eq!(cpu.pc, 0x8000 + length);
        assert_eq!((cpu.a, cpu.y), (0, 6));
    }
}

#[test]
fn ldy_loads_y() {
    let mut system = machine(&[]);
    loaded(&mut system);
    // immediate, zero page, zero page X, absolute, absolute X
    let cases: [(u8, u8, u8, u8, u64, u16); 5] = [
        (0xA0, 0x5A, 0x00, 0x5A, 2, 2),
        (0xA4, 0x10, 0x00, 0x0F, 3, 2),
        (0xB4, 0x10, 0x00, 0xF0, 4, 2),
        (0xAC, 0x00, 0x03, 0xAA, 4, 3),
        (0xBC, 0x00, 0x03, 0x55, 4, 3),
    ];
    for (opcode, operand, operand2, value, cycles, length) in cases {
        let mut cpu = processor();
        cpu.x = 5;
        cpu.y = 6;
        let spent = ldy(&mut cpu, opcode, operand, operand2, &mut system);
        assert_eq!(cpu.y, value);
        assert_eq!(spent, cycles);
        assert_eq!(cpu.pc, 0x8000 + length);
        assert_eq!((cpu.a, cpu.x), (0, 5));
    }
}

#[test]
fn bit_tests_without_changing_the_accumulator() {
    let mut system = machine(&[]);
    system.ram[0x10] = 0xC0;
    system.ram[0x0300] = 0x01;
    let mut cpu = processor();
    cpu.a = 0x0F;
    cpu.status.carry = true;
    assert_eq!(bit(&mut cpu, 0x24, 0x10, 0, &mut system), 3);
    assert!(cpu.status.zero && cpu.status.overflow && cpu.status.negative && cpu.status.carry);
    assert_eq!(cpu.pc, 0x8002);
    assert_eq!(bit(&mut cpu, 0x2C, 0x00, 0x03, &mut system), 4);
    assert!(!cpu.status.zero && !cpu.status.overflow && !cpu.status.negative);
    assert_eq!(cpu.pc, 0x8005);
    assert_eq!(cpu.a, 0x0F);
}

#[test]
fn sta_stores_the_accumulator() {
    // opcode, operand, operand2, address, cycles, length; with X = 5 and Y = 6
    let cases: [(u8, u8, u8, usize, u64, u16); 7] = [
        (0x85, 0x10, 0x00, 0x0010, 3, 2),
        (0x95, 0x10, 0x00, 0x0015, 4, 2),
        (0x8D, 0x00, 0x03, 0x0300, 4, 3),
        (0x9D, 0x00, 0x03, 0x0305, 5, 3),
        (0x99, 0x00, 0x03, 0x0306, 5, 3),
        (0x81, 0x20, 0x00, 0x0510, 6, 2),
        (0x91, 0x20, 0x00, 0x0406, 6, 2),
    ];
    for (opcode, operand, operand2, address, cycles, length) in cases {
        let mut system = machine(&[]);
        system.ram[0x20] = 0x00;
        system.ram[0x21] = 0x04;
        system.ram[0x25] = 0x10;
        system.ram[0x26] = 0x05;
        let mut expected = system.ram.clone();
        expected[address] = 0x77;
        let mut cpu = processor();
        cpu.x = 5;
        cpu.y = 6;
        cpu.a = 0x77;
        let before = cpu;
        let spent = sta(&mut cpu, opcode, operand, operand2, &mut system);
        assert_eq!(system.ram, expected);
        assert_eq!(spent, cycles);
        let mut after = before;
        after.pc = 0x8000 + length;
        assert_eq!(cpu, after);
    }
}

#[test]
fn stx_and_sty_store_the_index_registers() {
    let mut system = machine(&[]);
    let mut cpu = processor();
    cpu.x = 0x11;
    cpu.y = 0x22;
    assert_eq!(stx(&mut cpu, 0x86, 0x40, 0, &mut system), 3);
    assert_eq!(system.ram[0x40], 0x11);
    assert_eq!(stx(&mut cpu, 0x96, 0x40, 0, &mut system), 4);
    assert_eq!(system.ram[0x62], 0x11);
    assert_eq!(stx(&mut cpu, 0x8E, 0x34, 0x02, &mut system), 4);
    assert_eq!(system.ram[0x0234], 0x11);
    assert_eq!(cpu.pc, 0x8007);
    assert_eq!(sty(&mut cpu, 0x84, 0x50, 0, &mut system), 3);
    assert_eq!(system.ram[0x50], 0x22);
    assert_eq!(sty(&mut cpu, 0x94, 0x50, 0, &mut system), 4);
    assert_eq!(system.ram[0x61], 0x22);
    assert_eq!(sty(&mut cpu, 0x8C, 0x35, 0x02, &mut system), 4);
    assert_eq!(system.ram[0x0235], 0x22);
    assert_eq!(cpu.pc, 0x800E);
    assert_eq!(cpu.status, Status::new());
}

#[test]
fn a_store_to_a_picture_register_reaches_the_picture_unit() {
    let mut system = machine(&[]);
    let mut cpu = processor();
    cpu.a = 0x80;
    sta(&mut cpu, 0x8D, 0x00, 0x20, &mut system);
    assert_eq!(system.ppu.ctrl, 0x80);
    sta(&mut cpu, 0x8D, 0x00, 0x80, &mut system);
    assert_eq!(system.rom.prg_rom[0], 0x00);
}

#[test]
fn shifts_of_every_byte() {
    for value in 0..=255u8 {
        for carry in [false, true] {
            assert_eq!(shift_left(value, carry), ((value << 1) | carry as u8, value & 0x80 != 0));
            assert_eq!(
                shift_right(value, carry),
                ((value >> 1) | (carry as u8) << 7, value & 0x01 != 0)
            );
        }
    }
}

#[test]
fn shifts_exact_values() {
    assert_eq!(shift_left(0x81, false), (0x02, true));
    assert_eq!(shift_left(0x81, true), (0x03, true));
    assert_eq!(shift_left(0x40, false), (0x80, false));
    assert_eq!(shift_right(0x81, false), (0x40, true));
    assert_eq!(shift_right(0x81, true), (0xC0, true));
    assert_eq!(shift_right(0x02, true), (0x81, false));
}

#[test]
fn in_place_values_by_operation() {
    assert_eq!(modify_value(Operation::Asl, 0xC1, true), (0x82, true));
    assert_eq!(modify_value(Operation::Rol, 0xC1, true), (0x83, true));
    assert_eq!(modify_value(Operation::Lsr, 0xC1, true), (0x60, true));
    assert_eq!(modify_value(Operation::Ror, 0xC0, true), (0xE0, false));
    assert_eq!(modify_value(Operation::Inc, 0xFF, true), (0x00, true));
    assert_eq!(modify_value(Operation::Inc, 0x7F, false), (0x80, false));
    assert_eq!(modify_value(Operation::Dec, 0x00, false), (0xFF, false));
    assert_eq!(modify_value(Operation::Dec, 0x01, true), (0x00, true));
    assert_eq!(modify_value(Operation::Nop, 0x55, true), (0x55, true));
}

#[test]
fn asl_on_the_accumulator() {
    let mut system = machine(&[]);
    let mut cpu = processor();
    cpu.a = 0xC0;
    assert_eq!(asl(&mut cpu, 0x0A, 0x12, 0x34, &mut system), 2);
    assert_eq!(cpu.a, 0x80);
    assert!(cpu.status.carry && cpu.status.negative && !cpu.status.zero);
    assert_eq!(cpu.pc, 0x8001);
    assert_eq!(asl(&mut cpu, 0x0A, 0, 0, &mut system), 2);
    assert_eq!(cpu.a, 0x00);
    assert!(cpu.status.carry && !cpu.status.negative && cpu.status.zero);
    assert_eq!(system.ram, vec![0u8; 0x800]);
}

#[test]
fn in_place_operations_on_memory() {
    // handler, opcodes (zero page, zero page X, absolute, absolute X), value, carry in, result, carry out
    type Handler = fn(&mut CPU, u8, u8, u8, &mut System) -> u64;
    let cases: [(Handler, [u8; 4], u8, bool, u8, bool); 6] = [
        (asl, [0x06, 0x16, 0x0E, 0x1E], 0x81, true, 0x02, true),
        (lsr, [0x46, 0x56, 0x4E, 0x5E], 0x81, true, 0x40, true),
        (rol, [0x26, 0x36, 0x2E, 0x3E], 0x41, true, 0x83, false),
        (ror, [0x66, 0x76, 0x6E, 0x7E], 0x02, true, 0x81, false),
        (inc, [0xE6, 0xF6, 0xEE, 0xFE], 0xFF, true, 0x00, true),
        (dec, [0xC6, 0xD6, 0xCE, 0xDE], 0x00, false, 0xFF, false),
    ];
    let places: [(u8, u8, usize, u64, u16); 4] = [
        (0x10, 0x00, 0x0010, 5, 2),
        (0x10, 0x00, 0x0015, 6, 2),
        (0x00, 0x03, 0x0300, 6, 3),
        (0x00, 0x03, 0x0305, 7, 3),
    ];
    for (handler, opcodes, value, carry_in, result, carry_out) in cases {
        for (which, (operand, operand2, address, cycles, length)) in places.iter().enumerate() {
            let mut system = machine(&[]);
            system.ram[*address] = value;
            let mut cpu = processor();
            cpu.x = 5;
            cpu.a = 0x33;
            cpu.status.carry = carry_in;
            let spent = handler(&mut cpu, opcodes[which], *operand, *operand2, &mut system);
            let mut expected = vec![0u8; 0x800];
            expected[*address] = result;
            assert_eq!(system.ram, expected, "opcode {:#04X}", opcodes[which]);
            assert_eq!(spent, *cycles);
            assert_eq!(cpu.pc, 0x8000 + length);
            assert_eq!(cpu.a, 0x33);
            assert_eq!(cpu.status.carry, carry_out);
            assert_eq!(cpu.status.zero, result == 0);
            assert_eq!(cpu.status.negative, result >= 0x80);
        }
    }
}

#[test]
fn rotates_on_the_accumulator() {
    let mut system = machine(&[]);
    let mut cpu = processor();
    cpu.a = 0x80;
    assert_eq!(rol(&mut cpu, 0x2A, 0, 0, &mut system), 2);
    assert_eq!(cpu.a, 0x00);
    assert!(cpu.status.carry && cpu.status.zero);
    assert_eq!(rol(&mut cpu, 0x2A, 0, 0, &mut system), 2);
    assert_eq!(cpu.a, 0x01);
    assert!(!cpu.status.carry && !cpu.status.zero);
    assert_eq!(ror(&mut cpu, 0x6A, 0, 0, &mut system), 2);
    assert_eq!(cpu.a, 0x00);
    assert!(cpu.status.carry && cpu.status.zero && !cpu.status.negative);
    assert_eq!(ror(&mut cpu, 0x6A, 0, 0, &mut system), 2);
    assert_eq!(cpu.a, 0x80);
    assert!(!cpu.status.carry && !cpu.status.zero && cpu.status.negative);
    assert_eq!(lsr(&mut cpu, 0x4A, 0, 0, &mut system), 2);
    assert_eq!(cpu.a, 0x40);
    assert!(!cpu.status.carry && !cpu.status.negative);
    assert_eq!(cpu.pc, 0x8005);
}

#[test]
fn an_in_place_operation_on_program_rom_changes_the_flags_only() {
    let mut system = machine(&[0x80]);
    let mut cpu = processor();
    assert_eq!(asl(&mut cpu, 0x0E, 0x00, 0x80, &mut system), 6);
    assert!(cpu.status.carry && cpu.status.zero);
    assert_eq!(system.rom.prg_rom[0], 0x80);
}

#[test]
fn flag_instructions_change_one_flag() {
    type Handler = fn(&mut CPU, u8, &mut System) -> u64;
    let mut system = machine(&[]);
    let set_all = |cpu: &mut CPU| {
        cpu.status.carry = true;
        cpu.status.decimal_mode = true;
        cpu.status.interrupt_disable = true;
        cpu.status.overflow = true;
    };
    let clears: [(Handler, u8, u8); 4] =
        [(clc, 0x18, 0x01), (cld, 0xD8, 0x08), (cli, 0x58, 0x04), (clv, 0xB8, 0x40)];
    for (handler, opcode, bit) in clears {
        let mut cpu = processor();
        set_all(&mut cpu);
        let before = cpu.status.get_byte();
        assert_eq!(handler(&mut cpu, opcode, &mut system), 2);
        assert_eq!(cpu.status.get_byte(), before & !bit);
        assert_eq!(cpu.pc, 0x8001);
    }
    let sets: [(Handler, u8, u8); 3] = [(sec, 0x38, 0x01), (sed, 0xF8, 0x08), (sei, 0x78, 0x04)];
    for (handler, opcode, bit) in sets {
        let mut cpu = processor();
        assert_eq!(handler(&mut cpu, opcode, &mut system), 2);
        assert_eq!(cpu.status.get_byte(), 0x20 | bit);
        assert_eq!(cpu.pc, 0x8001);
    }
}

#[test]
fn counters_wrap_and_set_zero_and_negative() {
    let mut system = machine(&[]);
    let mut cpu = processor();
    cpu.status.carry = true;
    assert_eq!(dex(&mut cpu, 0xCA, &mut system), 2);
    assert_eq!(cpu.x, 0xFF);
    assert!(cpu.status.negative && !cpu.status.zero && cpu.status.carry);
    assert_eq!(inx(&mut cpu, 0xE8, &mut system), 2);
    assert_eq!(cpu.x, 0x00);
    assert!(!cpu.status.negative && cpu.status.zero && cpu.status.carry);
    assert_eq!(dey(&mut cpu, 0x88, &mut system), 2);
    assert_eq!(cpu.y, 0xFF);
    assert!(cpu.status.negative && !cpu.status.zero);
    assert_eq!(iny(&mut cpu, 0xC8, &mut system), 2);
    assert_eq!(iny(&mut cpu, 0xC8, &mut system), 2);
    assert_eq!(cpu.y, 0x01);
    assert!(!cpu.status.negative && !cpu.status.zero);
    assert_eq!(cpu.pc, 0x8005);
    assert_eq!(cpu.a, 0);
}

#[test]
fn dey_does_not_answer_to_the_opcode_of_dex() {
    let mut system = machine(&[]);
    let mut cpu = processor();
    let before = cpu;
    assert_eq!(dey(&mut cpu, 0xCA, &mut system), 2);
    assert_eq!(cpu, before);
}

#[test]
fn transfers_copy_and_set_flags() {
    let mut system = machine(&[]);
    let mut cpu = processor();
    cpu.a = 0x80;
    assert_eq!(tax(&mut cpu, 0xAA, &mut system), 2);
    assert_eq!(cpu.x, 0x80);
    assert!(cpu.status.negative && !cpu.status.zero);
    cpu.a = 0x00;
    assert_eq!(tay(&mut cpu, 0xA8, &mut system), 2);
    assert_eq!(cpu.y, 0x00);
    assert!(!cpu.status.negative && cpu.status.zero);
    assert_eq!(txa(&mut cpu, 0x8A, &mut system), 2);
    assert_eq!(cpu.a, 0x80);
    assert!(cpu.status.negative && !cpu.status.zero);
    assert_eq!(tya(&mut cpu, 0x98, &mut system), 2);
    assert_eq!(cpu.a, 0x00);
    assert!(cpu.status.zero);
    cpu.sp = 0x7F;
    assert_eq!(tsx(&mut cpu, 0xBA, &mut system), 2);
    assert_eq!(cpu.x, 0x7F);
    assert!(!cpu.status.zero && !cpu.status.negative);
    assert_eq!(cpu.pc, 0x8005);
}

#[test]
fn txs_sets_no_flag() {
    let mut system = machine(&[]);
    let mut cpu = processor();
    cpu.x = 0x00;
    cpu.status.negative = true;
    assert_eq!(txs(&mut cpu, 0x9A, &mut system), 2);
    assert_eq!(cpu.sp, 0x00);
    assert!(cpu.status.negative && !cpu.status.zero);
    assert_eq!(cpu.pc, 0x8001);
}

#[test]
fn pha_and_pla_move_the_accumulator() {
    let mut system = machine(&[]);
    let mut cpu = processor();
    cpu.a = 0x80;
    assert_eq!(pha(&mut cpu, 0x48, &mut system), 3);
    assert_eq!(system.ram[0x1FF], 0x80);
    assert_eq!(cpu.sp, 0xFE);
    assert_eq!(cpu.status, Status::new());
    cpu.a = 0x01;
    assert_eq!(pla(&mut cpu, 0x68, &mut system), 4);
    assert_eq!(cpu.a, 0x80);
    assert_eq!(cpu.sp, 0xFF);
    assert!(cpu.status.negative && !cpu.status.zero);
    assert_eq!(cpu.pc, 0x8002);
    system.ram[0x100] = 0x00;
    assert_eq!(pla(&mut cpu, 0x68, &mut system), 4);
    assert_eq!(cpu.a, 0x00);
    assert_eq!(cpu.sp, 0x00);
    assert!(cpu.status.zero && !cpu.status.negative);
}

#[test]
fn php_and_plp_move_the_flags() {
    let mut system = machine(&[]);
    let mut cpu = processor();
    cpu.status.carry = true;
    cpu.status.overflow = true;
    assert_eq!(php(&mut cpu, 0x08, &mut system), 3);
    assert_eq!(system.ram[0x1FF], 0x61);
    assert_eq!(cpu.sp, 0xFE);
    cpu.status = Status::new();
    assert_eq!(plp(&mut cpu, 0x28, &mut system), 4);
    assert_eq!(cpu.status.get_byte(), 0x61);
    assert_eq!(cpu.sp, 0xFF);
    assert_eq!(cpu.pc, 0x8002);
    system.ram[0x100] = 0x00;
    assert_eq!(plp(&mut cpu, 0x28, &mut system), 4);
    assert_eq!(cpu.status.get_byte(), 0x20);
}

#[test]
fn nop_moves_on_by_one_byte() {
    let mut cpu = processor();
    let before = cpu;
    assert_eq!(nop(&mut cpu, 0xEA), 2);
    let mut after = before;
    after.pc = 0x8001;
    assert_eq!(cpu, after);
}

#[test]
fn nop_cycles_by_opcode() {
    for opcode in [0x1Au8, 0x3A, 0x5A, 0x7A, 0xDA, 0xFA, 0x80, 0x82, 0x89, 0xC2, 0xE2, 0xEA] {
        assert_eq!(nop(&mut processor(), opcode), 2);
    }
    for opcode in [0x04u8, 0x44, 0x64] {
        assert_eq!(nop(&mut processor(), opcode), 3);
    }
    for opcode in [0x14u8, 0x34, 0x54, 0x74, 0xD4, 0xF4, 0x0C, 0x1C, 0x3C, 0x5C, 0x7C, 0xDC, 0xFC] {
        assert_eq!(nop(&mut processor(), opcode), 4);
    }
    for opcode in [0x02u8, 0x69, 0xFF, 0x00] {
        let mut cpu = processor();
        assert_eq!(nop(&mut cpu, opcode), 2);
        assert_eq!(cpu.pc, 0x8001);
    }
}

#[test]
fn the_program_counter_wraps_at_the_top() {
    let mut system = machine(&[]);
    let mut cpu = processor();
    cpu.pc = 0xFFFF;
    lda(&mut cpu, 0xA9, 1, 0, &mut system);
    assert_eq!(cpu.pc, 0x0001);
    cpu.pc = 0xFFFF;
    nop(&mut cpu, 0xEA);
    assert_eq!(cpu.pc, 0x0000);
    cpu.pc = 0xFFFE;
    lda(&mut cpu, 0xAD, 0, 0, &mut system);
    assert_eq!(cpu.pc, 0x0001);
}
