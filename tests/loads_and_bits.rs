use sm83_core::cpu::{FlagRegister, CPU};
use sm83_core::step::step;

fn cpu_with_program(bytes: &[u8]) -> CPU {
    let mut cpu = CPU::new();
    cpu.registers.pc = 0x0100;
    cpu.registers.sp = 0xFFFE;
    for (i, b) in bytes.iter().enumerate() {
        cpu.bus.write(0x0100 + i as u16, *b);
    }
    cpu
}

#[test]
fn register_and_immediate_loads() {
    // LD B, 0x42; LD C, B; LD (HL), 0x99
    let mut cpu = cpu_with_program(&[0x06, 0x42, 0x48, 0x36, 0x99]);
    cpu.registers.h = 0xC0;
    let r = step(&mut cpu).unwrap();
    assert_eq!((r.n_cycles, r.n_bytes), (8, 2));
    assert_eq!(cpu.registers.b, 0x42);
    let r = step(&mut cpu).unwrap();
    assert_eq!((r.n_cycles, r.n_bytes), (4, 1));
    assert_eq!(cpu.registers.c, 0x42);
    let r = step(&mut cpu).unwrap();
    assert_eq!((r.n_cycles, r.n_bytes), (12, 2));
    assert_eq!(cpu.bus.read(0xC000), 0x99);
    assert_eq!(cpu.registers.pc, 0x0105);
}

#[test]
fn hl_increment_and_decrement_loads() {
    // LD (HL+), A; LD A, (HL-)
    let mut cpu = cpu_with_program(&[0x22, 0x3A]);
    cpu.registers.a = 0x77;
    cpu.registers.h = 0xC0;
    cpu.registers.l = 0xFF;
    cpu.bus.write(0xC100, 0x11);
    step(&mut cpu).unwrap();
    assert_eq!(cpu.bus.read(0xC0FF), 0x77);
    assert_eq!((cpu.registers.h, cpu.registers.l), (0xC1, 0x00));
    step(&mut cpu).unwrap();
    assert_eq!(cpu.registers.a, 0x11);
    assert_eq!((cpu.registers.h, cpu.registers.l), (0xC0, 0xFF));
}

#[test]
fn high_page_and_absolute_loads() {
    // LDH (0x80), A; LD A, (C); LD (0xC123), A; LD A, (0xC123)
    let mut cpu = cpu_with_program(&[0xE0, 0x80, 0xF2, 0xEA, 0x23, 0xC1, 0xFA, 0x23, 0xC1]);
    cpu.registers.a = 0x5C;
    cpu.registers.c = 0x80;
    let r = step(&mut cpu).unwrap();
    assert_eq!((r.n_cycles, r.n_bytes), (12, 2));
    assert_eq!(cpu.bus.read(0xFF80), 0x5C);
    cpu.registers.a = 0;
    let r = step(&mut cpu).unwrap();
    assert_eq!((r.n_cycles, r.n_bytes), (8, 1));
    assert_eq!(cpu.registers.a, 0x5C);
    let r = step(&mut cpu).unwrap();
    assert_eq!((r.n_cycles, r.n_bytes), (16, 3));
    assert_eq!(cpu.bus.read(0xC123), 0x5C);
    cpu.registers.a = 0;
    step(&mut cpu).unwrap();
    assert_eq!(cpu.registers.a, 0x5C);
    assert_eq!(cpu.registers.pc, 0x0109);
}

#[test]
fn sixteen_bit_loads() {
    // LD DE, 0x1234; LD (0xC000), SP; LD SP, HL
    let mut cpu = cpu_with_program(&[0x11, 0x34, 0x12, 0x08, 0x00, 0xC0, 0xF9]);
    cpu.registers.h = 0xD0;
    cpu.registers.l = 0x00;
    step(&mut cpu).unwrap();
    assert_eq!((cpu.registers.d, cpu.registers.e), (0x12, 0x34));
    let r = step(&mut cpu).unwrap();
    assert_eq!(r.n_cycles, 20);
    assert_eq!(cpu.bus.read(0xC000), 0xFE);
    assert_eq!(cpu.bus.read(0xC001), 0xFF);
    step(&mut cpu).unwrap();
    assert_eq!(cpu.registers.sp, 0xD000);
}

#[test]
fn accumulator_rotates_clear_zero() {
    // RLCA on 0x85; RRA with carry set
    let mut cpu = cpu_with_program(&[0x07, 0x1F]);
    cpu.registers.a = 0x85;
    step(&mut cpu).unwrap();
    assert_eq!(cpu.registers.a, 0x0B);
    assert_eq!(cpu.registers.f, FlagRegister { zero: false, subtract: false, half_carry: false, carry: true });
    step(&mut cpu).unwrap();
    assert_eq!(cpu.registers.a, 0x85);
    assert!(cpu.registers.f.carry);
}

#[test]
fn cb_rotates_and_shifts() {
    // RL B (carry in); SRA C; SRL D; SLA E
    let mut cpu = cpu_with_program(&[0xCB, 0x10, 0xCB, 0x29, 0xCB, 0x3A, 0xCB, 0x23]);
    cpu.registers.b = 0x80;
    cpu.registers.c = 0x81;
    cpu.registers.d = 0x01;
    cpu.registers.e = 0x40;
    step(&mut cpu).unwrap();
    assert_eq!(cpu.registers.b, 0x00);
    assert!(cpu.registers.f.zero && cpu.registers.f.carry);
    step(&mut cpu).unwrap();
    assert_eq!(cpu.registers.c, 0xC0);
    assert!(cpu.registers.f.carry && !cpu.registers.f.zero);
    step(&mut cpu).unwrap();
    assert_eq!(cpu.registers.d, 0x00);
    assert!(cpu.registers.f.zero && cpu.registers.f.carry);
    step(&mut cpu).unwrap();
    assert_eq!(cpu.registers.e, 0x80);
    assert!(!cpu.registers.f.carry);
}

#[test]
fn bit_res_set() {
    // BIT 7, H; BIT 0, (HL); RES 0, (HL); SET 3, A
    let mut cpu = cpu_with_program(&[0xCB, 0x7C, 0xCB, 0x46, 0xCB, 0x86, 0xCB, 0xDF]);
    cpu.registers.h = 0xC0;
    cpu.registers.l = 0x00;
    cpu.registers.f.carry = true;
    cpu.bus.write(0xC000, 0x01);
    step(&mut cpu).unwrap();
    assert_eq!(cpu.registers.f, FlagRegister { zero: false, subtract: false, half_carry: true, carry: true });
    let r = step(&mut cpu).unwrap();
    assert_eq!(r.n_cycles, 12);
    assert!(!cpu.registers.f.zero);
    let r = step(&mut cpu).unwrap();
    assert_eq!(r.n_cycles, 16);
    assert_eq!(cpu.bus.read(0xC000), 0x00);
    step(&mut cpu).unwrap();
    assert_eq!(cpu.registers.a, 0x08);
    assert_eq!(cpu.registers.pc, 0x0108);
}
