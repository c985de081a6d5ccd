use sm83_core::alu8_handlers::alu8;
use sm83_core::cpu::{FlagRegister, CPU};
use sm83_core::opcodes::ALU8Op;
use sm83_core::step::step;

fn cpu_with_program(bytes: &[u8]) -> CPU {
    let mut cpu = CPU::new();
    cpu.registers.pc = 0x0100;
    cpu.registers.sp = 0xFFFE;
    for (i, b) in bytes.iter().enumerate() {
        cpu.bus.write(0x0100 + i as u16, *b);
    }
    cpu
}

fn flags(zero: bool, subtract: bool, half_carry: bool, carry: bool) -> FlagRegister {
    FlagRegister { zero, subtract, half_carry, carry }
}

#[test]
fn daa_keeps_packed_bcd() {
    for a in [0x00u8, 0x09, 0x45, 0x90, 0x99] {
        let mut cpu = cpu_with_program(&[0x27]);
        cpu.registers.a = a;
        alu8(&mut cpu, ALU8Op::DAA);
        assert_eq!(cpu.registers.a, a);
        assert_eq!(cpu.registers.f, flags(a == 0, false, false, false));
    }
}

#[test]
fn daa_after_bcd_addition_and_subtraction() {
    // 15 + 27 = 42 in BCD: ADD A, B then DAA.
    let mut cpu = cpu_with_program(&[0x80, 0x27]);
    cpu.registers.a = 0x15;
    cpu.registers.b = 0x27;
    step(&mut cpu).unwrap();
    assert_eq!(cpu.registers.a, 0x3C);
    step(&mut cpu).unwrap();
    assert_eq!(cpu.registers.a, 0x42);
    assert!(!cpu.registers.f.carry);
    // 99 + 01 = 00 with carry.
    let mut cpu = cpu_with_program(&[0x80, 0x27]);
    cpu.registers.a = 0x99;
    cpu.registers.b = 0x01;
    step(&mut cpu).unwrap();
    step(&mut cpu).unwrap();
    assert_eq!(cpu.registers.a, 0x00);
    assert_eq!(cpu.registers.f, flags(true, false, false, true));
    // 42 - 15 = 27: SUB B then DAA.
    let mut cpu = cpu_with_program(&[0x90, 0x27]);
    cpu.registers.a = 0x42;
    cpu.registers.b = 0x15;
    step(&mut cpu).unwrap();
    step(&mut cpu).unwrap();
    assert_eq!(cpu.registers.a, 0x27);
    assert_eq!(cpu.registers.f, flags(false, true, false, false));
}

#[test]
fn add_sets_all_flags() {
    let mut cpu = cpu_with_program(&[0xC6, 0xC6]);
    cpu.registers.a = 0x3A;
    let r = step(&mut cpu).unwrap();
    assert_eq!((r.n_cycles, r.n_bytes), (8, 2));
    assert_eq!(cpu.registers.a, 0x00);
    assert_eq!(cpu.registers.f, flags(true, false, true, true));
    assert_eq!(cpu.registers.pc, 0x0102);
}

#[test]
fn adc_and_sbc_use_carry() {
    let mut cpu = cpu_with_program(&[0x88]);
    cpu.registers.a = 0xE1;
    cpu.registers.b = 0x0F;
    cpu.registers.f.carry = true;
    step(&mut cpu).unwrap();
    assert_eq!(cpu.registers.a, 0xF1);
    assert_eq!(cpu.registers.f, flags(false, false, true, false));

    let mut cpu = cpu_with_program(&[0x98]);
    cpu.registers.a = 0x3B;
    cpu.registers.b = 0x2A;
    cpu.registers.f.carry = true;
    step(&mut cpu).unwrap();
    assert_eq!(cpu.registers.a, 0x10);
    assert_eq!(cpu.registers.f, flags(false, true, false, false));
}

#[test]
fn sub_and_cp_borrow() {
    let mut cpu = cpu_with_program(&[0x90]);
    cpu.registers.a = 0x3E;
    cpu.registers.b = 0x40;
    step(&mut cpu).unwrap();
    assert_eq!(cpu.registers.a, 0xFE);
    assert_eq!(cpu.registers.f, flags(false, true, false, true));

    let mut cpu = cpu_with_program(&[0xFE, 0x3E]);
    cpu.registers.a = 0x3E;
    step(&mut cpu).unwrap();
    assert_eq!(cpu.registers.a, 0x3E);
    assert_eq!(cpu.registers.f, flags(true, true, false, false));
}

#[test]
fn logic_operations() {
    let mut cpu = cpu_with_program(&[0xA0, 0xB1, 0xAF]);
    cpu.registers.a = 0x5A;
    cpu.registers.b = 0x3F;
    cpu.registers.c = 0x80;
    step(&mut cpu).unwrap();
    assert_eq!(cpu.registers.a, 0x1A);
    assert_eq!(cpu.registers.f, flags(false, false, true, false));
    step(&mut cpu).unwrap();
    assert_eq!(cpu.registers.a, 0x9A);
    assert_eq!(cpu.registers.f, flags(false, false, false, false));
    step(&mut cpu).unwrap();
    assert_eq!(cpu.registers.a, 0x00);
    assert_eq!(cpu.registers.f, flags(true, false, false, false));
}

#[test]
fn inc_dec_keep_carry() {
    let mut cpu = cpu_with_program(&[0x3C, 0x05]);
    cpu.registers.a = 0x0F;
    cpu.registers.b = 0x01;
    cpu.registers.f.carry = true;
    step(&mut cpu).unwrap();
    assert_eq!(cpu.registers.a, 0x10);
    assert_eq!(cpu.registers.f, flags(false, false, true, true));
    step(&mut cpu).unwrap();
    assert_eq!(cpu.registers.b, 0x00);
    assert_eq!(cpu.registers.f, flags(true, true, false, true));
}

#[test]
fn inc_of_memory_at_hl() {
    let mut cpu = cpu_with_program(&[0x34]);
    cpu.registers.h = 0xC0;
    cpu.registers.l = 0x10;
    cpu.bus.write(0xC010, 0xFF);
    let r = step(&mut cpu).unwrap();
    assert_eq!(r.n_cycles, 12);
    assert_eq!(cpu.bus.read(0xC010), 0x00);
    assert!(cpu.registers.f.zero && cpu.registers.f.half_carry);
}

#[test]
fn cpl_scf_ccf() {
    let mut cpu = cpu_with_program(&[0x2F, 0x37, 0x3F]);
    cpu.registers.a = 0x35;
    step(&mut cpu).unwrap();
    assert_eq!(cpu.registers.a, 0xCA);
    assert!(cpu.registers.f.subtract && cpu.registers.f.half_carry);
    step(&mut cpu).unwrap();
    assert_eq!(cpu.registers.f, flags(false, false, false, true));
    step(&mut cpu).unwrap();
    assert_eq!(cpu.registers.f, flags(false, false, false, false));
}

#[test]
fn sixteen_bit_arithmetic() {
    // ADD HL, BC: 0x8A23 + 0x0605 = 0x9028 with half-carry.
    let mut cpu = cpu_with_program(&[0x09, 0x03, 0x2B]);
    cpu.registers.h = 0x8A;
    cpu.registers.l = 0x23;
    cpu.registers.b = 0x06;
    cpu.registers.c = 0x05;
    cpu.registers.f.zero = true;
    step(&mut cpu).unwrap();
    assert_eq!((cpu.registers.h, cpu.registers.l), (0x90, 0x28));
    assert_eq!(cpu.registers.f, flags(true, false, true, false));
    // INC BC, DEC HL leave the flags.
    step(&mut cpu).unwrap();
    assert_eq!((cpu.registers.b, cpu.registers.c), (0x06, 0x06));
    step(&mut cpu).unwrap();
    assert_eq!((cpu.registers.h, cpu.registers.l), (0x90, 0x27));
    assert_eq!(cpu.registers.f, flags(true, false, true, false));
}

#[test]
fn stack_pointer_offsets() {
    // ADD SP, -2 from 0xFFF8: unsigned low-byte view gives H and C set.
    let mut cpu = cpu_with_program(&[0xE8, 0xFE]);
    cpu.registers.sp = 0xFFF8;
    let r = step(&mut cpu).unwrap();
    assert_eq!((r.n_cycles, r.n_bytes), (16, 2));
    assert_eq!(cpu.registers.sp, 0xFFF6);
    assert_eq!(cpu.registers.f, flags(false, false, true, true));
    // LD HL, SP+2 from 0xFFF8.
    let mut cpu = cpu_with_program(&[0xF8, 0x02]);
    cpu.registers.sp = 0xFFF8;
    cpu.registers.f.zero = true;
    step(&mut cpu).unwrap();
    assert_eq!((cpu.registers.h, cpu.registers.l), (0xFF, 0xFA));
    assert_eq!(cpu.registers.f, flags(false, false, false, false));
}
