use sm83_core::cpu::{InstructionReturn, ReturnType, CPU};
use sm83_core::jump_handlers::{call, jp};
use sm83_core::opcodes::{Flags, Load16Dest};
use sm83_core::load16_handlers::{pop, push};
use sm83_core::step::{step, IllegalOpcode};

fn cpu_with_program(pc: u16, bytes: &[u8]) -> CPU {
    let mut cpu = CPU::new();
    cpu.registers.pc = pc;
    cpu.registers.sp = 0xFFFE;
    for (i, b) in bytes.iter().enumerate() {
        cpu.bus.write(pc.wrapping_add(i as u16), *b);
    }
    cpu
}

fn ret_of(n_cycles: u8, n_bytes: u8, return_type: ReturnType) -> InstructionReturn {
    InstructionReturn { n_cycles, n_bytes, return_type }
}

#[test]
fn call_nz_taken_pushes_return_address() {
    let mut cpu = cpu_with_program(0x0100, &[0xC4, 0x34, 0x12]);
    cpu.registers.f.zero = false;
    let r = call(&mut cpu, Flags::NZ);
    assert_eq!(r, ret_of(24, 3, ReturnType::Jumped));
    assert_eq!(cpu.registers.sp, 0xFFFC);
    assert_eq!(cpu.bus.read(0xFFFD), 0x01);
    assert_eq!(cpu.bus.read(0xFFFC), 0x03);
    assert_eq!(cpu.registers.pc, 0x1234);
}

#[test]
fn call_nz_not_taken_leaves_state() {
    let mut cpu = cpu_with_program(0x0100, &[0xC4, 0x34, 0x12]);
    cpu.registers.f.zero = true;
    let r = call(&mut cpu, Flags::NZ);
    assert_eq!(r, ret_of(12, 3, ReturnType::NotJumped));
    assert_eq!(cpu.registers.sp, 0xFFFE);
    assert_eq!(cpu.bus.read(0xFFFD), 0);
    assert_eq!(cpu.bus.read(0xFFFC), 0);
    assert_eq!(cpu.registers.pc, 0x0100);
}

#[test]
fn step_call_nz_not_taken_advances_three() {
    let mut cpu = cpu_with_program(0x0100, &[0xC4, 0x34, 0x12]);
    cpu.registers.f.zero = true;
    let r = step(&mut cpu).unwrap();
    assert_eq!(r, ret_of(12, 3, ReturnType::NotJumped));
    assert_eq!(cpu.registers.pc, 0x0103);
    assert_eq!(cpu.registers.sp, 0xFFFE);
    assert_eq!(cpu.cycles, 12);
}

#[test]
fn step_taken_branches_land_on_target() {
    // CALL a16
    let mut cpu = cpu_with_program(0x0200, &[0xCD, 0x00, 0x40]);
    step(&mut cpu).unwrap();
    assert_eq!(cpu.registers.pc, 0x4000);
    // JP a16
    let mut cpu = cpu_with_program(0x0200, &[0xC3, 0x50, 0x01]);
    step(&mut cpu).unwrap();
    assert_eq!(cpu.registers.pc, 0x0150);
    // JR -2 loops on itself
    let mut cpu = cpu_with_program(0x0200, &[0x18, 0xFE]);
    let r = step(&mut cpu).unwrap();
    assert_eq!(r, ret_of(12, 2, ReturnType::Jumped));
    assert_eq!(cpu.registers.pc, 0x0200);
    // RST 38h
    let mut cpu = cpu_with_program(0x0200, &[0xFF]);
    step(&mut cpu).unwrap();
    assert_eq!(cpu.registers.pc, 0x0038);
    assert_eq!(cpu.bus.read(0xFFFD), 0x02);
    assert_eq!(cpu.bus.read(0xFFFC), 0x01);
    // JP (HL)
    let mut cpu = cpu_with_program(0x0200, &[0xE9]);
    cpu.registers.h = 0x12;
    cpu.registers.l = 0x34;
    let r = step(&mut cpu).unwrap();
    assert_eq!(r, ret_of(4, 1, ReturnType::Jumped));
    assert_eq!(cpu.registers.pc, 0x1234);
}

#[test]
fn call_then_ret_returns_after_the_call() {
    let mut cpu = cpu_with_program(0x0200, &[0xCD, 0x00, 0x40]);
    cpu.bus.write(0x4000, 0xC9);
    step(&mut cpu).unwrap();
    let r = step(&mut cpu).unwrap();
    assert_eq!(r, ret_of(16, 1, ReturnType::Jumped));
    assert_eq!(cpu.registers.pc, 0x0203);
    assert_eq!(cpu.registers.sp, 0xFFFE);
    assert_eq!(cpu.cycles, 40);
}

#[test]
fn conditional_ret_costs() {
    let mut cpu = cpu_with_program(0x0200, &[0xC8]);
    cpu.registers.f.zero = false;
    let r = step(&mut cpu).unwrap();
    assert_eq!(r, ret_of(8, 1, ReturnType::NotJumped));
    assert_eq!(cpu.registers.pc, 0x0201);
}

#[test]
fn jp_taken_and_not_taken() {
    let mut cpu = cpu_with_program(0x0100, &[0xDA, 0x00, 0x80]);
    cpu.registers.f.carry = true;
    assert_eq!(jp(&mut cpu, Flags::C), ret_of(16, 3, ReturnType::Jumped));
    assert_eq!(cpu.registers.pc, 0x8000);
    let mut cpu = cpu_with_program(0x0100, &[0xDA, 0x00, 0x80]);
    assert_eq!(jp(&mut cpu, Flags::C), ret_of(12, 3, ReturnType::NotJumped));
    assert_eq!(cpu.registers.pc, 0x0100);
}

#[test]
fn push_then_pop_restores_pairs() {
    let mut cpu = cpu_with_program(0x0100, &[]);
    cpu.registers.b = 0xBE;
    cpu.registers.c = 0xEF;
    let before = cpu.registers;
    assert_eq!(push(&mut cpu, Load16Dest::BC), ret_of(16, 1, ReturnType::NotJumped));
    assert_eq!(cpu.registers.sp, 0xFFFC);
    cpu.registers.b = 0;
    cpu.registers.c = 0;
    assert_eq!(pop(&mut cpu, Load16Dest::BC), ret_of(12, 1, ReturnType::NotJumped));
    assert_eq!(cpu.registers, before);

    cpu.registers.a = 0x5A;
    cpu.registers.f.zero = true;
    cpu.registers.f.carry = true;
    let before = cpu.registers;
    push(&mut cpu, Load16Dest::AF);
    assert_eq!(cpu.bus.read(0xFFFD), 0x5A);
    assert_eq!(cpu.bus.read(0xFFFC), 0x90);
    cpu.registers.a = 0;
    cpu.registers.f.zero = false;
    pop(&mut cpu, Load16Dest::AF);
    assert_eq!(cpu.registers, before);
}

#[test]
fn pop_af_drops_low_nibble() {
    let mut cpu = cpu_with_program(0x0100, &[]);
    cpu.registers.sp = 0xC000;
    cpu.bus.write(0xC000, 0xFF);
    cpu.bus.write(0xC001, 0x12);
    pop(&mut cpu, Load16Dest::AF);
    assert_eq!(cpu.registers.a, 0x12);
    assert!(cpu.registers.f.zero && cpu.registers.f.subtract);
    assert!(cpu.registers.f.half_carry && cpu.registers.f.carry);
    assert_eq!(cpu.registers.f.to_byte(), 0xF0);
    assert_eq!(cpu.registers.sp, 0xC002);
}

#[test]
fn illegal_opcode_is_reported_with_pc() {
    let mut cpu = cpu_with_program(0x0150, &[0xD3]);
    assert_eq!(step(&mut cpu), Err(IllegalOpcode { opcode: 0xD3, pc: 0x0150 }));
    assert_eq!(cpu.registers.pc, 0x0150);
    assert_eq!(cpu.cycles, 0);
}

#[test]
fn prefixed_instruction_takes_two_bytes() {
    // SWAP A
    let mut cpu = cpu_with_program(0x0100, &[0xCB, 0x37]);
    cpu.registers.a = 0xF1;
    let r = step(&mut cpu).unwrap();
    assert_eq!(r, ret_of(8, 2, ReturnType::NotJumped));
    assert_eq!(cpu.registers.a, 0x1F);
    assert_eq!(cpu.registers.pc, 0x0102);
}

#[test]
fn ei_takes_effect_after_next_instruction() {
    let mut cpu = cpu_with_program(0x0100, &[0xFB, 0x00, 0x00]);
    step(&mut cpu).unwrap();
    assert!(!cpu.ime);
    step(&mut cpu).unwrap();
    assert!(cpu.ime);
    // EI then DI: interrupts stay disabled.
    let mut cpu = cpu_with_program(0x0100, &[0xFB, 0xF3, 0x00]);
    step(&mut cpu).unwrap();
    step(&mut cpu).unwrap();
    assert!(!cpu.ime);
    step(&mut cpu).unwrap();
    assert!(!cpu.ime);
}

#[test]
fn reti_enables_interrupts_at_once() {
    let mut cpu = cpu_with_program(0x0100, &[0xD9]);
    cpu.registers.sp = 0xC000;
    cpu.bus.write(0xC000, 0x34);
    cpu.bus.write(0xC001, 0x12);
    let r = step(&mut cpu).unwrap();
    assert_eq!(r, ret_of(16, 1, ReturnType::Jumped));
    assert!(cpu.ime);
    assert_eq!(cpu.registers.pc, 0x1234);
}

#[test]
fn halt_suspends_fetching() {
    let mut cpu = cpu_with_program(0x0100, &[0x76, 0x3C]);
    step(&mut cpu).unwrap();
    assert!(cpu.halted);
    assert_eq!(cpu.registers.pc, 0x0101);
    let r = step(&mut cpu).unwrap();
    assert_eq!(r, ret_of(4, 0, ReturnType::NotJumped));
    assert_eq!(cpu.registers.pc, 0x0101);
    assert_eq!(cpu.registers.a, 0);
    cpu.halted = false;
    step(&mut cpu).unwrap();
    assert_eq!(cpu.registers.a, 1);
}
