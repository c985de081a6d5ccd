//! 16-bit arithmetic: INC / DEC of a pair (no flags), `ADD HL, rr` and
//! `ADD SP, r8`.
use vstd::prelude::*;
use crate::cpu::{add16, outcome, sub16, wrap16, CPU, FlagRegister, InstructionReturn, Registers, ReturnType};
use crate::load16_handlers::{add_sp_offset, sp_offset, sp_offset_flags};
use crate::opcodes::{ALU16Dest, ALU16Op, ALU16Src};
use crate::operand::{imm_addr, read16, write16, Pair};

verus! {

pub open spec fn alu16_pair(d: ALU16Dest) -> Pair {
    match d {
        ALU16Dest::BC => Pair::BC,
        ALU16Dest::DE => Pair::DE,
        ALU16Dest::HL => Pair::HL,
        ALU16Dest::SP => Pair::SP,
    }
}

pub open spec fn alu16_src_pair(s: ALU16Src) -> Pair {
    match s {
        ALU16Src::BC => Pair::BC,
        ALU16Src::DE => Pair::DE,
        ALU16Src::HL => Pair::HL,
        _ => Pair::SP,
    }
}

/// The operand shapes of the table: `ADD HL, rr` and `ADD SP, r8`.
pub open spec fn is_alu16_form(op: ALU16Op) -> bool {
    match op {
        ALU16Op::ADD(d, s) => (d == ALU16Dest::HL && s != ALU16Src::Signed8 && s != ALU16Src::NIL)
            || (d == ALU16Dest::SP && s == ALU16Src::Signed8),
        _ => true,
    }
}

/// `ADD HL, v`: Zero kept, Subtract clear, Half-carry out of bit 11, Carry
/// out of bit 15.
pub open spec fn add_hl_flags(hl: u16, v: u16, f: FlagRegister) -> FlagRegister {
    FlagRegister {
        zero: f.zero,
        subtract: false,
        half_carry: hl % 4096 + v % 4096 > 4095,
        carry: hl + v > 65535,
    }
}

/// The registers after a 16-bit ALU operation.
pub open spec fn alu16_regs(regs: Registers, mem: Seq<u8>, op: ALU16Op) -> Registers {
    match op {
        ALU16Op::INC(d) => write16(regs, alu16_pair(d), wrap16(read16(regs, alu16_pair(d)) + 1)),
        ALU16Op::DEC(d) => write16(regs, alu16_pair(d), wrap16(read16(regs, alu16_pair(d)) - 1)),
        ALU16Op::ADD(ALU16Dest::SP, _) => {
            let e = mem[imm_addr(regs) as int];
            Registers { sp: sp_offset(regs.sp, e), f: sp_offset_flags(regs.sp, e), ..regs }
        },
        ALU16Op::ADD(_, s) => {
            let hl = regs.spec_hl();
            let v = read16(regs, alu16_src_pair(s));
            Registers { f: add_hl_flags(hl, v, regs.f), ..write16(regs, Pair::HL, wrap16(hl + v)) }
        },
    }
}

pub open spec fn alu16_outcome(op: ALU16Op) -> InstructionReturn {
    match op {
        ALU16Op::ADD(ALU16Dest::SP, _) => outcome(16, 2, ReturnType::NotJumped),
        _ => outcome(8, 1, ReturnType::NotJumped),
    }
}

fn pair_of(d: ALU16Dest) -> (r: Pair)
    ensures
        r == alu16_pair(d),
{
    match d {
        ALU16Dest::BC => Pair::BC,
        ALU16Dest::DE => Pair::DE,
        ALU16Dest::HL => Pair::HL,
        ALU16Dest::SP => Pair::SP,
    }
}

fn src_pair_of(s: ALU16Src) -> (r: Pair)
    ensures
        r == alu16_src_pair(s),
{
    match s {
        ALU16Src::BC => Pair::BC,
        ALU16Src::DE => Pair::DE,
        ALU16Src::HL => Pair::HL,
        _ => Pair::SP,
    }
}

/// Runs a 16-bit ALU operation.
pub fn alu16(cpu: &mut CPU, op: ALU16Op) -> (r: InstructionReturn)
    requires
        old(cpu).wf(),
        is_alu16_form(op),
    ensures
        final(cpu).wf(),
        final(cpu).same_signals(old(cpu)),
        final(cpu).registers == alu16_regs(old(cpu).registers, old(cpu).bus@, op),
        final(cpu).bus@ == old(cpu).bus@,
        r == alu16_outcome(op),
{
    match op {
        ALU16Op::INC(d) => {
            let p = pair_of(d);
            let v = cpu.read16(p);
            cpu.write16(p, add16(v, 1));
            InstructionReturn { n_cycles: 8, n_bytes: 1, return_type: ReturnType::NotJumped }
        },
        ALU16Op::DEC(d) => {
            let p = pair_of(d);
            let v = cpu.read16(p);
            cpu.write16(p, sub16(v, 1));
            InstructionReturn { n_cycles: 8, n_bytes: 1, return_type: ReturnType::NotJumped }
        },
        ALU16Op::ADD(ALU16Dest::SP, _) => {
            let e = cpu.read_imm8();
            let (sp, flags) = add_sp_offset(cpu.registers.sp, e);
            cpu.registers.sp = sp;
            cpu.registers.f = flags;
            InstructionReturn { n_cycles: 16, n_bytes: 2, return_type: ReturnType::NotJumped }
        },
        ALU16Op::ADD(_, s) => {
            let hl = cpu.registers.hl();
            let v = cpu.read16(src_pair_of(s));
            let f = cpu.registers.f;
            cpu.write16(Pair::HL, add16(hl, v));
            cpu.registers.f = FlagRegister {
                zero: f.zero,
                subtract: false,
                half_carry: hl % 4096 + v % 4096 > 4095,
                carry: hl as u32 + v as u32 > 65535,
            };
            InstructionReturn { n_cycles: 8, n_bytes: 1, return_type: ReturnType::NotJumped }
        },
    }
}

} // verus!
