//! Rotates and shifts (of the accumulator, and of any 8-bit operand on the CB
//! page), SWAP, and the BIT / RES / SET tests and updates of a single bit.
use vstd::prelude::*;
use crate::cpu::{outcome, CPU, FlagRegister, InstructionReturn, Registers, ReturnType};
use crate::opcodes::{BitIndex, BitOp, BitOperand};
use crate::operand::{read8, write8_mem, write8_regs, Loc8};

verus! {

/// Where a CB-page operand lives.
pub open spec fn bit_loc(regs: Registers, r: BitOperand) -> Loc8 {
    match r {
        BitOperand::B => Loc8::B,
        BitOperand::C => Loc8::C,
        BitOperand::D => Loc8::D,
        BitOperand::E => Loc8::E,
        BitOperand::H => Loc8::H,
        BitOperand::L => Loc8::L,
        BitOperand::HL => Loc8::Mem(regs.spec_hl()),
        BitOperand::A => Loc8::A,
    }
}

/// The value of the bit a BIT / RES / SET index names: 2 to the power index.
pub open spec fn bit_weight(i: BitIndex) -> int {
    match i {
        BitIndex::B0 => 1,
        BitIndex::B1 => 2,
        BitIndex::B2 => 4,
        BitIndex::B3 => 8,
        BitIndex::B4 => 16,
        BitIndex::B5 => 32,
        BitIndex::B6 => 64,
        BitIndex::B7 => 128,
    }
}

/// Whether bit `i` of `v` is set.
pub open spec fn bit_set(v: u8, i: BitIndex) -> bool {
    (v as int / bit_weight(i)) % 2 == 1
}

/// The operand of a rotate, shift or bit instruction (the accumulator for
/// RLCA, RRCA, RLA, RRA).
pub open spec fn bit_op_loc(regs: Registers, op: BitOp) -> Loc8 {
    match op {
        BitOp::RLC(r) | BitOp::RRC(r) | BitOp::RL(r) | BitOp::RR(r) | BitOp::SLA(r) | BitOp::SRA(r)
        | BitOp::SWAP(r) | BitOp::SRL(r) | BitOp::BIT(_, r) | BitOp::RES(_, r) | BitOp::SET(_, r) => {
            bit_loc(regs, r)
        },
        _ => Loc8::A,
    }
}

/// A rotate or shift of `v` with carry-in `cin`: the new byte and the bit
/// shifted out.
pub open spec fn shift_result(op: BitOp, v: u8, cin: bool) -> (u8, bool) {
    let ci = if cin { 1int } else { 0 };
    match op {
        BitOp::RLCA | BitOp::RLC(_) => (((v * 2) % 256 + v / 128) as u8, v >= 128),
        BitOp::RRCA | BitOp::RRC(_) => ((v / 2 + (v % 2) * 128) as u8, v % 2 == 1),
        BitOp::RLA | BitOp::RL(_) => (((v * 2) % 256 + ci) as u8, v >= 128),
        BitOp::RRA | BitOp::RR(_) => ((v / 2 + ci * 128) as u8, v % 2 == 1),
        BitOp::SLA(_) => (((v * 2) % 256) as u8, v >= 128),
        BitOp::SRA(_) => ((v / 2 + (v / 128) * 128) as u8, v % 2 == 1),
        BitOp::SWAP(_) => (((v % 16) * 16 + v / 16) as u8, false),
        _ => ((v / 2) as u8, v % 2 == 1),
    }
}

/// The byte stored back by an instruction that writes its operand.
pub open spec fn bit_op_value(op: BitOp, v: u8, cin: bool) -> u8 {
    match op {
        BitOp::RES(i, _) => if bit_set(v, i) { (v as int - bit_weight(i)) as u8 } else { v },
        BitOp::SET(i, _) => if bit_set(v, i) { v } else { (v as int + bit_weight(i)) as u8 },
        _ => shift_result(op, v, cin).0,
    }
}

/// The flags after a rotate, shift or bit instruction. The accumulator
/// rotates clear Zero; the CB rotates and shifts set it from the result; BIT
/// sets it when the bit is clear and keeps Carry; RES and SET keep all flags.
pub open spec fn bit_op_flags(op: BitOp, v: u8, f: FlagRegister) -> FlagRegister {
    match op {
        BitOp::RLCA | BitOp::RRCA | BitOp::RLA | BitOp::RRA => FlagRegister {
            zero: false,
            subtract: false,
            half_carry: false,
            carry: shift_result(op, v, f.carry).1,
        },
        BitOp::BIT(i, _) => FlagRegister {
            zero: !bit_set(v, i),
            subtract: false,
            half_carry: true,
            carry: f.carry,
        },
        BitOp::RES(_, _) | BitOp::SET(_, _) => f,
        _ => FlagRegister {
            zero: shift_result(op, v, f.carry).0 == 0,
            subtract: false,
            half_carry: false,
            carry: shift_result(op, v, f.carry).1,
        },
    }
}

/// The registers after a rotate, shift or bit instruction.
pub open spec fn bit_regs(regs: Registers, mem: Seq<u8>, op: BitOp) -> Registers {
    let loc = bit_op_loc(regs, op);
    let v = read8(regs, mem, loc);
    let written = if op is BIT { regs } else { write8_regs(regs, loc, bit_op_value(op, v, regs.f.carry)) };
    Registers { f: bit_op_flags(op, v, regs.f), ..written }
}

/// Memory after a rotate, shift or bit instruction: only an (HL) operand is
/// written, and never by BIT.
pub open spec fn bit_mem(regs: Registers, mem: Seq<u8>, op: BitOp) -> Seq<u8> {
    let loc = bit_op_loc(regs, op);
    if op is BIT {
        mem
    } else {
        write8_mem(mem, loc, bit_op_value(op, read8(regs, mem, loc), regs.f.carry))
    }
}

pub open spec fn bit_outcome(regs: Registers, op: BitOp) -> InstructionReturn {
    if op is RLCA || op is RRCA || op is RLA || op is RRA {
        outcome(4, 1, ReturnType::NotJumped)
    } else if bit_op_loc(regs, op) is Mem {
        outcome(if op is BIT { 12 } else { 16 }, 2, ReturnType::NotJumped)
    } else {
        outcome(8, 2, ReturnType::NotJumped)
    }
}

fn weight_of(i: BitIndex) -> (r: u8)
    ensures
        r == bit_weight(i),
{
    match i {
        BitIndex::B0 => 1,
        BitIndex::B1 => 2,
        BitIndex::B2 => 4,
        BitIndex::B3 => 8,
        BitIndex::B4 => 16,
        BitIndex::B5 => 32,
        BitIndex::B6 => 64,
        BitIndex::B7 => 128,
    }
}

fn loc_of(regs: &Registers, op: BitOp) -> (r: Loc8)
    ensures
        r == bit_op_loc(*regs, op),
{
    let operand = match op {
        BitOp::RLC(r) | BitOp::RRC(r) | BitOp::RL(r) | BitOp::RR(r) | BitOp::SLA(r) | BitOp::SRA(r)
        | BitOp::SWAP(r) | BitOp::SRL(r) | BitOp::BIT(_, r) | BitOp::RES(_, r) | BitOp::SET(_, r) => r,
        _ => BitOperand::A,
    };
    match operand {
        BitOperand::B => Loc8::B,
        BitOperand::C => Loc8::C,
        BitOperand::D => Loc8::D,
        BitOperand::E => Loc8::E,
        BitOperand::H => Loc8::H,
        BitOperand::L => Loc8::L,
        BitOperand::HL => Loc8::Mem(regs.hl()),
        BitOperand::A => Loc8::A,
    }
}

fn shift_value(op: BitOp, v: u8, cin: bool) -> (r: (u8, bool))
    ensures
        r == shift_result(op, v, cin),
{
    let ci: u8 = if cin { 1 } else { 0 };
    match op {
        BitOp::RLCA | BitOp::RLC(_) => ((v % 128) * 2 + v / 128, v >= 128),
        BitOp::RRCA | BitOp::RRC(_) => (v / 2 + (v % 2) * 128, v % 2 == 1),
        BitOp::RLA | BitOp::RL(_) => ((v % 128) * 2 + ci, v >= 128),
        BitOp::RRA | BitOp::RR(_) => (v / 2 + ci * 128, v % 2 == 1),
        BitOp::SLA(_) => ((v % 128) * 2, v >= 128),
        BitOp::SRA(_) => (v / 2 + (v / 128) * 128, v % 2 == 1),
        BitOp::SWAP(_) => ((v % 16) * 16 + v / 16, false),
        _ => (v / 2, v % 2 == 1),
    }
}

/// Runs a rotate, shift or bit instruction.
pub fn bit(cpu: &mut CPU, op: BitOp) -> (r: InstructionReturn)
    requires
        old(cpu).wf(),
    ensures
        final(cpu).wf(),
        final(cpu).same_signals(old(cpu)),
        final(cpu).registers == bit_regs(old(cpu).registers, old(cpu).bus@, op),
        final(cpu).bus@ == bit_mem(old(cpu).registers, old(cpu).bus@, op),
        r == bit_outcome(old(cpu).registers, op),
{
    let loc = loc_of(&cpu.registers, op);
    let v = cpu.read8(loc);
    let f = cpu.registers.f;
    let (shifted, out) = shift_value(op, v, f.carry);
    let new_flags = match op {
        BitOp::RLCA | BitOp::RRCA | BitOp::RLA | BitOp::RRA => {
            FlagRegister { zero: false, subtract: false, half_carry: false, carry: out }
        },
        BitOp::BIT(i, _) => FlagRegister {
            zero: (v / weight_of(i)) % 2 == 0,
            subtract: false,
            half_carry: true,
            carry: f.carry,
        },
        BitOp::RES(_, _) | BitOp::SET(_, _) => f,
        _ => FlagRegister { zero: shifted == 0, subtract: false, half_carry: false, carry: out },
    };
    let value = match op {
        BitOp::RES(i, _) => {
            let w = weight_of(i);
            if (v / w) % 2 == 1 { v - w } else { v }
        },
        BitOp::SET(i, _) => {
            let w = weight_of(i);
            proof {
                assert((v / w) % 2 == 0 ==> v + w <= 255) by (nonlinear_arith)
                    requires
                        w == 1 || w == 2 || w == 4 || w == 8 || w == 16 || w == 32 || w == 64 || w == 128,
                        v <= 255,
                ;
            }
            if (v / w) % 2 == 1 { v } else { v + w }
        },
        _ => shifted,
    };
    match op {
        BitOp::BIT(_, _) => {},
        _ => cpu.write8(loc, value),
    }
    cpu.registers.f = new_flags;
    let is_mem = match loc {
        Loc8::Mem(_) => true,
        _ => false,
    };
    match op {
        BitOp::RLCA | BitOp::RRCA | BitOp::RLA | BitOp::RRA => {
            InstructionReturn { n_cycles: 4, n_bytes: 1, return_type: ReturnType::NotJumped }
        },
        BitOp::BIT(_, _) => InstructionReturn {
            n_cycles: if is_mem { 12 } else { 8 },
            n_bytes: 2,
            return_type: ReturnType::NotJumped,
        },
        _ => InstructionReturn {
            n_cycles: if is_mem { 16 } else { 8 },
            n_bytes: 2,
            return_type: ReturnType::NotJumped,
        },
    }
}

} // verus!
