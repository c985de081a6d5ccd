//! 8-bit arithmetic and logic on the accumulator, INC / DEC of an 8-bit
//! operand, and DAA, CPL, SCF, CCF.
use vstd::prelude::*;
use crate::cpu::{outcome, CPU, FlagRegister, InstructionReturn, Registers, ReturnType};
use crate::opcodes::{ALU8Dest, ALU8Op, ALU8Src};
use crate::operand::{imm_addr, read8, write8_mem, write8_regs, Loc8};

verus! {

/// Where an ALU operand lives.
pub open spec fn alu8_loc(regs: Registers, d: ALU8Dest) -> Loc8 {
    match d {
        ALU8Dest::B => Loc8::B,
        ALU8Dest::C => Loc8::C,
        ALU8Dest::D => Loc8::D,
        ALU8Dest::E => Loc8::E,
        ALU8Dest::H => Loc8::H,
        ALU8Dest::L => Loc8::L,
        ALU8Dest::HL => Loc8::Mem(regs.spec_hl()),
        ALU8Dest::A => Loc8::A,
        ALU8Dest::Direct8Bit => Loc8::Mem(imm_addr(regs)),
    }
}

/// Where the second operand of ADD / ADC / SBC lives.
pub open spec fn alu8_src_loc(regs: Registers, s: ALU8Src) -> Loc8 {
    match s {
        ALU8Src::B => Loc8::B,
        ALU8Src::C => Loc8::C,
        ALU8Src::D => Loc8::D,
        ALU8Src::E => Loc8::E,
        ALU8Src::H => Loc8::H,
        ALU8Src::L => Loc8::L,
        ALU8Src::HL => Loc8::Mem(regs.spec_hl()),
        ALU8Src::Direct8Bit => Loc8::Mem(imm_addr(regs)),
        _ => Loc8::A,
    }
}

pub open spec fn carry_in(c: bool) -> int {
    if c { 1 } else { 0 }
}

/// `a + v + carry`: the byte and all four flags.
pub open spec fn add_result(a: u8, v: u8, cin: bool) -> (u8, FlagRegister) {
    let sum = a + v + carry_in(cin);
    (
        (sum % 256) as u8,
        FlagRegister {
            zero: sum % 256 == 0,
            subtract: false,
            half_carry: a % 16 + v % 16 + carry_in(cin) > 15,
            carry: sum > 255,
        },
    )
}

/// `a - v - carry`: the byte and all four flags (also CP, which keeps `a`).
pub open spec fn sub_result(a: u8, v: u8, cin: bool) -> (u8, FlagRegister) {
    let diff = (a - v - carry_in(cin)) % 256;
    (
        diff as u8,
        FlagRegister {
            zero: diff == 0,
            subtract: true,
            half_carry: a % 16 < v % 16 + carry_in(cin),
            carry: a < v + carry_in(cin),
        },
    )
}

/// Flags of AND / OR / XOR: Zero from the result, Half-carry set for AND only.
pub open spec fn logic_flags(r: u8, is_and: bool) -> FlagRegister {
    FlagRegister { zero: r == 0, subtract: false, half_carry: is_and, carry: false }
}

/// INC of an 8-bit operand; Carry is kept.
pub open spec fn inc_result(v: u8, f: FlagRegister) -> (u8, FlagRegister) {
    let r = ((v + 1) % 256) as u8;
    (r, FlagRegister { zero: r == 0, subtract: false, half_carry: v % 16 == 15, carry: f.carry })
}

/// DEC of an 8-bit operand; Carry is kept.
pub open spec fn dec_result(v: u8, f: FlagRegister) -> (u8, FlagRegister) {
    let r = ((v + 255) % 256) as u8;
    (r, FlagRegister { zero: r == 0, subtract: true, half_carry: v % 16 == 0, carry: f.carry })
}

/// DAA: brings the accumulator back to packed BCD after an addition or a
/// subtraction, as the Subtract, Half-carry and Carry flags of that operation
/// say.
pub open spec fn daa_result(a: u8, f: FlagRegister) -> (u8, FlagRegister) {
    if !f.subtract {
        let carry = f.carry || a > 0x99;
        let adjust = (if carry { 0x60int } else { 0 }) + (if f.half_carry || a % 16 > 9 {
            6int
        } else {
            0
        });
        let r = (a + adjust) % 256;
        (
            r as u8,
            FlagRegister { zero: r == 0, subtract: false, half_carry: false, carry },
        )
    } else {
        let adjust = (if f.carry { 0x60int } else { 0 }) + (if f.half_carry { 6int } else { 0 });
        let r = (a - adjust) % 256;
        (
            r as u8,
            FlagRegister { zero: r == 0, subtract: true, half_carry: false, carry: f.carry },
        )
    }
}

/// A byte whose two nibbles are decimal digits.
pub open spec fn is_packed_bcd(a: u8) -> bool {
    a / 16 <= 9 && a % 16 <= 9
}

/// The registers after an 8-bit ALU operation.
pub open spec fn alu8_regs(regs: Registers, mem: Seq<u8>, op: ALU8Op) -> Registers {
    let a = regs.a;
    let f = regs.f;
    match op {
        ALU8Op::DAA => Registers { a: daa_result(a, f).0, f: daa_result(a, f).1, ..regs },
        ALU8Op::CPL => Registers {
            a: (255 - a) as u8,
            f: FlagRegister { subtract: true, half_carry: true, ..f },
            ..regs
        },
        ALU8Op::SCF => Registers {
            f: FlagRegister { subtract: false, half_carry: false, carry: true, ..f },
            ..regs
        },
        ALU8Op::CCF => Registers {
            f: FlagRegister { subtract: false, half_carry: false, carry: !f.carry, ..f },
            ..regs
        },
        ALU8Op::INC(d) => {
            let loc = alu8_loc(regs, d);
            let res = inc_result(read8(regs, mem, loc), f);
            Registers { f: res.1, ..write8_regs(regs, loc, res.0) }
        },
        ALU8Op::DEC(d) => {
            let loc = alu8_loc(regs, d);
            let res = dec_result(read8(regs, mem, loc), f);
            Registers { f: res.1, ..write8_regs(regs, loc, res.0) }
        },
        ALU8Op::SUB(d) => {
            let res = sub_result(a, read8(regs, mem, alu8_loc(regs, d)), false);
            Registers { a: res.0, f: res.1, ..regs }
        },
        ALU8Op::AND(d) => {
            let r = a & read8(regs, mem, alu8_loc(regs, d));
            Registers { a: r, f: logic_flags(r, true), ..regs }
        },
        ALU8Op::XOR(d) => {
            let r = a ^ read8(regs, mem, alu8_loc(regs, d));
            Registers { a: r, f: logic_flags(r, false), ..regs }
        },
        ALU8Op::OR(d) => {
            let r = a | read8(regs, mem, alu8_loc(regs, d));
            Registers { a: r, f: logic_flags(r, false), ..regs }
        },
        ALU8Op::CP(d) => {
            let res = sub_result(a, read8(regs, mem, alu8_loc(regs, d)), false);
            Registers { f: res.1, ..regs }
        },
        ALU8Op::ADD(_, s) => {
            let res = add_result(a, read8(regs, mem, alu8_src_loc(regs, s)), false);
            Registers { a: res.0, f: res.1, ..regs }
        },
        ALU8Op::ADC(_, s) => {
            let res = add_result(a, read8(regs, mem, alu8_src_loc(regs, s)), f.carry);
            Registers { a: res.0, f: res.1, ..regs }
        },
        ALU8Op::SBC(_, s) => {
            let res = sub_result(a, read8(regs, mem, alu8_src_loc(regs, s)), f.carry);
            Registers { a: res.0, f: res.1, ..regs }
        },
    }
}

/// Memory after an 8-bit ALU operation: only INC / DEC of (HL) write.
pub open spec fn alu8_mem(regs: Registers, mem: Seq<u8>, op: ALU8Op) -> Seq<u8> {
    match op {
        ALU8Op::INC(d) => {
            let loc = alu8_loc(regs, d);
            write8_mem(mem, loc, inc_result(read8(regs, mem, loc), regs.f).0)
        },
        ALU8Op::DEC(d) => {
            let loc = alu8_loc(regs, d);
            write8_mem(mem, loc, dec_result(read8(regs, mem, loc), regs.f).0)
        },
        _ => mem,
    }
}

/// Cost of reading an operand: a register 4 cycles, (HL) 8, an immediate
/// byte 8 cycles and one more byte of encoding.
pub open spec fn operand_outcome(d: ALU8Dest) -> InstructionReturn {
    match d {
        ALU8Dest::HL => outcome(8, 1, ReturnType::NotJumped),
        ALU8Dest::Direct8Bit => outcome(8, 2, ReturnType::NotJumped),
        _ => outcome(4, 1, ReturnType::NotJumped),
    }
}

pub open spec fn src_outcome(s: ALU8Src) -> InstructionReturn {
    match s {
        ALU8Src::HL => outcome(8, 1, ReturnType::NotJumped),
        ALU8Src::Direct8Bit => outcome(8, 2, ReturnType::NotJumped),
        _ => outcome(4, 1, ReturnType::NotJumped),
    }
}

pub open spec fn alu8_outcome(op: ALU8Op) -> InstructionReturn {
    match op {
        ALU8Op::INC(d) | ALU8Op::DEC(d) => if d == ALU8Dest::HL {
            outcome(12, 1, ReturnType::NotJumped)
        } else {
            outcome(4, 1, ReturnType::NotJumped)
        },
        ALU8Op::SUB(d) | ALU8Op::AND(d) | ALU8Op::XOR(d) | ALU8Op::OR(d) | ALU8Op::CP(d) => {
            operand_outcome(d)
        },
        ALU8Op::ADD(_, s) | ALU8Op::ADC(_, s) | ALU8Op::SBC(_, s) => src_outcome(s),
        _ => outcome(4, 1, ReturnType::NotJumped),
    }
}

/// Operands of the table: the second operand of ADD / ADC / SBC is never NIL.
pub open spec fn is_alu8_form(op: ALU8Op) -> bool {
    match op {
        ALU8Op::ADD(_, s) | ALU8Op::ADC(_, s) | ALU8Op::SBC(_, s) => s != ALU8Src::NIL,
        _ => true,
    }
}

pub fn alu8_loc_of(regs: &Registers, d: ALU8Dest) -> (r: Loc8)
    ensures
        r == alu8_loc(*regs, d),
{
    match d {
        ALU8Dest::B => Loc8::B,
        ALU8Dest::C => Loc8::C,
        ALU8Dest::D => Loc8::D,
        ALU8Dest::E => Loc8::E,
        ALU8Dest::H => Loc8::H,
        ALU8Dest::L => Loc8::L,
        ALU8Dest::HL => Loc8::Mem(regs.hl()),
        ALU8Dest::A => Loc8::A,
        ALU8Dest::Direct8Bit => Loc8::Mem(crate::cpu::add16(regs.pc, 1)),
    }
}

fn alu8_src_loc_of(regs: &Registers, s: ALU8Src) -> (r: Loc8)
    ensures
        r == alu8_src_loc(*regs, s),
{
    match s {
        ALU8Src::B => Loc8::B,
        ALU8Src::C => Loc8::C,
        ALU8Src::D => Loc8::D,
        ALU8Src::E => Loc8::E,
        ALU8Src::H => Loc8::H,
        ALU8Src::L => Loc8::L,
        ALU8Src::HL => Loc8::Mem(regs.hl()),
        ALU8Src::Direct8Bit => Loc8::Mem(crate::cpu::add16(regs.pc, 1)),
        _ => Loc8::A,
    }
}

pub fn add_value(a: u8, v: u8, cin: bool) -> (r: (u8, FlagRegister))
    ensures
        r == add_result(a, v, cin),
{
    let c: u16 = if cin { 1 } else { 0 };
    let sum: u16 = a as u16 + v as u16 + c;
    let r = (sum % 256) as u8;
    (
        r,
        FlagRegister {
            zero: r == 0,
            subtract: false,
            half_carry: (a % 16) as u16 + (v % 16) as u16 + c > 15,
            carry: sum > 255,
        },
    )
}

pub fn sub_value(a: u8, v: u8, cin: bool) -> (r: (u8, FlagRegister))
    ensures
        r == sub_result(a, v, cin),
{
    let c: u16 = if cin { 1 } else { 0 };
    let r = ((a as u16 + 512 - v as u16 - c) % 256) as u8;
    (
        r,
        FlagRegister {
            zero: r == 0,
            subtract: true,
            half_carry: ((a % 16) as u16) < (v % 16) as u16 + c,
            carry: (a as u16) < v as u16 + c,
        },
    )
}

pub fn daa_value(a: u8, f: FlagRegister) -> (r: (u8, FlagRegister))
    ensures
        r == daa_result(a, f),
{
    if !f.subtract {
        let carry = f.carry || a > 0x99;
        let mut adjust: u16 = 0;
        if carry {
            adjust = adjust + 0x60;
        }
        if f.half_carry || a % 16 > 9 {
            adjust = adjust + 6;
        }
        let r = ((a as u16 + adjust) % 256) as u8;
        (r, FlagRegister { zero: r == 0, subtract: false, half_carry: false, carry })
    } else {
        let mut adjust: u16 = 0;
        if f.carry {
            adjust = adjust + 0x60;
        }
        if f.half_carry {
            adjust = adjust + 6;
        }
        let r = ((a as u16 + 256 - adjust) % 256) as u8;
        (r, FlagRegister { zero: r == 0, subtract: true, half_carry: false, carry: f.carry })
    }
}

pub fn inc_value(v: u8, f: FlagRegister) -> (r: (u8, FlagRegister))
    ensures
        r == inc_result(v, f),
{
    let r = if v == 255 { 0 } else { v + 1 };
    (r, FlagRegister { zero: r == 0, subtract: false, half_carry: v % 16 == 15, carry: f.carry })
}

pub fn dec_value(v: u8, f: FlagRegister) -> (r: (u8, FlagRegister))
    ensures
        r == dec_result(v, f),
{
    let r = if v == 0 { 255 } else { v - 1 };
    (r, FlagRegister { zero: r == 0, subtract: true, half_carry: v % 16 == 0, carry: f.carry })
}

/// Cycles and length of an 8-bit ALU operation.
fn alu8_cost(op: ALU8Op) -> (r: InstructionReturn)
    ensures
        r == alu8_outcome(op),
{
    let (n_cycles, n_bytes): (u8, u8) = match op {
        ALU8Op::INC(d) | ALU8Op::DEC(d) => match d {
            ALU8Dest::HL => (12, 1),
            _ => (4, 1),
        },
        ALU8Op::SUB(d) | ALU8Op::AND(d) | ALU8Op::XOR(d) | ALU8Op::OR(d) | ALU8Op::CP(d) => match d {
            ALU8Dest::HL => (8, 1),
            ALU8Dest::Direct8Bit => (8, 2),
            _ => (4, 1),
        },
        ALU8Op::ADD(_, s) | ALU8Op::ADC(_, s) | ALU8Op::SBC(_, s) => match s {
            ALU8Src::HL => (8, 1),
            ALU8Src::Direct8Bit => (8, 2),
            _ => (4, 1),
        },
        _ => (4, 1),
    };
    InstructionReturn { n_cycles, n_bytes, return_type: ReturnType::NotJumped }
}

/// The accumulator and flags after an operation of A with one operand that
/// keeps memory as it is (all but INC / DEC).
fn accumulate(op: ALU8Op, a: u8, v: u8, f: FlagRegister) -> (r: (u8, FlagRegister))
    requires
        !(op is INC || op is DEC || op is DAA || op is CPL || op is SCF || op is CCF),
    ensures
        op is SUB ==> r == sub_result(a, v, false),
        op is CP ==> r == (a, sub_result(a, v, false).1),
        op is AND ==> r == (a & v, logic_flags(a & v, true)),
        op is XOR ==> r == (a ^ v, logic_flags(a ^ v, false)),
        op is OR ==> r == (a | v, logic_flags(a | v, false)),
        op is ADD ==> r == add_result(a, v, false),
        op is ADC ==> r == add_result(a, v, f.carry),
        op is SBC ==> r == sub_result(a, v, f.carry),
{
    match op {
        ALU8Op::SUB(_) => sub_value(a, v, false),
        ALU8Op::CP(_) => (a, sub_value(a, v, false).1),
        ALU8Op::AND(_) => {
            let r = a & v;
            (r, FlagRegister { zero: r == 0, subtract: false, half_carry: true, carry: false })
        },
        ALU8Op::XOR(_) => {
            let r = a ^ v;
            (r, FlagRegister { zero: r == 0, subtract: false, half_carry: false, carry: false })
        },
        ALU8Op::OR(_) => {
            let r = a | v;
            (r, FlagRegister { zero: r == 0, subtract: false, half_carry: false, carry: false })
        },
        ALU8Op::ADD(_, _) => add_value(a, v, false),
        ALU8Op::ADC(_, _) => add_value(a, v, f.carry),
        _ => sub_value(a, v, f.carry),
    }
}

/// Runs an 8-bit ALU operation.
pub fn alu8(cpu: &mut CPU, op: ALU8Op) -> (r: InstructionReturn)
    requires
        old(cpu).wf(),
        is_alu8_form(op),
    ensures
        final(cpu).wf(),
        final(cpu).same_signals(old(cpu)),
        final(cpu).registers == alu8_regs(old(cpu).registers, old(cpu).bus@, op),
        final(cpu).bus@ == alu8_mem(old(cpu).registers, old(cpu).bus@, op),
        r == alu8_outcome(op),
{
    let a = cpu.registers.a;
    let f = cpu.registers.f;
    match op {
        ALU8Op::DAA => {
            let (v, nf) = daa_value(a, f);
            cpu.registers.a = v;
            cpu.registers.f = nf;
        },
        ALU8Op::CPL => {
            cpu.registers.a = 255 - a;
            cpu.registers.f = FlagRegister { subtract: true, half_carry: true, ..f };
        },
        ALU8Op::SCF => {
            cpu.registers.f = FlagRegister { subtract: false, half_carry: false, carry: true, ..f };
        },
        ALU8Op::CCF => {
            cpu.registers.f = FlagRegister {
                subtract: false,
                half_carry: false,
                carry: !f.carry,
                ..f
            };
        },
        ALU8Op::INC(d) => {
            let loc = alu8_loc_of(&cpu.registers, d);
            let v = cpu.read8(loc);
            let (res, nf) = inc_value(v, f);
            cpu.write8(loc, res);
            cpu.registers.f = nf;
        },
        ALU8Op::DEC(d) => {
            let loc = alu8_loc_of(&cpu.registers, d);
            let v = cpu.read8(loc);
            let (res, nf) = dec_value(v, f);
            cpu.write8(loc, res);
            cpu.registers.f = nf;
        },
        ALU8Op::SUB(d) | ALU8Op::AND(d) | ALU8Op::XOR(d) | ALU8Op::OR(d) | ALU8Op::CP(d) => {
            let v = cpu.read8(alu8_loc_of(&cpu.registers, d));
            let (res, nf) = accumulate(op, a, v, f);
            cpu.registers.a = res;
            cpu.registers.f = nf;
        },
        ALU8Op::ADD(_, s) | ALU8Op::ADC(_, s) | ALU8Op::SBC(_, s) => {
            let v = cpu.read8(alu8_src_loc_of(&cpu.registers, s));
            let (res, nf) = accumulate(op, a, v, f);
            cpu.registers.a = res;
            cpu.registers.f = nf;
        },
    }
    alu8_cost(op)
}

/// DAA on an accumulator that already holds packed BCD, after an addition
/// that set neither Half-carry nor Carry, leaves the accumulator unchanged,
/// clears Subtract, Half-carry and Carry, and sets Zero exactly when the
/// accumulator is zero.
pub proof fn lemma_daa_keeps_packed_bcd(a: u8, f: FlagRegister)
    requires
        is_packed_bcd(a),
        !f.subtract,
        !f.half_carry,
        !f.carry,
    ensures
        daa_result(a, f) == (a, FlagRegister { zero: a == 0, subtract: false, half_carry: false, carry: false }),
{
    assert(a <= 0x99) by {
        assert(a == (a / 16) * 16 + a % 16);
    }
}

} // verus!
