//! 16-bit loads: `LD rr, d16`, `LD (a16), SP`, `LD SP, HL`, `LD HL, SP+r8`,
//! PUSH and POP.
use vstd::prelude::*;
use crate::cpu::{
    add16, flags_byte, flags_from_byte, high_byte, low_byte, pushed, signed8, word, word_in, wrap16,
    outcome, FlagRegister, InstructionReturn, Registers, ReturnType, CPU,
};
use crate::opcodes::{Load16Dest, Load16Src};
use crate::operand::{imm_addr, read16, write16, Pair};

verus! {

/// The pair a PUSH / POP / `LD rr` operand names (Addr16Bit has none).
pub open spec fn load16_pair(d: Load16Dest) -> Pair {
    match d {
        Load16Dest::BC => Pair::BC,
        Load16Dest::DE => Pair::DE,
        Load16Dest::HL => Pair::HL,
        Load16Dest::AF => Pair::AF,
        _ => Pair::SP,
    }
}

/// The pairs PUSH and POP move: BC, DE, HL and AF.
pub open spec fn is_stack_pair(d: Load16Dest) -> bool {
    d == Load16Dest::BC || d == Load16Dest::DE || d == Load16Dest::HL || d == Load16Dest::AF
}

/// The operand shapes of the 16-bit LD instructions.
pub open spec fn is_ld16_form(d: Load16Dest, s: Load16Src) -> bool {
    ||| (s == Load16Src::Direct16Bit && (d == Load16Dest::BC || d == Load16Dest::DE
        || d == Load16Dest::HL || d == Load16Dest::SP))
    ||| (d == Load16Dest::Addr16Bit && s == Load16Src::SP)
    ||| (d == Load16Dest::SP && s == Load16Src::HL)
    ||| (d == Load16Dest::HL && s == Load16Src::SPr8)
}

/// Flags of `SP + r8` (`LD HL, SP+r8` and `ADD SP, r8`): Zero and Subtract
/// clear, Half-carry and Carry from the unsigned addition of the displacement
/// byte to the low byte of SP.
pub open spec fn sp_offset_flags(sp: u16, d: u8) -> FlagRegister {
    FlagRegister {
        zero: false,
        subtract: false,
        half_carry: sp as int % 16 + d as int % 16 > 15,
        carry: sp as int % 256 + d as int > 255,
    }
}

/// `SP + r8` modulo 2^16.
pub open spec fn sp_offset(sp: u16, d: u8) -> u16 {
    wrap16(sp + signed8(d))
}

/// The registers after a PUSH.
pub open spec fn push_regs(regs: Registers) -> Registers {
    Registers { sp: wrap16(regs.sp - 2), ..regs }
}

/// Memory after a PUSH of the pair `d`.
pub open spec fn push_mem(regs: Registers, mem: Seq<u8>, d: Load16Dest) -> Seq<u8> {
    pushed(mem, regs.sp, read16(regs, load16_pair(d)))
}

/// The registers after a POP into the pair `d`.
pub open spec fn pop_regs(regs: Registers, mem: Seq<u8>, d: Load16Dest) -> Registers {
    write16(Registers { sp: wrap16(regs.sp + 2), ..regs }, load16_pair(d), word_in(mem, regs.sp))
}

/// The registers after a 16-bit LD.
pub open spec fn ld16_regs(regs: Registers, mem: Seq<u8>, d: Load16Dest, s: Load16Src) -> Registers {
    let n = word_in(mem, imm_addr(regs));
    let e = mem[imm_addr(regs) as int];
    match s {
        Load16Src::Direct16Bit => write16(regs, load16_pair(d), n),
        Load16Src::HL => Registers { sp: regs.spec_hl(), ..regs },
        Load16Src::SPr8 => Registers {
            f: sp_offset_flags(regs.sp, e),
            ..write16(regs, Pair::HL, sp_offset(regs.sp, e))
        },
        Load16Src::SP => regs,
    }
}

/// Memory after a 16-bit LD: only `LD (a16), SP` writes, low byte first.
pub open spec fn ld16_mem(regs: Registers, mem: Seq<u8>, s: Load16Src) -> Seq<u8> {
    let n = word_in(mem, imm_addr(regs));
    match s {
        Load16Src::SP => mem.update(n as int, low_byte(regs.sp)).update(
            wrap16(n + 1) as int,
            high_byte(regs.sp),
        ),
        _ => mem,
    }
}

pub open spec fn ld16_outcome(s: Load16Src) -> InstructionReturn {
    match s {
        Load16Src::Direct16Bit => outcome(12, 3, ReturnType::NotJumped),
        Load16Src::SP => outcome(20, 3, ReturnType::NotJumped),
        Load16Src::HL => outcome(8, 1, ReturnType::NotJumped),
        Load16Src::SPr8 => outcome(12, 2, ReturnType::NotJumped),
    }
}

fn pair_of(d: Load16Dest) -> (r: Pair)
    ensures
        r == load16_pair(d),
{
    match d {
        Load16Dest::BC => Pair::BC,
        Load16Dest::DE => Pair::DE,
        Load16Dest::HL => Pair::HL,
        Load16Dest::AF => Pair::AF,
        _ => Pair::SP,
    }
}

/// `SP + r8` and its flags.
pub fn add_sp_offset(sp: u16, d: u8) -> (r: (u16, FlagRegister))
    ensures
        r.0 == sp_offset(sp, d),
        r.1 == sp_offset_flags(sp, d),
{
    // A displacement byte of 128 or more stands for d - 256, which is
    // d + 0xFF00 modulo 2^16.
    let offset: u16 = if d < 128 { d as u16 } else { 0xFF00 + d as u16 };
    let flags = FlagRegister {
        zero: false,
        subtract: false,
        half_carry: sp % 16 + (d % 16) as u16 > 15,
        carry: sp % 256 + d as u16 > 255,
    };
    (add16(sp, offset), flags)
}

/// A 16-bit LD of one of the shapes the opcode table holds.
pub fn ld16(cpu: &mut CPU, dest: Load16Dest, src: Load16Src) -> (r: InstructionReturn)
    requires
        old(cpu).wf(),
        is_ld16_form(dest, src),
    ensures
        final(cpu).wf(),
        final(cpu).same_signals(old(cpu)),
        final(cpu).registers == ld16_regs(old(cpu).registers, old(cpu).bus@, dest, src),
        final(cpu).bus@ == ld16_mem(old(cpu).registers, old(cpu).bus@, src),
        r == ld16_outcome(src),
{
    match src {
        Load16Src::Direct16Bit => {
            let n = cpu.read_imm16();
            cpu.write16(pair_of(dest), n);
            InstructionReturn { n_cycles: 12, n_bytes: 3, return_type: ReturnType::NotJumped }
        },
        Load16Src::SP => {
            let n = cpu.read_imm16();
            let sp = cpu.registers.sp;
            cpu.bus.write(n, (sp % 256) as u8);
            cpu.bus.write(add16(n, 1), (sp / 256) as u8);
            InstructionReturn { n_cycles: 20, n_bytes: 3, return_type: ReturnType::NotJumped }
        },
        Load16Src::HL => {
            cpu.registers.sp = cpu.registers.hl();
            InstructionReturn { n_cycles: 8, n_bytes: 1, return_type: ReturnType::NotJumped }
        },
        Load16Src::SPr8 => {
            let d = cpu.read_imm8();
            let (v, flags) = add_sp_offset(cpu.registers.sp, d);
            cpu.write16(Pair::HL, v);
            cpu.registers.f = flags;
            InstructionReturn { n_cycles: 12, n_bytes: 2, return_type: ReturnType::NotJumped }
        },
    }
}

/// `PUSH rr`: the pair is pushed, high byte at SP - 1, low byte at SP - 2.
pub fn push(cpu: &mut CPU, dest: Load16Dest) -> (r: InstructionReturn)
    requires
        old(cpu).wf(),
        is_stack_pair(dest),
    ensures
        final(cpu).wf(),
        final(cpu).same_signals(old(cpu)),
        final(cpu).registers == push_regs(old(cpu).registers),
        final(cpu).bus@ == push_mem(old(cpu).registers, old(cpu).bus@, dest),
        r == outcome(16, 1, ReturnType::NotJumped),
{
    let v = cpu.read16(pair_of(dest));
    cpu.push_word(v);
    InstructionReturn { n_cycles: 16, n_bytes: 1, return_type: ReturnType::NotJumped }
}

/// `POP rr`: the pair is loaded from the stack; for AF the flags keep only
/// the high nibble of the popped low byte.
pub fn pop(cpu: &mut CPU, dest: Load16Dest) -> (r: InstructionReturn)
    requires
        old(cpu).wf(),
        is_stack_pair(dest),
    ensures
        final(cpu).wf(),
        final(cpu).same_signals(old(cpu)),
        final(cpu).registers == pop_regs(old(cpu).registers, old(cpu).bus@, dest),
        final(cpu).bus@ == old(cpu).bus@,
        r == outcome(12, 1, ReturnType::NotJumped),
{
    let v = cpu.pop_word();
    cpu.write16(pair_of(dest), v);
    InstructionReturn { n_cycles: 12, n_bytes: 1, return_type: ReturnType::NotJumped }
}

/// Packing the flags into the low byte of AF and reading them back gives the
/// same flags.
pub proof fn lemma_flags_byte_round_trip(f: FlagRegister)
    ensures
        flags_from_byte(flags_byte(f)) == f,
{
}

/// Pushing a register pair and then popping it into the same pair restores
/// every register, SP included.
pub proof fn lemma_push_pop_round_trip(regs: Registers, mem: Seq<u8>, d: Load16Dest)
    requires
        mem.len() == 0x10000,
        is_stack_pair(d),
    ensures
        pop_regs(push_regs(regs), push_mem(regs, mem, d), d) == regs,
{
    let w = read16(regs, load16_pair(d));
    let sp2 = wrap16(regs.sp - 2);
    let m = push_mem(regs, mem, d);
    assert(wrap16(sp2 + 1) == wrap16(regs.sp - 1));
    assert(word(low_byte(w), high_byte(w)) == w);
    assert(word_in(m, sp2) == w);
    if d == Load16Dest::AF {
        lemma_flags_byte_round_trip(regs.f);
    }
}

} // verus!
