//! 8-bit loads between registers, memory through a pair, immediates and the
//! 0xFF00 page, with the post-increment / post-decrement HL forms.
use vstd::prelude::*;
use crate::cpu::{add16, outcome, sub16, word, word_in, wrap16, CPU, InstructionReturn, Registers, ReturnType};
use crate::opcodes::{Load8Dest, Load8Src};
use crate::operand::{imm_addr, read16, read8, write16, write8_mem, write8_regs, Loc8, Pair};

verus! {

/// Where a load destination lives.
pub open spec fn load8_dest_loc(regs: Registers, mem: Seq<u8>, d: Load8Dest) -> Loc8 {
    match d {
        Load8Dest::AddrC => Loc8::Mem((0xFF00 + regs.c) as u16),
        Load8Dest::Unsigned8 => Loc8::Mem((0xFF00 + mem[imm_addr(regs) as int]) as u16),
        Load8Dest::Addr16Bit => Loc8::Mem(word_in(mem, imm_addr(regs))),
        Load8Dest::BC => Loc8::Mem(word(regs.c, regs.b)),
        Load8Dest::DE => Loc8::Mem(word(regs.e, regs.d)),
        Load8Dest::HLI | Load8Dest::HLD | Load8Dest::HL => Loc8::Mem(regs.spec_hl()),
        Load8Dest::B => Loc8::B,
        Load8Dest::C => Loc8::C,
        Load8Dest::D => Loc8::D,
        Load8Dest::E => Loc8::E,
        Load8Dest::H => Loc8::H,
        Load8Dest::L => Loc8::L,
        Load8Dest::A => Loc8::A,
    }
}

/// Where a load source lives; an immediate byte is the byte after the opcode.
pub open spec fn load8_src_loc(regs: Registers, mem: Seq<u8>, s: Load8Src) -> Loc8 {
    match s {
        Load8Src::AddrC => Loc8::Mem((0xFF00 + regs.c) as u16),
        Load8Src::Unsigned8 => Loc8::Mem((0xFF00 + mem[imm_addr(regs) as int]) as u16),
        Load8Src::Addr16Bit => Loc8::Mem(word_in(mem, imm_addr(regs))),
        Load8Src::Direct8Bit => Loc8::Mem(imm_addr(regs)),
        Load8Src::BC => Loc8::Mem(word(regs.c, regs.b)),
        Load8Src::DE => Loc8::Mem(word(regs.e, regs.d)),
        Load8Src::HLI | Load8Src::HLD | Load8Src::HL => Loc8::Mem(regs.spec_hl()),
        Load8Src::B => Loc8::B,
        Load8Src::C => Loc8::C,
        Load8Src::D => Loc8::D,
        Load8Src::E => Loc8::E,
        Load8Src::H => Loc8::H,
        Load8Src::L => Loc8::L,
        Load8Src::A => Loc8::A,
    }
}

/// How HL moves after the access: +1 for the HLI forms, -1 for HLD.
pub open spec fn hl_step(d: Load8Dest, s: Load8Src) -> int {
    if d == Load8Dest::HLI || s == Load8Src::HLI {
        1
    } else if d == Load8Dest::HLD || s == Load8Src::HLD {
        -1
    } else {
        0
    }
}

/// Immediate bytes an operand takes in the encoding.
pub open spec fn dest_imm_len(d: Load8Dest) -> int {
    match d {
        Load8Dest::Unsigned8 => 1,
        Load8Dest::Addr16Bit => 2,
        _ => 0,
    }
}

pub open spec fn src_imm_len(s: Load8Src) -> int {
    match s {
        Load8Src::Unsigned8 | Load8Src::Direct8Bit => 1,
        Load8Src::Addr16Bit => 2,
        _ => 0,
    }
}

/// Whether an operand is a data access to memory.
pub open spec fn dest_is_mem(d: Load8Dest) -> int {
    match d {
        Load8Dest::B | Load8Dest::C | Load8Dest::D | Load8Dest::E | Load8Dest::H | Load8Dest::L
        | Load8Dest::A => 0,
        _ => 1,
    }
}

pub open spec fn src_is_mem(s: Load8Src) -> int {
    match s {
        Load8Src::B | Load8Src::C | Load8Src::D | Load8Src::E | Load8Src::H | Load8Src::L
        | Load8Src::A | Load8Src::Direct8Bit => 0,
        _ => 1,
    }
}

/// The byte moved by a load.
pub open spec fn load8_value(regs: Registers, mem: Seq<u8>, s: Load8Src) -> u8 {
    read8(regs, mem, load8_src_loc(regs, mem, s))
}

/// The registers after `LD d, s`.
pub open spec fn load8_regs(regs: Registers, mem: Seq<u8>, d: Load8Dest, s: Load8Src) -> Registers {
    let moved = write8_regs(regs, load8_dest_loc(regs, mem, d), load8_value(regs, mem, s));
    if hl_step(d, s) == 0 {
        moved
    } else {
        write16(moved, Pair::HL, wrap16(read16(moved, Pair::HL) + hl_step(d, s)))
    }
}

/// Memory after `LD d, s`.
pub open spec fn load8_mem(regs: Registers, mem: Seq<u8>, d: Load8Dest, s: Load8Src) -> Seq<u8> {
    write8_mem(mem, load8_dest_loc(regs, mem, d), load8_value(regs, mem, s))
}

/// Length: the opcode and its immediate bytes. Cycles: four for each byte of
/// the encoding and four for each data access to memory.
pub open spec fn load8_outcome(d: Load8Dest, s: Load8Src) -> InstructionReturn {
    let len = 1 + dest_imm_len(d) + src_imm_len(s);
    outcome((4 * (len + dest_is_mem(d) + src_is_mem(s))) as u8, len as u8, ReturnType::NotJumped)
}

fn high_page(low: u8) -> (r: u16)
    ensures
        r == 0xFF00 + low,
{
    0xFF00 + low as u16
}

fn dest_loc_of(cpu: &CPU, d: Load8Dest) -> (r: Loc8)
    requires
        cpu.wf(),
    ensures
        r == load8_dest_loc(cpu.registers, cpu.bus@, d),
{
    match d {
        Load8Dest::AddrC => Loc8::Mem(high_page(cpu.registers.c)),
        Load8Dest::Unsigned8 => Loc8::Mem(high_page(cpu.read_imm8())),
        Load8Dest::Addr16Bit => Loc8::Mem(cpu.read_imm16()),
        Load8Dest::BC => Loc8::Mem(cpu.read16(Pair::BC)),
        Load8Dest::DE => Loc8::Mem(cpu.read16(Pair::DE)),
        Load8Dest::HLI | Load8Dest::HLD | Load8Dest::HL => Loc8::Mem(cpu.registers.hl()),
        Load8Dest::B => Loc8::B,
        Load8Dest::C => Loc8::C,
        Load8Dest::D => Loc8::D,
        Load8Dest::E => Loc8::E,
        Load8Dest::H => Loc8::H,
        Load8Dest::L => Loc8::L,
        Load8Dest::A => Loc8::A,
    }
}

fn src_loc_of(cpu: &CPU, s: Load8Src) -> (r: Loc8)
    requires
        cpu.wf(),
    ensures
        r == load8_src_loc(cpu.registers, cpu.bus@, s),
{
    match s {
        Load8Src::AddrC => Loc8::Mem(high_page(cpu.registers.c)),
        Load8Src::Unsigned8 => Loc8::Mem(high_page(cpu.read_imm8())),
        Load8Src::Addr16Bit => Loc8::Mem(cpu.read_imm16()),
        Load8Src::Direct8Bit => Loc8::Mem(cpu.imm_addr()),
        Load8Src::BC => Loc8::Mem(cpu.read16(Pair::BC)),
        Load8Src::DE => Loc8::Mem(cpu.read16(Pair::DE)),
        Load8Src::HLI | Load8Src::HLD | Load8Src::HL => Loc8::Mem(cpu.registers.hl()),
        Load8Src::B => Loc8::B,
        Load8Src::C => Loc8::C,
        Load8Src::D => Loc8::D,
        Load8Src::E => Loc8::E,
        Load8Src::H => Loc8::H,
        Load8Src::L => Loc8::L,
        Load8Src::A => Loc8::A,
    }
}

fn load8_cost(d: Load8Dest, s: Load8Src) -> (r: InstructionReturn)
    ensures
        r == load8_outcome(d, s),
{
    let dest_imm: u8 = match d {
        Load8Dest::Unsigned8 => 1,
        Load8Dest::Addr16Bit => 2,
        _ => 0,
    };
    let src_imm: u8 = match s {
        Load8Src::Unsigned8 | Load8Src::Direct8Bit => 1,
        Load8Src::Addr16Bit => 2,
        _ => 0,
    };
    let dest_mem: u8 = match d {
        Load8Dest::B | Load8Dest::C | Load8Dest::D | Load8Dest::E | Load8Dest::H | Load8Dest::L
        | Load8Dest::A => 0,
        _ => 1,
    };
    let src_mem: u8 = match s {
        Load8Src::B | Load8Src::C | Load8Src::D | Load8Src::E | Load8Src::H | Load8Src::L
        | Load8Src::A | Load8Src::Direct8Bit => 0,
        _ => 1,
    };
    let len = 1 + dest_imm + src_imm;
    InstructionReturn {
        n_cycles: 4 * (len + dest_mem + src_mem),
        n_bytes: len,
        return_type: ReturnType::NotJumped,
    }
}

/// `LD d, s` and `LDH d, s`: the byte at `s` is stored at `d`; then HL moves
/// by one for the HLI / HLD forms.
pub fn load8(cpu: &mut CPU, dest: Load8Dest, src: Load8Src) -> (r: InstructionReturn)
    requires
        old(cpu).wf(),
    ensures
        final(cpu).wf(),
        final(cpu).same_signals(old(cpu)),
        final(cpu).registers == load8_regs(old(cpu).registers, old(cpu).bus@, dest, src),
        final(cpu).bus@ == load8_mem(old(cpu).registers, old(cpu).bus@, dest, src),
        r == load8_outcome(dest, src),
{
    let from = src_loc_of(cpu, src);
    let to = dest_loc_of(cpu, dest);
    let v = cpu.read8(from);
    cpu.write8(to, v);
    let inc = match dest {
        Load8Dest::HLI => true,
        _ => match src {
            Load8Src::HLI => true,
            _ => false,
        },
    };
    let dec = match dest {
        Load8Dest::HLD => true,
        _ => match src {
            Load8Src::HLD => true,
            _ => false,
        },
    };
    if inc {
        let hl = cpu.read16(Pair::HL);
        cpu.write16(Pair::HL, add16(hl, 1));
    } else if dec {
        let hl = cpu.read16(Pair::HL);
        cpu.write16(Pair::HL, sub16(hl, 1));
    }
    load8_cost(dest, src)
}

} // verus!
