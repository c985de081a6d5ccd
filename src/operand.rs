//! Where operands live: an 8-bit operand is a register or a memory address;
//! a 16-bit operand is a register pair or SP.
use vstd::prelude::*;
use crate::cpu::{
    add16, flags_byte, flags_from_byte, high_byte, le_bytes_to_word, low_byte, word, word_to_bytes,
    wrap16, FlagRegister, Registers, CPU,
};

verus! {

/// An 8-bit operand: one of the seven 8-bit registers, or the byte at an
/// address (memory through a pair, an immediate byte, a high-page address).
#[derive(Clone, Copy, Debug, PartialEq, Eq, Structural)]
pub enum Loc8 {
    B,
    C,
    D,
    E,
    H,
    L,
    A,
    Mem(u16),
}

/// A 16-bit register pair, or SP.
#[derive(Clone, Copy, Debug, PartialEq, Eq, Structural)]
pub enum Pair {
    BC,
    DE,
    HL,
    SP,
    AF,
}

pub open spec fn read8(regs: Registers, mem: Seq<u8>, loc: Loc8) -> u8 {
    match loc {
        Loc8::B => regs.b,
        Loc8::C => regs.c,
        Loc8::D => regs.d,
        Loc8::E => regs.e,
        Loc8::H => regs.h,
        Loc8::L => regs.l,
        Loc8::A => regs.a,
        Loc8::Mem(addr) => mem[addr as int],
    }
}

/// The registers after `v` is stored at `loc` (unchanged for a memory operand).
pub open spec fn write8_regs(regs: Registers, loc: Loc8, v: u8) -> Registers {
    match loc {
        Loc8::B => Registers { b: v, ..regs },
        Loc8::C => Registers { c: v, ..regs },
        Loc8::D => Registers { d: v, ..regs },
        Loc8::E => Registers { e: v, ..regs },
        Loc8::H => Registers { h: v, ..regs },
        Loc8::L => Registers { l: v, ..regs },
        Loc8::A => Registers { a: v, ..regs },
        Loc8::Mem(_) => regs,
    }
}

/// Memory after `v` is stored at `loc` (unchanged for a register operand).
pub open spec fn write8_mem(mem: Seq<u8>, loc: Loc8, v: u8) -> Seq<u8> {
    match loc {
        Loc8::Mem(addr) => mem.update(addr as int, v),
        _ => mem,
    }
}

pub open spec fn read16(regs: Registers, p: Pair) -> u16 {
    match p {
        Pair::BC => word(regs.c, regs.b),
        Pair::DE => word(regs.e, regs.d),
        Pair::HL => word(regs.l, regs.h),
        Pair::SP => regs.sp,
        Pair::AF => word(flags_byte(regs.f), regs.a),
    }
}

/// The registers after `v` is stored in a pair; for AF the flags take the
/// high nibble of the low byte.
pub open spec fn write16(regs: Registers, p: Pair, v: u16) -> Registers {
    match p {
        Pair::BC => Registers { b: high_byte(v), c: low_byte(v), ..regs },
        Pair::DE => Registers { d: high_byte(v), e: low_byte(v), ..regs },
        Pair::HL => Registers { h: high_byte(v), l: low_byte(v), ..regs },
        Pair::SP => Registers { sp: v, ..regs },
        Pair::AF => Registers { a: high_byte(v), f: flags_from_byte(low_byte(v)), ..regs },
    }
}

/// The address of the byte after the opcode.
pub open spec fn imm_addr(regs: Registers) -> u16 {
    wrap16(regs.pc + 1)
}

impl CPU {
    pub fn read8(&self, loc: Loc8) -> (r: u8)
        requires
            self.wf(),
        ensures
            r == read8(self.registers, self.bus@, loc),
    {
        match loc {
            Loc8::B => self.registers.b,
            Loc8::C => self.registers.c,
            Loc8::D => self.registers.d,
            Loc8::E => self.registers.e,
            Loc8::H => self.registers.h,
            Loc8::L => self.registers.l,
            Loc8::A => self.registers.a,
            Loc8::Mem(addr) => self.bus.read(addr),
        }
    }

    pub fn write8(&mut self, loc: Loc8, v: u8)
        requires
            old(self).wf(),
        ensures
            final(self).wf(),
            final(self).registers == write8_regs(old(self).registers, loc, v),
            final(self).bus@ == write8_mem(old(self).bus@, loc, v),
            final(self).same_signals(old(self)),
    {
        match loc {
            Loc8::B => self.registers.b = v,
            Loc8::C => self.registers.c = v,
            Loc8::D => self.registers.d = v,
            Loc8::E => self.registers.e = v,
            Loc8::H => self.registers.h = v,
            Loc8::L => self.registers.l = v,
            Loc8::A => self.registers.a = v,
            Loc8::Mem(addr) => self.bus.write(addr, v),
        }
    }

    pub fn read16(&self, p: Pair) -> (r: u16)
        ensures
            r == read16(self.registers, p),
    {
        match p {
            Pair::BC => le_bytes_to_word(self.registers.c, self.registers.b),
            Pair::DE => le_bytes_to_word(self.registers.e, self.registers.d),
            Pair::HL => le_bytes_to_word(self.registers.l, self.registers.h),
            Pair::SP => self.registers.sp,
            Pair::AF => le_bytes_to_word(self.registers.f.to_byte(), self.registers.a),
        }
    }

    pub fn write16(&mut self, p: Pair, v: u16)
        ensures
            final(self).registers == write16(old(self).registers, p, v),
            final(self).bus == old(self).bus,
            final(self).same_signals(old(self)),
    {
        let (hi, lo) = word_to_bytes(v);
        match p {
            Pair::BC => {
                self.registers.b = hi;
                self.registers.c = lo;
            },
            Pair::DE => {
                self.registers.d = hi;
                self.registers.e = lo;
            },
            Pair::HL => {
                self.registers.h = hi;
                self.registers.l = lo;
            },
            Pair::SP => self.registers.sp = v,
            Pair::AF => {
                self.registers.a = hi;
                self.registers.f = FlagRegister::from_byte(lo);
            },
        }
    }

    /// The address of the byte after the opcode.
    pub fn imm_addr(&self) -> (r: u16)
        ensures
            r == imm_addr(self.registers),
    {
        add16(self.registers.pc, 1)
    }
}

} // verus!
