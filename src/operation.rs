//! The opcode catalog: from an opcode byte and the prefix flag to the
//! operation it encodes.
//!
//! The executable catalog is written as two literal tables, one per opcode
//! page. Its contract is the field-wise decoding of the SM83 encoding: an
//! opcode `xx yyy zzz` is split into its top two bits `x`, the middle three
//! bits `y` (with `p = y / 2` and `q = y % 2`) and the low three bits `z`, and
//! each block of `x` reads `y` and `z` in its own way. Verus proves that every
//! entry of both tables agrees with that decoding.
use vstd::prelude::*;
use crate::opcodes::{
    ALU16Dest, ALU16Op, ALU16Src, ALU8Dest, ALU8Op, ALU8Src, BitIndex, BitOp, BitOperand, Flags,
    JumpOp, Load16Dest, Load16Op, Load16Src, Load8Dest, Load8Op, Load8Src, MiscOp, RSTTarget,
};

verus! {

/// The byte that announces an opcode of the CB page.
pub const PREFIX_INST: u8 = 0xCB;

/// One decoded instruction, by category.
#[derive(Clone, Copy, Debug, PartialEq, Eq, Structural)]
pub enum Operation {
    Misc(MiscOp),
    Load8(Load8Op),
    Load16(Load16Op),
    ALU16(ALU16Op),
    ALU8(ALU8Op),
    Bit(BitOp),
    Jump(JumpOp),
}

/// The 16-bit logical index of an opcode: the byte itself on the first page,
/// `0xCB00 + byte` on the CB page.
pub open spec fn logical_index(opcode: u8, prefixed: bool) -> u16 {
    if prefixed {
        (0xCB00 + opcode) as u16
    } else {
        opcode as u16
    }
}

/// The eleven opcodes of the first page that no instruction occupies.
pub open spec fn is_unused_slot(opcode: u8) -> bool {
    opcode == 0xD3 || opcode == 0xDB || opcode == 0xDD || opcode == 0xE3 || opcode == 0xE4
        || opcode == 0xEB || opcode == 0xEC || opcode == 0xED || opcode == 0xF4 || opcode == 0xFC
        || opcode == 0xFD
}

/// The register (or memory at HL, for 6) that a 3-bit field names, as an
/// 8-bit load destination.
pub open spec fn r8_dest(i: int) -> Load8Dest {
    if i == 0 { Load8Dest::B }
    else if i == 1 { Load8Dest::C }
    else if i == 2 { Load8Dest::D }
    else if i == 3 { Load8Dest::E }
    else if i == 4 { Load8Dest::H }
    else if i == 5 { Load8Dest::L }
    else if i == 6 { Load8Dest::HL }
    else { Load8Dest::A }
}

/// The same field as an 8-bit load source.
pub open spec fn r8_src(i: int) -> Load8Src {
    if i == 0 { Load8Src::B }
    else if i == 1 { Load8Src::C }
    else if i == 2 { Load8Src::D }
    else if i == 3 { Load8Src::E }
    else if i == 4 { Load8Src::H }
    else if i == 5 { Load8Src::L }
    else if i == 6 { Load8Src::HL }
    else { Load8Src::A }
}

/// The same field as the operand of an 8-bit ALU operation.
pub open spec fn r8_alu(i: int) -> ALU8Dest {
    if i == 0 { ALU8Dest::B }
    else if i == 1 { ALU8Dest::C }
    else if i == 2 { ALU8Dest::D }
    else if i == 3 { ALU8Dest::E }
    else if i == 4 { ALU8Dest::H }
    else if i == 5 { ALU8Dest::L }
    else if i == 6 { ALU8Dest::HL }
    else { ALU8Dest::A }
}

/// The same field as the second operand of ADD / ADC / SBC.
pub open spec fn r8_alu_src(i: int) -> ALU8Src {
    if i == 0 { ALU8Src::B }
    else if i == 1 { ALU8Src::C }
    else if i == 2 { ALU8Src::D }
    else if i == 3 { ALU8Src::E }
    else if i == 4 { ALU8Src::H }
    else if i == 5 { ALU8Src::L }
    else if i == 6 { ALU8Src::HL }
    else { ALU8Src::A }
}

/// The same field as the operand of a CB-page instruction.
pub open spec fn r8_bit(i: int) -> BitOperand {
    if i == 0 { BitOperand::B }
    else if i == 1 { BitOperand::C }
    else if i == 2 { BitOperand::D }
    else if i == 3 { BitOperand::E }
    else if i == 4 { BitOperand::H }
    else if i == 5 { BitOperand::L }
    else if i == 6 { BitOperand::HL }
    else { BitOperand::A }
}

/// A 3-bit field as a bit index.
pub open spec fn bit_index(i: int) -> BitIndex {
    if i == 0 { BitIndex::B0 }
    else if i == 1 { BitIndex::B1 }
    else if i == 2 { BitIndex::B2 }
    else if i == 3 { BitIndex::B3 }
    else if i == 4 { BitIndex::B4 }
    else if i == 5 { BitIndex::B5 }
    else if i == 6 { BitIndex::B6 }
    else { BitIndex::B7 }
}

/// A 2-bit field as a branch condition: NZ, Z, NC, C.
pub open spec fn condition(i: int) -> Flags {
    if i == 0 { Flags::NZ }
    else if i == 1 { Flags::Z }
    else if i == 2 { Flags::NC }
    else { Flags::C }
}

/// A 2-bit field as the register pair of `LD rr, d16`: BC, DE, HL, SP.
pub open spec fn rp_load(p: int) -> Load16Dest {
    if p == 0 { Load16Dest::BC }
    else if p == 1 { Load16Dest::DE }
    else if p == 2 { Load16Dest::HL }
    else { Load16Dest::SP }
}

/// A 2-bit field as the register pair of PUSH / POP: BC, DE, HL, AF.
pub open spec fn rp_stack(p: int) -> Load16Dest {
    if p == 0 { Load16Dest::BC }
    else if p == 1 { Load16Dest::DE }
    else if p == 2 { Load16Dest::HL }
    else { Load16Dest::AF }
}

/// A 2-bit field as the register pair of 16-bit INC / DEC.
pub open spec fn rp_alu(p: int) -> ALU16Dest {
    if p == 0 { ALU16Dest::BC }
    else if p == 1 { ALU16Dest::DE }
    else if p == 2 { ALU16Dest::HL }
    else { ALU16Dest::SP }
}

/// A 2-bit field as the second operand of `ADD HL, rr`.
pub open spec fn rp_alu_src(p: int) -> ALU16Src {
    if p == 0 { ALU16Src::BC }
    else if p == 1 { ALU16Src::DE }
    else if p == 2 { ALU16Src::HL }
    else { ALU16Src::SP }
}

/// A 3-bit field as an RST target: `y * 8`.
pub open spec fn rst_target(y: int) -> RSTTarget {
    if y == 0 { RSTTarget::X00 }
    else if y == 1 { RSTTarget::X08 }
    else if y == 2 { RSTTarget::X10 }
    else if y == 3 { RSTTarget::X18 }
    else if y == 4 { RSTTarget::X20 }
    else if y == 5 { RSTTarget::X28 }
    else if y == 6 { RSTTarget::X30 }
    else { RSTTarget::X38 }
}

/// The accumulator operation that a 3-bit field selects, on operand `d`
/// (one-operand forms) or `A, s` (ADD, ADC, SBC).
pub open spec fn alu_op(y: int, d: ALU8Dest, s: ALU8Src) -> ALU8Op {
    if y == 0 { ALU8Op::ADD(ALU8Dest::A, s) }
    else if y == 1 { ALU8Op::ADC(ALU8Dest::A, s) }
    else if y == 2 { ALU8Op::SUB(d) }
    else if y == 3 { ALU8Op::SBC(ALU8Dest::A, s) }
    else if y == 4 { ALU8Op::AND(d) }
    else if y == 5 { ALU8Op::XOR(d) }
    else if y == 6 { ALU8Op::OR(d) }
    else { ALU8Op::CP(d) }
}

/// Block 0 of the first page (opcodes 0x00 to 0x3F).
pub open spec fn decode_block0(y: int, z: int) -> Operation {
    let p = y / 2;
    let q = y % 2;
    if z == 0 {
        if y == 0 { Operation::Misc(MiscOp::NOP) }
        else if y == 1 { Operation::Load16(Load16Op::LD(Load16Dest::Addr16Bit, Load16Src::SP)) }
        else if y == 2 { Operation::Misc(MiscOp::STOP) }
        else if y == 3 { Operation::Jump(JumpOp::JR(Flags::NIL)) }
        else { Operation::Jump(JumpOp::JR(condition(y - 4))) }
    } else if z == 1 {
        if q == 0 { Operation::Load16(Load16Op::LD(rp_load(p), Load16Src::Direct16Bit)) }
        else { Operation::ALU16(ALU16Op::ADD(ALU16Dest::HL, rp_alu_src(p))) }
    } else if z == 2 {
        let mem = if p == 0 { Load8Dest::BC }
            else if p == 1 { Load8Dest::DE }
            else if p == 2 { Load8Dest::HLI }
            else { Load8Dest::HLD };
        let src = if p == 0 { Load8Src::BC }
            else if p == 1 { Load8Src::DE }
            else if p == 2 { Load8Src::HLI }
            else { Load8Src::HLD };
        if q == 0 { Operation::Load8(Load8Op::LD(mem, Load8Src::A)) }
        else { Operation::Load8(Load8Op::LD(Load8Dest::A, src)) }
    } else if z == 3 {
        if q == 0 { Operation::ALU16(ALU16Op::INC(rp_alu(p))) }
        else { Operation::ALU16(ALU16Op::DEC(rp_alu(p))) }
    } else if z == 4 {
        Operation::ALU8(ALU8Op::INC(r8_alu(y)))
    } else if z == 5 {
        Operation::ALU8(ALU8Op::DEC(r8_alu(y)))
    } else if z == 6 {
        Operation::Load8(Load8Op::LD(r8_dest(y), Load8Src::Direct8Bit))
    } else {
        if y == 0 { Operation::Bit(BitOp::RLCA) }
        else if y == 1 { Operation::Bit(BitOp::RRCA) }
        else if y == 2 { Operation::Bit(BitOp::RLA) }
        else if y == 3 { Operation::Bit(BitOp::RRA) }
        else if y == 4 { Operation::ALU8(ALU8Op::DAA) }
        else if y == 5 { Operation::ALU8(ALU8Op::CPL) }
        else if y == 6 { Operation::ALU8(ALU8Op::SCF) }
        else { Operation::ALU8(ALU8Op::CCF) }
    }
}

/// Block 3 of the first page (opcodes 0xC0 to 0xFF), where the unused slots lie.
pub open spec fn decode_block3(y: int, z: int) -> Option<Operation> {
    let p = y / 2;
    let q = y % 2;
    if z == 0 {
        if y < 4 { Some(Operation::Jump(JumpOp::RET(condition(y)))) }
        else if y == 4 { Some(Operation::Load8(Load8Op::LDH(Load8Dest::Unsigned8, Load8Src::A))) }
        else if y == 5 { Some(Operation::ALU16(ALU16Op::ADD(ALU16Dest::SP, ALU16Src::Signed8))) }
        else if y == 6 { Some(Operation::Load8(Load8Op::LDH(Load8Dest::A, Load8Src::Unsigned8))) }
        else { Some(Operation::Load16(Load16Op::LD(Load16Dest::HL, Load16Src::SPr8))) }
    } else if z == 1 {
        if q == 0 { Some(Operation::Load16(Load16Op::POP(rp_stack(p)))) }
        else if p == 0 { Some(Operation::Jump(JumpOp::RET(Flags::NIL))) }
        else if p == 1 { Some(Operation::Jump(JumpOp::RETI)) }
        else if p == 2 { Some(Operation::Jump(JumpOp::JPToHL)) }
        else { Some(Operation::Load16(Load16Op::LD(Load16Dest::SP, Load16Src::HL))) }
    } else if z == 2 {
        if y < 4 { Some(Operation::Jump(JumpOp::JP(condition(y)))) }
        else if y == 4 { Some(Operation::Load8(Load8Op::LD(Load8Dest::AddrC, Load8Src::A))) }
        else if y == 5 { Some(Operation::Load8(Load8Op::LD(Load8Dest::Addr16Bit, Load8Src::A))) }
        else if y == 6 { Some(Operation::Load8(Load8Op::LD(Load8Dest::A, Load8Src::AddrC))) }
        else { Some(Operation::Load8(Load8Op::LD(Load8Dest::A, Load8Src::Addr16Bit))) }
    } else if z == 3 {
        if y == 0 { Some(Operation::Jump(JumpOp::JP(Flags::NIL))) }
        else if y == 1 { Some(Operation::Misc(MiscOp::PREFIX)) }
        else if y == 6 { Some(Operation::Misc(MiscOp::DI)) }
        else if y == 7 { Some(Operation::Misc(MiscOp::EI)) }
        else { None }
    } else if z == 4 {
        if y < 4 { Some(Operation::Jump(JumpOp::CALL(condition(y)))) } else { None }
    } else if z == 5 {
        if q == 0 { Some(Operation::Load16(Load16Op::PUSH(rp_stack(p)))) }
        else if p == 0 { Some(Operation::Jump(JumpOp::CALL(Flags::NIL))) }
        else { None }
    } else if z == 6 {
        Some(Operation::ALU8(alu_op(y, ALU8Dest::Direct8Bit, ALU8Src::Direct8Bit)))
    } else {
        Some(Operation::Jump(JumpOp::RST(rst_target(y))))
    }
}

/// What an opcode of the first page means.
pub open spec fn decode_unprefixed(op: int) -> Option<Operation> {
    let x = op / 64;
    let y = (op / 8) % 8;
    let z = op % 8;
    if x == 0 {
        Some(decode_block0(y, z))
    } else if x == 1 {
        if y == 6 && z == 6 {
            Some(Operation::Misc(MiscOp::HALT))
        } else {
            Some(Operation::Load8(Load8Op::LD(r8_dest(y), r8_src(z))))
        }
    } else if x == 2 {
        Some(Operation::ALU8(alu_op(y, r8_alu(z), r8_alu_src(z))))
    } else {
        decode_block3(y, z)
    }
}

/// What an opcode of the CB page means: a rotate or shift selected by `y`
/// (block 0), or BIT / RES / SET of bit `y` (blocks 1 to 3), on operand `z`.
pub open spec fn decode_prefixed(op: int) -> Operation {
    let x = op / 64;
    let y = (op / 8) % 8;
    let r = r8_bit(op % 8);
    if x == 0 {
        if y == 0 { Operation::Bit(BitOp::RLC(r)) }
        else if y == 1 { Operation::Bit(BitOp::RRC(r)) }
        else if y == 2 { Operation::Bit(BitOp::RL(r)) }
        else if y == 3 { Operation::Bit(BitOp::RR(r)) }
        else if y == 4 { Operation::Bit(BitOp::SLA(r)) }
        else if y == 5 { Operation::Bit(BitOp::SRA(r)) }
        else if y == 6 { Operation::Bit(BitOp::SWAP(r)) }
        else { Operation::Bit(BitOp::SRL(r)) }
    } else if x == 1 {
        Operation::Bit(BitOp::BIT(bit_index(y), r))
    } else if x == 2 {
        Operation::Bit(BitOp::RES(bit_index(y), r))
    } else {
        Operation::Bit(BitOp::SET(bit_index(y), r))
    }
}

/// What an opcode means on the page that the prefix flag selects.
pub open spec fn decode(opcode: u8, prefixed: bool) -> Option<Operation> {
    if prefixed {
        Some(decode_prefixed(opcode as int))
    } else {
        decode_unprefixed(opcode as int)
    }
}

impl Operation {
    /// Decodes an opcode; `None` marks one of the unused slots.
    pub fn get_operation(opcode: u8, prefixed: bool) -> (r: Option<Operation>)
        ensures
            r == decode(opcode, prefixed),
            r is None <==> (!prefixed && is_unused_slot(opcode)),
    {
        proof {
            lemma_decode_none_iff_unused(opcode, prefixed);
        }
        let index = Self::construct_opcode(opcode, prefixed);
        if index >= 0xCB00 {
            Self::decode_cb_page((index - 0xCB00) as u8)
        } else {
            Self::decode_first_page(index as u8)
        }
    }

    /// Whether a fetched byte announces an opcode of the CB page.
    pub fn is_prefix(opcode: u8) -> (r: bool)
        ensures
            r == (opcode == 0xCB),
    {
        opcode == PREFIX_INST
    }

    /// The 16-bit logical index of an opcode on the page the flag selects.
    pub fn construct_opcode(opcode: u8, prefixed: bool) -> (r: u16)
        ensures
            r == logical_index(opcode, prefixed),
    {
        if prefixed {
            let o = opcode as u16;
            assert(0xCB00u16 | o == 0xCB00u16 + o) by (bit_vector)
                requires
                    o < 256u16,
            ;
            0xCB00 | o
        } else {
            opcode as u16
        }
    }

    /// The table of the first page.
    #[verifier::rlimit(100)]
    fn decode_first_page(opcode: u8) -> (r: Option<Operation>)
        ensures
            r == decode_unprefixed(opcode as int),
    {
        match opcode {
            0x00 => Some(Operation::Misc(MiscOp::NOP)),
            0x01 => Some(Operation::Load16(Load16Op::LD(Load16Dest::BC, Load16Src::Direct16Bit))),
            0x02 => Some(Operation::Load8(Load8Op::LD(Load8Dest::BC, Load8Src::A))),
            0x03 => Some(Operation::ALU16(ALU16Op::INC(ALU16Dest::BC))),
            0x04 => Some(Operation::ALU8(ALU8Op::INC(ALU8Dest::B))),
            0x05 => Some(Operation::ALU8(ALU8Op::DEC(ALU8Dest::B))),
            0x06 => Some(Operation::Load8(Load8Op::LD(Load8Dest::B, Load8Src::Direct8Bit))),
            0x07 => Some(Operation::Bit(BitOp::RLCA)),
            0x08 => Some(Operation::Load16(Load16Op::LD(Load16Dest::Addr16Bit, Load16Src::SP))),
            0x09 => Some(Operation::ALU16(ALU16Op::ADD(ALU16Dest::HL, ALU16Src::BC))),
            0x0A => Some(Operation::Load8(Load8Op::LD(Load8Dest::A, Load8Src::BC))),
            0x0B => Some(Operation::ALU16(ALU16Op::DEC(ALU16Dest::BC))),
            0x0C => Some(Operation::ALU8(ALU8Op::INC(ALU8Dest::C))),
            0x0D => Some(Operation::ALU8(ALU8Op::DEC(ALU8Dest::C))),
            0x0E => Some(Operation::Load8(Load8Op::LD(Load8Dest::C, Load8Src::Direct8Bit))),
            0x0F => Some(Operation::Bit(BitOp::RRCA)),

            0x10 => Some(Operation::Misc(MiscOp::STOP)),
            0x11 => Some(Operation::Load16(Load16Op::LD(Load16Dest::DE, Load16Src::Direct16Bit))),
            0x12 => Some(Operation::Load8(Load8Op::LD(Load8Dest::DE, Load8Src::A))),
            0x13 => Some(Operation::ALU16(ALU16Op::INC(ALU16Dest::DE))),
            0x14 => Some(Operation::ALU8(ALU8Op::INC(ALU8Dest::D))),
            0x15 => Some(Operation::ALU8(ALU8Op::DEC(ALU8Dest::D))),
            0x16 => Some(Operation::Load8(Load8Op::LD(Load8Dest::D, Load8Src::Direct8Bit))),
            0x17 => Some(Operation::Bit(BitOp::RLA)),
            0x18 => Some(Operation::Jump(JumpOp::JR(Flags::NIL))),
            0x19 => Some(Operation::ALU16(ALU16Op::ADD(ALU16Dest::HL, ALU16Src::DE))),
            0x1A => Some(Operation::Load8(Load8Op::LD(Load8Dest::A, Load8Src::DE))),
            0x1B => Some(Operation::ALU16(ALU16Op::DEC(ALU16Dest::DE))),
            0x1C => Some(Operation::ALU8(ALU8Op::INC(ALU8Dest::E))),
            0x1D => Some(Operation::ALU8(ALU8Op::DEC(ALU8Dest::E))),
            0x1E => Some(Operation::Load8(Load8Op::LD(Load8Dest::E, Load8Src::Direct8Bit))),
            0x1F => Some(Operation::Bit(BitOp::RRA)),

            0x20 => Some(Operation::Jump(JumpOp::JR(Flags::NZ))),
            0x21 => Some(Operation::Load16(Load16Op::LD(Load16Dest::HL, Load16Src::Direct16Bit))),
            0x22 => Some(Operation::Load8(Load8Op::LD(Load8Dest::HLI, Load8Src::A))),
            0x23 => Some(Operation::ALU16(ALU16Op::INC(ALU16Dest::HL))),
            0x24 => Some(Operation::ALU8(ALU8Op::INC(ALU8Dest::H))),
            0x25 => Some(Operation::ALU8(ALU8Op::DEC(ALU8Dest::H))),
            0x26 => Some(Operation::Load8(Load8Op::LD(Load8Dest::H, Load8Src::Direct8Bit))),
            0x27 => Some(Operation::ALU8(ALU8Op::DAA)),
            0x28 => Some(Operation::Jump(JumpOp::JR(Flags::Z))),
            0x29 => Some(Operation::ALU16(ALU16Op::ADD(ALU16Dest::HL, ALU16Src::HL))),
            0x2A => Some(Operation::Load8(Load8Op::LD(Load8Dest::A, Load8Src::HLI))),
            0x2B => Some(Operation::ALU16(ALU16Op::DEC(ALU16Dest::HL))),
            0x2C => Some(Operation::ALU8(ALU8Op::INC(ALU8Dest::L))),
            0x2D => Some(Operation::ALU8(ALU8Op::DEC(ALU8Dest::L))),
            0x2E => Some(Operation::Load8(Load8Op::LD(Load8Dest::L, Load8Src::Direct8Bit))),
            0x2F => Some(Operation::ALU8(ALU8Op::CPL)),

            0x30 => Some(Operation::Jump(JumpOp::JR(Flags::NC))),
            0x31 => Some(Operation::Load16(Load16Op::LD(Load16Dest::SP, Load16Src::Direct16Bit))),
            0x32 => Some(Operation::Load8(Load8Op::LD(Load8Dest::HLD, Load8Src::A))),
            0x33 => Some(Operation::ALU16(ALU16Op::INC(ALU16Dest::SP))),
            0x34 => Some(Operation::ALU8(ALU8Op::INC(ALU8Dest::HL))),
            0x35 => Some(Operation::ALU8(ALU8Op::DEC(ALU8Dest::HL))),
            0x36 => Some(Operation::Load8(Load8Op::LD(Load8Dest::HL, Load8Src::Direct8Bit))),
            0x37 => Some(Operation::ALU8(ALU8Op::SCF)),
            0x38 => Some(Operation::Jump(JumpOp::JR(Flags::C))),
            0x39 => Some(Operation::ALU16(ALU16Op::ADD(ALU16Dest::HL, ALU16Src::SP))),
            0x3A => Some(Operation::Load8(Load8Op::LD(Load8Dest::A, Load8Src::HLD))),
            0x3B => Some(Operation::ALU16(ALU16Op::DEC(ALU16Dest::SP))),
            0x3C => Some(Operation::ALU8(ALU8Op::INC(ALU8Dest::A))),
            0x3D => Some(Operation::ALU8(ALU8Op::DEC(ALU8Dest::A))),
            0x3E => Some(Operation::Load8(Load8Op::LD(Load8Dest::A, Load8Src::Direct8Bit))),
            0x3F => Some(Operation::ALU8(ALU8Op::CCF)),

            0x40 => Some(Operation::Load8(Load8Op::LD(Load8Dest::B, Load8Src::B))),
            0x41 => Some(Operation::Load8(Load8Op::LD(Load8Dest::B, Load8Src::C))),
            0x42 => Some(Operation::Load8(Load8Op::LD(Load8Dest::B, Load8Src::D))),
            0x43 => Some(Operation::Load8(Load8Op::LD(Load8Dest::B, Load8Src::E))),
            0x44 => Some(Operation::Load8(Load8Op::LD(Load8Dest::B, Load8Src::H))),
            0x45 => Some(Operation::Load8(Load8Op::LD(Load8Dest::B, Load8Src::L))),
            0x46 => Some(Operation::Load8(Load8Op::LD(Load8Dest::B, Load8Src::HL))),
            0x47 => Some(Operation::Load8(Load8Op::LD(Load8Dest::B, Load8Src::A))),
            0x48 => Some(Operation::Load8(Load8Op::LD(Load8Dest::C, Load8Src::B))),
            0x49 => Some(Operation::Load8(Load8Op::LD(Load8Dest::C, Load8Src::C))),
            0x4A => Some(Operation::Load8(Load8Op::LD(Load8Dest::C, Load8Src::D))),
            0x4B => Some(Operation::Load8(Load8Op::LD(Load8Dest::C, Load8Src::E))),
            0x4C => Some(Operation::Load8(Load8Op::LD(Load8Dest::C, Load8Src::H))),
            0x4D => Some(Operation::Load8(Load8Op::LD(Load8Dest::C, Load8Src::L))),
            0x4E => Some(Operation::Load8(Load8Op::LD(Load8Dest::C, Load8Src::HL))),
            0x4F => Some(Operation::Load8(Load8Op::LD(Load8Dest::C, Load8Src::A))),

            0x50 => Some(Operation::Load8(Load8Op::LD(Load8Dest::D, Load8Src::B))),
            0x51 => Some(Operation::Load8(Load8Op::LD(Load8Dest::D, Load8Src::C))),
            0x52 => Some(Operation::Load8(Load8Op::LD(Load8Dest::D, Load8Src::D))),
            0x53 => Some(Operation::Load8(Load8Op::LD(Load8Dest::D, Load8Src::E))),
            0x54 => Some(Operation::Load8(Load8Op::LD(Load8Dest::D, Load8Src::H))),
            0x55 => Some(Operation::Load8(Load8Op::LD(Load8Dest::D, Load8Src::L))),
            0x56 => Some(Operation::Load8(Load8Op::LD(Load8Dest::D, Load8Src::HL))),
            0x57 => Some(Operation::Load8(Load8Op::LD(Load8Dest::D, Load8Src::A))),
            0x58 => Some(Operation::Load8(Load8Op::LD(Load8Dest::E, Load8Src::B))),
            0x59 => Some(Operation::Load8(Load8Op::LD(Load8Dest::E, Load8Src::C))),
            0x5A => Some(Operation::Load8(Load8Op::LD(Load8Dest::E, Load8Src::D))),
            0x5B => Some(Operation::Load8(Load8Op::LD(Load8Dest::E, Load8Src::E))),
            0x5C => Some(Operation::Load8(Load8Op::LD(Load8Dest::E, Load8Src::H))),
            0x5D => Some(Operation::Load8(Load8Op::LD(Load8Dest::E, Load8Src::L))),
            0x5E => Some(Operation::Load8(Load8Op::LD(Load8Dest::E, Load8Src::HL))),
            0x5F => Some(Operation::Load8(Load8Op::LD(Load8Dest::E, Load8Src::A))),

            0x60 => Some(Operation::Load8(Load8Op::LD(Load8Dest::H, Load8Src::B))),
            0x61 => Some(Operation::Load8(Load8Op::LD(Load8Dest::H, Load8Src::C))),
            0x62 => Some(Operation::Load8(Load8Op::LD(Load8Dest::H, Load8Src::D))),
            0x63 => Some(Operation::Load8(Load8Op::LD(Load8Dest::H, Load8Src::E))),
            0x64 => Some(Operation::Load8(Load8Op::LD(Load8Dest::H, Load8Src::H))),
            0x65 => Some(Operation::Load8(Load8Op::LD(Load8Dest::H, Load8Src::L))),
            0x66 => Some(Operation::Load8(Load8Op::LD(Load8Dest::H, Load8Src::HL))),
            0x67 => Some(Operation::Load8(Load8Op::LD(Load8Dest::H, Load8Src::A))),
            0x68 => Some(Operation::Load8(Load8Op::LD(Load8Dest::L, Load8Src::B))),
            0x69 => Some(Operation::Load8(Load8Op::LD(Load8Dest::L, Load8Src::C))),
            0x6A => Some(Operation::Load8(Load8Op::LD(Load8Dest::L, Load8Src::D))),
            0x6B => Some(Operation::Load8(Load8Op::LD(Load8Dest::L, Load8Src::E))),
            0x6C => Some(Operation::Load8(Load8Op::LD(Load8Dest::L, Load8Src::H))),
            0x6D => Some(Operation::Load8(Load8Op::LD(Load8Dest::L, Load8Src::L))),
            0x6E => Some(Operation::Load8(Load8Op::LD(Load8Dest::L, Load8Src::HL))),
            0x6F => Some(Operation::Load8(Load8Op::LD(Load8Dest::L, Load8Src::A))),

            0x70 => Some(Operation::Load8(Load8Op::LD(Load8Dest::HL, Load8Src::B))),
            0x71 => Some(Operation::Load8(Load8Op::LD(Load8Dest::HL, Load8Src::C))),
            0x72 => Some(Operation::Load8(Load8Op::LD(Load8Dest::HL, Load8Src::D))),
            0x73 => Some(Operation::Load8(Load8Op::LD(Load8Dest::HL, Load8Src::E))),
            0x74 => Some(Operation::Load8(Load8Op::LD(Load8Dest::HL, Load8Src::H))),
            0x75 => Some(Operation::Load8(Load8Op::LD(Load8Dest::HL, Load8Src::L))),
            0x76 => Some(Operation::Misc(MiscOp::HALT)),
            0x77 => Some(Operation::Load8(Load8Op::LD(Load8Dest::HL, Load8Src::A))),
            0x78 => Some(Operation::Load8(Load8Op::LD(Load8Dest::A, Load8Src::B))),
            0x79 => Some(Operation::Load8(Load8Op::LD(Load8Dest::A, Load8Src::C))),
            0x7A => Some(Operation::Load8(Load8Op::LD(Load8Dest::A, Load8Src::D))),
            0x7B => Some(Operation::Load8(Load8Op::LD(Load8Dest::A, Load8Src::E))),
            0x7C => Some(Operation::Load8(Load8Op::LD(Load8Dest::A, Load8Src::H))),
            0x7D => Some(Operation::Load8(Load8Op::LD(Load8Dest::A, Load8Src::L))),
            0x7E => Some(Operation::Load8(Load8Op::LD(Load8Dest::A, Load8Src::HL))),
            0x7F => Some(Operation::Load8(Load8Op::LD(Load8Dest::A, Load8Src::A))),

            0x80 => Some(Operation::ALU8(ALU8Op::ADD(ALU8Dest::A, ALU8Src::B))),
            0x81 => Some(Operation::ALU8(ALU8Op::ADD(ALU8Dest::A, ALU8Src::C))),
            0x82 => Some(Operation::ALU8(ALU8Op::ADD(ALU8Dest::A, ALU8Src::D))),
            0x83 => Some(Operation::ALU8(ALU8Op::ADD(ALU8Dest::A, ALU8Src::E))),
            0x84 => Some(Operation::ALU8(ALU8Op::ADD(ALU8Dest::A, ALU8Src::H))),
            0x85 => Some(Operation::ALU8(ALU8Op::ADD(ALU8Dest::A, ALU8Src::L))),
            0x86 => Some(Operation::ALU8(ALU8Op::ADD(ALU8Dest::A, ALU8Src::HL))),
            0x87 => Some(Operation::ALU8(ALU8Op::ADD(ALU8Dest::A, ALU8Src::A))),
            0x88 => Some(Operation::ALU8(ALU8Op::ADC(ALU8Dest::A, ALU8Src::B))),
            0x89 => Some(Operation::ALU8(ALU8Op::ADC(ALU8Dest::A, ALU8Src::C))),
            0x8A => Some(Operation::ALU8(ALU8Op::ADC(ALU8Dest::A, ALU8Src::D))),
            0x8B => Some(Operation::ALU8(ALU8Op::ADC(ALU8Dest::A, ALU8Src::E))),
            0x8C => Some(Operation::ALU8(ALU8Op::ADC(ALU8Dest::A, ALU8Src::H))),
            0x8D => Some(Operation::ALU8(ALU8Op::ADC(ALU8Dest::A, ALU8Src::L))),
            0x8E => Some(Operation::ALU8(ALU8Op::ADC(ALU8Dest::A, ALU8Src::HL))),
            0x8F => Some(Operation::ALU8(ALU8Op::ADC(ALU8Dest::A, ALU8Src::A))),

            0x90 => Some(Operation::ALU8(ALU8Op::SUB(ALU8Dest::B))),
            0x91 => Some(Operation::ALU8(ALU8Op::SUB(ALU8Dest::C))),
            0x92 => Some(Operation::ALU8(ALU8Op::SUB(ALU8Dest::D))),
            0x93 => Some(Operation::ALU8(ALU8Op::SUB(ALU8Dest::E))),
            0x94 => Some(Operation::ALU8(ALU8Op::SUB(ALU8Dest::H))),
            0x95 => Some(Operation::ALU8(ALU8Op::SUB(ALU8Dest::L))),
            0x96 => Some(Operation::ALU8(ALU8Op::SUB(ALU8Dest::HL))),
            0x97 => Some(Operation::ALU8(ALU8Op::SUB(ALU8Dest::A))),
            0x98 => Some(Operation::ALU8(ALU8Op::SBC(ALU8Dest::A, ALU8Src::B))),
            0x99 => Some(Operation::ALU8(ALU8Op::SBC(ALU8Dest::A, ALU8Src::C))),
            0x9A => Some(Operation::ALU8(ALU8Op::SBC(ALU8Dest::A, ALU8Src::D))),
            0x9B => Some(Operation::ALU8(ALU8Op::SBC(ALU8Dest::A, ALU8Src::E))),
            0x9C => Some(Operation::ALU8(ALU8Op::SBC(ALU8Dest::A, ALU8Src::H))),
            0x9D => Some(Operation::ALU8(ALU8Op::SBC(ALU8Dest::A, ALU8Src::L))),
            0x9E => Some(Operation::ALU8(ALU8Op::SBC(ALU8Dest::A, ALU8Src::HL))),
            0x9F => Some(Operation::ALU8(ALU8Op::SBC(ALU8Dest::A, ALU8Src::A))),

            0xA0 => Some(Operation::ALU8(ALU8Op::AND(ALU8Dest::B))),
            0xA1 => Some(Operation::ALU8(ALU8Op::AND(ALU8Dest::C))),
            0xA2 => Some(Operation::ALU8(ALU8Op::AND(ALU8Dest::D))),
            0xA3 => Some(Operation::ALU8(ALU8Op::AND(ALU8Dest::E))),
            0xA4 => Some(Operation::ALU8(ALU8Op::AND(ALU8Dest::H))),
            0xA5 => Some(Operation::ALU8(ALU8Op::AND(ALU8Dest::L))),
            0xA6 => Some(Operation::ALU8(ALU8Op::AND(ALU8Dest::HL))),
            0xA7 => Some(Operation::ALU8(ALU8Op::AND(ALU8Dest::A))),
            0xA8 => Some(Operation::ALU8(ALU8Op::XOR(ALU8Dest::B))),
            0xA9 => Some(Operation::ALU8(ALU8Op::XOR(ALU8Dest::C))),
            0xAA => Some(Operation::ALU8(ALU8Op::XOR(ALU8Dest::D))),
            0xAB => Some(Operation::ALU8(ALU8Op::XOR(ALU8Dest::E))),
            0xAC => Some(Operation::ALU8(ALU8Op::XOR(ALU8Dest::H))),
            0xAD => Some(Operation::ALU8(ALU8Op::XOR(ALU8Dest::L))),
            0xAE => Some(Operation::ALU8(ALU8Op::XOR(ALU8Dest::HL))),
            0xAF => Some(Operation::ALU8(ALU8Op::XOR(ALU8Dest::A))),

            0xB0 => Some(Operation::ALU8(ALU8Op::OR(ALU8Dest::B))),
            0xB1 => Some(Operation::ALU8(ALU8Op::OR(ALU8Dest::C))),
            0xB2 => Some(Operation::ALU8(ALU8Op::OR(ALU8Dest::D))),
            0xB3 => Some(Operation::ALU8(ALU8Op::OR(ALU8Dest::E))),
            0xB4 => Some(Operation::ALU8(ALU8Op::OR(ALU8Dest::H))),
            0xB5 => Some(Operation::ALU8(ALU8Op::OR(ALU8Dest::L))),
            0xB6 => Some(Operation::ALU8(ALU8Op::OR(ALU8Dest::HL))),
            0xB7 => Some(Operation::ALU8(ALU8Op::OR(ALU8Dest::A))),
            0xB8 => Some(Operation::ALU8(ALU8Op::CP(ALU8Dest::B))),
            0xB9 => Some(Operation::ALU8(ALU8Op::CP(ALU8Dest::C))),
            0xBA => Some(Operation::ALU8(ALU8Op::CP(ALU8Dest::D))),
            0xBB => Some(Operation::ALU8(ALU8Op::CP(ALU8Dest::E))),
            0xBC => Some(Operation::ALU8(ALU8Op::CP(ALU8Dest::H))),
            0xBD => Some(Operation::ALU8(ALU8Op::CP(ALU8Dest::L))),
            0xBE => Some(Operation::ALU8(ALU8Op::CP(ALU8Dest::HL))),
            0xBF => Some(Operation::ALU8(ALU8Op::CP(ALU8Dest::A))),

            0xC0 => Some(Operation::Jump(JumpOp::RET(Flags::NZ))),
            0xC1 => Some(Operation::Load16(Load16Op::POP(Load16Dest::BC))),
            0xC2 => Some(Operation::Jump(JumpOp::JP(Flags::NZ))),
            0xC3 => Some(Operation::Jump(JumpOp::JP(Flags::NIL))),
            0xC4 => Some(Operation::Jump(JumpOp::CALL(Flags::NZ))),
            0xC5 => Some(Operation::Load16(Load16Op::PUSH(Load16Dest::BC))),
            0xC6 => Some(Operation::ALU8(ALU8Op::ADD(ALU8Dest::A, ALU8Src::Direct8Bit))),
            0xC7 => Some(Operation::Jump(JumpOp::RST(RSTTarget::X00))),
            0xC8 => Some(Operation::Jump(JumpOp::RET(Flags::Z))),
            0xC9 => Some(Operation::Jump(JumpOp::RET(Flags::NIL))),
            0xCA => Some(Operation::Jump(JumpOp::JP(Flags::Z))),
            0xCB => Some(Operation::Misc(MiscOp::PREFIX)),
            0xCC => Some(Operation::Jump(JumpOp::CALL(Flags::Z))),
            0xCD => Some(Operation::Jump(JumpOp::CALL(Flags::NIL))),
            0xCE => Some(Operation::ALU8(ALU8Op::ADC(ALU8Dest::A, ALU8Src::Direct8Bit))),
            0xCF => Some(Operation::Jump(JumpOp::RST(RSTTarget::X08))),

            0xD0 => Some(Operation::Jump(JumpOp::RET(Flags::NC))),
            0xD1 => Some(Operation::Load16(Load16Op::POP(Load16Dest::DE))),
            0xD2 => Some(Operation::Jump(JumpOp::JP(Flags::NC))),
            0xD3 => None,
            0xD4 => Some(Operation::Jump(JumpOp::CALL(Flags::NC))),
            0xD5 => Some(Operation::Load16(Load16Op::PUSH(Load16Dest::DE))),
            0xD6 => Some(Operation::ALU8(ALU8Op::SUB(ALU8Dest::Direct8Bit))),
            0xD7 => Some(Operation::Jump(JumpOp::RST(RSTTarget::X10))),
            0xD8 => Some(Operation::Jump(JumpOp::RET(Flags::C))),
            0xD9 => Some(Operation::Jump(JumpOp::RETI)),
            0xDA => Some(Operation::Jump(JumpOp::JP(Flags::C))),
            0xDB => None,
            0xDC => Some(Operation::Jump(JumpOp::CALL(Flags::C))),
            0xDD => None,
            0xDE => Some(Operation::ALU8(ALU8Op::SBC(ALU8Dest::A, ALU8Src::Direct8Bit))),
            0xDF => Some(Operation::Jump(JumpOp::RST(RSTTarget::X18))),

            0xE0 => Some(Operation::Load8(Load8Op::LDH(Load8Dest::Unsigned8, Load8Src::A))),
            0xE1 => Some(Operation::Load16(Load16Op::POP(Load16Dest::HL))),
            0xE2 => Some(Operation::Load8(Load8Op::LD(Load8Dest::AddrC, Load8Src::A))),
            0xE3 => None,
            0xE4 => None,
            0xE5 => Some(Operation::Load16(Load16Op::PUSH(Load16Dest::HL))),
            0xE6 => Some(Operation::ALU8(ALU8Op::AND(ALU8Dest::Direct8Bit))),
            0xE7 => Some(Operation::Jump(JumpOp::RST(RSTTarget::X20))),
            0xE8 => Some(Operation::ALU16(ALU16Op::ADD(ALU16Dest::SP, ALU16Src::Signed8))),
            0xE9 => Some(Operation::Jump(JumpOp::JPToHL)),
            0xEA => Some(Operation::Load8(Load8Op::LD(Load8Dest::Addr16Bit, Load8Src::A))),
            0xEB => None,
            0xEC => None,
            0xED => None,
            0xEE => Some(Operation::ALU8(ALU8Op::XOR(ALU8Dest::Direct8Bit))),
            0xEF => Some(Operation::Jump(JumpOp::RST(RSTTarget::X28))),

            0xF0 => Some(Operation::Load8(Load8Op::LDH(Load8Dest::A, Load8Src::Unsigned8))),
            0xF1 => Some(Operation::Load16(Load16Op::POP(Load16Dest::AF))),
            0xF2 => Some(Operation::Load8(Load8Op::LD(Load8Dest::A, Load8Src::AddrC))),
            0xF3 => Some(Operation::Misc(MiscOp::DI)),
            0xF4 => None,
            0xF5 => Some(Operation::Load16(Load16Op::PUSH(Load16Dest::AF))),
            0xF6 => Some(Operation::ALU8(ALU8Op::OR(ALU8Dest::Direct8Bit))),
            0xF7 => Some(Operation::Jump(JumpOp::RST(RSTTarget::X30))),
            0xF8 => Some(Operation::Load16(Load16Op::LD(Load16Dest::HL, Load16Src::SPr8))),
            0xF9 => Some(Operation::Load16(Load16Op::LD(Load16Dest::SP, Load16Src::HL))),
            0xFA => Some(Operation::Load8(Load8Op::LD(Load8Dest::A, Load8Src::Addr16Bit))),
            0xFB => Some(Operation::Misc(MiscOp::EI)),
            0xFC => None,
            0xFD => None,
            0xFE => Some(Operation::ALU8(ALU8Op::CP(ALU8Dest::Direct8Bit))),
            0xFF => Some(Operation::Jump(JumpOp::RST(RSTTarget::X38))),        }
    }

    /// The table of the CB page.
    #[verifier::rlimit(100)]
    fn decode_cb_page(opcode: u8) -> (r: Option<Operation>)
        ensures
            r == Some(decode_prefixed(opcode as int)),
    {
        match opcode {
            0x00 => Some(Operation::Bit(BitOp::RLC(BitOperand::B))),
            0x01 => Some(Operation::Bit(BitOp::RLC(BitOperand::C))),
            0x02 => Some(Operation::Bit(BitOp::RLC(BitOperand::D))),
            0x03 => Some(Operation::Bit(BitOp::RLC(BitOperand::E))),
            0x04 => Some(Operation::Bit(BitOp::RLC(BitOperand::H))),
            0x05 => Some(Operation::Bit(BitOp::RLC(BitOperand::L))),
            0x06 => Some(Operation::Bit(BitOp::RLC(BitOperand::HL))),
            0x07 => Some(Operation::Bit(BitOp::RLC(BitOperand::A))),
            0x08 => Some(Operation::Bit(BitOp::RRC(BitOperand::B))),
            0x09 => Some(Operation::Bit(BitOp::RRC(BitOperand::C))),
            0x0A => Some(Operation::Bit(BitOp::RRC(BitOperand::D))),
            0x0B => Some(Operation::Bit(BitOp::RRC(BitOperand::E))),
            0x0C => Some(Operation::Bit(BitOp::RRC(BitOperand::H))),
            0x0D => Some(Operation::Bit(BitOp::RRC(BitOperand::L))),
            0x0E => Some(Operation::Bit(BitOp::RRC(BitOperand::HL))),
            0x0F => Some(Operation::Bit(BitOp::RRC(BitOperand::A))),

            0x10 => Some(Operation::Bit(BitOp::RL(BitOperand::B))),
            0x11 => Some(Operation::Bit(BitOp::RL(BitOperand::C))),
            0x12 => Some(Operation::Bit(BitOp::RL(BitOperand::D))),
            0x13 => Some(Operation::Bit(BitOp::RL(BitOperand::E))),
            0x14 => Some(Operation::Bit(BitOp::RL(BitOperand::H))),
            0x15 => Some(Operation::Bit(BitOp::RL(BitOperand::L))),
            0x16 => Some(Operation::Bit(BitOp::RL(BitOperand::HL))),
            0x17 => Some(Operation::Bit(BitOp::RL(BitOperand::A))),
            0x18 => Some(Operation::Bit(BitOp::RR(BitOperand::B))),
            0x19 => Some(Operation::Bit(BitOp::RR(BitOperand::C))),
            0x1A => Some(Operation::Bit(BitOp::RR(BitOperand::D))),
            0x1B => Some(Operation::Bit(BitOp::RR(BitOperand::E))),
            0x1C => Some(Operation::Bit(BitOp::RR(BitOperand::H))),
            0x1D => Some(Operation::Bit(BitOp::RR(BitOperand::L))),
            0x1E => Some(Operation::Bit(BitOp::RR(BitOperand::HL))),
            0x1F => Some(Operation::Bit(BitOp::RR(BitOperand::A))),

            0x20 => Some(Operation::Bit(BitOp::SLA(BitOperand::B))),
            0x21 => Some(Operation::Bit(BitOp::SLA(BitOperand::C))),
            0x22 => Some(Operation::Bit(BitOp::SLA(BitOperand::D))),
            0x23 => Some(Operation::Bit(BitOp::SLA(BitOperand::E))),
            0x24 => Some(Operation::Bit(BitOp::SLA(BitOperand::H))),
            0x25 => Some(Operation::Bit(BitOp::SLA(BitOperand::L))),
            0x26 => Some(Operation::Bit(BitOp::SLA(BitOperand::HL))),
            0x27 => Some(Operation::Bit(BitOp::SLA(BitOperand::A))),
            0x28 => Some(Operation::Bit(BitOp::SRA(BitOperand::B))),
            0x29 => Some(Operation::Bit(BitOp::SRA(BitOperand::C))),
            0x2A => Some(Operation::Bit(BitOp::SRA(BitOperand::D))),
            0x2B => Some(Operation::Bit(BitOp::SRA(BitOperand::E))),
            0x2C => Some(Operation::Bit(BitOp::SRA(BitOperand::H))),
            0x2D => Some(Operation::Bit(BitOp::SRA(BitOperand::L))),
            0x2E => Some(Operation::Bit(BitOp::SRA(BitOperand::HL))),
            0x2F => Some(Operation::Bit(BitOp::SRA(BitOperand::A))),

            0x30 => Some(Operation::Bit(BitOp::SWAP(BitOperand::B))),
            0x31 => Some(Operation::Bit(BitOp::SWAP(BitOperand::C))),
            0x32 => Some(Operation::Bit(BitOp::SWAP(BitOperand::D))),
            0x33 => Some(Operation::Bit(BitOp::SWAP(BitOperand::E))),
            0x34 => Some(Operation::Bit(BitOp::SWAP(BitOperand::H))),
            0x35 => Some(Operation::Bit(BitOp::SWAP(BitOperand::L))),
            0x36 => Some(Operation::Bit(BitOp::SWAP(BitOperand::HL))),
            0x37 => Some(Operation::Bit(BitOp::SWAP(BitOperand::A))),
            0x38 => Some(Operation::Bit(BitOp::SRL(BitOperand::B))),
            0x39 => Some(Operation::Bit(BitOp::SRL(BitOperand::C))),
            0x3A => Some(Operation::Bit(BitOp::SRL(BitOperand::D))),
            0x3B => Some(Operation::Bit(BitOp::SRL(BitOperand::E))),
            0x3C => Some(Operation::Bit(BitOp::SRL(BitOperand::H))),
            0x3D => Some(Operation::Bit(BitOp::SRL(BitOperand::L))),
            0x3E => Some(Operation::Bit(BitOp::SRL(BitOperand::HL))),
            0x3F => Some(Operation::Bit(BitOp::SRL(BitOperand::A))),

            0x40 => Some(Operation::Bit(BitOp::BIT(BitIndex::B0, BitOperand::B))),
            0x41 => Some(Operation::Bit(BitOp::BIT(BitIndex::B0, BitOperand::C))),
            0x42 => Some(Operation::Bit(BitOp::BIT(BitIndex::B0, BitOperand::D))),
            0x43 => Some(Operation::Bit(BitOp::BIT(BitIndex::B0, BitOperand::E))),
            0x44 => Some(Operation::Bit(BitOp::BIT(BitIndex::B0, BitOperand::H))),
            0x45 => Some(Operation::Bit(BitOp::BIT(BitIndex::B0, BitOperand::L))),
            0x46 => Some(Operation::Bit(BitOp::BIT(BitIndex::B0, BitOperand::HL))),
            0x47 => Some(Operation::Bit(BitOp::BIT(BitIndex::B0, BitOperand::A))),
            0x48 => Some(Operation::Bit(BitOp::BIT(BitIndex::B1, BitOperand::B))),
            0x49 => Some(Operation::Bit(BitOp::BIT(BitIndex::B1, BitOperand::C))),
            0x4A => Some(Operation::Bit(BitOp::BIT(BitIndex::B1, BitOperand::D))),
            0x4B => Some(Operation::Bit(BitOp::BIT(BitIndex::B1, BitOperand::E))),
            0x4C => Some(Operation::Bit(BitOp::BIT(BitIndex::B1, BitOperand::H))),
            0x4D => Some(Operation::Bit(BitOp::BIT(BitIndex::B1, BitOperand::L))),
            0x4E => Some(Operation::Bit(BitOp::BIT(BitIndex::B1, BitOperand::HL))),
            0x4F => Some(Operation::Bit(BitOp::BIT(BitIndex::B1, BitOperand::A))),

            0x50 => Some(Operation::Bit(BitOp::BIT(BitIndex::B2, BitOperand::B))),
            0x51 => Some(Operation::Bit(BitOp::BIT(BitIndex::B2, BitOperand::C))),
            0x52 => Some(Operation::Bit(BitOp::BIT(BitIndex::B2, BitOperand::D))),
            0x53 => Some(Operation::Bit(BitOp::BIT(BitIndex::B2, BitOperand::E))),
            0x54 => Some(Operation::Bit(BitOp::BIT(BitIndex::B2, BitOperand::H))),
            0x55 => Some(Operation::Bit(BitOp::BIT(BitIndex::B2, BitOperand::L))),
            0x56 => Some(Operation::Bit(BitOp::BIT(BitIndex::B2, BitOperand::HL))),
            0x57 => Some(Operation::Bit(BitOp::BIT(BitIndex::B2, BitOperand::A))),
            0x58 => Some(Operation::Bit(BitOp::BIT(BitIndex::B3, BitOperand::B))),
            0x59 => Some(Operation::Bit(BitOp::BIT(BitIndex::B3, BitOperand::C))),
            0x5A => Some(Operation::Bit(BitOp::BIT(BitIndex::B3, BitOperand::D))),
            0x5B => Some(Operation::Bit(BitOp::BIT(BitIndex::B3, BitOperand::E))),
            0x5C => Some(Operation::Bit(BitOp::BIT(BitIndex::B3, BitOperand::H))),
            0x5D => Some(Operation::Bit(BitOp::BIT(BitIndex::B3, BitOperand::L))),
            0x5E => Some(Operation::Bit(BitOp::BIT(BitIndex::B3, BitOperand::HL))),
            0x5F => Some(Operation::Bit(BitOp::BIT(BitIndex::B3, BitOperand::A))),

            0x60 => Some(Operation::Bit(BitOp::BIT(BitIndex::B4, BitOperand::B))),
            0x61 => Some(Operation::Bit(BitOp::BIT(BitIndex::B4, BitOperand::C))),
            0x62 => Some(Operation::Bit(BitOp::BIT(BitIndex::B4, BitOperand::D))),
            0x63 => Some(Operation::Bit(BitOp::BIT(BitIndex::B4, BitOperand::E))),
            0x64 => Some(Operation::Bit(BitOp::BIT(BitIndex::B4, BitOperand::H))),
            0x65 => Some(Operation::Bit(BitOp::BIT(BitIndex::B4, BitOperand::L))),
            0x66 => Some(Operation::Bit(BitOp::BIT(BitIndex::B4, BitOperand::HL))),
            0x67 => Some(Operation::Bit(BitOp::BIT(BitIndex::B4, BitOperand::A))),
            0x68 => Some(Operation::Bit(BitOp::BIT(BitIndex::B5, BitOperand::B))),
            0x69 => Some(Operation::Bit(BitOp::BIT(BitIndex::B5, BitOperand::C))),
            0x6A => Some(Operation::Bit(BitOp::BIT(BitIndex::B5, BitOperand::D))),
            0x6B => Some(Operation::Bit(BitOp::BIT(BitIndex::B5, BitOperand::E))),
            0x6C => Some(Operation::Bit(BitOp::BIT(BitIndex::B5, BitOperand::H))),
            0x6D => Some(Operation::Bit(BitOp::BIT(BitIndex::B5, BitOperand::L))),
            0x6E => Some(Operation::Bit(BitOp::BIT(BitIndex::B5, BitOperand::HL))),
            0x6F => Some(Operation::Bit(BitOp::BIT(BitIndex::B5, BitOperand::A))),

            0x70 => Some(Operation::Bit(BitOp::BIT(BitIndex::B6, BitOperand::B))),
            0x71 => Some(Operation::Bit(BitOp::BIT(BitIndex::B6, BitOperand::C))),
            0x72 => Some(Operation::Bit(BitOp::BIT(BitIndex::B6, BitOperand::D))),
            0x73 => Some(Operation::Bit(BitOp::BIT(BitIndex::B6, BitOperand::E))),
            0x74 => Some(Operation::Bit(BitOp::BIT(BitIndex::B6, BitOperand::H))),
            0x75 => Some(Operation::Bit(BitOp::BIT(BitIndex::B6, BitOperand::L))),
            0x76 => Some(Operation::Bit(BitOp::BIT(BitIndex::B6, BitOperand::HL))),
            0x77 => Some(Operation::Bit(BitOp::BIT(BitIndex::B6, BitOperand::A))),
            0x78 => Some(Operation::Bit(BitOp::BIT(BitIndex::B7, BitOperand::B))),
            0x79 => Some(Operation::Bit(BitOp::BIT(BitIndex::B7, BitOperand::C))),
            0x7A => Some(Operation::Bit(BitOp::BIT(BitIndex::B7, BitOperand::D))),
            0x7B => Some(Operation::Bit(BitOp::BIT(BitIndex::B7, BitOperand::E))),
            0x7C => Some(Operation::Bit(BitOp::BIT(BitIndex::B7, BitOperand::H))),
            0x7D => Some(Operation::Bit(BitOp::BIT(BitIndex::B7, BitOperand::L))),
            0x7E => Some(Operation::Bit(BitOp::BIT(BitIndex::B7, BitOperand::HL))),
            0x7F => Some(Operation::Bit(BitOp::BIT(BitIndex::B7, BitOperand::A))),

            0x80 => Some(Operation::Bit(BitOp::RES(BitIndex::B0, BitOperand::B))),
            0x81 => Some(Operation::Bit(BitOp::RES(BitIndex::B0, BitOperand::C))),
            0x82 => Some(Operation::Bit(BitOp::RES(BitIndex::B0, BitOperand::D))),
            0x83 => Some(Operation::Bit(BitOp::RES(BitIndex::B0, BitOperand::E))),
            0x84 => Some(Operation::Bit(BitOp::RES(BitIndex::B0, BitOperand::H))),
            0x85 => Some(Operation::Bit(BitOp::RES(BitIndex::B0, BitOperand::L))),
            0x86 => Some(Operation::Bit(BitOp::RES(BitIndex::B0, BitOperand::HL))),
            0x87 => Some(Operation::Bit(BitOp::RES(BitIndex::B0, BitOperand::A))),
            0x88 => Some(Operation::Bit(BitOp::RES(BitIndex::B1, BitOperand::B))),
            0x89 => Some(Operation::Bit(BitOp::RES(BitIndex::B1, BitOperand::C))),
            0x8A => Some(Operation::Bit(BitOp::RES(BitIndex::B1, BitOperand::D))),
            0x8B => Some(Operation::Bit(BitOp::RES(BitIndex::B1, BitOperand::E))),
            0x8C => Some(Operation::Bit(BitOp::RES(BitIndex::B1, BitOperand::H))),
            0x8D => Some(Operation::Bit(BitOp::RES(BitIndex::B1, BitOperand::L))),
            0x8E => Some(Operation::Bit(BitOp::RES(BitIndex::B1, BitOperand::HL))),
            0x8F => Some(Operation::Bit(BitOp::RES(BitIndex::B1, BitOperand::A))),

            0x90 => Some(Operation::Bit(BitOp::RES(BitIndex::B2, BitOperand::B))),
            0x91 => Some(Operation::Bit(BitOp::RES(BitIndex::B2, BitOperand::C))),
            0x92 => Some(Operation::Bit(BitOp::RES(BitIndex::B2, BitOperand::D))),
            0x93 => Some(Operation::Bit(BitOp::RES(BitIndex::B2, BitOperand::E))),
            0x94 => Some(Operation::Bit(BitOp::RES(BitIndex::B2, BitOperand::H))),
            0x95 => Some(Operation::Bit(BitOp::RES(BitIndex::B2, BitOperand::L))),
            0x96 => Some(Operation::Bit(BitOp::RES(BitIndex::B2, BitOperand::HL))),
            0x97 => Some(Operation::Bit(BitOp::RES(BitIndex::B2, BitOperand::A))),
            0x98 => Some(Operation::Bit(BitOp::RES(BitIndex::B3, BitOperand::B))),
            0x99 => Some(Operation::Bit(BitOp::RES(BitIndex::B3, BitOperand::C))),
            0x9A => Some(Operation::Bit(BitOp::RES(BitIndex::B3, BitOperand::D))),
            0x9B => Some(Operation::Bit(BitOp::RES(BitIndex::B3, BitOperand::E))),
            0x9C => Some(Operation::Bit(BitOp::RES(BitIndex::B3, BitOperand::H))),
            0x9D => Some(Operation::Bit(BitOp::RES(BitIndex::B3, BitOperand::L))),
            0x9E => Some(Operation::Bit(BitOp::RES(BitIndex::B3, BitOperand::HL))),
            0x9F => Some(Operation::Bit(BitOp::RES(BitIndex::B3, BitOperand::A))),

            0xA0 => Some(Operation::Bit(BitOp::RES(BitIndex::B4, BitOperand::B))),
            0xA1 => Some(Operation::Bit(BitOp::RES(BitIndex::B4, BitOperand::C))),
            0xA2 => Some(Operation::Bit(BitOp::RES(BitIndex::B4, BitOperand::D))),
            0xA3 => Some(Operation::Bit(BitOp::RES(BitIndex::B4, BitOperand::E))),
            0xA4 => Some(Operation::Bit(BitOp::RES(BitIndex::B4, BitOperand::H))),
            0xA5 => Some(Operation::Bit(BitOp::RES(BitIndex::B4, BitOperand::L))),
            0xA6 => Some(Operation::Bit(BitOp::RES(BitIndex::B4, BitOperand::HL))),
            0xA7 => Some(Operation::Bit(BitOp::RES(BitIndex::B4, BitOperand::A))),
            0xA8 => Some(Operation::Bit(BitOp::RES(BitIndex::B5, BitOperand::B))),
            0xA9 => Some(Operation::Bit(BitOp::RES(BitIndex::B5, BitOperand::C))),
            0xAA => Some(Operation::Bit(BitOp::RES(BitIndex::B5, BitOperand::D))),
            0xAB => Some(Operation::Bit(BitOp::RES(BitIndex::B5, BitOperand::E))),
            0xAC => Some(Operation::Bit(BitOp::RES(BitIndex::B5, BitOperand::H))),
            0xAD => Some(Operation::Bit(BitOp::RES(BitIndex::B5, BitOperand::L))),
            0xAE => Some(Operation::Bit(BitOp::RES(BitIndex::B5, BitOperand::HL))),
            0xAF => Some(Operation::Bit(BitOp::RES(BitIndex::B5, BitOperand::A))),

            0xB0 => Some(Operation::Bit(BitOp::RES(BitIndex::B6, BitOperand::B))),
            0xB1 => Some(Operation::Bit(BitOp::RES(BitIndex::B6, BitOperand::C))),
            0xB2 => Some(Operation::Bit(BitOp::RES(BitIndex::B6, BitOperand::D))),
            0xB3 => Some(Operation::Bit(BitOp::RES(BitIndex::B6, BitOperand::E))),
            0xB4 => Some(Operation::Bit(BitOp::RES(BitIndex::B6, BitOperand::H))),
            0xB5 => Some(Operation::Bit(BitOp::RES(BitIndex::B6, BitOperand::L))),
            0xB6 => Some(Operation::Bit(BitOp::RES(BitIndex::B6, BitOperand::HL))),
            0xB7 => Some(Operation::Bit(BitOp::RES(BitIndex::B6, BitOperand::A))),
            0xB8 => Some(Operation::Bit(BitOp::RES(BitIndex::B7, BitOperand::B))),
            0xB9 => Some(Operation::Bit(BitOp::RES(BitIndex::B7, BitOperand::C))),
            0xBA => Some(Operation::Bit(BitOp::RES(BitIndex::B7, BitOperand::D))),
            0xBB => Some(Operation::Bit(BitOp::RES(BitIndex::B7, BitOperand::E))),
            0xBC => Some(Operation::Bit(BitOp::RES(BitIndex::B7, BitOperand::H))),
            0xBD => Some(Operation::Bit(BitOp::RES(BitIndex::B7, BitOperand::L))),
            0xBE => Some(Operation::Bit(BitOp::RES(BitIndex::B7, BitOperand::HL))),
            0xBF => Some(Operation::Bit(BitOp::RES(BitIndex::B7, BitOperand::A))),

            0xC0 => Some(Operation::Bit(BitOp::SET(BitIndex::B0, BitOperand::B))),
            0xC1 => Some(Operation::Bit(BitOp::SET(BitIndex::B0, BitOperand::C))),
            0xC2 => Some(Operation::Bit(BitOp::SET(BitIndex::B0, BitOperand::D))),
            0xC3 => Some(Operation::Bit(BitOp::SET(BitIndex::B0, BitOperand::E))),
            0xC4 => Some(Operation::Bit(BitOp::SET(BitIndex::B0, BitOperand::H))),
            0xC5 => Some(Operation::Bit(BitOp::SET(BitIndex::B0, BitOperand::L))),
            0xC6 => Some(Operation::Bit(BitOp::SET(BitIndex::B0, BitOperand::HL))),
            0xC7 => Some(Operation::Bit(BitOp::SET(BitIndex::B0, BitOperand::A))),
            0xC8 => Some(Operation::Bit(BitOp::SET(BitIndex::B1, BitOperand::B))),
            0xC9 => Some(Operation::Bit(BitOp::SET(BitIndex::B1, BitOperand::C))),
            0xCA => Some(Operation::Bit(BitOp::SET(BitIndex::B1, BitOperand::D))),
            0xCB => Some(Operation::Bit(BitOp::SET(BitIndex::B1, BitOperand::E))),
            0xCC => Some(Operation::Bit(BitOp::SET(BitIndex::B1, BitOperand::H))),
            0xCD => Some(Operation::Bit(BitOp::SET(BitIndex::B1, BitOperand::L))),
            0xCE => Some(Operation::Bit(BitOp::SET(BitIndex::B1, BitOperand::HL))),
            0xCF => Some(Operation::Bit(BitOp::SET(BitIndex::B1, BitOperand::A))),

            0xD0 => Some(Operation::Bit(BitOp::SET(BitIndex::B2, BitOperand::B))),
            0xD1 => Some(Operation::Bit(BitOp::SET(BitIndex::B2, BitOperand::C))),
            0xD2 => Some(Operation::Bit(BitOp::SET(BitIndex::B2, BitOperand::D))),
            0xD3 => Some(Operation::Bit(BitOp::SET(BitIndex::B2, BitOperand::E))),
            0xD4 => Some(Operation::Bit(BitOp::SET(BitIndex::B2, BitOperand::H))),
            0xD5 => Some(Operation::Bit(BitOp::SET(BitIndex::B2, BitOperand::L))),
            0xD6 => Some(Operation::Bit(BitOp::SET(BitIndex::B2, BitOperand::HL))),
            0xD7 => Some(Operation::Bit(BitOp::SET(BitIndex::B2, BitOperand::A))),
            0xD8 => Some(Operation::Bit(BitOp::SET(BitIndex::B3, BitOperand::B))),
            0xD9 => Some(Operation::Bit(BitOp::SET(BitIndex::B3, BitOperand::C))),
            0xDA => Some(Operation::Bit(BitOp::SET(BitIndex::B3, BitOperand::D))),
            0xDB => Some(Operation::Bit(BitOp::SET(BitIndex::B3, BitOperand::E))),
            0xDC => Some(Operation::Bit(BitOp::SET(BitIndex::B3, BitOperand::H))),
            0xDD => Some(Operation::Bit(BitOp::SET(BitIndex::B3, BitOperand::L))),
            0xDE => Some(Operation::Bit(BitOp::SET(BitIndex::B3, BitOperand::HL))),
            0xDF => Some(Operation::Bit(BitOp::SET(BitIndex::B3, BitOperand::A))),

            0xE0 => Some(Operation::Bit(BitOp::SET(BitIndex::B4, BitOperand::B))),
            0xE1 => Some(Operation::Bit(BitOp::SET(BitIndex::B4, BitOperand::C))),
            0xE2 => Some(Operation::Bit(BitOp::SET(BitIndex::B4, BitOperand::D))),
            0xE3 => Some(Operation::Bit(BitOp::SET(BitIndex::B4, BitOperand::E))),
            0xE4 => Some(Operation::Bit(BitOp::SET(BitIndex::B4, BitOperand::H))),
            0xE5 => Some(Operation::Bit(BitOp::SET(BitIndex::B4, BitOperand::L))),
            0xE6 => Some(Operation::Bit(BitOp::SET(BitIndex::B4, BitOperand::HL))),
            0xE7 => Some(Operation::Bit(BitOp::SET(BitIndex::B4, BitOperand::A))),
            0xE8 => Some(Operation::Bit(BitOp::SET(BitIndex::B5, BitOperand::B))),
            0xE9 => Some(Operation::Bit(BitOp::SET(BitIndex::B5, BitOperand::C))),
            0xEA => Some(Operation::Bit(BitOp::SET(BitIndex::B5, BitOperand::D))),
            0xEB => Some(Operation::Bit(BitOp::SET(BitIndex::B5, BitOperand::E))),
            0xEC => Some(Operation::Bit(BitOp::SET(BitIndex::B5, BitOperand::H))),
            0xED => Some(Operation::Bit(BitOp::SET(BitIndex::B5, BitOperand::L))),
            0xEE => Some(Operation::Bit(BitOp::SET(BitIndex::B5, BitOperand::HL))),
            0xEF => Some(Operation::Bit(BitOp::SET(BitIndex::B5, BitOperand::A))),

            0xF0 => Some(Operation::Bit(BitOp::SET(BitIndex::B6, BitOperand::B))),
            0xF1 => Some(Operation::Bit(BitOp::SET(BitIndex::B6, BitOperand::C))),
            0xF2 => Some(Operation::Bit(BitOp::SET(BitIndex::B6, BitOperand::D))),
            0xF3 => Some(Operation::Bit(BitOp::SET(BitIndex::B6, BitOperand::E))),
            0xF4 => Some(Operation::Bit(BitOp::SET(BitIndex::B6, BitOperand::H))),
            0xF5 => Some(Operation::Bit(BitOp::SET(BitIndex::B6, BitOperand::L))),
            0xF6 => Some(Operation::Bit(BitOp::SET(BitIndex::B6, BitOperand::HL))),
            0xF7 => Some(Operation::Bit(BitOp::SET(BitIndex::B6, BitOperand::A))),
            0xF8 => Some(Operation::Bit(BitOp::SET(BitIndex::B7, BitOperand::B))),
            0xF9 => Some(Operation::Bit(BitOp::SET(BitIndex::B7, BitOperand::C))),
            0xFA => Some(Operation::Bit(BitOp::SET(BitIndex::B7, BitOperand::D))),
            0xFB => Some(Operation::Bit(BitOp::SET(BitIndex::B7, BitOperand::E))),
            0xFC => Some(Operation::Bit(BitOp::SET(BitIndex::B7, BitOperand::H))),
            0xFD => Some(Operation::Bit(BitOp::SET(BitIndex::B7, BitOperand::L))),
            0xFE => Some(Operation::Bit(BitOp::SET(BitIndex::B7, BitOperand::HL))),
            0xFF => Some(Operation::Bit(BitOp::SET(BitIndex::B7, BitOperand::A))),        }
    }
}

/// Decoding is total: an opcode decodes to nothing exactly when it is one of
/// the eleven unused slots of the first page; every opcode of the CB page is
/// an instruction.
pub proof fn lemma_decode_none_iff_unused(opcode: u8, prefixed: bool)
    ensures
        decode(opcode, prefixed) is None <==> (!prefixed && is_unused_slot(opcode)),
{
    let op = opcode as int;
    let y = (op / 8) % 8;
    let z = op % 8;
    if !prefixed && op / 64 == 3 {
        assert(op == 192 + 8 * y + z);
    }
}

} // verus!
