//! Operand and operation shapes of the SM83 instruction set, one enum per
//! instruction category. These are plain data: they say what an encoded
//! instruction means, not how it runs.
use vstd::prelude::*;

verus! {

/// Control and miscellaneous instructions.
#[derive(Clone, Copy, Debug, PartialEq, Eq, Structural)]
pub enum MiscOp {
    NOP,
    STOP,
    HALT,
    PREFIX,
    EI,
    DI,
}

/// Destination of an 8-bit load.
#[derive(Clone, Copy, Debug, PartialEq, Eq, Structural)]
pub enum Load8Dest {
    /// Memory at 0xFF00 + C.
    AddrC,
    /// Memory at 0xFF00 + an immediate byte.
    Unsigned8,
    /// Memory at an immediate 16-bit address.
    Addr16Bit,
    /// Memory at BC.
    BC,
    B,
    A,
    C,
    /// Memory at DE.
    DE,
    D,
    E,
    /// Memory at HL, then HL is incremented.
    HLI,
    H,
    L,
    /// Memory at HL, then HL is decremented.
    HLD,
    /// Memory at HL.
    HL,
}

/// Source of an 8-bit load.
#[derive(Clone, Copy, Debug, PartialEq, Eq, Structural)]
pub enum Load8Src {
    /// Memory at 0xFF00 + an immediate byte.
    Unsigned8,
    /// Memory at 0xFF00 + C.
    AddrC,
    /// Memory at an immediate 16-bit address.
    Addr16Bit,
    A,
    /// An immediate byte.
    Direct8Bit,
    /// Memory at BC.
    BC,
    /// Memory at DE.
    DE,
    /// Memory at HL, then HL is incremented.
    HLI,
    /// Memory at HL, then HL is decremented.
    HLD,
    B,
    C,
    D,
    E,
    H,
    L,
    /// Memory at HL.
    HL,
}

#[derive(Clone, Copy, Debug, PartialEq, Eq, Structural)]
pub enum Load8Op {
    LD(Load8Dest, Load8Src),
    LDH(Load8Dest, Load8Src),
}

/// Destination of a 16-bit load, or the pair that PUSH / POP move.
#[derive(Clone, Copy, Debug, PartialEq, Eq, Structural)]
pub enum Load16Dest {
    BC,
    /// Memory at an immediate 16-bit address.
    Addr16Bit,
    DE,
    HL,
    SP,
    AF,
}

/// Source of a 16-bit load.
#[derive(Clone, Copy, Debug, PartialEq, Eq, Structural)]
pub enum Load16Src {
    /// Immediate little-endian 16-bit data.
    Direct16Bit,
    SP,
    HL,
    /// SP plus a signed immediate byte.
    SPr8,
}

#[derive(Clone, Copy, Debug, PartialEq, Eq, Structural)]
pub enum Load16Op {
    LD(Load16Dest, Load16Src),
    POP(Load16Dest),
    PUSH(Load16Dest),
}

#[derive(Clone, Copy, Debug, PartialEq, Eq, Structural)]
pub enum ALU16Dest {
    BC,
    HL,
    DE,
    SP,
}

#[derive(Clone, Copy, Debug, PartialEq, Eq, Structural)]
pub enum ALU16Src {
    /// A signed immediate byte.
    Signed8,
    NIL,
    BC,
    DE,
    HL,
    SP,
}

#[derive(Clone, Copy, Debug, PartialEq, Eq, Structural)]
pub enum ALU16Op {
    INC(ALU16Dest),
    ADD(ALU16Dest, ALU16Src),
    DEC(ALU16Dest),
}

/// Operand of an 8-bit ALU operation (the accumulator is implicit for the
/// one-operand forms).
#[derive(Clone, Copy, Debug, PartialEq, Eq, Structural)]
pub enum ALU8Dest {
    B,
    C,
    D,
    E,
    H,
    L,
    /// Memory at HL.
    HL,
    A,
    /// An immediate byte.
    Direct8Bit,
}

/// Second operand of the two-operand 8-bit ALU forms.
#[derive(Clone, Copy, Debug, PartialEq, Eq, Structural)]
pub enum ALU8Src {
    NIL,
    B,
    C,
    D,
    E,
    H,
    L,
    /// Memory at HL.
    HL,
    A,
    /// An immediate byte.
    Direct8Bit,
}

#[derive(Clone, Copy, Debug, PartialEq, Eq, Structural)]
pub enum ALU8Op {
    DAA,
    CPL,
    SCF,
    CCF,
    INC(ALU8Dest),
    DEC(ALU8Dest),
    SUB(ALU8Dest),
    AND(ALU8Dest),
    XOR(ALU8Dest),
    OR(ALU8Dest),
    CP(ALU8Dest),
    ADD(ALU8Dest, ALU8Src),
    ADC(ALU8Dest, ALU8Src),
    SBC(ALU8Dest, ALU8Src),
}

/// Which bit a BIT / RES / SET instruction addresses.
#[derive(Clone, Copy, Debug, PartialEq, Eq, Structural)]
pub enum BitIndex {
    B0,
    B1,
    B2,
    B3,
    B4,
    B5,
    B6,
    B7,
}

/// Operand of a CB-prefixed rotate, shift or bit instruction.
#[derive(Clone, Copy, Debug, PartialEq, Eq, Structural)]
pub enum BitOperand {
    B,
    C,
    D,
    E,
    H,
    L,
    /// Memory at HL.
    HL,
    A,
}

/// Rotates and shifts of the accumulator, and the CB-prefixed rotate, shift
/// and bit instructions.
#[derive(Clone, Copy, Debug, PartialEq, Eq, Structural)]
pub enum BitOp {
    RLCA,
    RRCA,
    RLA,
    RRA,
    RLC(BitOperand),
    RRC(BitOperand),
    RL(BitOperand),
    RR(BitOperand),
    SLA(BitOperand),
    SRA(BitOperand),
    SWAP(BitOperand),
    SRL(BitOperand),
    BIT(BitIndex, BitOperand),
    RES(BitIndex, BitOperand),
    SET(BitIndex, BitOperand),
}

/// Branch condition: always (`NIL`), Zero set, Carry set, Zero clear, Carry clear.
#[derive(Clone, Copy, Debug, PartialEq, Eq, Structural)]
pub enum Flags {
    NIL,
    Z,
    C,
    NZ,
    NC,
}

/// The eight fixed low-memory targets of RST.
#[derive(Clone, Copy, Debug, PartialEq, Eq, Structural)]
pub enum RSTTarget {
    X00,
    X08,
    X10,
    X18,
    X20,
    X28,
    X30,
    X38,
}

#[derive(Clone, Copy, Debug, PartialEq, Eq, Structural)]
pub enum JumpOp {
    RETI,
    JR(Flags),
    JPToHL,
    JP(Flags),
    RET(Flags),
    CALL(Flags),
    RST(RSTTarget),
}

} // verus!
