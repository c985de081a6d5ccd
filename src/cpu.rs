//! CPU state: registers, flags, program counter, stack pointer, the memory bus
//! and the signals handed to the interrupt controller.
use vstd::prelude::*;

verus! {

/// Size of the 16-bit address space.
pub const ADDRESS_SPACE: usize = 0x10000;

/// The four flags of the F register.
#[derive(Clone, Copy, Debug, PartialEq, Eq, Structural)]
pub struct FlagRegister {
    pub zero: bool,
    pub subtract: bool,
    pub half_carry: bool,
    pub carry: bool,
}

/// The flag register as the low byte of AF: Z, N, H, C in bits 7 to 4, the
/// low nibble zero.
pub open spec fn flags_byte(f: FlagRegister) -> u8 {
    ((if f.zero { 0x80int } else { 0 }) + (if f.subtract { 0x40int } else { 0 }) + (if f.half_carry {
        0x20int
    } else {
        0
    }) + (if f.carry { 0x10int } else { 0 })) as u8
}

/// The flags that a byte loaded into F holds: bits 7 to 4; the low nibble is
/// dropped.
pub open spec fn flags_from_byte(b: u8) -> FlagRegister {
    FlagRegister {
        zero: (b as int / 128) % 2 == 1,
        subtract: (b as int / 64) % 2 == 1,
        half_carry: (b as int / 32) % 2 == 1,
        carry: (b as int / 16) % 2 == 1,
    }
}

impl FlagRegister {
    /// All flags clear.
    pub fn new() -> (r: FlagRegister)
        ensures
            r == (FlagRegister { zero: false, subtract: false, half_carry: false, carry: false }),
    {
        FlagRegister { zero: false, subtract: false, half_carry: false, carry: false }
    }

    /// The flags packed as the low byte of AF.
    pub fn to_byte(&self) -> (r: u8)
        ensures
            r == flags_byte(*self),
    {
        let mut v: u8 = 0;
        if self.zero {
            v = v + 0x80;
        }
        if self.subtract {
            v = v + 0x40;
        }
        if self.half_carry {
            v = v + 0x20;
        }
        if self.carry {
            v = v + 0x10;
        }
        v
    }

    /// The flags that a byte holds in its high nibble.
    pub fn from_byte(b: u8) -> (r: FlagRegister)
        ensures
            r == flags_from_byte(b),
    {
        FlagRegister {
            zero: (b / 128) % 2 == 1,
            subtract: (b / 64) % 2 == 1,
            half_carry: (b / 32) % 2 == 1,
            carry: (b / 16) % 2 == 1,
        }
    }
}

/// The 8-bit registers, the flags, PC and SP.
#[derive(Clone, Copy, Debug, PartialEq, Eq, Structural)]
pub struct Registers {
    pub a: u8,
    pub b: u8,
    pub c: u8,
    pub d: u8,
    pub e: u8,
    pub h: u8,
    pub l: u8,
    pub f: FlagRegister,
    pub pc: u16,
    pub sp: u16,
}

impl Registers {
    /// All registers zero and all flags clear.
    pub open spec fn zeroed() -> Registers {
        Registers {
            a: 0,
            b: 0,
            c: 0,
            d: 0,
            e: 0,
            h: 0,
            l: 0,
            f: FlagRegister { zero: false, subtract: false, half_carry: false, carry: false },
            pc: 0,
            sp: 0,
        }
    }

    pub fn new() -> (r: Registers)
        ensures
            r == Registers::zeroed(),
    {
        Registers { a: 0, b: 0, c: 0, d: 0, e: 0, h: 0, l: 0, f: FlagRegister::new(), pc: 0, sp: 0 }
    }

    pub open spec fn spec_hl(&self) -> u16 {
        word(self.l, self.h)
    }

    /// The pair HL.
    pub fn hl(&self) -> (r: u16)
        ensures
            r == self.spec_hl(),
    {
        le_bytes_to_word(self.l, self.h)
    }
}

/// The 16-bit value whose low byte is `lo` and high byte `hi`.
pub open spec fn word(lo: u8, hi: u8) -> u16 {
    (hi as int * 256 + lo as int) as u16
}

/// The high byte of a 16-bit value.
pub open spec fn high_byte(w: u16) -> u8 {
    (w as int / 256) as u8
}

/// The low byte of a 16-bit value.
pub open spec fn low_byte(w: u16) -> u8 {
    (w as int % 256) as u8
}

/// An integer taken modulo 2^16: addresses wrap round the address space.
pub open spec fn wrap16(x: int) -> u16 {
    (x % 0x10000) as u16
}

/// Joins a low and a high byte into a 16-bit value.
pub fn le_bytes_to_word(lo: u8, hi: u8) -> (r: u16)
    ensures
        r == word(lo, hi),
{
    (hi as u16) * 256 + (lo as u16)
}

/// Splits a 16-bit value into its high and low byte.
pub fn word_to_bytes(w: u16) -> (r: (u8, u8))
    ensures
        r.0 == high_byte(w),
        r.1 == low_byte(w),
{
    ((w / 256) as u8, (w % 256) as u8)
}

/// `a + b` modulo 2^16.
pub fn add16(a: u16, b: u16) -> (r: u16)
    ensures
        r == wrap16(a + b),
{
    ((a as u32 + b as u32) % 0x10000) as u16
}

/// `a - b` modulo 2^16.
pub fn sub16(a: u16, b: u16) -> (r: u16)
    ensures
        r == wrap16(a - b),
{
    ((a as u32 + 0x10000 - b as u32) % 0x10000) as u16
}

/// The byte-addressable memory surface: one byte for each 16-bit address.
pub struct Bus {
    memory: Vec<u8>,
}

impl View for Bus {
    type V = Seq<u8>;

    closed spec fn view(&self) -> Seq<u8> {
        self.memory@
    }
}

impl Bus {
    /// Every address holds a byte.
    pub open spec fn wf(&self) -> bool {
        self@.len() == ADDRESS_SPACE
    }

    /// The byte at a 16-bit address.
    pub open spec fn at(&self, addr: u16) -> u8 {
        self@[addr as int]
    }

    /// A bus whose every byte is zero.
    pub fn new() -> (r: Bus)
        ensures
            r.wf(),
            forall|i: int| 0 <= i < ADDRESS_SPACE ==> r@[i] == 0,
    {
        let mut memory: Vec<u8> = Vec::new();
        while memory.len() < ADDRESS_SPACE
            invariant
                memory@.len() <= ADDRESS_SPACE,
                forall|i: int| 0 <= i < memory@.len() ==> memory@[i] == 0,
            decreases ADDRESS_SPACE - memory@.len(),
        {
            memory.push(0);
        }
        Bus { memory }
    }

    /// The little-endian 16-bit value at `addr` and the address after it.
    pub open spec fn word_at(&self, addr: u16) -> u16 {
        word_in(self@, addr)
    }

    pub fn read(&self, addr: u16) -> (r: u8)
        requires
            self.wf(),
        ensures
            r == self.at(addr),
    {
        self.memory[addr as usize]
    }

    pub fn write(&mut self, addr: u16, value: u8)
        requires
            old(self).wf(),
        ensures
            final(self)@ == old(self)@.update(addr as int, value),
            final(self).wf(),
    {
        self.memory.set(addr as usize, value);
    }
}

/// The little-endian 16-bit value in `mem` at `addr` and the address after it.
pub open spec fn word_in(mem: Seq<u8>, addr: u16) -> u16 {
    word(mem[addr as int], mem[wrap16(addr + 1) as int])
}

/// Memory after a 16-bit value is pushed below `sp`: the high byte at
/// `sp - 1`, the low byte at `sp - 2`.
pub open spec fn pushed(mem: Seq<u8>, sp: u16, w: u16) -> Seq<u8> {
    mem.update(wrap16(sp - 1) as int, high_byte(w)).update(wrap16(sp - 2) as int, low_byte(w))
}

/// The signed value of a displacement byte.
pub open spec fn signed8(b: u8) -> int {
    if b < 128 {
        b as int
    } else {
        b - 256
    }
}

/// Whether an instruction left PC to the step driver or set it itself.
#[derive(Clone, Copy, Debug, PartialEq, Eq, Structural)]
pub enum ReturnType {
    Jumped,
    NotJumped,
}

/// What a handler reports: cycles taken, encoded length, and whether PC was
/// set by the handler.
#[derive(Clone, Copy, Debug, PartialEq, Eq, Structural)]
pub struct InstructionReturn {
    pub n_cycles: u8,
    pub n_bytes: u8,
    pub return_type: ReturnType,
}

/// The outcome with the given cycles, length and branch classification.
pub open spec fn outcome(n_cycles: u8, n_bytes: u8, return_type: ReturnType) -> InstructionReturn {
    InstructionReturn { n_cycles, n_bytes, return_type }
}

/// The processor: registers, memory, and the state shared with the interrupt
/// controller.
pub struct CPU {
    pub registers: Registers,
    pub bus: Bus,
    /// The interrupt master enable.
    pub ime: bool,
    /// EI has run; interrupts become enabled after the next instruction.
    pub ime_scheduled: bool,
    /// HALT or STOP has run; fetching waits for a wake-up from outside.
    pub halted: bool,
    /// Cycles consumed since start.
    pub cycles: u64,
}

impl CPU {
    pub open spec fn wf(&self) -> bool {
        self.bus.wf()
    }

    /// The interrupt and halt signals and the cycle count are the same in both.
    pub open spec fn same_signals(&self, other: &CPU) -> bool {
        &&& self.ime == other.ime
        &&& self.ime_scheduled == other.ime_scheduled
        &&& self.halted == other.halted
        &&& self.cycles == other.cycles
    }

    /// The 16-bit immediate operand of the instruction at PC.
    pub open spec fn imm16(&self) -> u16 {
        self.bus.word_at(wrap16(self.registers.pc + 1))
    }

    /// The 8-bit immediate operand of the instruction at PC.
    pub open spec fn imm8(&self) -> u8 {
        self.bus.at(wrap16(self.registers.pc + 1))
    }

    pub fn read_imm8(&self) -> (r: u8)
        requires
            self.wf(),
        ensures
            r == self.imm8(),
    {
        self.bus.read(add16(self.registers.pc, 1))
    }

    pub fn read_imm16(&self) -> (r: u16)
        requires
            self.wf(),
        ensures
            r == self.imm16(),
    {
        let at = add16(self.registers.pc, 1);
        let lo = self.bus.read(at);
        let hi = self.bus.read(add16(at, 1));
        le_bytes_to_word(lo, hi)
    }

    /// Pushes a 16-bit value: SP is decremented before each byte is written,
    /// the high byte first.
    pub fn push_word(&mut self, w: u16)
        requires
            old(self).wf(),
        ensures
            final(self).wf(),
            final(self).registers == (Registers { sp: wrap16(old(self).registers.sp - 2), ..old(self).registers }),
            final(self).bus@ == pushed(old(self).bus@, old(self).registers.sp, w),
            final(self).same_signals(old(self)),
    {
        let (high, low) = word_to_bytes(w);
        self.registers.sp = sub16(self.registers.sp, 1);
        self.bus.write(self.registers.sp, high);
        self.registers.sp = sub16(self.registers.sp, 1);
        self.bus.write(self.registers.sp, low);
    }

    /// Pops a 16-bit value: each byte is read before SP is incremented, the
    /// low byte first.
    pub fn pop_word(&mut self) -> (r: u16)
        requires
            old(self).wf(),
        ensures
            r == old(self).bus.word_at(old(self).registers.sp),
            final(self).wf(),
            final(self).registers == (Registers { sp: wrap16(old(self).registers.sp + 2), ..old(self).registers }),
            final(self).bus@ == old(self).bus@,
            final(self).same_signals(old(self)),
    {
        let sp = self.registers.sp;
        let lo = self.bus.read(sp);
        let next = add16(sp, 1);
        let hi = self.bus.read(next);
        self.registers.sp = add16(next, 1);
        le_bytes_to_word(lo, hi)
    }

    /// A processor with zeroed registers and memory, interrupts disabled.
    pub fn new() -> (r: CPU)
        ensures
            r.wf(),
            r.registers == Registers::zeroed(),
            forall|i: int| 0 <= i < ADDRESS_SPACE ==> r.bus@[i] == 0,
            !r.ime,
            !r.ime_scheduled,
            !r.halted,
            r.cycles == 0,
    {
        CPU {
            registers: Registers::new(),
            bus: Bus::new(),
            ime: false,
            ime_scheduled: false,
            halted: false,
            cycles: 0,
        }
    }
}

} // verus!
