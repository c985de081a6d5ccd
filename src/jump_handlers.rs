//! Control flow: CALL, JP, JR, RET, RETI, RST and JP (HL). A taken branch sets
//! PC itself and reports `Jumped`; otherwise PC is left to the step driver.
use vstd::prelude::*;
use crate::cpu::{
    add16, high_byte, le_bytes_to_word, low_byte, outcome, pushed, signed8, wrap16, FlagRegister,
    InstructionReturn, Registers, ReturnType, CPU,
};
use crate::opcodes::{Flags, RSTTarget};

verus! {

/// Whether a branch condition holds of the flags.
pub open spec fn condition_holds(f: FlagRegister, flag: Flags) -> bool {
    match flag {
        Flags::NIL => true,
        Flags::Z => f.zero,
        Flags::C => f.carry,
        Flags::NZ => !f.zero,
        Flags::NC => !f.carry,
    }
}

/// The address an RST target names.
pub open spec fn rst_address(t: RSTTarget) -> u16 {
    match t {
        RSTTarget::X00 => 0x00,
        RSTTarget::X08 => 0x08,
        RSTTarget::X10 => 0x10,
        RSTTarget::X18 => 0x18,
        RSTTarget::X20 => 0x20,
        RSTTarget::X28 => 0x28,
        RSTTarget::X30 => 0x30,
        RSTTarget::X38 => 0x38,
    }
}

/// CALL: when the condition holds, PC + 3 is pushed and PC becomes the
/// immediate target (24 cycles, `Jumped`); otherwise nothing changes (12
/// cycles, `NotJumped`).
pub open spec fn call_effect(pre: CPU, post: CPU, flag: Flags, r: InstructionReturn) -> bool {
    &&& post.same_signals(&pre)
    &&& if condition_holds(pre.registers.f, flag) {
        &&& post.registers == (Registers {
            pc: pre.imm16(),
            sp: wrap16(pre.registers.sp - 2),
            ..pre.registers
        })
        &&& post.bus@ == pushed(pre.bus@, pre.registers.sp, wrap16(pre.registers.pc + 3))
        &&& r == outcome(24, 3, ReturnType::Jumped)
    } else {
        &&& post.registers == pre.registers
        &&& post.bus@ == pre.bus@
        &&& r == outcome(12, 3, ReturnType::NotJumped)
    }
}

/// JP: when the condition holds PC becomes the immediate target (16 cycles,
/// `Jumped`); otherwise nothing changes (12 cycles, `NotJumped`).
pub open spec fn jp_effect(pre: CPU, post: CPU, flag: Flags, r: InstructionReturn) -> bool {
    &&& post.same_signals(&pre)
    &&& post.bus@ == pre.bus@
    &&& if condition_holds(pre.registers.f, flag) {
        &&& post.registers == (Registers { pc: pre.imm16(), ..pre.registers })
        &&& r == outcome(16, 3, ReturnType::Jumped)
    } else {
        &&& post.registers == pre.registers
        &&& r == outcome(12, 3, ReturnType::NotJumped)
    }
}

/// JR: when the condition holds PC becomes PC + 2 plus the signed
/// displacement (12 cycles, `Jumped`); otherwise nothing changes (8 cycles,
/// `NotJumped`).
pub open spec fn jr_effect(pre: CPU, post: CPU, flag: Flags, r: InstructionReturn) -> bool {
    &&& post.same_signals(&pre)
    &&& post.bus@ == pre.bus@
    &&& if condition_holds(pre.registers.f, flag) {
        &&& post.registers == (Registers {
            pc: wrap16(pre.registers.pc + 2 + signed8(pre.imm8())),
            ..pre.registers
        })
        &&& r == outcome(12, 2, ReturnType::Jumped)
    } else {
        &&& post.registers == pre.registers
        &&& r == outcome(8, 2, ReturnType::NotJumped)
    }
}

/// RET: when the condition holds PC is popped (16 cycles unconditional, 20
/// conditional, `Jumped`); otherwise nothing changes (8 cycles, `NotJumped`).
pub open spec fn ret_effect(pre: CPU, post: CPU, flag: Flags, r: InstructionReturn) -> bool {
    &&& post.same_signals(&pre)
    &&& post.bus@ == pre.bus@
    &&& if condition_holds(pre.registers.f, flag) {
        &&& post.registers == (Registers {
            pc: pre.bus.word_at(pre.registers.sp),
            sp: wrap16(pre.registers.sp + 2),
            ..pre.registers
        })
        &&& r == outcome(if flag == Flags::NIL { 16 } else { 20 }, 1, ReturnType::Jumped)
    } else {
        &&& post.registers == pre.registers
        &&& r == outcome(8, 1, ReturnType::NotJumped)
    }
}

/// RETI: PC is popped and interrupts are enabled at once (16 cycles, `Jumped`).
pub open spec fn reti_effect(pre: CPU, post: CPU, r: InstructionReturn) -> bool {
    &&& post.registers == (Registers {
        pc: pre.bus.word_at(pre.registers.sp),
        sp: wrap16(pre.registers.sp + 2),
        ..pre.registers
    })
    &&& post.bus@ == pre.bus@
    &&& post.ime
    &&& post.ime_scheduled == pre.ime_scheduled
    &&& post.halted == pre.halted
    &&& post.cycles == pre.cycles
    &&& r == outcome(16, 1, ReturnType::Jumped)
}

/// RST: PC + 1 is pushed and PC becomes the fixed target (16 cycles, `Jumped`).
pub open spec fn rst_effect(pre: CPU, post: CPU, target: RSTTarget, r: InstructionReturn) -> bool {
    &&& post.same_signals(&pre)
    &&& post.registers == (Registers {
        pc: rst_address(target),
        sp: wrap16(pre.registers.sp - 2),
        ..pre.registers
    })
    &&& post.bus@ == pushed(pre.bus@, pre.registers.sp, wrap16(pre.registers.pc + 1))
    &&& r == outcome(16, 1, ReturnType::Jumped)
}

/// JP (HL): PC becomes HL (4 cycles, `Jumped`).
pub open spec fn jp_hl_effect(pre: CPU, post: CPU, r: InstructionReturn) -> bool {
    &&& post.same_signals(&pre)
    &&& post.bus@ == pre.bus@
    &&& post.registers == (Registers { pc: pre.registers.spec_hl(), ..pre.registers })
    &&& r == outcome(4, 1, ReturnType::Jumped)
}

/// Evaluates a branch condition against the flags.
pub fn to_jump(f: &FlagRegister, flag: Flags) -> (r: bool)
    ensures
        r == condition_holds(*f, flag),
{
    match flag {
        Flags::NIL => true,
        Flags::Z => f.zero,
        Flags::C => f.carry,
        Flags::NZ => !f.zero,
        Flags::NC => !f.carry,
    }
}

/// `CALL cond, a16`. When the condition holds, the address of the next
/// instruction (PC + 3) is pushed and PC becomes the immediate target (24
/// cycles, `Jumped`); otherwise nothing changes (12 cycles, `NotJumped`).
pub fn call(cpu: &mut CPU, flag: Flags) -> (r: InstructionReturn)
    requires
        old(cpu).wf(),
    ensures
        final(cpu).wf(),
        call_effect(*old(cpu), *final(cpu), flag, r),
{
    if to_jump(&cpu.registers.f, flag) {
        let addr = cpu.read_imm16();
        let ret = add16(cpu.registers.pc, 3);
        cpu.push_word(ret);
        cpu.registers.pc = addr;
        InstructionReturn { n_cycles: 24, n_bytes: 3, return_type: ReturnType::Jumped }
    } else {
        InstructionReturn { n_cycles: 12, n_bytes: 3, return_type: ReturnType::NotJumped }
    }
}

/// `JP cond, a16`. When the condition holds PC becomes the immediate target
/// (16 cycles, `Jumped`); otherwise nothing changes (12 cycles, `NotJumped`).
pub fn jp(cpu: &mut CPU, flag: Flags) -> (r: InstructionReturn)
    requires
        old(cpu).wf(),
    ensures
        final(cpu).wf(),
        jp_effect(*old(cpu), *final(cpu), flag, r),
{
    if to_jump(&cpu.registers.f, flag) {
        cpu.registers.pc = cpu.read_imm16();
        InstructionReturn { n_cycles: 16, n_bytes: 3, return_type: ReturnType::Jumped }
    } else {
        InstructionReturn { n_cycles: 12, n_bytes: 3, return_type: ReturnType::NotJumped }
    }
}

/// `JR cond, r8`. When the condition holds PC becomes PC + 2 plus the signed
/// displacement (12 cycles, `Jumped`); otherwise nothing changes (8 cycles,
/// `NotJumped`).
pub fn jr(cpu: &mut CPU, flag: Flags) -> (r: InstructionReturn)
    requires
        old(cpu).wf(),
    ensures
        final(cpu).wf(),
        jr_effect(*old(cpu), *final(cpu), flag, r),
{
    if to_jump(&cpu.registers.f, flag) {
        let d = cpu.read_imm8();
        let next = add16(cpu.registers.pc, 2);
        // A displacement byte of 128 or more stands for d - 256, which is
        // d + 0xFF00 modulo 2^16.
        let offset: u16 = if d < 128 { d as u16 } else { 0xFF00 + d as u16 };
        proof {
            assert(wrap16(next + offset) == wrap16(old(cpu).registers.pc + 2 + signed8(d))) by {
                assert(next == (old(cpu).registers.pc + 2) % 0x10000);
            }
        }
        cpu.registers.pc = add16(next, offset);
        InstructionReturn { n_cycles: 12, n_bytes: 2, return_type: ReturnType::Jumped }
    } else {
        InstructionReturn { n_cycles: 8, n_bytes: 2, return_type: ReturnType::NotJumped }
    }
}

/// `RET cond`. When the condition holds PC is popped from the stack (16
/// cycles unconditional, 20 conditional, `Jumped`); otherwise nothing changes
/// (8 cycles, `NotJumped`).
pub fn ret(cpu: &mut CPU, flag: Flags) -> (r: InstructionReturn)
    requires
        old(cpu).wf(),
    ensures
        final(cpu).wf(),
        ret_effect(*old(cpu), *final(cpu), flag, r),
{
    if to_jump(&cpu.registers.f, flag) {
        cpu.registers.pc = cpu.pop_word();
        let n_cycles: u8 = match flag {
            Flags::NIL => 16,
            _ => 20,
        };
        InstructionReturn { n_cycles, n_bytes: 1, return_type: ReturnType::Jumped }
    } else {
        InstructionReturn { n_cycles: 8, n_bytes: 1, return_type: ReturnType::NotJumped }
    }
}

/// `RETI`: an unconditional return that also enables interrupts at once.
pub fn reti(cpu: &mut CPU) -> (r: InstructionReturn)
    requires
        old(cpu).wf(),
    ensures
        final(cpu).wf(),
        reti_effect(*old(cpu), *final(cpu), r),
{
    cpu.registers.pc = cpu.pop_word();
    cpu.ime = true;
    InstructionReturn { n_cycles: 16, n_bytes: 1, return_type: ReturnType::Jumped }
}

/// `RST n`: pushes PC + 1 and jumps to the fixed low-memory address.
pub fn rst(cpu: &mut CPU, target: RSTTarget) -> (r: InstructionReturn)
    requires
        old(cpu).wf(),
    ensures
        final(cpu).wf(),
        rst_effect(*old(cpu), *final(cpu), target, r),
{
    let addr: u16 = match target {
        RSTTarget::X00 => 0x00,
        RSTTarget::X08 => 0x08,
        RSTTarget::X10 => 0x10,
        RSTTarget::X18 => 0x18,
        RSTTarget::X20 => 0x20,
        RSTTarget::X28 => 0x28,
        RSTTarget::X30 => 0x30,
        RSTTarget::X38 => 0x38,
    };
    let ret = add16(cpu.registers.pc, 1);
    cpu.push_word(ret);
    cpu.registers.pc = addr;
    InstructionReturn { n_cycles: 16, n_bytes: 1, return_type: ReturnType::Jumped }
}

/// `JP (HL)`: PC becomes HL (4 cycles, `Jumped`).
pub fn jp_hl(cpu: &mut CPU) -> (r: InstructionReturn)
    requires
        old(cpu).wf(),
    ensures
        final(cpu).wf(),
        jp_hl_effect(*old(cpu), *final(cpu), r),
{
    cpu.registers.pc = le_bytes_to_word(cpu.registers.l, cpu.registers.h);
    InstructionReturn { n_cycles: 4, n_bytes: 1, return_type: ReturnType::Jumped }
}

/// A taken `CALL NZ, a16` (Zero clear): SP drops by two, the byte below the
/// old SP holds the high byte of PC + 3 and the one below it the low byte,
/// PC is the immediate target, 24 cycles are reported and the outcome is
/// `Jumped`.
pub proof fn lemma_call_nz_taken(pre: CPU, post: CPU, r: InstructionReturn)
    requires
        pre.wf(),
        !pre.registers.f.zero,
        call_effect(pre, post, Flags::NZ, r),
    ensures
        post.registers.sp == wrap16(pre.registers.sp - 2),
        post.bus@[wrap16(pre.registers.sp - 1) as int] == high_byte(wrap16(pre.registers.pc + 3)),
        post.bus@[wrap16(pre.registers.sp - 2) as int] == low_byte(wrap16(pre.registers.pc + 3)),
        forall|i: int|
            0 <= i < 0x10000 && i != wrap16(pre.registers.sp - 1) && i != wrap16(pre.registers.sp - 2)
                ==> post.bus@[i] == pre.bus@[i],
        post.registers.pc == pre.imm16(),
        r.n_cycles == 24,
        r.return_type == ReturnType::Jumped,
{
}

} // verus!
