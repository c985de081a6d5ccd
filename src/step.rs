//! The step driver: fetch (honouring the CB prefix), decode, dispatch to the
//! handler of the operation's category, and apply the outcome to PC and the
//! cycle count.
use vstd::prelude::*;
use crate::alu16_handlers::{alu16, alu16_outcome, alu16_regs, is_alu16_form};
use crate::alu8_handlers::{alu8, alu8_mem, alu8_outcome, alu8_regs, is_alu8_form};
use crate::bit_handlers::{bit, bit_mem, bit_outcome, bit_regs};
use crate::cpu::{add16, outcome, wrap16, InstructionReturn, Registers, ReturnType, CPU};
use crate::jump_handlers::{
    call, call_effect, jp, jp_effect, jp_hl, jp_hl_effect, jr, jr_effect, ret,
    ret_effect, reti, reti_effect, rst, rst_effect,
};
use crate::load16_handlers::{
    is_ld16_form, is_stack_pair, ld16, ld16_mem, ld16_outcome, ld16_regs, pop, pop_regs, push,
    push_mem, push_regs,
};
use crate::load8_handlers::{load8, load8_mem, load8_outcome, load8_regs};
use crate::misc_handlers::{misc, misc_effect};
use crate::opcodes::{Flags, JumpOp, Load16Op, Load8Op};
use crate::operation::{decode, Operation, PREFIX_INST};

verus! {

/// Decoding stopped on an opcode that no instruction occupies.
#[derive(Clone, Copy, Debug, PartialEq, Eq, Structural)]
pub struct IllegalOpcode {
    pub opcode: u8,
    pub pc: u16,
}

/// The operand shapes that the opcode table produces, on which every
/// handler is defined.
pub open spec fn is_well_formed(op: Operation) -> bool {
    match op {
        Operation::Load16(Load16Op::LD(d, s)) => is_ld16_form(d, s),
        Operation::Load16(Load16Op::PUSH(d)) | Operation::Load16(Load16Op::POP(d)) => is_stack_pair(d),
        Operation::ALU16(a) => is_alu16_form(a),
        Operation::ALU8(a) => is_alu8_form(a),
        _ => true,
    }
}

/// A handler that changes registers, memory and outcome as given and leaves
/// the signals alone.
pub open spec fn data_effect(
    pre: CPU,
    post: CPU,
    regs: Registers,
    mem: Seq<u8>,
    expected: InstructionReturn,
    r: InstructionReturn,
) -> bool {
    &&& post.registers == regs
    &&& post.bus@ == mem
    &&& post.same_signals(&pre)
    &&& r == expected
}

/// What running the handler of `op` does to the processor and reports.
pub open spec fn executed(op: Operation, pre: CPU, post: CPU, r: InstructionReturn) -> bool {
    let regs = pre.registers;
    let mem = pre.bus@;
    match op {
        Operation::Misc(m) => misc_effect(pre, post, m, r),
        Operation::Load8(Load8Op::LD(d, s)) | Operation::Load8(Load8Op::LDH(d, s)) => data_effect(
            pre,
            post,
            load8_regs(regs, mem, d, s),
            load8_mem(regs, mem, d, s),
            load8_outcome(d, s),
            r,
        ),
        Operation::Load16(Load16Op::LD(d, s)) => data_effect(
            pre,
            post,
            ld16_regs(regs, mem, d, s),
            ld16_mem(regs, mem, s),
            ld16_outcome(s),
            r,
        ),
        Operation::Load16(Load16Op::PUSH(d)) => data_effect(
            pre,
            post,
            push_regs(regs),
            push_mem(regs, mem, d),
            outcome(16, 1, ReturnType::NotJumped),
            r,
        ),
        Operation::Load16(Load16Op::POP(d)) => data_effect(
            pre,
            post,
            pop_regs(regs, mem, d),
            mem,
            outcome(12, 1, ReturnType::NotJumped),
            r,
        ),
        Operation::ALU16(a) => data_effect(pre, post, alu16_regs(regs, mem, a), mem, alu16_outcome(a), r),
        Operation::ALU8(a) => data_effect(
            pre,
            post,
            alu8_regs(regs, mem, a),
            alu8_mem(regs, mem, a),
            alu8_outcome(a),
            r,
        ),
        Operation::Bit(b) => data_effect(pre, post, bit_regs(regs, mem, b), bit_mem(regs, mem, b), bit_outcome(regs, b), r),
        Operation::Jump(JumpOp::RETI) => reti_effect(pre, post, r),
        Operation::Jump(JumpOp::JR(f)) => jr_effect(pre, post, f, r),
        Operation::Jump(JumpOp::JPToHL) => jp_hl_effect(pre, post, r),
        Operation::Jump(JumpOp::JP(f)) => jp_effect(pre, post, f, r),
        Operation::Jump(JumpOp::RET(f)) => ret_effect(pre, post, f, r),
        Operation::Jump(JumpOp::CALL(f)) => call_effect(pre, post, f, r),
        Operation::Jump(JumpOp::RST(t)) => rst_effect(pre, post, t, r),
    }
}

/// The opcode byte and page that the bytes at PC select: after the prefix
/// byte, the next byte on the CB page.
pub open spec fn fetched(cpu: CPU) -> (u8, bool) {
    let b = cpu.bus.at(cpu.registers.pc);
    if b == 0xCB {
        (cpu.bus.at(wrap16(cpu.registers.pc + 1)), true)
    } else {
        (b, false)
    }
}

/// The cycle counter after `n` more cycles, modulo 2^64.
pub open spec fn cycles_after(c: u64, n: u8) -> u64 {
    ((c + n) % 0x1_0000_0000_0000_0000) as u64
}

/// The step driver's bookkeeping after the handler ran (`mid`): the cycles
/// are added; PC advances by the encoded length unless the handler jumped;
/// an EI of the previous step takes effect unless this step cancelled it.
pub open spec fn applied(pre: CPU, mid: CPU, r: InstructionReturn, post: CPU) -> bool {
    &&& post.registers == (Registers {
        pc: if r.return_type == ReturnType::NotJumped {
            wrap16(mid.registers.pc + r.n_bytes)
        } else {
            mid.registers.pc
        },
        ..mid.registers
    })
    &&& post.bus@ == mid.bus@
    &&& post.cycles == cycles_after(mid.cycles, r.n_cycles)
    &&& post.halted == mid.halted
    &&& post.ime == (mid.ime || (pre.ime_scheduled && mid.ime_scheduled))
    &&& post.ime_scheduled == (mid.ime_scheduled && !pre.ime_scheduled)
}

/// Every operation the table decodes has the operand shape its handler
/// expects.
pub proof fn lemma_decoded_is_well_formed(opcode: u8, prefixed: bool)
    requires
        decode(opcode, prefixed) is Some,
    ensures
        is_well_formed(decode(opcode, prefixed)->Some_0),
{
}

/// A handler that reports `NotJumped` has left PC where it was, so the step
/// driver's advance by the encoded length is the only change to PC; one that
/// reports `Jumped` is a control-flow instruction.
pub proof fn lemma_not_jumped_keeps_pc(op: Operation, pre: CPU, post: CPU, r: InstructionReturn)
    requires
        executed(op, pre, post, r),
    ensures
        r.return_type == ReturnType::NotJumped ==> post.registers.pc == pre.registers.pc,
        r.return_type == ReturnType::Jumped ==> op is Jump,
{
}

/// Runs the handler of a decoded operation.
pub fn execute(cpu: &mut CPU, op: Operation) -> (r: InstructionReturn)
    requires
        old(cpu).wf(),
        is_well_formed(op),
    ensures
        final(cpu).wf(),
        executed(op, *old(cpu), *final(cpu), r),
{
    match op {
        Operation::Misc(m) => misc(cpu, m),
        Operation::Load8(Load8Op::LD(d, s)) => load8(cpu, d, s),
        Operation::Load8(Load8Op::LDH(d, s)) => load8(cpu, d, s),
        Operation::Load16(Load16Op::LD(d, s)) => ld16(cpu, d, s),
        Operation::Load16(Load16Op::PUSH(d)) => push(cpu, d),
        Operation::Load16(Load16Op::POP(d)) => pop(cpu, d),
        Operation::ALU16(a) => alu16(cpu, a),
        Operation::ALU8(a) => alu8(cpu, a),
        Operation::Bit(b) => bit(cpu, b),
        Operation::Jump(JumpOp::RETI) => reti(cpu),
        Operation::Jump(JumpOp::JR(f)) => jr(cpu, f),
        Operation::Jump(JumpOp::JPToHL) => jp_hl(cpu),
        Operation::Jump(JumpOp::JP(f)) => jp(cpu, f),
        Operation::Jump(JumpOp::RET(f)) => ret(cpu, f),
        Operation::Jump(JumpOp::CALL(f)) => call(cpu, f),
        Operation::Jump(JumpOp::RST(t)) => rst(cpu, t),
    }
}

fn add_cycles(c: u64, n: u8) -> (r: u64)
    ensures
        r == cycles_after(c, n),
{
    if c > u64::MAX - n as u64 {
        n as u64 - (u64::MAX - c) - 1
    } else {
        c + n as u64
    }
}

/// Applies a handler's outcome: adds its cycles and, unless it jumped,
/// advances PC by its encoded length.
pub fn apply_outcome(cpu: &mut CPU, r: InstructionReturn)
    ensures
        final(cpu).registers == (Registers {
            pc: if r.return_type == ReturnType::NotJumped {
                wrap16(old(cpu).registers.pc + r.n_bytes)
            } else {
                old(cpu).registers.pc
            },
            ..old(cpu).registers
        }),
        final(cpu).bus == old(cpu).bus,
        final(cpu).cycles == cycles_after(old(cpu).cycles, r.n_cycles),
        final(cpu).halted == old(cpu).halted,
        final(cpu).ime == old(cpu).ime,
        final(cpu).ime_scheduled == old(cpu).ime_scheduled,
{
    cpu.cycles = add_cycles(cpu.cycles, r.n_cycles);
    match r.return_type {
        ReturnType::NotJumped => cpu.registers.pc = add16(cpu.registers.pc, r.n_bytes as u16),
        ReturnType::Jumped => {},
    }
}

/// Runs one instruction. While halted, a step only lets 4 cycles pass. An
/// opcode that no instruction occupies stops the step with the opcode and
/// PC, and changes nothing.
pub fn step(cpu: &mut CPU) -> (r: Result<InstructionReturn, IllegalOpcode>)
    requires
        old(cpu).wf(),
    ensures
        final(cpu).wf(),
        old(cpu).halted ==> {
            &&& r == Ok::<InstructionReturn, IllegalOpcode>(outcome(4, 0, ReturnType::NotJumped))
            &&& final(cpu).registers == old(cpu).registers
            &&& final(cpu).bus@ == old(cpu).bus@
            &&& final(cpu).cycles == cycles_after(old(cpu).cycles, 4)
            &&& final(cpu).halted
            &&& final(cpu).ime == old(cpu).ime
            &&& final(cpu).ime_scheduled == old(cpu).ime_scheduled
        },
        !old(cpu).halted ==> match decode(fetched(*old(cpu)).0, fetched(*old(cpu)).1) {
            None => {
                &&& r == Err::<InstructionReturn, IllegalOpcode>(
                    IllegalOpcode { opcode: fetched(*old(cpu)).0, pc: old(cpu).registers.pc },
                )
                &&& final(cpu).registers == old(cpu).registers
                &&& final(cpu).bus@ == old(cpu).bus@
                &&& final(cpu).same_signals(old(cpu))
            },
            Some(op) => {
                &&& r is Ok
                &&& exists|mid: CPU|
                    executed(op, *old(cpu), mid, r->Ok_0) && applied(*old(cpu), mid, r->Ok_0, *final(cpu))
            },
        },
{
    if cpu.halted {
        let r = InstructionReturn { n_cycles: 4, n_bytes: 0, return_type: ReturnType::NotJumped };
        apply_outcome(cpu, r);
        return Ok(r);
    }
    let pc = cpu.registers.pc;
    let first = cpu.bus.read(pc);
    let prefixed = first == PREFIX_INST;
    let opcode = if prefixed { cpu.bus.read(add16(pc, 1)) } else { first };
    assert(fetched(*cpu) == (opcode, prefixed));
    match Operation::get_operation(opcode, prefixed) {
        None => Err(IllegalOpcode { opcode, pc }),
        Some(op) => {
            proof {
                lemma_decoded_is_well_formed(opcode, prefixed);
            }
            let ghost pre = *cpu;
            let scheduled = cpu.ime_scheduled;
            let r = execute(cpu, op);
            let ghost mid = *cpu;
            apply_outcome(cpu, r);
            if scheduled && cpu.ime_scheduled {
                cpu.ime = true;
                cpu.ime_scheduled = false;
            }
            assert(executed(op, pre, mid, r) && applied(pre, mid, r, *cpu));
            let res = Ok(r);
            assert(res->Ok_0 == r);
            assert(exists|m: CPU| executed(op, pre, m, res->Ok_0) && applied(pre, m, res->Ok_0, *cpu));
            res
        },
    }
}

/// A `CALL NZ, a16` that is not taken (Zero set), followed by the step
/// driver's bookkeeping: SP and memory are unchanged, 12 cycles are reported
/// with `NotJumped`, and PC ends three bytes further on.
pub proof fn lemma_call_nz_not_taken_step(pre: CPU, mid: CPU, r: InstructionReturn, post: CPU)
    requires
        pre.registers.f.zero,
        executed(Operation::Jump(JumpOp::CALL(Flags::NZ)), pre, mid, r),
        applied(pre, mid, r, post),
    ensures
        post.registers.sp == pre.registers.sp,
        post.bus@ == pre.bus@,
        r.n_cycles == 12,
        r.return_type == ReturnType::NotJumped,
        post.registers.pc == wrap16(pre.registers.pc + 3),
{
}

} // verus!
