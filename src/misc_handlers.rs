//! NOP, STOP, HALT, PREFIX, EI and DI: no register or memory changes, only
//! the signals shared with the interrupt controller.
use vstd::prelude::*;
use crate::cpu::{outcome, CPU, InstructionReturn, ReturnType};
use crate::opcodes::MiscOp;

verus! {

/// The effect of a control instruction. HALT and STOP raise the halted
/// signal; EI schedules interrupts to be enabled after the next instruction;
/// DI disables them at once and cancels a pending EI. STOP is two bytes long.
pub open spec fn misc_effect(pre: CPU, post: CPU, op: MiscOp, r: InstructionReturn) -> bool {
    &&& post.registers == pre.registers
    &&& post.bus@ == pre.bus@
    &&& post.cycles == pre.cycles
    &&& post.halted == (pre.halted || op == MiscOp::HALT || op == MiscOp::STOP)
    &&& post.ime == (pre.ime && op != MiscOp::DI)
    &&& post.ime_scheduled == (op == MiscOp::EI || (pre.ime_scheduled && op != MiscOp::DI))
    &&& r == outcome(4, if op == MiscOp::STOP { 2 } else { 1 }, ReturnType::NotJumped)
}

/// Runs a control instruction.
pub fn misc(cpu: &mut CPU, op: MiscOp) -> (r: InstructionReturn)
    requires
        old(cpu).wf(),
    ensures
        final(cpu).wf(),
        misc_effect(*old(cpu), *final(cpu), op, r),
{
    let mut n_bytes: u8 = 1;
    match op {
        MiscOp::NOP | MiscOp::PREFIX => {},
        MiscOp::STOP => {
            cpu.halted = true;
            n_bytes = 2;
        },
        MiscOp::HALT => cpu.halted = true,
        MiscOp::EI => cpu.ime_scheduled = true,
        MiscOp::DI => {
            cpu.ime = false;
            cpu.ime_scheduled = false;
        },
    }
    InstructionReturn { n_cycles: 4, n_bytes, return_type: ReturnType::NotJumped }
}

} // verus!
