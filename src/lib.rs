//! The instruction-set core of an SM83 (Game Boy family) CPU: decoding of the
//! 512-entry opcode space and execution of decoded operations against
//! register, flag and memory state.
pub mod opcodes;
pub mod operation;
pub mod cpu;
pub mod operand;
pub mod misc_handlers;
pub mod load8_handlers;
pub mod load16_handlers;
pub mod alu8_handlers;
pub mod alu16_handlers;
pub mod bit_handlers;
pub mod jump_handlers;
pub mod step;
