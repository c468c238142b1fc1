//! A verified core of an Intel 8080 processor emulator: registers, flags,
//! a 64 KiB memory, and the full official instruction set, stepped one
//! instruction at a time against a host-supplied I/O port bus.

pub mod cpu;
pub mod exec;
pub mod laws;
pub mod model;
pub mod opcode;

pub use cpu::{ConditionBitset, ConditionFlag, Cpu8080, IoBus, NullBus};
pub use cpu::{carry_flag, combine_bytes, parity, set_byte_pair, sign_flag};
pub use opcode::{Instruction, OpcodeTable};
