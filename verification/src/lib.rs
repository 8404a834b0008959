//! A software emulator of a small 16-bit register machine: a byte-addressable
//! memory, a file of twelve 16-bit registers, an opcode dispatch loop, and a
//! stack-based subroutine calling convention.
//!
//! Every state change of the machine is specified by a transition function
//! over a ghost machine state (`state::sp_step`), and the executable engine
//! (`cpu::Cpu`) is proved to follow it exactly.

pub mod byte_ops;
pub mod constants;
pub mod fault;
pub mod memory;
pub mod state;
pub mod cpu;
