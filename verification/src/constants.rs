//! Register identities and opcode bytes of the instruction set.
//!
//! The numbering is part of the machine-code encoding contract and must be
//! preserved bit-for-bit.

use vstd::prelude::*;

verus! {

/// Instruction pointer register.
pub const IP: u8 = 0x00;
/// Accumulator register, sole destination of `ADD_REG_REG`.
pub const ACC: u8 = 0x01;
pub const R1: u8 = 0x02;
pub const R2: u8 = 0x03;
pub const R3: u8 = 0x04;
pub const R4: u8 = 0x05;
pub const R5: u8 = 0x06;
pub const R6: u8 = 0x07;
pub const R7: u8 = 0x08;
pub const R8: u8 = 0x09;
/// Stack pointer register; the stack grows toward lower addresses.
pub const SP: u8 = 0x0A;
/// Frame pointer register; points at the most recently saved register block.
pub const FP: u8 = 0x0B;

/// Number of registers in the register file.
pub const REG_COUNT: u8 = 12;

/// `reg := literal` (u16 literal, u8 reg).
pub const MOV_LIT_REG: u8 = 0x10;
/// `dst := src` (u8 src and u8 dst packed as one u16).
pub const MOV_REG_REG: u8 = 0x11;
/// `memory[addr] := reg`, word store (u8 reg, u16 addr).
pub const MOV_REG_MEM: u8 = 0x12;
/// `reg := memory[addr]`, word load (u16 addr, u8 reg).
pub const MOV_MEM_REG: u8 = 0x13;

/// `ACC := a + b`, wrapping modulo 65536 (u8 a and u8 b packed as one u16).
pub const ADD_REG_REG: u8 = 0x14;

/// If `literal != ACC` then `IP := addr` (u16 literal, u16 addr).
pub const JMP_NOT_EQ: u8 = 0x15;

/// Push a literal on the stack (u16 literal).
pub const PSH_LIT: u8 = 0x17;
/// Push a register value on the stack (u8 reg).
pub const PSH_REG: u8 = 0x18;
/// Pop the stack into a register (u8 reg).
pub const POP: u8 = 0x1A;

/// Call a subroutine at a literal address (u16 addr).
pub const CAL_LIT: u8 = 0x5E;
/// Call a subroutine at an address held in a register (u8 reg).
pub const CAL_REG: u8 = 0x5F;
/// Return from a subroutine.
pub const RET: u8 = 0x60;

/// Stop the machine.
pub const HALT: u8 = 0xFF;

} // verus!
