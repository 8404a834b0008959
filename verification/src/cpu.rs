//! The execution engine: fetch, decode, dispatch, and the stack-based
//! call-frame protocol, proved to follow the transition function in `state`.

use vstd::prelude::*;
use crate::byte_ops;
use crate::constants::{
    IP, ACC, R1, R2, R3, R4, R5, R6, R7, R8, SP, FP, REG_COUNT,
    MOV_LIT_REG, MOV_REG_REG, MOV_REG_MEM, MOV_MEM_REG, ADD_REG_REG, JMP_NOT_EQ,
    PSH_LIT, PSH_REG, POP, CAL_LIT, CAL_REG, RET, HALT,
};
use crate::fault::Fault;
use crate::memory::{Memory, Registers};
use crate::state::{
    MachineState, init_state, sp_execute, sp_fetch_u8, sp_fetch_u16, sp_pop, sp_pop_n,
    sp_pop_state, sp_push, sp_push_state, sp_step,
};

verus! {

/// The machine: one memory bank, one register file, the frame-size counter
/// of the call protocol, the halted flag, and the fault it stopped on, if
/// any. Once a fault is recorded, every further step reports it and changes
/// nothing.
pub struct Cpu {
    pub memory: Memory,
    pub registers: Registers,
    stack_frame_size: u16,
    halted: bool,
    fault: Option<Fault>,
}

impl Cpu {
    /// The machine state this engine is in, as the ghost model sees it.
    pub closed spec fn state(&self) -> MachineState {
        MachineState {
            mem: self.memory@,
            regs: self.registers@,
            frame: self.stack_frame_size,
            halted: self.halted,
            fault: self.fault,
        }
    }

    /// A valid engine: well-formed memory and register file, twelve
    /// registers, and the ghost state reflecting both.
    pub closed spec fn wf(&self) -> bool {
        &&& self.memory.wf()
        &&& self.registers.wf()
        &&& self.state().mem == self.memory@
        &&& self.state().regs == self.registers@
        &&& self.state().wf()
    }

    /// A machine over the given memory, in the initial state: all registers
    /// zero but `SP` and `FP`, which hold the address of the last whole word.
    pub fn new(memory: Memory) -> (cpu: Cpu)
        requires
            memory.wf(),
            memory@.len() >= 2,
        ensures
            cpu.wf(),
            cpu.state() == init_state(memory@),
    {
        let mut registers = Registers::new(REG_COUNT as u16);
        let sp0 = memory.len() - 2;
        registers.set(SP, sp0);
        registers.set(FP, sp0);
        let cpu = Cpu { memory, registers, stack_frame_size: 0, halted: false, fault: None };
        proof {
            assert(cpu.state() =~= init_state(cpu.memory@));
        }
        cpu
    }

    /// Reads one byte at `IP` and advances `IP` past it.
    fn fetch_u8(&mut self) -> (r: Result<u8, Fault>)
        requires
            old(self).wf(),
        ensures
            final(self).wf(),
            (final(self).state(), r) == sp_fetch_u8(old(self).state()),
    {
        let ip_val = self.registers.get(IP);
        match self.memory.read_u8(ip_val) {
            Ok(b) => {
                self.registers.set(IP, ip_val + 1);
                Ok(b)
            },
            Err(f) => Err(f),
        }
    }

    /// Reads one word at `IP` and advances `IP` past it.
    fn fetch_u16(&mut self) -> (r: Result<u16, Fault>)
        requires
            old(self).wf(),
        ensures
            final(self).wf(),
            (final(self).state(), r) == sp_fetch_u16(old(self).state()),
    {
        let ip_val = self.registers.get(IP);
        match self.memory.read_u16(ip_val) {
            Ok(w) => {
                self.registers.set(IP, ip_val + 2);
                Ok(w)
            },
            Err(f) => Err(f),
        }
    }

    /// Writes `value` at the current `SP` address, counts two frame bytes,
    /// and retreats `SP` by two.
    fn push(&mut self, value: u16) -> (r: Result<(), Fault>)
        requires
            old(self).wf(),
        ensures
            final(self).wf(),
            (final(self).state(), r) == sp_push(old(self).state(), value),
    {
        let sp_val = self.registers.get(SP);
        match self.memory.write_u16(sp_val, value) {
            Ok(u) => {
                self.stack_frame_size = self.stack_frame_size.wrapping_add(2);
                self.registers.set(SP, sp_val.wrapping_sub(2));
                Ok(())
            },
            Err(f) => Err(f),
        }
    }

    /// Advances `SP` by two, uncounts two frame bytes, and returns the word
    /// at the new top of the stack.
    fn pop(&mut self) -> (r: Result<u16, Fault>)
        requires
            old(self).wf(),
        ensures
            final(self).wf(),
            (final(self).state(), r) == sp_pop(old(self).state()),
    {
        let sp_val = self.registers.get(SP);
        let new_sp = sp_val.wrapping_add(2);
        match self.memory.read_u16(new_sp) {
            Ok(v) => {
                self.registers.set(SP, new_sp);
                self.stack_frame_size = self.stack_frame_size.wrapping_sub(2);
                Ok(v)
            },
            Err(f) => Err(f),
        }
    }

    /// Saves the caller's context on `CAL_LIT` / `CAL_REG`: pushes `R1..R8`
    /// and the return `IP`, then the frame-size marker; resets the counter
    /// and points `FP` at the saved block.
    fn push_state(&mut self) -> (r: Result<(), Fault>)
        requires
            old(self).wf(),
        ensures
            final(self).wf(),
            (final(self).state(), r) == sp_push_state(old(self).state()),
    {
        let v = self.registers.get(R1);
        self.push(v)?;
        let v = self.registers.get(R2);
        self.push(v)?;
        let v = self.registers.get(R3);
        self.push(v)?;
        let v = self.registers.get(R4);
        self.push(v)?;
        let v = self.registers.get(R5);
        self.push(v)?;
        let v = self.registers.get(R6);
        self.push(v)?;
        let v = self.registers.get(R7);
        self.push(v)?;
        let v = self.registers.get(R8);
        self.push(v)?;
        let v = self.registers.get(IP);
        self.push(v)?;
        let marker = self.stack_frame_size.wrapping_add(2);
        self.push(marker)?;
        self.stack_frame_size = 0;
        let sp = self.registers.get(SP);
        self.registers.set(FP, sp);
        Ok(())
    }

    /// Restores the caller's context on `RET`: rewinds `SP` to `FP`, pops
    /// the frame-size marker, the return `IP` and `R8..R1`, pops an argument
    /// count and discards that many words, and moves `FP` up by the marker.
    #[verifier::loop_isolation(false)]
    fn pop_state(&mut self) -> (r: Result<(), Fault>)
        requires
            old(self).wf(),
        ensures
            final(self).wf(),
            (final(self).state(), r) == sp_pop_state(old(self).state()),
    {
        let fp_val = self.registers.get(FP);
        self.registers.set(SP, fp_val);

        let marker = self.pop()?;
        self.stack_frame_size = marker;

        let v = self.pop()?;
        self.registers.set(IP, v);
        let v = self.pop()?;
        self.registers.set(R8, v);
        let v = self.pop()?;
        self.registers.set(R7, v);
        let v = self.pop()?;
        self.registers.set(R6, v);
        let v = self.pop()?;
        self.registers.set(R5, v);
        let v = self.pop()?;
        self.registers.set(R4, v);
        let v = self.pop()?;
        self.registers.set(R3, v);
        let v = self.pop()?;
        self.registers.set(R2, v);
        let v = self.pop()?;
        self.registers.set(R1, v);

        let n = self.pop()?;
        let ghost s_args = self.state();
        let mut i: u16 = 0;
        while i < n
            invariant
                self.wf(),
                i <= n,
                sp_pop_n(s_args, n) == sp_pop_n(self.state(), (n - i) as u16),
            decreases n - i,
        {
            let ghost s_here = self.state();
            match self.pop() {
                Ok(v) => {},
                Err(f) => {
                    proof {
                        assert(sp_pop_n(s_here, (n - i) as u16) == (
                            self.state(),
                            Err::<(), Fault>(f),
                        ));
                    }
                    return Err(f);
                },
            }
            i = i + 1;
            proof {
                assert(sp_pop_n(s_here, (n - i + 1) as u16) == sp_pop_n(
                    self.state(),
                    (n - i) as u16,
                ));
            }
        }

        let fp_new = fp_val.wrapping_add(marker);
        self.registers.set(FP, fp_new);
        Ok(())
    }

    /// Dispatches one opcode byte, consuming its operands via the fetch
    /// primitives. An opcode with no table entry faults with
    /// `UnknownOpcode`.
    fn execute(&mut self, instruction: u8) -> (r: Result<(), Fault>)
        requires
            old(self).wf(),
        ensures
            final(self).wf(),
            (final(self).state(), r) == sp_execute(old(self).state(), instruction),
    {
        if instruction == MOV_LIT_REG {
            let val = self.fetch_u16()?;
            let reg = self.fetch_u8()?;
            self.registers.write(reg, val)
        } else if instruction == MOV_REG_REG {
            let w = self.fetch_u16()?;
            let (reg_src, reg_dst) = byte_ops::u16_to_u8(w);
            let v = self.registers.read(reg_src)?;
            self.registers.write(reg_dst, v)
        } else if instruction == MOV_REG_MEM {
            let reg = self.fetch_u8()?;
            let addr = self.fetch_u16()?;
            let v = self.registers.read(reg)?;
            self.memory.write_u16(addr, v)
        } else if instruction == MOV_MEM_REG {
            let addr = self.fetch_u16()?;
            let reg = self.fetch_u8()?;
            let v = self.memory.read_u16(addr)?;
            self.registers.write(reg, v)
        } else if instruction == ADD_REG_REG {
            let w = self.fetch_u16()?;
            let (reg_a, reg_b) = byte_ops::u16_to_u8(w);
            let val_a = self.registers.read(reg_a)?;
            let val_b = self.registers.read(reg_b)?;
            self.registers.set(ACC, val_a.wrapping_add(val_b));
            Ok(())
        } else if instruction == JMP_NOT_EQ {
            let val = self.fetch_u16()?;
            let adr = self.fetch_u16()?;
            if val != self.registers.get(ACC) {
                self.registers.set(IP, adr);
            }
            Ok(())
        } else if instruction == PSH_LIT {
            let val = self.fetch_u16()?;
            self.push(val)
        } else if instruction == PSH_REG {
            let reg = self.fetch_u8()?;
            let reg_val = self.registers.read(reg)?;
            self.push(reg_val)
        } else if instruction == POP {
            let reg = self.fetch_u8()?;
            let stack_val = self.pop()?;
            self.registers.write(reg, stack_val)
        } else if instruction == CAL_LIT {
            let adr = self.fetch_u16()?;
            self.push_state()?;
            self.registers.set(IP, adr);
            Ok(())
        } else if instruction == CAL_REG {
            let reg = self.fetch_u8()?;
            self.push_state()?;
            let adr = self.registers.read(reg)?;
            self.registers.set(IP, adr);
            Ok(())
        } else if instruction == RET {
            self.pop_state()
        } else if instruction == HALT {
            self.halted = true;
            Ok(())
        } else {
            Err(Fault::UnknownOpcode)
        }
    }

    /// Performs exactly one instruction's worth of work and reports whether
    /// the machine is halted. A machine that already stopped on a fault
    /// reports that fault again and changes nothing; a halted machine stays
    /// halted. A fault raised while dispatching is recorded, so that no
    /// further stepping can continue past it.
    pub fn step(&mut self) -> (r: Result<bool, Fault>)
        requires
            old(self).wf(),
        ensures
            final(self).wf(),
            (final(self).state(), r) == sp_step(old(self).state()),
    {
        if let Some(f) = self.fault {
            return Err(f);
        }
        if self.halted {
            return Ok(true);
        }
        let instruction = match self.fetch_u8() {
            Ok(b) => b,
            Err(f) => {
                self.fault = Some(f);
                return Err(f);
            },
        };
        match self.execute(instruction) {
            Ok(u) => Ok(self.halted),
            Err(f) => {
                self.fault = Some(f);
                Err(f)
            },
        }
    }
}

} // verus!
