//! The mathematical model of the machine: a ghost state and the transition
//! function that one execution step follows.
//!
//! The executable engine in `cpu` is proved to agree with these functions
//! exactly: `Cpu::step` returns and mutates precisely what `sp_step` says.

use vstd::prelude::*;
use crate::byte_ops::{hi_of, lo_of};
use crate::constants::{
    IP, ACC, R1, R2, R3, R4, R5, R6, R7, R8, SP, FP, REG_COUNT,
    MOV_LIT_REG, MOV_REG_REG, MOV_REG_MEM, MOV_MEM_REG, ADD_REG_REG, JMP_NOT_EQ,
    PSH_LIT, PSH_REG, POP, CAL_LIT, CAL_REG, RET, HALT,
};
use crate::fault::Fault;
use crate::memory::{sp_read_u8, sp_read_u16, sp_regs_read, sp_regs_write, store_word, word_at};

verus! {

/// The whole observable state of the machine: the memory bytes, the twelve
/// registers, the running frame-size counter, the halted flag, and the fault
/// the machine stopped on, if any.
#[verifier::ext_equal]
pub struct MachineState {
    pub mem: Seq<u8>,
    pub regs: Seq<u16>,
    /// Running counter of bytes pushed since the last call boundary,
    /// kept modulo 65536.
    pub frame: u16,
    pub halted: bool,
    pub fault: Option<Fault>,
}

impl MachineState {
    /// A valid state: twelve registers, and a memory that fits the 16-bit
    /// address space.
    pub open spec fn wf(self) -> bool {
        &&& self.regs.len() == REG_COUNT
        &&& self.mem.len() <= 0xFFFF
    }
}

/// The state of a machine freshly built over the given memory: all registers
/// zero except `SP` and `FP`, which hold the address of the last whole word.
pub open spec fn init_state(mem: Seq<u8>) -> MachineState {
    MachineState {
        mem,
        regs: Seq::new(REG_COUNT as nat, |i: int| 0u16)
            .update(SP as int, (mem.len() - 2) as u16)
            .update(FP as int, (mem.len() - 2) as u16),
        frame: 0,
        halted: false,
        fault: None,
    }
}

/// 16-bit addition wrapping modulo 65536.
pub open spec fn wadd(x: u16, y: u16) -> u16 {
    if x + y > 0xFFFF {
        (x + y - 0x10000) as u16
    } else {
        (x + y) as u16
    }
}

/// 16-bit subtraction wrapping modulo 65536.
pub open spec fn wsub(x: u16, y: u16) -> u16 {
    if x - y < 0 {
        (x - y + 0x10000) as u16
    } else {
        (x - y) as u16
    }
}

/// Fetches one opcode or operand byte at `IP` and advances `IP` by one.
/// On a fault the state is unchanged.
pub open spec fn sp_fetch_u8(s: MachineState) -> (MachineState, Result<u8, Fault>) {
    let ip = s.regs[IP as int];
    match sp_read_u8(s.mem, ip) {
        Ok(b) => (MachineState { regs: s.regs.update(IP as int, (ip + 1) as u16), ..s }, Ok(b)),
        Err(f) => (s, Err(f)),
    }
}

/// Fetches one operand word at `IP` and advances `IP` by two.
/// On a fault the state is unchanged.
pub open spec fn sp_fetch_u16(s: MachineState) -> (MachineState, Result<u16, Fault>) {
    let ip = s.regs[IP as int];
    match sp_read_u16(s.mem, ip) {
        Ok(w) => (MachineState { regs: s.regs.update(IP as int, (ip + 2) as u16), ..s }, Ok(w)),
        Err(f) => (s, Err(f)),
    }
}

/// Pushes a word: writes it at the current `SP` address, counts two frame
/// bytes, and retreats `SP` by two. On a fault the state is unchanged.
pub open spec fn sp_push(s: MachineState, v: u16) -> (MachineState, Result<(), Fault>) {
    let sp = s.regs[SP as int];
    if (sp as int) + 1 < s.mem.len() {
        (
            MachineState {
                mem: store_word(s.mem, sp as int, v),
                regs: s.regs.update(SP as int, wsub(sp, 2)),
                frame: wadd(s.frame, 2),
                ..s
            },
            Ok(()),
        )
    } else {
        (s, Err(Fault::AddressOutOfRange))
    }
}

/// Pops a word: advances `SP` by two, uncounts two frame bytes, and returns
/// the word at the new top. On a fault the state is unchanged.
pub open spec fn sp_pop(s: MachineState) -> (MachineState, Result<u16, Fault>) {
    let sp2 = wadd(s.regs[SP as int], 2);
    match sp_read_u16(s.mem, sp2) {
        Ok(w) => (
            MachineState { regs: s.regs.update(SP as int, sp2), frame: wsub(s.frame, 2), ..s },
            Ok(w),
        ),
        Err(f) => (s, Err(f)),
    }
}

/// Pops a word into a fixed register slot.
pub open spec fn sp_pop_to_reg(s: MachineState, reg: u8) -> (MachineState, Result<(), Fault>) {
    let (s1, r) = sp_pop(s);
    match r {
        Ok(v) => (MachineState { regs: s1.regs.update(reg as int, v), ..s1 }, Ok(())),
        Err(f) => (s1, Err(f)),
    }
}

/// Pops and discards `n` words, stopping at the first fault.
pub open spec fn sp_pop_n(s: MachineState, n: u16) -> (MachineState, Result<(), Fault>)
    decreases n,
{
    if n == 0 {
        (s, Ok(()))
    } else {
        let (s1, r) = sp_pop(s);
        match r {
            Ok(v) => sp_pop_n(s1, (n - 1) as u16),
            Err(f) => (s1, Err(f)),
        }
    }
}

/// The call-frame save sequence entered on `CAL_LIT` and `CAL_REG`: pushes
/// `R1..R8` in ascending order, then the return `IP`, then the frame-size
/// marker (the running byte count plus two); then resets the counter and
/// points `FP` at the new top of the saved block.
pub open spec fn sp_push_state(s: MachineState) -> (MachineState, Result<(), Fault>) {
    let (s1, r1) = sp_push(s, s.regs[R1 as int]);
    match r1 {
        Err(f) => (s1, Err(f)),
        Ok(u) => {
            let (s2, r2) = sp_push(s1, s1.regs[R2 as int]);
            match r2 {
                Err(f) => (s2, Err(f)),
                Ok(u) => {
                    let (s3, r3) = sp_push(s2, s2.regs[R3 as int]);
                    match r3 {
                        Err(f) => (s3, Err(f)),
                        Ok(u) => {
                            let (s4, r4) = sp_push(s3, s3.regs[R4 as int]);
                            match r4 {
                                Err(f) => (s4, Err(f)),
                                Ok(u) => {
                                    let (s5, r5) = sp_push(s4, s4.regs[R5 as int]);
                                    match r5 {
                                        Err(f) => (s5, Err(f)),
                                        Ok(u) => {
                                            let (s6, r6) = sp_push(s5, s5.regs[R6 as int]);
                                            match r6 {
                                                Err(f) => (s6, Err(f)),
                                                Ok(u) => sp_push_state_tail(s6),
                                            }
                                        },
                                    }
                                },
                            }
                        },
                    }
                },
            }
        },
    }
}

/// The tail of the save sequence: `R7`, `R8`, the return `IP`, and the
/// frame-size marker.
pub open spec fn sp_push_state_tail(s6: MachineState) -> (MachineState, Result<(), Fault>) {
    let (s7, r7) = sp_push(s6, s6.regs[R7 as int]);
    match r7 {
        Err(f) => (s7, Err(f)),
        Ok(u) => {
            let (s8, r8) = sp_push(s7, s7.regs[R8 as int]);
            match r8 {
                Err(f) => (s8, Err(f)),
                Ok(u) => {
                    let (s9, r9) = sp_push(s8, s8.regs[IP as int]);
                    match r9 {
                        Err(f) => (s9, Err(f)),
                        Ok(u) => {
                            let (s10, r10) = sp_push(s9, wadd(s9.frame, 2));
                            match r10 {
                                Err(f) => (s10, Err(f)),
                                Ok(u) => (
                                    MachineState {
                                        frame: 0,
                                        regs: s10.regs.update(FP as int, s10.regs[SP as int]),
                                        ..s10
                                    },
                                    Ok(()),
                                ),
                            }
                        },
                    }
                },
            }
        },
    }
}

/// The call-frame restore sequence entered on `RET`: rewinds `SP` to `FP`,
/// pops the frame-size marker into the counter, restores the return `IP` and
/// `R8..R1` in descending order, pops an argument count and discards that
/// many further words, and finally moves `FP` up by the marker.
pub open spec fn sp_pop_state(s: MachineState) -> (MachineState, Result<(), Fault>) {
    let fp = s.regs[FP as int];
    let s0 = MachineState { regs: s.regs.update(SP as int, fp), ..s };
    let (s1, r1) = sp_pop(s0);
    match r1 {
        Err(f) => (s1, Err(f)),
        Ok(marker) => {
            let (s2, r2) = sp_pop_to_reg(MachineState { frame: marker, ..s1 }, IP);
            match r2 {
                Err(f) => (s2, Err(f)),
                Ok(u) => {
                    let (s3, r3) = sp_pop_regs_desc(s2);
                    match r3 {
                        Err(f) => (s3, Err(f)),
                        Ok(u) => {
                            let (s4, r4) = sp_pop(s3);
                            match r4 {
                                Err(f) => (s4, Err(f)),
                                Ok(n) => {
                                    let (s5, r5) = sp_pop_n(s4, n);
                                    match r5 {
                                        Err(f) => (s5, Err(f)),
                                        Ok(u) => (
                                            MachineState {
                                                regs: s5.regs.update(FP as int, wadd(fp, marker)),
                                                ..s5
                                            },
                                            Ok(()),
                                        ),
                                    }
                                },
                            }
                        },
                    }
                },
            }
        },
    }
}

/// Restores the saved registers `R8` down to `R1` from the stack.
pub open spec fn sp_pop_regs_desc(s: MachineState) -> (MachineState, Result<(), Fault>) {
    let (s1, r1) = sp_pop_to_reg(s, R8);
    match r1 {
        Err(f) => (s1, Err(f)),
        Ok(u) => {
            let (s2, r2) = sp_pop_to_reg(s1, R7);
            match r2 {
                Err(f) => (s2, Err(f)),
                Ok(u) => {
                    let (s3, r3) = sp_pop_to_reg(s2, R6);
                    match r3 {
                        Err(f) => (s3, Err(f)),
                        Ok(u) => {
                            let (s4, r4) = sp_pop_to_reg(s3, R5);
                            match r4 {
                                Err(f) => (s4, Err(f)),
                                Ok(u) => {
                                    let (s5, r5) = sp_pop_to_reg(s4, R4);
                                    match r5 {
                                        Err(f) => (s5, Err(f)),
                                        Ok(u) => {
                                            let (s6, r6) = sp_pop_to_reg(s5, R3);
                                            match r6 {
                                                Err(f) => (s6, Err(f)),
                                                Ok(u) => {
                                                    let (s7, r7) = sp_pop_to_reg(s6, R2);
                                                    match r7 {
                                                        Err(f) => (s7, Err(f)),
                                                        Ok(u) => sp_pop_to_reg(s7, R1),
                                                    }
                                                },
                                            }
                                        },
                                    }
                                },
                            }
                        },
                    }
                },
            }
        },
    }
}

/// Dispatches one opcode byte, its operand fetches included. The second
/// component is the fault the instruction stopped on, if any; an opcode with
/// no table entry is `UnknownOpcode`.
pub open spec fn sp_execute(s: MachineState, op: u8) -> (MachineState, Result<(), Fault>) {
    if op == MOV_LIT_REG {
        let (s1, r1) = sp_fetch_u16(s);
        match r1 {
            Err(f) => (s1, Err(f)),
            Ok(val) => {
                let (s2, r2) = sp_fetch_u8(s1);
                match r2 {
                    Err(f) => (s2, Err(f)),
                    Ok(reg) => sp_write_reg(s2, reg, val),
                }
            },
        }
    } else if op == MOV_REG_REG {
        let (s1, r1) = sp_fetch_u16(s);
        match r1 {
            Err(f) => (s1, Err(f)),
            Ok(w) => {
                match sp_regs_read(s1.regs, hi_of(w)) {
                    Err(f) => (s1, Err(f)),
                    Ok(v) => sp_write_reg(s1, lo_of(w), v),
                }
            },
        }
    } else if op == MOV_REG_MEM {
        let (s1, r1) = sp_fetch_u8(s);
        match r1 {
            Err(f) => (s1, Err(f)),
            Ok(reg) => {
                let (s2, r2) = sp_fetch_u16(s1);
                match r2 {
                    Err(f) => (s2, Err(f)),
                    Ok(addr) => {
                        match sp_regs_read(s2.regs, reg) {
                            Err(f) => (s2, Err(f)),
                            Ok(v) => sp_store(s2, addr, v),
                        }
                    },
                }
            },
        }
    } else if op == MOV_MEM_REG {
        let (s1, r1) = sp_fetch_u16(s);
        match r1 {
            Err(f) => (s1, Err(f)),
            Ok(addr) => {
                let (s2, r2) = sp_fetch_u8(s1);
                match r2 {
                    Err(f) => (s2, Err(f)),
                    Ok(reg) => {
                        match sp_read_u16(s2.mem, addr) {
                            Err(f) => (s2, Err(f)),
                            Ok(v) => sp_write_reg(s2, reg, v),
                        }
                    },
                }
            },
        }
    } else if op == ADD_REG_REG {
        let (s1, r1) = sp_fetch_u16(s);
        match r1 {
            Err(f) => (s1, Err(f)),
            Ok(w) => {
                match sp_regs_read(s1.regs, hi_of(w)) {
                    Err(f) => (s1, Err(f)),
                    Ok(va) => {
                        match sp_regs_read(s1.regs, lo_of(w)) {
                            Err(f) => (s1, Err(f)),
                            Ok(vb) => (
                                MachineState { regs: s1.regs.update(ACC as int, wadd(va, vb)), ..s1 },
                                Ok(()),
                            ),
                        }
                    },
                }
            },
        }
    } else if op == JMP_NOT_EQ {
        let (s1, r1) = sp_fetch_u16(s);
        match r1 {
            Err(f) => (s1, Err(f)),
            Ok(val) => {
                let (s2, r2) = sp_fetch_u16(s1);
                match r2 {
                    Err(f) => (s2, Err(f)),
                    Ok(adr) => {
                        if val != s2.regs[ACC as int] {
                            (MachineState { regs: s2.regs.update(IP as int, adr), ..s2 }, Ok(()))
                        } else {
                            (s2, Ok(()))
                        }
                    },
                }
            },
        }
    } else if op == PSH_LIT {
        let (s1, r1) = sp_fetch_u16(s);
        match r1 {
            Err(f) => (s1, Err(f)),
            Ok(val) => sp_push(s1, val),
        }
    } else if op == PSH_REG {
        let (s1, r1) = sp_fetch_u8(s);
        match r1 {
            Err(f) => (s1, Err(f)),
            Ok(reg) => {
                match sp_regs_read(s1.regs, reg) {
                    Err(f) => (s1, Err(f)),
                    Ok(v) => sp_push(s1, v),
                }
            },
        }
    } else if op == POP {
        let (s1, r1) = sp_fetch_u8(s);
        match r1 {
            Err(f) => (s1, Err(f)),
            Ok(reg) => {
                let (s2, r2) = sp_pop(s1);
                match r2 {
                    Err(f) => (s2, Err(f)),
                    Ok(v) => sp_write_reg(s2, reg, v),
                }
            },
        }
    } else if op == CAL_LIT {
        let (s1, r1) = sp_fetch_u16(s);
        match r1 {
            Err(f) => (s1, Err(f)),
            Ok(adr) => {
                let (s2, r2) = sp_push_state(s1);
                match r2 {
                    Err(f) => (s2, Err(f)),
                    Ok(u) => (MachineState { regs: s2.regs.update(IP as int, adr), ..s2 }, Ok(())),
                }
            },
        }
    } else if op == CAL_REG {
        let (s1, r1) = sp_fetch_u8(s);
        match r1 {
            Err(f) => (s1, Err(f)),
            Ok(reg) => {
                let (s2, r2) = sp_push_state(s1);
                match r2 {
                    Err(f) => (s2, Err(f)),
                    Ok(u) => {
                        match sp_regs_read(s2.regs, reg) {
                            Err(f) => (s2, Err(f)),
                            Ok(adr) => (
                                MachineState { regs: s2.regs.update(IP as int, adr), ..s2 },
                                Ok(()),
                            ),
                        }
                    },
                }
            },
        }
    } else if op == RET {
        sp_pop_state(s)
    } else if op == HALT {
        (MachineState { halted: true, ..s }, Ok(()))
    } else {
        (s, Err(Fault::UnknownOpcode))
    }
}

/// Writes an operand-supplied register, faulting on an invalid id.
pub open spec fn sp_write_reg(s: MachineState, reg: u8, v: u16) -> (MachineState, Result<(), Fault>) {
    let (regs2, r) = sp_regs_write(s.regs, reg, v);
    (MachineState { regs: regs2, ..s }, r)
}

/// Stores a word in memory, faulting on an out-of-range address.
pub open spec fn sp_store(s: MachineState, a: u16, v: u16) -> (MachineState, Result<(), Fault>) {
    if (a as int) + 1 < s.mem.len() {
        (MachineState { mem: store_word(s.mem, a as int, v), ..s }, Ok(()))
    } else {
        (s, Err(Fault::AddressOutOfRange))
    }
}

/// One step of the machine. A state that already stopped on a fault reports
/// that fault again and never changes; a halted state stays halted and
/// reports it; otherwise one opcode is fetched and dispatched, and a fault
/// raised by it is recorded in the state.
pub open spec fn sp_step(s: MachineState) -> (MachineState, Result<bool, Fault>) {
    match s.fault {
        Some(f) => (s, Err(f)),
        None => {
            if s.halted {
                (s, Ok(true))
            } else {
                let (s1, r1) = sp_fetch_u8(s);
                match r1 {
                    Err(f) => (MachineState { fault: Some(f), ..s1 }, Err(f)),
                    Ok(op) => {
                        let (s2, r2) = sp_execute(s1, op);
                        match r2 {
                            Err(f) => (MachineState { fault: Some(f), ..s2 }, Err(f)),
                            Ok(u) => (s2, Ok(s2.halted)),
                        }
                    },
                }
            }
        },
    }
}

/// Pushing three values and popping three times yields them in reverse
/// order, with no fault, and returns `SP` and the frame counter to their
/// pre-push values.
pub proof fn lemma_push_pop_round_trip(s: MachineState, v1: u16, v2: u16, v3: u16)
    requires
        s.wf(),
        4 <= s.regs[SP as int],
        s.regs[SP as int] + 1 < s.mem.len(),
    ensures
        ({
            let (s1, r1) = sp_push(s, v1);
            let (s2, r2) = sp_push(s1, v2);
            let (s3, r3) = sp_push(s2, v3);
            let (s4, p1) = sp_pop(s3);
            let (s5, p2) = sp_pop(s4);
            let (s6, p3) = sp_pop(s5);
            &&& r1 == Ok::<(), Fault>(())
            &&& r2 == Ok::<(), Fault>(())
            &&& r3 == Ok::<(), Fault>(())
            &&& p1 == Ok::<u16, Fault>(v3)
            &&& p2 == Ok::<u16, Fault>(v2)
            &&& p3 == Ok::<u16, Fault>(v1)
            &&& s6.regs[SP as int] == s.regs[SP as int]
            &&& s6.frame == s.frame
            &&& s6.halted == s.halted
        }),
{
    let sp = s.regs[SP as int] as int;
    let m1 = store_word(s.mem, sp, v1);
    let m2 = store_word(m1, sp - 2, v2);
    let m3 = store_word(m2, sp - 4, v3);
    crate::byte_ops::lemma_combine_split(v1);
    crate::byte_ops::lemma_combine_split(v2);
    crate::byte_ops::lemma_combine_split(v3);
    crate::memory::lemma_store_word_frame(m1, sp - 2, v2, sp);
    crate::memory::lemma_store_word_frame(m2, sp - 4, v3, sp);
    crate::memory::lemma_store_word_frame(m2, sp - 4, v3, sp - 2);
}

/// `ADD_REG_REG` adds modulo 65536: dispatched on a state whose operand
/// word names two value registers `ra` and `rb`, it leaves `ACC` holding
/// their sum wrapped modulo 65536, advances `IP` past the operand word, and
/// touches nothing else.
pub proof fn lemma_add_wraps(s: MachineState, ra: u8, rb: u8)
    requires
        s.wf(),
        (s.regs[IP as int] as int) + 1 < s.mem.len(),
        s.mem[s.regs[IP as int] as int] == ra,
        s.mem[s.regs[IP as int] as int + 1] == rb,
        IP < ra < REG_COUNT,
        IP < rb < REG_COUNT,
    ensures
        ({
            let (s2, r) = sp_execute(s, ADD_REG_REG);
            &&& r == Ok::<(), Fault>(())
            &&& s2.regs[ACC as int] == (s.regs[ra as int] + s.regs[rb as int]) % 0x10000
            &&& s2.regs[IP as int] == s.regs[IP as int] + 2
            &&& s2.mem == s.mem
            &&& s2.frame == s.frame
            &&& s2.halted == s.halted
        }),
{
    let ip = s.regs[IP as int];
    assert(word_at(s.mem, ip as int) == crate::byte_ops::word_of(ra, rb));
    crate::byte_ops::lemma_split_combine(ra, rb);
    let va = s.regs[ra as int];
    let vb = s.regs[rb as int];
    assert(wadd(va, vb) == (va + vb) % 0x10000);
}

/// `JMP_NOT_EQ` with literal `lit` and target address `target`: `IP` is set
/// to the target iff the literal differs from `ACC`; otherwise `IP` simply
/// continues past the instruction's four operand bytes.
pub proof fn lemma_jmp_not_eq(s: MachineState, lit: u16, target: u16)
    requires
        s.wf(),
        (s.regs[IP as int] as int) + 3 < s.mem.len(),
        word_at(s.mem, s.regs[IP as int] as int) == lit,
        word_at(s.mem, s.regs[IP as int] as int + 2) == target,
    ensures
        ({
            let (s2, r) = sp_execute(s, JMP_NOT_EQ);
            &&& r == Ok::<(), Fault>(())
            &&& (lit != s.regs[ACC as int] ==> s2.regs[IP as int] == target)
            &&& (lit == s.regs[ACC as int] ==> s2.regs[IP as int] == s.regs[IP as int] + 4)
            &&& s2.mem == s.mem
            &&& s2.frame == s.frame
            &&& s2.halted == s.halted
        }),
{
}

/// A machine that stopped on a fault never moves again: every further step
/// reports the same fault and leaves the state unchanged.
pub proof fn lemma_fault_is_terminal(s: MachineState, f: Fault)
    requires
        s.fault == Some(f),
    ensures
        sp_step(s) == (s, Err::<bool, Fault>(f)),
{
}

/// A halted machine stays halted: stepping reports the halt and leaves the
/// state unchanged.
pub proof fn lemma_halted_is_terminal(s: MachineState)
    requires
        s.fault is None,
        s.halted,
    ensures
        sp_step(s) == (s, Ok::<bool, Fault>(true)),
{
}

} // verus!
