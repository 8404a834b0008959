use vm16::constants::{
    ACC, ADD_REG_REG, HALT, IP, JMP_NOT_EQ, MOV_LIT_REG, MOV_MEM_REG, MOV_REG_MEM, POP,
    PSH_LIT, R1, R2, R3, SP,
};
use vm16::cpu::Cpu;
use vm16::fault::Fault;
use vm16::memory::{Memory, Registers};

#[test]
fn register_write_read_roundtrip() {
    let mut regs = Registers::new(12);
    for id in 0..12u8 {
        let value = 0x0101u16.wrapping_mul(id as u16 + 1);
        regs.write(id, value).unwrap();
        assert_eq!(value, regs.read(id).unwrap());
    }
}

#[test]
fn register_invalid_id_faults() {
    let mut regs = Registers::new(12);
    assert_eq!(Err(Fault::AddressOutOfRange), regs.read(12));
    assert_eq!(Err(Fault::AddressOutOfRange), regs.write(12, 1));
    assert_eq!(Err(Fault::AddressOutOfRange), regs.read(0xFF));
}

#[test]
fn memory_word_big_endian() {
    let mut m = Memory::new(4);
    m.write_u16(1, 0xABCD).unwrap();
    assert_eq!(0xABCD, m.read_u16(1).unwrap());
    assert_eq!(0xAB, m.read_u8(1).unwrap());
    assert_eq!(0xCD, m.read_u8(2).unwrap());
}

#[test]
fn memory_access_at_length_faults() {
    let mut m = Memory::new(4);
    assert_eq!(Err(Fault::AddressOutOfRange), m.read_u8(4));
    assert_eq!(Err(Fault::AddressOutOfRange), m.write_u8(4, 1));
    assert_eq!(Err(Fault::AddressOutOfRange), m.read_u16(3));
    assert_eq!(Err(Fault::AddressOutOfRange), m.write_u16(3, 1));
    // nothing was written
    assert_eq!(0, m.read_u8(3).unwrap());
}

#[test]
fn write_bytes_out_of_range_faults() {
    let mut m = Memory::new(4);
    assert_eq!(Err(Fault::AddressOutOfRange), m.write_bytes(3, vec![1, 2]));
    assert_eq!(0, m.read_u8(3).unwrap());
    m.write_bytes(2, vec![7, 8]).unwrap();
    assert_eq!(7, m.read_u8(2).unwrap());
    assert_eq!(8, m.read_u8(3).unwrap());
}

#[test]
fn add_wraps_modulo_65536() {
    let program = vec![
        MOV_LIT_REG, 0xFF, 0xFF, R1, // mov 0xFFFF, r1
        MOV_LIT_REG, 0x00, 0x02, R2, // mov 0x0002, r2
        ADD_REG_REG,   R1,   R2,     // add r1, r2
    ];

    let mut memory = Memory::new(0xFF);
    memory.write_bytes(0, program).unwrap();
    let mut cpu = Cpu::new(memory);

    cpu.step().unwrap();
    cpu.step().unwrap();
    cpu.step().unwrap();
    assert_eq!(0x0001, cpu.registers.read(ACC).unwrap());
}

#[test]
fn jump_taken_when_literal_differs() {
    let program = vec![
        JMP_NOT_EQ, 0x00, 0x07, 0x12, 0x34, // jne 0x0007, #0x1234
    ];
    let mut memory = Memory::new(0xFFFF);
    memory.write_bytes(0, program).unwrap();
    let mut cpu = Cpu::new(memory);
    // ACC is 0x0000, the literal is 0x0007: the jump is taken.
    cpu.step().unwrap();
    assert_eq!(0x1234, cpu.registers.read(IP).unwrap());
}

#[test]
fn jump_skipped_when_literal_matches() {
    let program = vec![
        JMP_NOT_EQ, 0x00, 0x00, 0x12, 0x34, // jne 0x0000, #0x1234
    ];
    let mut memory = Memory::new(0xFFFF);
    memory.write_bytes(0, program).unwrap();
    let mut cpu = Cpu::new(memory);
    // ACC is 0x0000 and so is the literal: fall through past the operands.
    cpu.step().unwrap();
    assert_eq!(0x0005, cpu.registers.read(IP).unwrap());
}

#[test]
fn push_pop_restores_stack_pointer() {
    let program = vec![
        PSH_LIT, 0xAA, 0x01, // psh 0xAA01
        PSH_LIT, 0xBB, 0x02, // psh 0xBB02
        PSH_LIT, 0xCC, 0x03, // psh 0xCC03
        POP, R1,
        POP, R2,
        POP, R3,
    ];
    let mut memory = Memory::new(0x0100);
    memory.write_bytes(0, program).unwrap();
    let mut cpu = Cpu::new(memory);
    let sp_before = cpu.registers.read(SP).unwrap();

    for _ in 0..6 {
        cpu.step().unwrap();
    }
    // popped in reverse order of the pushes
    assert_eq!(0xCC03, cpu.registers.read(R1).unwrap());
    assert_eq!(0xBB02, cpu.registers.read(R2).unwrap());
    assert_eq!(0xAA01, cpu.registers.read(R3).unwrap());
    assert_eq!(sp_before, cpu.registers.read(SP).unwrap());
}

#[test]
fn unknown_opcode_faults_and_latches() {
    // opcode 0x00 has no table entry
    let memory = Memory::new(0x10);
    let mut cpu = Cpu::new(memory);
    assert_eq!(Err(Fault::UnknownOpcode), cpu.step());
    let ip_after = cpu.registers.read(IP).unwrap();
    // the fault is terminal: stepping keeps reporting it and moves nothing
    assert_eq!(Err(Fault::UnknownOpcode), cpu.step());
    assert_eq!(Err(Fault::UnknownOpcode), cpu.step());
    assert_eq!(ip_after, cpu.registers.read(IP).unwrap());
}

#[test]
fn out_of_range_fetch_faults_and_latches() {
    // MOV_LIT_REG needs a word operand, but memory ends after the opcode
    let mut memory = Memory::new(2);
    memory.write_bytes(0, vec![MOV_LIT_REG, 0x00]).unwrap();
    let mut cpu = Cpu::new(memory);
    assert_eq!(Err(Fault::AddressOutOfRange), cpu.step());
    assert_eq!(Err(Fault::AddressOutOfRange), cpu.step());
}

#[test]
fn invalid_register_operand_faults() {
    let program = vec![
        MOV_LIT_REG, 0x12, 0x34, 0x0C, // mov 0x1234 to register id 12: no such slot
    ];
    let mut memory = Memory::new(0x10);
    memory.write_bytes(0, program).unwrap();
    let mut cpu = Cpu::new(memory);
    assert_eq!(Err(Fault::AddressOutOfRange), cpu.step());
}

#[test]
fn halt_is_terminal() {
    let mut memory = Memory::new(0x10);
    memory.write_bytes(0, vec![HALT]).unwrap();
    let mut cpu = Cpu::new(memory);
    assert_eq!(Ok(true), cpu.step());
    assert_eq!(Ok(true), cpu.step());
    assert_eq!(0x0001, cpu.registers.read(IP).unwrap());
}

#[test]
fn increment_loop_runs_to_halt() {
    // increments the cell at 0x0100 and loops back while it differs from 5
    let program = vec![
        MOV_MEM_REG, 0x01, 0x00, R1,  //   mov #0x0100, r1
        MOV_LIT_REG, 0x00, 0x01, R2,                   //   mov 0x0001, r2
        ADD_REG_REG, R1, R2,                           //   add r1, r2
        MOV_REG_MEM, ACC, 0x01, 0x00, //   mov acc, #0x0100
        JMP_NOT_EQ, 0x00, 0x05, 0x00, 0x00,            //   jne 0x0005, #0x0000
        HALT,
    ];
    let mut memory = Memory::new(0xFFFF);
    memory.write_bytes(0, program).unwrap();
    let mut cpu = Cpu::new(memory);

    let mut halted = false;
    while !halted {
        halted = cpu.step().unwrap();
    }
    assert!(halted);
    assert_eq!(0x0005, cpu.memory.read_u16(0x0100).unwrap());
}
