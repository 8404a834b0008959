use vm16::constants::{
    ACC, ADD_REG_REG, CAL_LIT, FP, HALT, IP, JMP_NOT_EQ, MOV_LIT_REG, MOV_MEM_REG, MOV_REG_MEM,
    POP, PSH_LIT, PSH_REG, R1, R2, R3, R4, R8, RET, SP,
};
use vm16::cpu::Cpu;
use vm16::memory::Memory;

#[test]
fn basic_register_rw() {
    let memory = Memory::new(0xFF);
    let mut cpu = Cpu::new(memory);
    cpu.registers.write(R1, 0x1234).unwrap();
    cpu.registers.write(R2, 0xFF01).unwrap();

    assert_eq!(0x1234, cpu.registers.read(R1).unwrap());
    assert_eq!(0xFF01, cpu.registers.read(R2).unwrap());

    cpu.registers.write(R1, 0xF801).unwrap();
    assert_eq!(0xF801, cpu.registers.read(R1).unwrap());
}

#[test]
fn basic_addition() {
    let program = vec![
        MOV_LIT_REG, 0x12, 0x34,   R1,  // mov 0x1234, r1
        MOV_LIT_REG, 0xAB, 0xCD,   R2,  // mov 0xABCD, r2
        ADD_REG_REG,   R1,   R2,        // add r1, r2
    ];

    let mut memory = Memory::new(0xFF);
    memory.write_bytes(0, program).unwrap();
    let mut cpu = Cpu::new(memory);

    cpu.step().unwrap();
    assert_eq!(0x1234, cpu.registers.read(R1).unwrap());
    cpu.step().unwrap();
    assert_eq!(0xABCD, cpu.registers.read(R2).unwrap());
    cpu.step().unwrap();
    assert_eq!(0x1234 + 0xABCD, cpu.registers.read(ACC).unwrap());
}

#[test]
fn basic_memory_rw() {
    let program = vec![
        MOV_LIT_REG, 0x12, 0x34,   R1, // mov 0x1234, r1
        MOV_LIT_REG, 0xAB, 0xCD,   R2, // mov 0xABCD, r2
        ADD_REG_REG,   R1,   R2,       // add r1, r2
        MOV_REG_MEM,  ACC, 0x00, 0x20, // mov acc, #0x0020
        MOV_MEM_REG, 0x00, 0x20,   R3, // mov #0x0020, r3
    ];

    let mut memory = Memory::new(0xFF);
    memory.write_bytes(0, program).unwrap();
    let mut cpu = Cpu::new(memory);

    cpu.step().unwrap();
    cpu.step().unwrap();
    cpu.step().unwrap();
    cpu.step().unwrap();
    assert_eq!(0x1234 + 0xABCD, cpu.memory.read_u16(0x0020).unwrap());
    cpu.step().unwrap();
    assert_eq!(0x1234 + 0xABCD, cpu.registers.read(R3).unwrap());
}

#[test]
fn basic_jump_not_equals() {
    let program = vec![                      // start:
        MOV_MEM_REG, 0x01, 0x00,   R1,       //   mov #0x0100, r1
        MOV_LIT_REG, 0x00, 0x01,   R2,       //   mov  0x0001, r2
        ADD_REG_REG,   R1,   R2,             //   add r1, r2
        MOV_REG_MEM,  ACC, 0x01, 0x00,       //   mov acc, #0x0100
        JMP_NOT_EQ,  0x00, 0x05, 0x00, 0x00, //   jne 0x0005, #0x0000
        HALT,
    ];

    let mut memory = Memory::new(0xFFFF);
    memory.write_bytes(0, program).unwrap();
    let mut cpu = Cpu::new(memory);

    while !cpu.step().unwrap() {}
    assert_eq!(0x0005, cpu.memory.read_u16(0x0100).unwrap());
}

#[test]
fn basic_stack() {
    let program = vec![
        MOV_LIT_REG, 0x51, 0x42, R1, // mov 0x5142, r1
        MOV_LIT_REG, 0x42, 0x51, R2, // mov 0x4251, r2
        PSH_REG, R1,                 // psh r1
        PSH_REG, R2,                 // psh r2
        POP, R1,                     // pop r1
        POP, R2,                     // pop r2
        HALT,
    ];

    let mut memory = Memory::new(0xFFFF);
    memory.write_bytes(0, program).unwrap();
    let mut cpu = Cpu::new(memory);

    while !cpu.step().unwrap() {}
    assert_eq!(0x4251, cpu.registers.read(R1).unwrap());
    assert_eq!(0x5142, cpu.registers.read(R2).unwrap());
}

#[test]
fn basic_call() {
    let program = vec![
        PSH_LIT,     0x33, 0x33,     // psh 0x3333
        PSH_LIT,     0x22, 0x22,     // psh 0x2222
        PSH_LIT,     0x11, 0x11,     // psh 0x1111

        MOV_LIT_REG, 0x12, 0x34, R1, // mov 0x1234, r1
        MOV_LIT_REG, 0xAB, 0xCD, R4, // mov 0xABCD, r4

        PSH_LIT,     0xA2, 0x90,     // psh 0xA290
        PSH_LIT,     0x00, 0x01,     // psh 0x0001
        CAL_LIT,     0x30, 0x00,     // cal my_subroutine:

        PSH_LIT,     0x44, 0x44,     // psh 0x4444
        HALT,
    ];

    let my_subroutine = vec![        // my_subroutine: ;; 0x3000
        PSH_LIT,     0x01, 0x02,     //   psh 0x0102
        PSH_LIT,     0x03, 0x04,     //   psh 0x0304
        PSH_LIT,     0x05, 0x06,     //   psh 0x0506

        MOV_LIT_REG, 0x07, 0x08, R1, // mov 0x0708, r1
        MOV_LIT_REG, 0x09, 0x0A, R8, // mov 0x090A, r8

        RET,                         //   ret
    ];

    let mut memory = Memory::new(0xFFFF);
    memory.write_bytes(0x0000, program).unwrap();
    memory.write_bytes(0x3000, my_subroutine).unwrap();
    let mut cpu = Cpu::new(memory);

    while !cpu.step().unwrap() {}
    assert_eq!(0x001E, cpu.registers.read(IP).unwrap());
    assert_eq!(0x1234, cpu.registers.read(R1).unwrap());
    assert_eq!(0xABCD, cpu.registers.read(R4).unwrap());
    assert_eq!(0x0000, cpu.registers.read(R8).unwrap());
    let sp = cpu.registers.read(SP).unwrap();
    assert_eq!(0x4444, cpu.memory.read_u16(sp + 2).unwrap());
    assert_eq!(0x1111, cpu.memory.read_u16(sp + 4).unwrap());
    assert_eq!(0x2222, cpu.memory.read_u16(sp + 6).unwrap());
    assert_eq!(0x3333, cpu.memory.read_u16(sp + 8).unwrap());
}

#[test]
fn initial_register_state() {
    let memory = Memory::new(0x10);
    let cpu = Cpu::new(memory);
    assert_eq!(0x000E, cpu.registers.read(SP).unwrap());
    assert_eq!(0x000E, cpu.registers.read(FP).unwrap());
    assert_eq!(0x0000, cpu.registers.read(IP).unwrap());
    assert_eq!(0x0000, cpu.registers.read(ACC).unwrap());
    for reg in R1..=R8 {
        assert_eq!(0x0000, cpu.registers.read(reg).unwrap());
    }
}
