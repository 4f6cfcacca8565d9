#![allow(non_snake_case)]

use intel8080::cpu::CPU;
use intel8080::opcode;
use intel8080::register::Register;

#[test]
fn test_NOP() {
    let data = vec![opcode::NOP];
    let mut cpu = CPU::new(data);
    cpu.run_once();

    assert_eq!(cpu.pc(), 1);
}

#[test]
fn test_LXI() {
    let data = vec![opcode::LXI_H, 1, 3];
    let mut cpu = CPU::new(data);
    cpu.run_once();

    assert_eq!(cpu.pc(), 3);
    // the operand word is little-endian: L takes the first byte, H the second
    assert_eq!(cpu.registers[Register::H as usize], 3);
    assert_eq!(cpu.registers[Register::L as usize], 1);
}

#[test]
fn test_STAX() {
    let data = vec![opcode::STAX_B, opcode::STAX_D, 0, 0];

    let mut cpu = CPU::new(data);
    cpu.registers[Register::B as usize] = 0;
    cpu.registers[Register::C as usize] = 2;
    cpu.acc = 1;
    cpu.run_once();

    assert_eq!(cpu.pc(), 1);
    assert_eq!(cpu.data()[2], 1);

    cpu.registers[Register::D as usize] = 0;
    cpu.registers[Register::E as usize] = 3;
    cpu.acc = 255;
    cpu.run_once();

    assert_eq!(cpu.pc(), 2);
    assert_eq!(cpu.data()[3], 255);
}

#[test]
fn test_STA() {
    let data = vec![opcode::STA, 3, 0, 0];
    let mut cpu = CPU::new(data);

    cpu.acc = 255;
    cpu.run_once();

    assert_eq!(cpu.pc(), 3);
    assert_eq!(cpu.data()[3], 255);
}

#[test]
fn test_LDAX() {
    let data = vec![opcode::LDAX_B, opcode::LDAX_D, 1, 255];

    let mut cpu = CPU::new(data);
    cpu.registers[Register::B as usize] = 0;
    cpu.registers[Register::C as usize] = 2;
    cpu.acc = 0;
    cpu.run_once();

    assert_eq!(cpu.pc(), 1);
    assert_eq!(cpu.acc, 1);

    cpu.registers[Register::D as usize] = 0;
    cpu.registers[Register::E as usize] = 3;
    cpu.acc = 0;
    cpu.run_once();

    assert_eq!(cpu.pc(), 2);
    assert_eq!(cpu.acc, 255);
}

#[test]
fn test_LDA() {
    let data = vec![opcode::LDA, 3, 0, 255];

    let mut cpu = CPU::new(data);
    cpu.run_once();

    assert_eq!(cpu.pc(), 3);
    assert_eq!(cpu.acc, 255);
}

#[test]
fn test_INX() {
    let data = vec![opcode::INX_D, opcode::INX_SP];
    let mut cpu = CPU::new(data);

    cpu.registers[Register::D as usize] = 0x38;
    cpu.registers[Register::E as usize] = 0xff;
    cpu.run_once();
    assert_eq!(cpu.pc(), 1);
    assert_eq!(cpu.registers[Register::D as usize], 0x39);
    assert_eq!(cpu.registers[Register::E as usize], 0x00);

    let sp = cpu.sp();
    cpu.run_once();
    assert_eq!(cpu.pc(), 2);
    assert_eq!(sp + 1, cpu.sp());
}

#[test]
fn test_DCX() {
    let data = vec![opcode::DCX_H, opcode::DCX_SP];
    let mut cpu = CPU::new(data);

    cpu.registers[Register::H as usize] = 0x98;
    cpu.registers[Register::L as usize] = 0x00;
    cpu.run_once();
    assert_eq!(cpu.pc(), 1);
    assert_eq!(cpu.registers[Register::H as usize], 0x97);
    assert_eq!(cpu.registers[Register::L as usize], 0xff);

    let sp = cpu.sp();
    cpu.run_once();
    assert_eq!(cpu.pc(), 2);
    assert_eq!(sp - 1, cpu.sp());
}

#[test]
fn test_INR() {
    let data = vec![opcode::INR_C];
    let mut cpu = CPU::new(data);
    cpu.registers[Register::C as usize] = 0x99;
    cpu.run_once();

    assert_eq!(cpu.pc(), 1);
    assert_eq!(cpu.registers[Register::C as usize], 0x9A);
    assert_eq!(cpu.flag.zero_flag(), false);
    assert_eq!(cpu.flag.carry_flag(), false);
    assert_eq!(cpu.flag.auxiliary_flag(), false);
    assert_eq!(cpu.flag.sign_flag(), true);
}

#[test]
fn test_DCR() {
    let data = vec![opcode::DCR_M, 0x40];
    let mut cpu = CPU::new(data);
    cpu.set_memory_address(1);
    cpu.run_once();

    assert_eq!(cpu.pc(), 1);
    assert_eq!(cpu.data()[1], 0x3f);
    assert_eq!(cpu.flag.zero_flag(), false);
    assert_eq!(cpu.flag.carry_flag(), false);
    assert_eq!(cpu.flag.auxiliary_flag(), false);
    assert_eq!(cpu.flag.sign_flag(), false);
}

#[test]
fn test_MVI() {
    let data = vec![opcode::MVI_A, 1, opcode::MVI_M, 255];
    let mut cpu = CPU::new(data);

    cpu.acc = 0;
    cpu.run_once();
    assert_eq!(cpu.pc(), 2);
    assert_eq!(cpu.acc, 1);

    cpu.set_memory_address(1);
    cpu.run_once();
    assert_eq!(cpu.pc(), 4);
    assert_eq!(cpu.data()[1], 255);
}

#[test]
fn test_RLC() {
    let data = vec![opcode::RLC];
    let mut cpu = CPU::new(data);

    cpu.acc = 0xf2;
    cpu.run_once();
    assert_eq!(cpu.pc(), 1);
    assert_eq!(cpu.acc, 0xe5);
    assert_eq!(cpu.flag.carry_flag(), true);
}

#[test]
fn test_RRC() {
    let data = vec![opcode::RRC];
    let mut cpu = CPU::new(data);

    cpu.acc = 0xf2;
    cpu.run_once();
    assert_eq!(cpu.pc(), 1);
    assert_eq!(cpu.acc, 0x79);
    assert_eq!(cpu.flag.carry_flag(), false);
}

#[test]
fn test_RAL() {
    let data = vec![opcode::RAL];
    let mut cpu = CPU::new(data);

    cpu.acc = 0xb5;
    cpu.run_once();
    assert_eq!(cpu.pc(), 1);
    assert_eq!(cpu.acc, 0x6a);
    assert_eq!(cpu.flag.carry_flag(), true);
}

#[test]
fn test_RAR() {
    let data = vec![opcode::RAR];
    let mut cpu = CPU::new(data);

    cpu.acc = 0x6a;
    cpu.flag.set_carry_flag(true);
    cpu.run_once();
    assert_eq!(cpu.pc(), 1);
    assert_eq!(cpu.acc, 0xb5);
    assert_eq!(cpu.flag.carry_flag(), false);
}

#[test]
fn test_SHLD() {
    let data = vec![opcode::SHLD, 3, 0, 0, 0];
    let mut cpu = CPU::new(data);
    cpu.registers[Register::L as usize] = 1;
    cpu.registers[Register::H as usize] = 2;

    cpu.run_once();
    assert_eq!(cpu.pc(), 3);
    assert_eq!(cpu.data()[3], 1);
    assert_eq!(cpu.data()[4], 2);
}

#[test]
fn test_LHLD() {
    let data = vec![opcode::LHLD, 3, 0, 1, 2];
    let mut cpu = CPU::new(data);

    cpu.run_once();
    assert_eq!(cpu.pc(), 3);
    assert_eq!(cpu.registers[Register::L as usize], 1);
    assert_eq!(cpu.registers[Register::H as usize], 2);
}

#[test]
fn test_DAA() {
    let data = vec![opcode::DAA];
    let mut cpu = CPU::new(data);

    cpu.acc = 0x9b;
    cpu.run_once();

    assert_eq!(cpu.pc(), 1);
    assert_eq!(cpu.acc, 1);
    assert_eq!(cpu.flag.carry_flag(), true);
    assert_eq!(cpu.flag.auxiliary_flag(), true);
}

#[test]
fn test_DAD() {
    // sp == 5
    let data = vec![opcode::DAD_B, opcode::DAD_SP, 0, 0, 0];
    let mut cpu = CPU::new(data);

    cpu.registers[Register::B as usize] = 0x33;
    cpu.registers[Register::C as usize] = 0x9f;
    cpu.registers[Register::H as usize] = 0xa1;
    cpu.registers[Register::L as usize] = 0x7b;
    cpu.run_once();
    assert_eq!(cpu.pc(), 1);
    assert_eq!(cpu.flag.carry_flag(), false);
    assert_eq!(cpu.registers[Register::H as usize], 0xd5);
    assert_eq!(cpu.registers[Register::L as usize], 0x1a);

    cpu.run_once();
    assert_eq!(cpu.pc(), 2);
    assert_eq!(cpu.flag.carry_flag(), false);
    assert_eq!(cpu.registers[Register::H as usize], 0xd5);
    assert_eq!(cpu.registers[Register::L as usize], 0x1f);
}

#[test]
fn test_STC() {
    let data = vec![opcode::STC];
    let mut cpu = CPU::new(data);

    assert_eq!(cpu.flag.carry_flag(), false);
    cpu.run_once();
    assert_eq!(cpu.pc(), 1);
    assert_eq!(cpu.flag.carry_flag(), true);
}

#[test]
fn test_CMA() {
    let data = vec![opcode::CMA];
    let mut cpu = CPU::new(data);

    cpu.acc = 0x51;
    cpu.run_once();
    assert_eq!(cpu.pc(), 1);
    assert_eq!(cpu.acc, 0xae);
}

#[test]
fn test_CMC() {
    let data = vec![opcode::CMC, opcode::CMC];
    let mut cpu = CPU::new(data);

    cpu.run_once();
    assert_eq!(cpu.pc(), 1);
    assert_eq!(cpu.flag.carry_flag(), true);

    cpu.run_once();
    assert_eq!(cpu.pc(), 2);
    assert_eq!(cpu.flag.carry_flag(), false);
}

#[test]
fn test_MOV() {
    let data = vec![
        opcode::MOV_AE,
        opcode::MOV_DD,
        opcode::MOV_MA,
        0,
    ];
    let mut cpu = CPU::new(data);

    cpu.registers[Register::E as usize] = 1;
    cpu.registers[Register::D as usize] = 2;
    cpu.set_memory_address(3);

    cpu.run_once();
    assert_eq!(cpu.pc(), 1);
    assert_eq!(cpu.acc, 1);

    cpu.run_once();
    assert_eq!(cpu.pc(), 2);
    assert_eq!(cpu.registers[Register::D as usize], 2);

    cpu.acc = 3;
    cpu.run_once();
    assert_eq!(cpu.pc(), 3);
    assert_eq!(cpu.data()[3], 3);
}

#[test]
fn test_HLT() {
    let data = vec![opcode::HLT];
    let mut cpu = CPU::new(data);

    assert_eq!(cpu.is_halted(), false);
    cpu.run_once();
    assert_eq!(cpu.pc(), 1);
    assert_eq!(cpu.is_halted(), true);
}

#[test]
fn test_ADD() {
    let data = vec![opcode::ADD_D, opcode::ADD_M, 2];
    let mut cpu = CPU::new(data);

    cpu.registers[Register::D as usize] = 0x2e;
    cpu.acc = 0x6c;
    cpu.run_once();
    assert_eq!(cpu.pc(), 1);
    assert_eq!(cpu.flag.zero_flag(), false);
    assert_eq!(cpu.flag.carry_flag(), false);
    assert_eq!(cpu.flag.parity_flag(), true);
    assert_eq!(cpu.flag.sign_flag(), true);
    assert_eq!(cpu.acc, 0x9a);

    cpu.set_memory_address(2);
    cpu.run_once();
    assert_eq!(cpu.pc(), 2);
    assert_eq!(cpu.flag.zero_flag(), false);
    assert_eq!(cpu.flag.carry_flag(), false);
    assert_eq!(cpu.flag.parity_flag(), true);
    assert_eq!(cpu.flag.sign_flag(), true);
    assert_eq!(cpu.acc, 0x9c);
}

#[test]
fn test_ADC() {
    let data = vec![opcode::ADC_C, opcode::ADC_C];
    let mut cpu = CPU::new(data);

    cpu.registers[Register::C as usize] = 0x3d;
    cpu.acc = 0x42;
    cpu.run_once();
    assert_eq!(cpu.pc(), 1);
    assert_eq!(cpu.flag.zero_flag(), false);
    assert_eq!(cpu.flag.carry_flag(), false);
    assert_eq!(cpu.flag.parity_flag(), false);
    assert_eq!(cpu.flag.sign_flag(), false);
    assert_eq!(cpu.flag.auxiliary_flag(), false);
    assert_eq!(cpu.acc, 0x7f);

    cpu.registers[Register::C as usize] = 0x3d;
    cpu.acc = 0x42;
    cpu.flag.set_carry_flag(true);
    cpu.run_once();
    assert_eq!(cpu.pc(), 2);
    assert_eq!(cpu.flag.zero_flag(), false);
    assert_eq!(cpu.flag.carry_flag(), false);
    assert_eq!(cpu.flag.parity_flag(), false);
    assert_eq!(cpu.flag.sign_flag(), true);
    assert_eq!(cpu.flag.auxiliary_flag(), true);
    assert_eq!(cpu.acc, 0x80);
}

#[test]
fn test_SUB() {
    let data = vec![opcode::SUB_B];
    let mut cpu = CPU::new(data);

    cpu.acc = 0x3e;
    cpu.registers[Register::B as usize] = 0x3e;
    cpu.run_once();
    assert_eq!(cpu.pc(), 1);
    assert_eq!(cpu.acc, 0);
    assert_eq!(cpu.flag.zero_flag(), true);
    assert_eq!(cpu.flag.carry_flag(), false);
    assert_eq!(cpu.flag.auxiliary_flag(), true);
    assert_eq!(cpu.flag.parity_flag(), true);
    assert_eq!(cpu.flag.sign_flag(), false);
}

#[test]
fn test_SBB() {
    let data = vec![opcode::SBB_L];
    let mut cpu = CPU::new(data);

    cpu.registers[Register::L as usize] = 2;
    cpu.acc = 4;
    cpu.flag.set_carry_flag(true);

    cpu.run_once();
    assert_eq!(cpu.pc(), 1);
    assert_eq!(cpu.flag.zero_flag(), false);
    assert_eq!(cpu.flag.carry_flag(), false);
    assert_eq!(cpu.flag.parity_flag(), false);
    assert_eq!(cpu.flag.sign_flag(), false);
    assert_eq!(cpu.flag.auxiliary_flag(), true);
    assert_eq!(cpu.acc, 1);
}

#[test]
fn test_ANA() {
    let data = vec![opcode::ANA_C];
    let mut cpu = CPU::new(data);

    cpu.registers[Register::C as usize] = 0x0f;
    cpu.acc = 0xfc;

    cpu.run_once();
    assert_eq!(cpu.pc(), 1);
    assert_eq!(cpu.flag.zero_flag(), false);
    assert_eq!(cpu.flag.carry_flag(), false);
    assert_eq!(cpu.flag.parity_flag(), true);
    assert_eq!(cpu.flag.sign_flag(), false);
    assert_eq!(cpu.acc, 0x0c);
}

#[test]
fn test_XRA() {
    let data = vec![opcode::XRA_B];
    let mut cpu = CPU::new(data);

    cpu.registers[Register::B as usize] = 0b0101_1100;
    cpu.acc = 0b0111_1000;

    cpu.run_once();
    assert_eq!(cpu.pc(), 1);
    assert_eq!(cpu.flag.zero_flag(), false);
    assert_eq!(cpu.flag.carry_flag(), false);
    assert_eq!(cpu.flag.parity_flag(), true);
    assert_eq!(cpu.flag.sign_flag(), false);
    //        assert_eq!(cpu.flag.auxiliary_flag(), false);
    assert_eq!(cpu.acc, 0b0010_0100);
}

#[test]
fn test_ORA() {
    let data = vec![opcode::ORA_C];
    let mut cpu = CPU::new(data);

    cpu.registers[Register::C as usize] = 0x0f;
    cpu.acc = 0x33;

    cpu.run_once();
    assert_eq!(cpu.pc(), 1);
    assert_eq!(cpu.flag.zero_flag(), false);
    assert_eq!(cpu.flag.carry_flag(), false);
    assert_eq!(cpu.flag.parity_flag(), true);
    assert_eq!(cpu.flag.sign_flag(), false);
    //        assert_eq!(cpu.flag.auxiliary_flag(), false);
    assert_eq!(cpu.acc, 0x3f);
}

#[test]
fn test_CMP() {
    let data = vec![opcode::CMP_E];
    let mut cpu = CPU::new(data);

    cpu.registers[Register::E as usize] = 0x5;
    cpu.acc = 0xa;

    cpu.run_once();
    assert_eq!(cpu.pc(), 1);
    assert_eq!(cpu.flag.zero_flag(), false);
    assert_eq!(cpu.flag.carry_flag(), false);
    assert_eq!(cpu.flag.parity_flag(), true);
    assert_eq!(cpu.flag.sign_flag(), false);
    assert_eq!(cpu.flag.auxiliary_flag(), true);
    assert_eq!(cpu.acc, 0xa);
}

#[test]
fn test_RET() {
    let data = vec![opcode::RET, 0, 0, opcode::NOP, 0, 0];
    let mut cpu = CPU::new(data);

    // return to nop
    cpu.stack_push(3);
    assert_eq!(cpu.data()[cpu.data().len() - 2], 3);
    cpu.run_once();
    assert_eq!(cpu.pc(), 3);
}

#[test]
fn test_CALL() {
    let data = vec![
        opcode::CALL,
        4,
        0,
        opcode::NOP,
        opcode::NOP,
        opcode::RET,
        0,
        0,
        0,
        0,
    ];
    let mut cpu = CPU::new(data);

    cpu.run_once();
    assert_eq!(cpu.pc(), 4);

    cpu.run_once();
    assert_eq!(cpu.pc(), 5);

    cpu.run_once();
    assert_eq!(cpu.pc(), 3);

    cpu.run_once();
    assert_eq!(cpu.pc(), 4);
}

#[test]
fn test_PUSH() {
    let data = vec![
        opcode::PUSH_D,
        opcode::PUSH_PSW,
        0,
        0,
        0,
        0,
        0,
        0,
    ];
    let mut cpu = CPU::new(data);

    cpu.registers[Register::D as usize] = 0x8f;
    cpu.registers[Register::E as usize] = 0x9d;
    cpu.run_once();

    assert_eq!(cpu.pc(), 1);
    assert_eq!(cpu.data()[cpu.data().len() - 1], 0x8f);
    assert_eq!(cpu.data()[cpu.data().len() - 2], 0x9d);

    cpu.acc = 0x1f;
    cpu.flag.set_carry_flag(true);
    cpu.flag.set_zero_flag(true);
    cpu.flag.set_parity_flag(true);
    cpu.flag.set_sign_flag(false);
    cpu.flag.set_auxiliary_carry_flag(false);
    cpu.run_once();

    assert_eq!(cpu.pc(), 2);
    assert_eq!(cpu.data()[cpu.data().len() - 3], 0x1f);
    assert_eq!(cpu.data()[cpu.data().len() - 4], 0x47);
}

#[test]
fn test_POP() {
    let data = vec![
        opcode::POP_H,
        opcode::PUSH_PSW,
        0,
        0,
        0,
        0,
        0,
        0,
    ];
    let mut cpu = CPU::new(data);

    cpu.stack_push(0x933d);
    cpu.run_once();

    assert_eq!(cpu.pc(), 1);
    assert_eq!(cpu.registers[Register::H as usize], 0x93);
    assert_eq!(cpu.registers[Register::L as usize], 0x3d);
}

#[test]
fn test_JMP() {
    // loop
    let data = vec![opcode::JMP, 3, 0, opcode::JMP, 0, 0];
    let mut cpu = CPU::new(data);

    cpu.run_once();
    assert_eq!(cpu.pc(), 3);

    cpu.run_once();
    assert_eq!(cpu.pc(), 0);

    cpu.run_once();
    assert_eq!(cpu.pc(), 3);
}

#[test]
fn test_ADI() {
    let data = vec![opcode::ADI, 0x42];
    let mut cpu = CPU::new(data);

    cpu.acc = 0x14;
    cpu.run_once();
    assert_eq!(cpu.pc(), 2);
    assert_eq!(cpu.acc, 0x56);
    assert_eq!(cpu.flag.parity_flag(), true);
    assert_eq!(cpu.flag.zero_flag(), false);
    assert_eq!(cpu.flag.carry_flag(), false);
    assert_eq!(cpu.flag.auxiliary_flag(), false);
    assert_eq!(cpu.flag.sign_flag(), false);
}

#[test]
fn test_SUI() {
    let data = vec![opcode::SUI, 1];
    let mut cpu = CPU::new(data);

    cpu.acc = 0;
    cpu.run_once();
    assert_eq!(cpu.pc(), 2);
    assert_eq!(cpu.acc, 0xFF);
    assert_eq!(cpu.flag.parity_flag(), true);
    assert_eq!(cpu.flag.sign_flag(), true);
    assert_eq!(cpu.flag.carry_flag(), true);
    assert_eq!(cpu.flag.zero_flag(), false);
    assert_eq!(cpu.flag.auxiliary_flag(), false);
}

#[test]
fn test_ANI() {
    let data = vec![opcode::ANI, 0x0f];
    let mut cpu = CPU::new(data);

    cpu.acc = 0x3a;
    cpu.run_once();
    assert_eq!(cpu.pc(), 2);
    assert_eq!(cpu.acc, 0x0a);
    assert_eq!(cpu.flag.parity_flag(), true);
    assert_eq!(cpu.flag.sign_flag(), false);
    assert_eq!(cpu.flag.carry_flag(), false);
    assert_eq!(cpu.flag.zero_flag(), false);
}

#[test]
fn test_ORI() {
    let data = vec![opcode::ORI, 0x0f];
    let mut cpu = CPU::new(data);

    cpu.acc = 0xb5;
    cpu.run_once();
    assert_eq!(cpu.pc(), 2);
    assert_eq!(cpu.acc, 0xbf);
    assert_eq!(cpu.flag.parity_flag(), false);
    assert_eq!(cpu.flag.sign_flag(), true);
    assert_eq!(cpu.flag.carry_flag(), false);
    assert_eq!(cpu.flag.zero_flag(), false);
}

#[test]
fn test_ACI() {
    let data = vec![opcode::ACI, 0x42];
    let mut cpu = CPU::new(data);

    cpu.flag.set_carry_flag(true);
    cpu.acc = 0x14;
    cpu.run_once();
    assert_eq!(cpu.pc(), 2);
    assert_eq!(cpu.acc, 0x57);
    assert_eq!(cpu.flag.parity_flag(), false);
    assert_eq!(cpu.flag.sign_flag(), false);
    assert_eq!(cpu.flag.carry_flag(), false);
    assert_eq!(cpu.flag.zero_flag(), false);
    assert_eq!(cpu.flag.auxiliary_flag(), false);
}

#[test]
fn test_SBI() {
    let data = vec![opcode::SBI, 0x1];
    let mut cpu = CPU::new(data);

    cpu.flag.set_carry_flag(true);
    cpu.acc = 0;
    cpu.run_once();
    assert_eq!(cpu.pc(), 2);
    assert_eq!(cpu.acc, 0xFE);
    assert_eq!(cpu.flag.parity_flag(), false);
    assert_eq!(cpu.flag.sign_flag(), true);
    assert_eq!(cpu.flag.carry_flag(), true);
    assert_eq!(cpu.flag.zero_flag(), false);
    // the low nibble 0x0 borrows from 0x1 plus the carry, so AC is clear
    assert_eq!(cpu.flag.auxiliary_flag(), false);
}

#[test]
fn test_XRI() {
    let data = vec![opcode::XRI, 0x81];
    let mut cpu = CPU::new(data);

    cpu.acc = 0x3b;
    cpu.run_once();
    assert_eq!(cpu.pc(), 2);
    assert_eq!(cpu.acc, 0xBA);
    assert_eq!(cpu.flag.parity_flag(), false);
    assert_eq!(cpu.flag.sign_flag(), true);
    assert_eq!(cpu.flag.carry_flag(), false);
    assert_eq!(cpu.flag.zero_flag(), false);
}

#[test]
fn test_CPI() {
    let data = vec![opcode::CPI, 0x40];
    let mut cpu = CPU::new(data);

    cpu.acc = 0x4a;
    cpu.run_once();
    assert_eq!(cpu.pc(), 2);
    assert_eq!(cpu.acc, 0x4a);
    assert_eq!(cpu.flag.parity_flag(), true);
    assert_eq!(cpu.flag.sign_flag(), false);
    assert_eq!(cpu.flag.carry_flag(), false);
    assert_eq!(cpu.flag.zero_flag(), false);
    // CPI sets AC as CMP does: the low nibble 0xA does not borrow 0x0
    assert_eq!(cpu.flag.auxiliary_flag(), true);
}

#[test]
fn test_SPHL() {
    let data = vec![opcode::SPHL];
    let mut cpu = CPU::new(data);

    cpu.registers[Register::H as usize] = 0x50;
    cpu.registers[Register::L as usize] = 0x6c;
    cpu.run_once();
    assert_eq!(cpu.sp(), 0x506c);
}

#[test]
fn test_XCHG() {
    let data = vec![opcode::XCHG];
    let mut cpu = CPU::new(data);

    cpu.registers[Register::H as usize] = 0x00;
    cpu.registers[Register::L as usize] = 0xFF;
    cpu.registers[Register::D as usize] = 0x33;
    cpu.registers[Register::E as usize] = 0x55;

    cpu.run_once();

    assert_eq!(cpu.registers[Register::H as usize], 0x33);
    assert_eq!(cpu.registers[Register::L as usize], 0x55);
    assert_eq!(cpu.registers[Register::D as usize], 0x00);
    assert_eq!(cpu.registers[Register::E as usize], 0xFF);
}

#[test]
fn test_XTHL() {
    let data = vec![opcode::XTHL, 0, 1, 2, 3];
    let mut cpu = CPU::new(data);
    cpu.stack_push(0x0DF0);

    cpu.registers[Register::H as usize] = 0x0B;
    cpu.registers[Register::L as usize] = 0x3C;
    cpu.run_once();

    assert_eq!(cpu.registers[Register::H as usize], 0x0D);
    assert_eq!(cpu.registers[Register::L as usize], 0xF0);
    assert_eq!(cpu.data()[cpu.data().len() - 1], 0x0B);
    assert_eq!(cpu.data()[cpu.data().len() - 2], 0x3C);
}
