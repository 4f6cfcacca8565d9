//! Opcode bytes and the instruction classifier.
//!
//! The classifier names the instruction family of an opcode byte and pulls
//! out its encoded fields: the DDD field (bits 3 to 5), the SSS field
//! (bits 0 to 2) and the register-pair field (bits 4 and 5).

use crate::register::{Register, register_of};
use vstd::prelude::*;

verus! {

/// A register pair as encoded in bits 4 and 5 of an opcode. For PUSH and
/// POP the fourth code names the program status word (A and the flags)
/// rather than the stack pointer.
#[derive(Debug, Clone, Copy, PartialEq, Eq)]
pub enum Pair {
    BC,
    DE,
    HL,
    SP,
}

/// A branch condition as encoded in bits 3 to 5 of a conditional jump,
/// call or return.
#[derive(Debug, Clone, Copy, PartialEq, Eq)]
pub enum Condition {
    NotZero,
    Zero,
    NoCarry,
    Carry,
    ParityOdd,
    ParityEven,
    Plus,
    Minus,
}

/// One of the eight accumulator operations, as encoded in bits 3 to 5.
#[derive(Debug, Clone, Copy, PartialEq, Eq)]
pub enum AluOp {
    Add,
    Adc,
    Sub,
    Sbb,
    Ana,
    Xra,
    Ora,
    Cmp,
}

/// An instruction family with its encoded operand fields.
#[derive(Debug, Clone, Copy, PartialEq, Eq)]
pub enum Instruction {
    Nop,
    Lxi(Pair),
    Stax(Pair),
    Ldax(Pair),
    Shld,
    Lhld,
    Sta,
    Lda,
    Inx(Pair),
    Dcx(Pair),
    Dad(Pair),
    Inr(Register),
    Dcr(Register),
    Mvi(Register),
    Rlc,
    Rrc,
    Ral,
    Rar,
    Daa,
    Cma,
    Stc,
    Cmc,
    Mov(Register, Register),
    Hlt,
    Alu(AluOp, Register),
    AluImm(AluOp),
    Jmp,
    Jcond(Condition),
    Call,
    Ccond(Condition),
    Ret,
    Rcond(Condition),
    Rst(u8),
    Push(Pair),
    Pop(Pair),
    Xchg,
    Xthl,
    Sphl,
    Pchl,
    In,
    Out,
    Ei,
    Di,
}

/// The DDD field: bits 3 to 5.
pub open spec fn dest_field(op: u8) -> u8 {
    (op / 8) % 8
}

/// The SSS field: bits 0 to 2.
pub open spec fn src_field(op: u8) -> u8 {
    op % 8
}

/// The register-pair field: bits 4 and 5.
pub open spec fn pair_field(op: u8) -> u8 {
    (op / 16) % 4
}

/// The register pair named by the low two bits of `code`.
pub open spec fn pair_of(code: u8) -> Pair {
    if code % 4 == 0 {
        Pair::BC
    } else if code % 4 == 1 {
        Pair::DE
    } else if code % 4 == 2 {
        Pair::HL
    } else {
        Pair::SP
    }
}

/// The branch condition named by the low three bits of `code`.
pub open spec fn condition_of(code: u8) -> Condition {
    let c = code % 8;
    if c == 0 {
        Condition::NotZero
    } else if c == 1 {
        Condition::Zero
    } else if c == 2 {
        Condition::NoCarry
    } else if c == 3 {
        Condition::Carry
    } else if c == 4 {
        Condition::ParityOdd
    } else if c == 5 {
        Condition::ParityEven
    } else if c == 6 {
        Condition::Plus
    } else {
        Condition::Minus
    }
}

/// The accumulator operation named by the low three bits of `code`.
pub open spec fn alu_op_of(code: u8) -> AluOp {
    let c = code % 8;
    if c == 0 {
        AluOp::Add
    } else if c == 1 {
        AluOp::Adc
    } else if c == 2 {
        AluOp::Sub
    } else if c == 3 {
        AluOp::Sbb
    } else if c == 4 {
        AluOp::Ana
    } else if c == 5 {
        AluOp::Xra
    } else if c == 6 {
        AluOp::Ora
    } else {
        AluOp::Cmp
    }
}

/// The family of an opcode in the block 0x00 to 0x3F.
pub open spec fn decode_low_block(op: u8) -> Instruction {
    let d = dest_field(op);
    let s = src_field(op);
    let rp = pair_of(pair_field(op));
    if s == 0 {
        Instruction::Nop
    } else if op % 16 == 1 {
        Instruction::Lxi(rp)
    } else if op % 16 == 9 {
        Instruction::Dad(rp)
    } else if s == 2 {
        if d == 0 || d == 2 {
            Instruction::Stax(rp)
        } else if d == 1 || d == 3 {
            Instruction::Ldax(rp)
        } else if d == 4 {
            Instruction::Shld
        } else if d == 5 {
            Instruction::Lhld
        } else if d == 6 {
            Instruction::Sta
        } else {
            Instruction::Lda
        }
    } else if op % 16 == 3 {
        Instruction::Inx(rp)
    } else if op % 16 == 11 {
        Instruction::Dcx(rp)
    } else if s == 4 {
        Instruction::Inr(register_of(d))
    } else if s == 5 {
        Instruction::Dcr(register_of(d))
    } else if s == 6 {
        Instruction::Mvi(register_of(d))
    } else if d == 0 {
        Instruction::Rlc
    } else if d == 1 {
        Instruction::Rrc
    } else if d == 2 {
        Instruction::Ral
    } else if d == 3 {
        Instruction::Rar
    } else if d == 4 {
        Instruction::Daa
    } else if d == 5 {
        Instruction::Cma
    } else if d == 6 {
        Instruction::Stc
    } else {
        Instruction::Cmc
    }
}

/// The family of an opcode in the block 0xC0 to 0xFF.
pub open spec fn decode_high_block(op: u8) -> Instruction {
    let d = dest_field(op);
    let s = src_field(op);
    let rp = pair_of(pair_field(op));
    if s == 0 {
        Instruction::Rcond(condition_of(d))
    } else if op % 16 == 1 {
        Instruction::Pop(rp)
    } else if op % 16 == 5 {
        Instruction::Push(rp)
    } else if s == 1 {
        if op == 0xC9 {
            Instruction::Ret
        } else if op == 0xE9 {
            Instruction::Pchl
        } else if op == 0xF9 {
            Instruction::Sphl
        } else {
            Instruction::Nop
        }
    } else if s == 2 {
        Instruction::Jcond(condition_of(d))
    } else if s == 3 {
        if d == 0 {
            Instruction::Jmp
        } else if d == 2 {
            Instruction::Out
        } else if d == 3 {
            Instruction::In
        } else if d == 4 {
            Instruction::Xthl
        } else if d == 5 {
            Instruction::Xchg
        } else if d == 6 {
            Instruction::Di
        } else if d == 7 {
            Instruction::Ei
        } else {
            Instruction::Nop
        }
    } else if s == 4 {
        Instruction::Ccond(condition_of(d))
    } else if s == 5 {
        if op == 0xCD {
            Instruction::Call
        } else {
            Instruction::Nop
        }
    } else if s == 6 {
        Instruction::AluImm(alu_op_of(d))
    } else {
        Instruction::Rst(d)
    }
}

/// The instruction family of an opcode byte. The undocumented opcodes
/// (0x08, 0x10, ..., 0x38, 0xCB, 0xD9, 0xDD, 0xED, 0xFD) act as NOP.
pub open spec fn decode(op: u8) -> Instruction {
    if op < 0x40 {
        decode_low_block(op)
    } else if op == 0x76 {
        Instruction::Hlt
    } else if op < 0x80 {
        Instruction::Mov(register_of(dest_field(op)), register_of(src_field(op)))
    } else if op < 0xC0 {
        Instruction::Alu(alu_op_of(dest_field(op)), register_of(src_field(op)))
    } else {
        decode_high_block(op)
    }
}

impl Pair {
    /// The pair named by the low two bits of `code`.
    pub fn from_code(code: u8) -> (r: Pair)
        ensures
            r == pair_of(code),
    {
        if code % 4 == 0 {
            Pair::BC
        } else if code % 4 == 1 {
            Pair::DE
        } else if code % 4 == 2 {
            Pair::HL
        } else {
            Pair::SP
        }
    }
}

impl Condition {
    /// The condition named by the low three bits of `code`.
    pub fn from_code(code: u8) -> (r: Condition)
        ensures
            r == condition_of(code),
    {
        let c = code % 8;
        if c == 0 {
            Condition::NotZero
        } else if c == 1 {
            Condition::Zero
        } else if c == 2 {
            Condition::NoCarry
        } else if c == 3 {
            Condition::Carry
        } else if c == 4 {
            Condition::ParityOdd
        } else if c == 5 {
            Condition::ParityEven
        } else if c == 6 {
            Condition::Plus
        } else {
            Condition::Minus
        }
    }
}

impl AluOp {
    /// The operation named by the low three bits of `code`.
    pub fn from_code(code: u8) -> (r: AluOp)
        ensures
            r == alu_op_of(code),
    {
        let c = code % 8;
        if c == 0 {
            AluOp::Add
        } else if c == 1 {
            AluOp::Adc
        } else if c == 2 {
            AluOp::Sub
        } else if c == 3 {
            AluOp::Sbb
        } else if c == 4 {
            AluOp::Ana
        } else if c == 5 {
            AluOp::Xra
        } else if c == 6 {
            AluOp::Ora
        } else {
            AluOp::Cmp
        }
    }
}

/// Classifies an opcode in the block 0x00 to 0x3F.
fn decode_low_block_exec(op: u8) -> (r: Instruction)
    ensures
        r == decode_low_block(op),
{
    let d = op / 8 % 8;
    let s = op % 8;
    let rp = Pair::from_code(op / 16 % 4);
    if s == 0 {
        Instruction::Nop
    } else if op % 16 == 1 {
        Instruction::Lxi(rp)
    } else if op % 16 == 9 {
        Instruction::Dad(rp)
    } else if s == 2 {
        if d == 0 || d == 2 {
            Instruction::Stax(rp)
        } else if d == 1 || d == 3 {
            Instruction::Ldax(rp)
        } else if d == 4 {
            Instruction::Shld
        } else if d == 5 {
            Instruction::Lhld
        } else if d == 6 {
            Instruction::Sta
        } else {
            Instruction::Lda
        }
    } else if op % 16 == 3 {
        Instruction::Inx(rp)
    } else if op % 16 == 11 {
        Instruction::Dcx(rp)
    } else if s == 4 {
        Instruction::Inr(Register::from_field(d))
    } else if s == 5 {
        Instruction::Dcr(Register::from_field(d))
    } else if s == 6 {
        Instruction::Mvi(Register::from_field(d))
    } else if d == 0 {
        Instruction::Rlc
    } else if d == 1 {
        Instruction::Rrc
    } else if d == 2 {
        Instruction::Ral
    } else if d == 3 {
        Instruction::Rar
    } else if d == 4 {
        Instruction::Daa
    } else if d == 5 {
        Instruction::Cma
    } else if d == 6 {
        Instruction::Stc
    } else {
        Instruction::Cmc
    }
}

/// Classifies an opcode in the block 0xC0 to 0xFF.
fn decode_high_block_exec(op: u8) -> (r: Instruction)
    ensures
        r == decode_high_block(op),
{
    let d = op / 8 % 8;
    let s = op % 8;
    let rp = Pair::from_code(op / 16 % 4);
    if s == 0 {
        Instruction::Rcond(Condition::from_code(d))
    } else if op % 16 == 1 {
        Instruction::Pop(rp)
    } else if op % 16 == 5 {
        Instruction::Push(rp)
    } else if s == 1 {
        if op == 0xC9 {
            Instruction::Ret
        } else if op == 0xE9 {
            Instruction::Pchl
        } else if op == 0xF9 {
            Instruction::Sphl
        } else {
            Instruction::Nop
        }
    } else if s == 2 {
        Instruction::Jcond(Condition::from_code(d))
    } else if s == 3 {
        if d == 0 {
            Instruction::Jmp
        } else if d == 2 {
            Instruction::Out
        } else if d == 3 {
            Instruction::In
        } else if d == 4 {
            Instruction::Xthl
        } else if d == 5 {
            Instruction::Xchg
        } else if d == 6 {
            Instruction::Di
        } else if d == 7 {
            Instruction::Ei
        } else {
            Instruction::Nop
        }
    } else if s == 4 {
        Instruction::Ccond(Condition::from_code(d))
    } else if s == 5 {
        if op == 0xCD {
            Instruction::Call
        } else {
            Instruction::Nop
        }
    } else if s == 6 {
        Instruction::AluImm(AluOp::from_code(d))
    } else {
        Instruction::Rst(d)
    }
}

impl Instruction {
    /// Classifies an opcode byte.
    pub fn decode(op: u8) -> (r: Instruction)
        ensures
            r == decode(op),
    {
        if op < 0x40 {
            decode_low_block_exec(op)
        } else if op == 0x76 {
            Instruction::Hlt
        } else if op < 0x80 {
            Instruction::Mov(Register::from_field(op / 8 % 8), Register::from_field(op % 8))
        } else if op < 0xC0 {
            Instruction::Alu(AluOp::from_code(op / 8 % 8), Register::from_field(op % 8))
        } else {
            decode_high_block_exec(op)
        }
    }
}

pub const NOP: u8 = 0x00;
pub const LXI_B: u8 = 0x01;
pub const STAX_B: u8 = 0x02;
pub const INX_B: u8 = 0x03;
pub const INR_B: u8 = 0x04;
pub const DCR_B: u8 = 0x05;
pub const MVI_B: u8 = 0x06;
pub const RLC: u8 = 0x07;
pub const DAD_B: u8 = 0x09;
pub const LDAX_B: u8 = 0x0A;
pub const DCX_B: u8 = 0x0B;
pub const INR_C: u8 = 0x0C;
pub const DCR_C: u8 = 0x0D;
pub const MVI_C: u8 = 0x0E;
pub const RRC: u8 = 0x0F;
pub const LXI_D: u8 = 0x11;
pub const STAX_D: u8 = 0x12;
pub const INX_D: u8 = 0x13;
pub const INR_D: u8 = 0x14;
pub const DCR_D: u8 = 0x15;
pub const MVI_D: u8 = 0x16;
pub const RAL: u8 = 0x17;
pub const DAD_D: u8 = 0x19;
pub const LDAX_D: u8 = 0x1A;
pub const DCX_D: u8 = 0x1B;
pub const INR_E: u8 = 0x1C;
pub const DCR_E: u8 = 0x1D;
pub const MVI_E: u8 = 0x1E;
pub const RAR: u8 = 0x1F;
pub const LXI_H: u8 = 0x21;
pub const SHLD: u8 = 0x22;
pub const INX_H: u8 = 0x23;
pub const INR_H: u8 = 0x24;
pub const DCR_H: u8 = 0x25;
pub const MVI_H: u8 = 0x26;
pub const DAA: u8 = 0x27;
pub const DAD_H: u8 = 0x29;
pub const LHLD: u8 = 0x2A;
pub const DCX_H: u8 = 0x2B;
pub const INR_L: u8 = 0x2C;
pub const DCR_L: u8 = 0x2D;
pub const MVI_L: u8 = 0x2E;
pub const CMA: u8 = 0x2F;
pub const LXI_SP: u8 = 0x31;
pub const STA: u8 = 0x32;
pub const INX_SP: u8 = 0x33;
pub const INR_M: u8 = 0x34;
pub const DCR_M: u8 = 0x35;
pub const MVI_M: u8 = 0x36;
pub const STC: u8 = 0x37;
pub const DAD_SP: u8 = 0x39;
pub const LDA: u8 = 0x3A;
pub const DCX_SP: u8 = 0x3B;
pub const INR_A: u8 = 0x3C;
pub const DCR_A: u8 = 0x3D;
pub const MVI_A: u8 = 0x3E;
pub const CMC: u8 = 0x3F;
pub const MOV_BB: u8 = 0x40;
pub const MOV_BC: u8 = 0x41;
pub const MOV_BD: u8 = 0x42;
pub const MOV_BE: u8 = 0x43;
pub const MOV_BH: u8 = 0x44;
pub const MOV_BL: u8 = 0x45;
pub const MOV_BM: u8 = 0x46;
pub const MOV_BA: u8 = 0x47;
pub const MOV_CB: u8 = 0x48;
pub const MOV_CC: u8 = 0x49;
pub const MOV_CD: u8 = 0x4A;
pub const MOV_CE: u8 = 0x4B;
pub const MOV_CH: u8 = 0x4C;
pub const MOV_CL: u8 = 0x4D;
pub const MOV_CM: u8 = 0x4E;
pub const MOV_CA: u8 = 0x4F;
pub const MOV_DB: u8 = 0x50;
pub const MOV_DC: u8 = 0x51;
pub const MOV_DD: u8 = 0x52;
pub const MOV_DE: u8 = 0x53;
pub const MOV_DH: u8 = 0x54;
pub const MOV_DL: u8 = 0x55;
pub const MOV_DM: u8 = 0x56;
pub const MOV_DA: u8 = 0x57;
pub const MOV_EB: u8 = 0x58;
pub const MOV_EC: u8 = 0x59;
pub const MOV_ED: u8 = 0x5A;
pub const MOV_EE: u8 = 0x5B;
pub const MOV_EH: u8 = 0x5C;
pub const MOV_EL: u8 = 0x5D;
pub const MOV_EM: u8 = 0x5E;
pub const MOV_EA: u8 = 0x5F;
pub const MOV_HB: u8 = 0x60;
pub const MOV_HC: u8 = 0x61;
pub const MOV_HD: u8 = 0x62;
pub const MOV_HE: u8 = 0x63;
pub const MOV_HH: u8 = 0x64;
pub const MOV_HL: u8 = 0x65;
pub const MOV_HM: u8 = 0x66;
pub const MOV_HA: u8 = 0x67;
pub const MOV_LB: u8 = 0x68;
pub const MOV_LC: u8 = 0x69;
pub const MOV_LD: u8 = 0x6A;
pub const MOV_LE: u8 = 0x6B;
pub const MOV_LH: u8 = 0x6C;
pub const MOV_LL: u8 = 0x6D;
pub const MOV_LM: u8 = 0x6E;
pub const MOV_LA: u8 = 0x6F;
pub const MOV_MB: u8 = 0x70;
pub const MOV_MC: u8 = 0x71;
pub const MOV_MD: u8 = 0x72;
pub const MOV_ME: u8 = 0x73;
pub const MOV_MH: u8 = 0x74;
pub const MOV_ML: u8 = 0x75;
pub const HLT: u8 = 0x76;
pub const MOV_MA: u8 = 0x77;
pub const MOV_AB: u8 = 0x78;
pub const MOV_AC: u8 = 0x79;
pub const MOV_AD: u8 = 0x7A;
pub const MOV_AE: u8 = 0x7B;
pub const MOV_AH: u8 = 0x7C;
pub const MOV_AL: u8 = 0x7D;
pub const MOV_AM: u8 = 0x7E;
pub const MOV_AA: u8 = 0x7F;
pub const ADD_B: u8 = 0x80;
pub const ADD_C: u8 = 0x81;
pub const ADD_D: u8 = 0x82;
pub const ADD_E: u8 = 0x83;
pub const ADD_H: u8 = 0x84;
pub const ADD_L: u8 = 0x85;
pub const ADD_M: u8 = 0x86;
pub const ADD_A: u8 = 0x87;
pub const ADC_B: u8 = 0x88;
pub const ADC_C: u8 = 0x89;
pub const ADC_D: u8 = 0x8A;
pub const ADC_E: u8 = 0x8B;
pub const ADC_H: u8 = 0x8C;
pub const ADC_L: u8 = 0x8D;
pub const ADC_M: u8 = 0x8E;
pub const ADC_A: u8 = 0x8F;
pub const SUB_B: u8 = 0x90;
pub const SUB_C: u8 = 0x91;
pub const SUB_D: u8 = 0x92;
pub const SUB_E: u8 = 0x93;
pub const SUB_H: u8 = 0x94;
pub const SUB_L: u8 = 0x95;
pub const SUB_M: u8 = 0x96;
pub const SUB_A: u8 = 0x97;
pub const SBB_B: u8 = 0x98;
pub const SBB_C: u8 = 0x99;
pub const SBB_D: u8 = 0x9A;
pub const SBB_E: u8 = 0x9B;
pub const SBB_H: u8 = 0x9C;
pub const SBB_L: u8 = 0x9D;
pub const SBB_M: u8 = 0x9E;
pub const SBB_A: u8 = 0x9F;
pub const ANA_B: u8 = 0xA0;
pub const ANA_C: u8 = 0xA1;
pub const ANA_D: u8 = 0xA2;
pub const ANA_E: u8 = 0xA3;
pub const ANA_H: u8 = 0xA4;
pub const ANA_L: u8 = 0xA5;
pub const ANA_M: u8 = 0xA6;
pub const ANA_A: u8 = 0xA7;
pub const XRA_B: u8 = 0xA8;
pub const XRA_C: u8 = 0xA9;
pub const XRA_D: u8 = 0xAA;
pub const XRA_E: u8 = 0xAB;
pub const XRA_H: u8 = 0xAC;
pub const XRA_L: u8 = 0xAD;
pub const XRA_M: u8 = 0xAE;
pub const XRA_A: u8 = 0xAF;
pub const ORA_B: u8 = 0xB0;
pub const ORA_C: u8 = 0xB1;
pub const ORA_D: u8 = 0xB2;
pub const ORA_E: u8 = 0xB3;
pub const ORA_H: u8 = 0xB4;
pub const ORA_L: u8 = 0xB5;
pub const ORA_M: u8 = 0xB6;
pub const ORA_A: u8 = 0xB7;
pub const CMP_B: u8 = 0xB8;
pub const CMP_C: u8 = 0xB9;
pub const CMP_D: u8 = 0xBA;
pub const CMP_E: u8 = 0xBB;
pub const CMP_H: u8 = 0xBC;
pub const CMP_L: u8 = 0xBD;
pub const CMP_M: u8 = 0xBE;
pub const CMP_A: u8 = 0xBF;
pub const RNZ: u8 = 0xC0;
pub const POP_B: u8 = 0xC1;
pub const JNZ: u8 = 0xC2;
pub const JMP: u8 = 0xC3;
pub const CNZ: u8 = 0xC4;
pub const PUSH_B: u8 = 0xC5;
pub const ADI: u8 = 0xC6;
pub const RST_0: u8 = 0xC7;
pub const RZ: u8 = 0xC8;
pub const RET: u8 = 0xC9;
pub const JZ: u8 = 0xCA;
pub const CZ: u8 = 0xCC;
pub const CALL: u8 = 0xCD;
pub const ACI: u8 = 0xCE;
pub const RST_1: u8 = 0xCF;
pub const RNC: u8 = 0xD0;
pub const POP_D: u8 = 0xD1;
pub const JNC: u8 = 0xD2;
pub const OUT: u8 = 0xD3;
pub const CNC: u8 = 0xD4;
pub const PUSH_D: u8 = 0xD5;
pub const SUI: u8 = 0xD6;
pub const RST_2: u8 = 0xD7;
pub const RC: u8 = 0xD8;
pub const JC: u8 = 0xDA;
pub const IN: u8 = 0xDB;
pub const CC: u8 = 0xDC;
pub const SBI: u8 = 0xDE;
pub const RST_3: u8 = 0xDF;
pub const RPO: u8 = 0xE0;
pub const POP_H: u8 = 0xE1;
pub const JPO: u8 = 0xE2;
pub const XTHL: u8 = 0xE3;
pub const CPO: u8 = 0xE4;
pub const PUSH_H: u8 = 0xE5;
pub const ANI: u8 = 0xE6;
pub const RST_4: u8 = 0xE7;
pub const RPE: u8 = 0xE8;
pub const PCHL: u8 = 0xE9;
pub const JPE: u8 = 0xEA;
pub const XCHG: u8 = 0xEB;
pub const CPE: u8 = 0xEC;
pub const XRI: u8 = 0xEE;
pub const RST_5: u8 = 0xEF;
pub const RP: u8 = 0xF0;
pub const POP_PSW: u8 = 0xF1;
pub const JP: u8 = 0xF2;
pub const DI: u8 = 0xF3;
pub const CP: u8 = 0xF4;
pub const PUSH_PSW: u8 = 0xF5;
pub const ORI: u8 = 0xF6;
pub const RST_6: u8 = 0xF7;
pub const RM: u8 = 0xF8;
pub const SPHL: u8 = 0xF9;
pub const JM: u8 = 0xFA;
pub const EI: u8 = 0xFB;
pub const CM: u8 = 0xFC;
pub const CPI: u8 = 0xFE;
pub const RST_7: u8 = 0xFF;

} // verus!
