use rv32im_decoder::decoder::m_ext::decode;
use rv32im_decoder::decoder::rv32i::decode_rv32i;
use rv32im_decoder::decoder::rv32m::{decode_rv32m, MulDecomposition};
use rv32im_decoder::error::DecodeError;
use rv32im_decoder::types::Instruction;
use rv32im_decoder::{OpKind, Register, ZkvmError};

#[test]
fn decodes_mul() {
    let word = 0x0220_81b3;

    let instruction = decode(word).expect("mul should decode");

    assert_eq!(
        instruction,
        Instruction::Op {
            kind: OpKind::Mul,
            rd: Register::from_u5(3),
            rs1: Register::from_u5(1),
            rs2: Register::from_u5(2),
        }
    );
}

#[test]
fn decodes_divu() {
    let word = 0x0252_5333;

    let instruction = decode(word).expect("divu should decode");

    assert_eq!(
        instruction,
        Instruction::Op {
            kind: OpKind::Divu,
            rd: Register::from_u5(6),
            rs1: Register::from_u5(4),
            rs2: Register::from_u5(5),
        }
    );
}

#[test]
fn decodes_remu() {
    let word = 0x02a4_f433;

    let instruction = decode(word).expect("remu should decode");

    assert_eq!(
        instruction,
        Instruction::Op {
            kind: OpKind::Remu,
            rd: Register::from_u5(8),
            rs1: Register::from_u5(9),
            rs2: Register::from_u5(10),
        }
    );
}

#[test]
fn test_lemma_6_1_1_parity() {
    let a = 0x12345678;
    let b = 0x87654321;
    let d = MulDecomposition::from_operands(a, b);
    let expected = (a as u64) * (b as u64);
    assert_eq!(d.product_u64(), expected);
}

#[test]
fn m_ext_decode_rejects_base_words() {
    assert!(matches!(decode(0x0020_81b3), Err(ZkvmError::InvalidFunct7 { .. })));
}

#[test]
fn rv32i_decodes_with_typed_registers() {
    assert_eq!(
        decode_rv32i(0x07b1_0093).unwrap(),
        Instruction::Addi { rd: Register::from_u5(1), rs1: Register::from_u5(2), imm: 123 }
    );
    assert_eq!(
        decode_rv32i(0x0031_00b3).unwrap(),
        Instruction::Add { rd: Register::from_u5(1), rs1: Register::from_u5(2), rs2: Register::from_u5(3) }
    );
    assert_eq!(decode_rv32i(0x0000_0073).unwrap(), Instruction::Ecall);
    assert_eq!(decode_rv32i(0x0010_0073).unwrap(), Instruction::Ebreak);
    assert_eq!(decode_rv32i(0x0000_007f), Err(DecodeError::InvalidOpcode(0x7f)));
    assert_eq!(decode_rv32i(0x0220_81b3), Err(DecodeError::UnsupportedInstruction(0x0220_81b3)));
    assert_eq!(
        decode_rv32i(0x0000_2067),
        Err(DecodeError::InvalidFunct3 { opcode: 0x67, funct3: 2 })
    );
    assert_eq!(
        decode_rv32i(0x1000_00b3),
        Err(DecodeError::InvalidFunct7 { opcode: 0x33, funct7: 0x08 })
    );
}

#[test]
fn rv32m_decodes_every_operation() {
    assert_eq!(
        decode_rv32m(0x0273_02b3).unwrap(),
        Instruction::Mul { rd: Register::from_u5(5), rs1: Register::from_u5(6), rs2: Register::from_u5(7) }
    );
    assert_eq!(
        decode_rv32m(0x02a4_f433).unwrap(),
        Instruction::Remu { rd: Register::from_u5(8), rs1: Register::from_u5(9), rs2: Register::from_u5(10) }
    );
    assert_eq!(
        decode_rv32m(0x0020_81b3),
        Err(DecodeError::InvalidFunct7 { opcode: 0x33, funct7: 0 })
    );
}
