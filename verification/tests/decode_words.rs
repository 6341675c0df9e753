use rv32im_decoder::m_extension::Limb16;
use rv32im_decoder::{decode, decode_bytes, BranchKind, Instruction, OpImmKind, OpKind, SystemKind};

#[test]
fn limb16_roundtrip() {
    let limbs = Limb16::from_u32(0xdead_beef);
    assert_eq!(limbs.lo, 0xbeef);
    assert_eq!(limbs.hi, 0xdead);
    assert_eq!(limbs.to_u32(), 0xdead_beef);
}

#[test]
fn decode_add() {
    let word = 0x0020_81b3;
    let inst = decode(word).unwrap();
    assert_eq!(inst, Instruction::Op { kind: OpKind::Add, rd: 3, rs1: 1, rs2: 2 });
}

#[test]
fn decode_mul() {
    let word = 0x0273_02b3;
    let inst = decode(word).unwrap();
    assert_eq!(inst, Instruction::Op { kind: OpKind::Mul, rd: 5, rs1: 6, rs2: 7 });
}

#[test]
fn decode_branch_immediate() {
    let word = 0x0020_8863;
    let inst = decode(word).unwrap();
    assert_eq!(inst, Instruction::Branch { kind: BranchKind::Beq, rs1: 1, rs2: 2, imm: 16 });
}

#[test]
fn decode_shift_immediate() {
    let word = 0x0031_1093;
    let inst = decode(word).unwrap();
    assert_eq!(inst, Instruction::OpImm { kind: OpImmKind::Slli, rd: 1, rs1: 2, imm: 3 });
}

#[test]
fn decode_ecall() {
    let inst = decode(0x0000_0073).unwrap();
    assert_eq!(inst, Instruction::System { kind: SystemKind::Ecall });
}

#[test]
fn reject_compressed() {
    assert!(decode(0x0000_0001).is_err());
}

#[test]
fn decodes_little_endian_bytes() {
    let instr = decode_bytes([0x93, 0x00, 0xa0, 0x02]).unwrap();
    assert!(matches!(instr, Instruction::OpImm { .. }));
}

#[test]
fn decodes_core_base_i_examples() {
    assert!(matches!(decode(0x1234_5537).unwrap(), Instruction::Lui { .. }));
    assert!(matches!(decode(0x02a0_0093).unwrap(), Instruction::OpImm { .. }));
    assert!(matches!(decode(0x4073_5293).unwrap(), Instruction::OpImm { .. }));
    assert!(matches!(decode(0x0020_8863).unwrap(), Instruction::Branch { .. }));
    assert!(matches!(decode(0x0032_2623).unwrap(), Instruction::Store { .. }));
    assert!(matches!(decode(0x0200_00ef).unwrap(), Instruction::Jal { .. }));
}

#[test]
fn decodes_m_extension_examples() {
    let instr = decode(0x0273_02b3).unwrap();
    if let Instruction::Op { kind, .. } = instr {
        assert_eq!(kind.mnemonic(), "mul");
    } else {
        panic!("expected Op instruction");
    }

    let instr = decode(0x02a4_d433).unwrap();
    if let Instruction::Op { kind, .. } = instr {
        assert_eq!(kind.mnemonic(), "divu");
    } else {
        panic!("expected Op instruction");
    }
}
