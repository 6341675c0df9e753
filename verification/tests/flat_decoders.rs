use rv32im_decoder::extensions::{i, m, Instruction};
use rv32im_decoder::types::Zkvm;
use rv32im_decoder::ZkvmError;

fn encode_r(funct7: u32, rs2: u8, rs1: u8, funct3: u32, rd: u8, opcode: u32) -> u32 {
    (funct7 << 25)
        | ((rs2 as u32) << 20)
        | ((rs1 as u32) << 15)
        | (funct3 << 12)
        | ((rd as u32) << 7)
        | opcode
}

fn encode_i(imm: i32, rs1: u8, funct3: u32, rd: u8, opcode: u32) -> u32 {
    (((imm as u32) & 0x0fff) << 20)
        | ((rs1 as u32) << 15)
        | (funct3 << 12)
        | ((rd as u32) << 7)
        | opcode
}

fn encode_s(imm: i32, rs2: u8, rs1: u8, funct3: u32, opcode: u32) -> u32 {
    let imm = (imm as u32) & 0x0fff;
    (((imm >> 5) & 0x7f) << 25)
        | ((rs2 as u32) << 20)
        | ((rs1 as u32) << 15)
        | (funct3 << 12)
        | ((imm & 0x1f) << 7)
        | opcode
}

fn encode_b(imm: i32, rs2: u8, rs1: u8, funct3: u32, opcode: u32) -> u32 {
    let imm = (imm as u32) & 0x1fff;
    (((imm >> 12) & 0x1) << 31)
        | (((imm >> 5) & 0x3f) << 25)
        | ((rs2 as u32) << 20)
        | ((rs1 as u32) << 15)
        | (funct3 << 12)
        | (((imm >> 1) & 0x0f) << 8)
        | (((imm >> 11) & 0x1) << 7)
        | opcode
}

fn encode_u(imm: i32, rd: u8, opcode: u32) -> u32 {
    ((imm as u32) & 0xffff_f000) | ((rd as u32) << 7) | opcode
}

fn encode_j(imm: i32, rd: u8, opcode: u32) -> u32 {
    let imm = (imm as u32) & 0x1f_ffff;
    (((imm >> 20) & 0x1) << 31)
        | (((imm >> 1) & 0x03ff) << 21)
        | (((imm >> 11) & 0x1) << 20)
        | (((imm >> 12) & 0xff) << 12)
        | ((rd as u32) << 7)
        | opcode
}

#[test]
fn test_ecall() {
    assert_eq!(i::decode(0x73).unwrap(), Instruction::Ecall);
}

#[test]
fn decodes_control_flow() {
    assert_eq!(i::decode(encode_u(0x12345000, 1, 0x37)).unwrap(), Instruction::Lui { rd: 1, imm: 0x12345000 });
}

#[test]
fn test_mul() {
    let word = 0x02c58533; // mul a0, a1, a2
    let ins = Zkvm::decode(word).unwrap();
    assert!(matches!(ins, Instruction::Mul { .. }));
}

#[test]
fn decodes_mul_instruction() {
    let word = 0x023101b3;
    let instruction = Zkvm::decode(word).expect("mul must decode");
    assert!(matches!(instruction, Instruction::Mul { .. }));
}

#[test]
fn flat_decoder_round_trips_each_format() {
    assert_eq!(i::decode(encode_i(-5, 2, 0, 1, 0x13)).unwrap(), Instruction::Addi { rd: 1, rs1: 2, imm: -5 });
    assert_eq!(i::decode(encode_s(-8, 3, 4, 2, 0x23)).unwrap(), Instruction::Sw { rs1: 4, rs2: 3, imm: -8 });
    assert_eq!(i::decode(encode_b(-16, 6, 5, 1, 0x63)).unwrap(), Instruction::Bne { rs1: 5, rs2: 6, imm: -16 });
    assert_eq!(i::decode(encode_j(2048, 1, 0x6f)).unwrap(), Instruction::Jal { rd: 1, imm: 2048 });
    assert_eq!(
        i::decode(encode_r(0x20, 3, 2, 5, 1, 0x33)).unwrap(),
        Instruction::Sra { rd: 1, rs1: 2, rs2: 3 }
    );
    assert_eq!(
        i::decode(encode_i(0x405, 2, 5, 1, 0x13)).unwrap(),
        Instruction::Srai { rd: 1, rs1: 2, shamt: 5 }
    );
}

#[test]
fn flat_decoder_errors() {
    assert_eq!(
        i::decode(0x0000_007f),
        Err(ZkvmError::InvalidOpcode { opcode: 0x7f, word: 0x7f })
    );
    let bad_branch = encode_b(8, 1, 1, 2, 0x63);
    assert_eq!(
        i::decode(bad_branch),
        Err(ZkvmError::InvalidFunct3 { opcode: 0x63, funct3: 2, word: bad_branch })
    );
    let bad_op = encode_r(0x10, 1, 1, 0, 1, 0x33);
    assert_eq!(
        i::decode(bad_op),
        Err(ZkvmError::InvalidFunct7 { opcode: 0x33, funct3: 0, funct7: 0x10, word: bad_op })
    );
    let sub_bad_funct3 = encode_r(0x20, 1, 1, 1, 1, 0x33);
    assert_eq!(
        i::decode(sub_bad_funct3),
        Err(ZkvmError::InvalidFunct3 { opcode: 0x33, funct3: 1, word: sub_bad_funct3 })
    );
    assert!(matches!(i::decode(0x0000_100f), Err(ZkvmError::UnsupportedInstruction { .. })));
    assert!(matches!(i::decode(0x0000_2073), Err(ZkvmError::UnsupportedInstruction { .. })));
    assert_eq!(i::decode(0x0010_0073).unwrap(), Instruction::Ebreak);
    assert_eq!(
        i::decode(0x0ff0_000f).unwrap(),
        Instruction::Fence { fm: 0, pred: 0xf, succ: 0xf }
    );
}

#[test]
fn m_decoder_checks_opcode_and_funct7() {
    assert_eq!(m::decode(0x0000_0013), Err(ZkvmError::InvalidOpcode { opcode: 0x13, word: 0x13 }));
    assert_eq!(
        m::decode(0x0020_81b3),
        Err(ZkvmError::InvalidFunct7 { opcode: 0x33, funct3: 0, funct7: 0, word: 0x0020_81b3 })
    );
    assert_eq!(m::decode(0x0252_5333).unwrap(), Instruction::Divu { rd: 6, rs1: 4, rs2: 5 });
}

#[test]
fn zkvm_decode_routes_base_words_to_base_decoder() {
    assert_eq!(Zkvm::decode(0x0020_81b3).unwrap(), Instruction::Add { rd: 3, rs1: 1, rs2: 2 });
}

#[test]
fn flat_and_grouped_decoders_accept_the_same_words() {
    let words = [
        0x1234_5537u32, 0x0200_00ef, 0x0000_2067, 0x0020_8863, 0x0020_a863, 0x0032_2623,
        0x4073_5293, 0x2073_5293, 0x0020_81b3, 0x4020_91b3, 0x0273_02b3, 0x0ff0_000f,
        0x0000_100f, 0x0000_0073, 0x0010_0073, 0x0020_0073, 0x0000_0001, 0xffff_ffff,
    ];
    for w in words {
        assert_eq!(Zkvm::decode(w).is_ok(), rv32im_decoder::decode(w).is_ok(), "word {w:#010x}");
    }
}

#[test]
fn immediates_round_trip_through_their_encodings() {
    for imm in [-2048, -1, 0, 1, 5, 2047] {
        let w = encode_s(imm, 3, 4, 2, 0x23);
        assert_eq!(rv32im_decoder::encoding::imm_s(w), imm);
    }
    for imm in [-4096, -2, 0, 2, 16, 4094] {
        let w = encode_b(imm, 6, 5, 1, 0x63);
        assert_eq!(rv32im_decoder::util::imm_b(w), imm);
    }
    for imm in [-1_048_576, -4, 0, 2, 2048, 1_048_574] {
        let w = encode_j(imm, 1, 0x6f);
        assert_eq!(rv32im_decoder::decoder::fields::imm_j(w), imm);
    }
    for w in [0u32, 0xffff_ffff, 0x8000_0000, 0x7fff_ffff, 0x1234_5678] {
        let s = rv32im_decoder::encoding::imm_s(w);
        assert!((-2048..=2047).contains(&s));
        assert_eq!(((s as u32) >> 5) & 0x7f, w >> 25);
        assert_eq!((s as u32) & 0x1f, (w >> 7) & 0x1f);
        let b = rv32im_decoder::util::imm_b(w);
        assert!(b % 2 == 0 && (-4096..=4094).contains(&b));
        let j = rv32im_decoder::decoder::fields::imm_j(w);
        assert!(j % 2 == 0 && (-1_048_576..=1_048_574).contains(&j));
    }
}
