//! The RV32IM decoder: M-extension words go to the M decoder, all others to
//! the base decoder.
use vstd::prelude::*;
use crate::encoding;
use crate::error::ZkvmError;
use crate::instruction::Instruction;
use crate::instruction;
use crate::model;

pub mod base;
pub mod m_extension;
pub mod fields;
pub mod sign_ext;
pub mod invariants;
pub mod m_ext;
pub mod rv32m;
pub mod rv32i;
pub mod base_i;

pub use base::decode_base;
pub use m_extension::decode_m_extension;

verus! {

/// What the RV32IM decoder makes of `word`.
pub open spec fn decode_of(word: u32) -> Result<Instruction, ZkvmError> {
    if model::opcode_of(word) == encoding::OPCODE_OP && model::funct7_of(word) == encoding::FUNCT7_M {
        m_extension::m_decode_of(word)
    } else {
        base::base_decode_of(word)
    }
}

/// Decodes one RV32IM instruction word.
pub fn decode(word: u32) -> (r: Result<Instruction, ZkvmError>)
    ensures
        r == decode_of(word),
{
    let result = if encoding::opcode(word) == encoding::OPCODE_OP && encoding::funct7(word)
        == encoding::FUNCT7_M {
        decode_m_extension(word)
    } else {
        decode_base(word)
    };
    match result {
        Ok(decoded) => Ok(decoded.instruction),
        Err(e) => Err(e),
    }
}

/// The word stored little-endian in `bytes`.
pub open spec fn le_word_of(bytes: [u8; 4]) -> u32 {
    (bytes[0] + bytes[1] * 0x100 + bytes[2] * 0x1_0000 + bytes[3] * 0x100_0000) as u32
}

/// Decodes an instruction stored as four little-endian bytes.
pub fn decode_bytes(bytes: [u8; 4]) -> (r: Result<Instruction, ZkvmError>)
    ensures
        r == decode_of(le_word_of(bytes)),
{
    let (b0, b1, b2, b3) = (bytes[0], bytes[1], bytes[2], bytes[3]);
    let word = (b0 as u32) | ((b1 as u32) << 8) | ((b2 as u32) << 16) | ((b3 as u32) << 24);
    assert(word == b0 + b1 * 0x100 + b2 * 0x1_0000 + b3 * 0x100_0000) by (bit_vector)
        requires
            word == (b0 as u32) | ((b1 as u32) << 8) | ((b2 as u32) << 16) | ((b3 as u32) << 24),
    ;
    decode(word)
}

/// Every word the decoder accepts is a standard 32-bit encoding: its low two
/// bits are 0b11 (compressed 16-bit encodings are rejected).
pub proof fn law_decoded_words_are_standard(word: u32)
    requires
        decode_of(word) is Ok,
    ensures
        word % 4 == 3,
{
}

/// The decoder yields an M-extension operation exactly for words with opcode
/// OP and funct7 0b0000001, and then the operation is the one funct3 selects.
pub proof fn law_m_extension_routing(word: u32)
    ensures
        (decode_of(word) matches Ok(Instruction::Op { kind, .. }) && instruction::is_m_op(kind))
            <==> (model::opcode_of(word) == encoding::OPCODE_OP && model::funct7_of(word)
            == encoding::FUNCT7_M),
        model::opcode_of(word) == encoding::OPCODE_OP && model::funct7_of(word) == encoding::FUNCT7_M
            ==> decode_of(word) == Ok::<Instruction, ZkvmError>(Instruction::Op {
            kind: instruction::m_op_kind_of(model::funct3_of(word)),
            rd: model::rd_of(word),
            rs1: model::rs1_of(word),
            rs2: model::rs2_of(word),
        }),
{
}

} // verus!
