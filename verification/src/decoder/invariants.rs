//! Checks that decoded fields respect the encoding's invariants.
use vstd::prelude::*;
use crate::decoder::fields;
use crate::error::ZkvmError;
use crate::model;
use crate::register::Register;

verus! {

/// Rejects compressed encodings: a standard instruction has 0b11 in its low two bits.
pub fn ensure_standard_32bit(word: u32) -> (r: Result<(), ZkvmError>)
    ensures
        r is Ok <==> word % 4 == 3,
        r is Err ==> r == Err::<(), ZkvmError>(ZkvmError::CompressedInstructionUnsupported { word }),
{
    proof { model::lemma_word_fields(word); }
    if word & 0b11 != 0b11 {
        Err(ZkvmError::CompressedInstructionUnsupported { word })
    } else {
        Ok(())
    }
}

/// The register numbered `index`, or an error naming the `context` it was read in.
pub fn register(index: u8, context: &'static str) -> (r: Result<Register, ZkvmError>)
    ensures
        match r {
            Ok(reg) => index < 32 && reg.id() == index,
            Err(e) => index >= 32 && e == ZkvmError::InvalidRegister { reg: index, context },
        },
{
    match Register::new(index) {
        Ok(reg) => Ok(reg),
        Err(_) => Err(ZkvmError::InvalidRegister { reg: index, context }),
    }
}

/// Accepts `actual` as the funct7 of `word` only if it is one of `allowed`.
pub fn expect_funct7(word: u32, opcode: u8, actual: u8, allowed: &[u8]) -> (r: Result<(), ZkvmError>)
    ensures
        r is Ok <==> allowed@.contains(actual),
        r is Err ==> r == Err::<(), ZkvmError>(ZkvmError::InvalidFunct7 {
            opcode,
            funct3: model::funct3_of(word),
            funct7: actual,
            word,
        }),
{
    let mut i: usize = 0;
    while i < allowed.len()
        invariant
            i <= allowed@.len(),
            forall|j: int| 0 <= j < i ==> allowed@[j] != actual,
        decreases allowed@.len() - i,
    {
        if allowed[i] == actual {
            return Ok(());
        }
        i += 1;
    }
    Err(ZkvmError::InvalidFunct7 { opcode, funct3: fields::funct3(word), funct7: actual, word })
}

} // verus!
