//! Self-checks of the decoder: register ranges, text encodings and limb
//! decompositions.
use vstd::prelude::*;
use crate::error::{DecodeError, DecodeResult, DecoderError};

verus! {

/// Whether `bytes` is valid UTF-8, by `std::str::from_utf8`.
///
/// Trusted: `std::str::from_utf8` returns `Ok` exactly when the bytes are valid
/// UTF-8; the contract states this with vstd's definition of valid UTF-8.
#[verifier::external_body]
fn utf8_bytes_are_valid(bytes: &[u8]) -> (r: bool)
    ensures
        r == vstd::utf8::valid_utf8(bytes@),
{
    std::str::from_utf8(bytes).is_ok()
}

/// Whether two strings hold the same characters, compared byte by byte.
fn same_text(a: &str, b: &str) -> (r: bool)
    ensures
        r == (a@ == b@),
{
    let x = a.as_bytes();
    let y = b.as_bytes();
    proof {
        vstd::utf8::encode_utf8_decode_utf8(a@);
        vstd::utf8::encode_utf8_decode_utf8(b@);
    }
    if x.len() != y.len() {
        return false;
    }
    let mut i: usize = 0;
    while i < x.len()
        invariant
            x@.len() == y@.len(),
            x@ == vstd::utf8::encode_utf8(a@),
            y@ == vstd::utf8::encode_utf8(b@),
            i <= x@.len(),
            forall|j: int| 0 <= j < i ==> x@[j] == y@[j],
        decreases x@.len() - i,
    {
        if x[i] != y[i] {
            return false;
        }
        i += 1;
    }
    assert(x@ =~= y@);
    true
}

/// Accepts only register numbers 0..=31.
pub fn ensure_register(reg: u8) -> (r: DecodeResult<()>)
    ensures
        r is Ok <==> reg < 32,
        r is Err ==> r == Err::<(), DecoderError>(DecoderError::InvalidRegister { reg }),
{
    if reg < 32 {
        Ok(())
    } else {
        Err(DecoderError::InvalidRegister { reg })
    }
}

/// Checks that a mnemonic's text is UTF-8; every `&str` is, so this never fails.
pub fn ensure_utf8(label: &'static str) -> (r: DecodeResult<()>)
    ensures
        r is Ok,
{
    proof { vstd::utf8::encode_utf8_valid_utf8(label@); }
    if utf8_bytes_are_valid(label.as_bytes()) {
        Ok(())
    } else {
        Err(DecoderError::InvariantViolation("mnemonics must remain UTF-8"))
    }
}

/// Checks that the machine and its error type keep their names; never fails.
pub fn ensure_zkvm_symbol_parity() -> (r: DecodeResult<()>)
    ensures
        r is Ok,
{
    let (owner, error) = ("Zkvm", "ZkvmError");
    if same_text(owner, "Zkvm") && same_text(error, "ZkvmError") {
        Ok(())
    } else {
        Err(DecoderError::InvariantViolation("Zkvm/ZkvmError symbol parity mismatch"))
    }
}

/// Accepts `low` and `high` only as the 16-bit limbs of `value`.
pub fn ensure_limb16(value: u32, low: u16, high: u16, context: &'static str) -> (r: Result<(), DecodeError>)
    ensures
        r is Ok <==> value == low + high * 0x10000,
        r is Err ==> r == Err::<(), DecodeError>(DecodeError::InvalidLimbDecomposition(context)),
{
    proof {
        crate::model::lemma_limb_split(value);
        if value == low + high * 0x10000 {
            vstd::arithmetic::div_mod::lemma_fundamental_div_mod_converse(
                value as int,
                0x10000,
                high as int,
                low as int,
            );
        }
    }
    if (value & 0xffff) as u16 == low && (value >> 16) as u16 == high {
        Ok(())
    } else {
        Err(DecodeError::InvalidLimbDecomposition(context))
    }
}

} // verus!
