//! Sign and zero extension of narrow values.
use vstd::prelude::*;
use crate::model;

verus! {

/// Sign-extends the low `bits` bits of `value`; 32 or more bits keep the whole word.
pub fn sign_extend(value: u32, bits: u8) -> (r: i32)
    requires
        bits >= 1,
    ensures
        r as int == model::sext(value as int, if bits >= 32 { 32 } else { bits as nat }),
{
    if bits >= 32 {
        proof {
            model::lemma_u32_as_i32(value);
            vstd::arithmetic::power2::lemma2_to64();
            vstd::arithmetic::power2::lemma2_to64_rest();
        }
        value as i32
    } else {
        let shift = 32 - bits as u32;
        proof { model::lemma_sign_extend_shift(value, bits as nat); }
        ((value << shift) as i32) >> shift
    }
}

/// Keeps the low `bits` bits of `value`; 32 or more bits keep the whole word.
pub fn zero_extend(value: u32, bits: u8) -> (r: u32)
    ensures
        r == if bits >= 32 { value as nat } else { model::bits_of(value, 0, bits as nat) },
{
    if bits >= 32 {
        value
    } else {
        proof {
            model::lemma_bit_slice(value, 0, bits as u32);
            assert(value >> 0u32 == value) by (bit_vector);
        }
        value & ((1u32 << bits) - 1)
    }
}

/// A byte read as a signed 8-bit number.
pub fn sign_extend_byte(value: u8) -> (r: i32)
    ensures
        r == if value >= 0x80 { value - 0x100 } else { value as int },
{
    assert((value as i8) as int == if value >= 0x80 { value - 0x100 } else { value as int })
        by (bit_vector);
    (value as i8) as i32
}

/// A half-word read as a signed 16-bit number.
pub fn sign_extend_half(value: u16) -> (r: i32)
    ensures
        r == if value >= 0x8000 { value - 0x1_0000 } else { value as int },
{
    assert((value as i16) as int == if value >= 0x8000 { value - 0x1_0000 } else { value as int })
        by (bit_vector);
    (value as i16) as i32
}

} // verus!
