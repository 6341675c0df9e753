//! A word split into 16-bit limbs held as words.
use vstd::prelude::*;
use crate::model;

verus! {

/// The low and high 16-bit limbs of a word.
#[derive(Debug, Clone, Copy, PartialEq, Eq)]
pub struct Limb16 {
    pub low: u32,
    pub high: u32,
}

impl Limb16 {
    pub fn decompose(val: u32) -> (r: Self)
        ensures
            r.low == val % 0x10000,
            r.high == val / 0x10000,
            val == r.low + r.high * 0x10000,
    {
        proof { model::lemma_word_fields(val); model::lemma_limb_split(val); }
        Self { low: val & 0xFFFF, high: val >> 16 }
    }
}

} // verus!
