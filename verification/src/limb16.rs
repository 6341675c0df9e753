//! 16-bit limbs: a 32-bit word is its low limb plus its high limb times 2^16.
use vstd::prelude::*;
use crate::model;

verus! {

/// A single 16-bit limb of a 32-bit word.
#[derive(Clone, Copy, Debug, Default, Eq, Hash, Ord, PartialEq, PartialOrd)]
pub struct Limb16(u16);

impl Limb16 {
    /// The limb's value.
    pub closed spec fn val(self) -> u16 {
        self.0
    }

    pub fn new(value: u16) -> (r: Self)
        ensures
            r.val() == value,
    {
        Self(value)
    }

    pub fn get(self) -> (r: u16)
        ensures
            r == self.val(),
    {
        self.0
    }

    /// The low 16 bits of `word`.
    pub fn low(word: u32) -> (r: Self)
        ensures
            r.val() == word % 0x10000,
    {
        proof { model::lemma_word_fields(word); }
        Self((word & 0xffff) as u16)
    }

    /// The high 16 bits of `word`.
    pub fn high(word: u32) -> (r: Self)
        ensures
            r.val() == word / 0x10000,
    {
        proof { model::lemma_word_fields(word); }
        Self(((word >> 16) & 0xffff) as u16)
    }

    /// The low and high limbs of `word`.
    pub fn split(word: u32) -> (r: (Self, Self))
        ensures
            r.0.val() == word % 0x10000,
            r.1.val() == word / 0x10000,
    {
        (Self::low(word), Self::high(word))
    }

    /// The word whose low limb is `low` and whose high limb is `high`.
    pub fn join(low: Self, high: Self) -> (r: u32)
        ensures
            r == low.val() + high.val() * 0x10000,
    {
        proof { model::lemma_join16(low.0, high.0); }
        (low.0 as u32) | ((high.0 as u32) << 16)
    }
}

/// Joining the two limbs of a word gives the word back.
pub proof fn law_join_of_split(word: u32, low: Limb16, high: Limb16)
    requires
        low.val() == word % 0x10000,
        high.val() == word / 0x10000,
    ensures
        low.val() + high.val() * 0x10000 == word,
{
}

/// Splitting a joined word gives back the two limbs it was joined from.
pub proof fn law_split_of_join(low: Limb16, high: Limb16, word: u32, low2: Limb16, high2: Limb16)
    requires
        word == low.val() + high.val() * 0x10000,
        low2.val() == word % 0x10000,
        high2.val() == word / 0x10000,
    ensures
        low2 == low,
        high2 == high,
{
}

impl From<u16> for Limb16 {
    fn from(value: u16) -> (r: Self) {
        Self::new(value)
    }
}

impl vstd::std_specs::convert::FromSpecImpl<u16> for Limb16 {
    open spec fn obeys_from_spec() -> bool {
        true
    }

    closed spec fn from_spec(v: u16) -> Self {
        Limb16(v)
    }
}

impl From<Limb16> for u16 {
    fn from(value: Limb16) -> (r: Self) {
        value.get()
    }
}

impl vstd::std_specs::convert::FromSpecImpl<Limb16> for u16 {
    open spec fn obeys_from_spec() -> bool {
        true
    }

    open spec fn from_spec(v: Limb16) -> u16 {
        v.val()
    }
}

} // verus!
