//! A raw 32-bit instruction word with its bit fields and 16-bit limbs.
use vstd::prelude::*;
use vstd::arithmetic::power2::pow2;
use crate::limb16::Limb16;
use crate::model;

verus! {

/// A raw 32-bit instruction word.
#[derive(Clone, Copy, Debug, Default, Eq, Hash, Ord, PartialEq, PartialOrd)]
pub struct Word(u32);

impl Word {
    /// The bits of the word.
    pub closed spec fn val(self) -> u32 {
        self.0
    }

    pub fn new(bits: u32) -> (r: Self)
        ensures
            r.val() == bits,
    {
        Self(bits)
    }

    pub fn raw(self) -> (r: u32)
        ensures
            r == self.val(),
    {
        self.0
    }

    /// Bit `index` of the word.
    pub fn bit(self, index: u8) -> (r: bool)
        requires
            index < 32,
        ensures
            r == (model::bits_of(self.val(), index as nat, 1) == 1),
    {
        proof {
            model::lemma_bit_slice(self.0, index as u32, 1);
            vstd::arithmetic::power2::lemma2_to64();
        }
        ((self.0 >> index) & 1) != 0
    }

    /// `width` bits of the word starting at bit `start`; all bits from `start`
    /// up when `width` is 32 or more.
    pub fn bits(self, start: u8, width: u8) -> (r: u32)
        requires
            width == 0 || start < 32,
        ensures
            width < 32 ==> r == model::bits_of(self.val(), start as nat, width as nat),
            width >= 32 ==> r == self.val() as nat / pow2(start as nat),
    {
        if width == 0 {
            proof { vstd::arithmetic::power2::lemma2_to64(); }
            0
        } else if width >= 32 {
            proof { vstd::bits::lemma_u32_shr_is_div(self.0, start as u32); }
            self.0 >> start
        } else {
            proof { model::lemma_bit_slice(self.0, start as u32, width as u32); }
            (self.0 >> start) & ((1u32 << width) - 1)
        }
    }

    pub fn low_limb(self) -> (r: Limb16)
        ensures
            r.val() == self.val() % 0x10000,
    {
        Limb16::low(self.0)
    }

    pub fn high_limb(self) -> (r: Limb16)
        ensures
            r.val() == self.val() / 0x10000,
    {
        Limb16::high(self.0)
    }

    /// The low and high limbs of the word.
    pub fn limbs(self) -> (r: (Limb16, Limb16))
        ensures
            r.0.val() == self.val() % 0x10000,
            r.1.val() == self.val() / 0x10000,
    {
        Limb16::split(self.0)
    }

    /// The word with the given low and high limbs.
    pub fn from_limbs(low: Limb16, high: Limb16) -> (r: Self)
        ensures
            r.val() == low.val() + high.val() * 0x10000,
    {
        Self(Limb16::join(low, high))
    }

    /// Whether the low two bits are 0b11, the mark of a 32-bit encoding.
    pub fn is_standard_32(self) -> (r: bool)
        ensures
            r == (self.val() % 4 == 3),
    {
        proof { model::lemma_word_fields(self.0); }
        (self.0 & 0b11) == 0b11
    }

    pub fn opcode(self) -> (r: u8)
        ensures
            r == model::opcode_of(self.val()),
    {
        proof { vstd::arithmetic::power2::lemma2_to64(); }
        self.bits(0, 7) as u8
    }

    pub fn rd(self) -> (r: u8)
        ensures
            r == model::rd_of(self.val()),
    {
        proof { vstd::arithmetic::power2::lemma2_to64(); }
        self.bits(7, 5) as u8
    }

    pub fn funct3(self) -> (r: u8)
        ensures
            r == model::funct3_of(self.val()),
    {
        proof { vstd::arithmetic::power2::lemma2_to64(); }
        self.bits(12, 3) as u8
    }

    pub fn rs1(self) -> (r: u8)
        ensures
            r == model::rs1_of(self.val()),
    {
        proof { vstd::arithmetic::power2::lemma2_to64(); }
        self.bits(15, 5) as u8
    }

    pub fn rs2(self) -> (r: u8)
        ensures
            r == model::rs2_of(self.val()),
    {
        proof { vstd::arithmetic::power2::lemma2_to64(); }
        self.bits(20, 5) as u8
    }

    pub fn funct7(self) -> (r: u8)
        ensures
            r == model::funct7_of(self.val()),
    {
        proof { vstd::arithmetic::power2::lemma2_to64(); }
        let f = self.bits(25, 7);
        assert(f < 0x80) by {
            vstd::arithmetic::div_mod::lemma_mod_pos_bound((self.val() as nat / pow2(25)) as int, 0x80);
        }
        f as u8
    }
}

/// A word split into its limbs and joined again is the same word.
pub proof fn law_word_limbs_round_trip(w: Word, low: Limb16, high: Limb16, joined: Word)
    requires
        low.val() == w.val() % 0x10000,
        high.val() == w.val() / 0x10000,
        joined.val() == low.val() + high.val() * 0x10000,
    ensures
        joined == w,
{
}

impl From<u32> for Word {
    fn from(value: u32) -> (r: Self) {
        Self::new(value)
    }
}

impl vstd::std_specs::convert::FromSpecImpl<u32> for Word {
    open spec fn obeys_from_spec() -> bool {
        true
    }

    closed spec fn from_spec(v: u32) -> Self {
        Word(v)
    }
}

impl From<Word> for u32 {
    fn from(value: Word) -> (r: Self) {
        value.raw()
    }
}

impl vstd::std_specs::convert::FromSpecImpl<Word> for u32 {
    open spec fn obeys_from_spec() -> bool {
        true
    }

    open spec fn from_spec(v: Word) -> u32 {
        v.val()
    }
}

} // verus!
