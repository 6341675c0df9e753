//! Hierarchical reduction of a 32-by-32-bit multiplication to four
//! 16-by-16-bit partial products, and the high words of the signed products
//! obtained from the unsigned one by subtracting the sign corrections.
use vstd::prelude::*;
use crate::model;

verus! {

/// The limbs, partial products and full product of one multiplication.
#[derive(Clone, Copy, Debug, Eq, PartialEq)]
pub struct MulReduction {
    pub a0: u32,
    pub a1: u32,
    pub b0: u32,
    pub b1: u32,
    pub low_term: u64,
    pub cross_term: u64,
    pub high_term: u64,
    pub product: u64,
}

/// `r` is the reduction of the multiplication of `a` by `b`.
pub open spec fn is_reduction_of(r: MulReduction, a: u32, b: u32) -> bool {
    &&& r.a0 == a % 0x10000
    &&& r.a1 == a / 0x10000
    &&& r.b0 == b % 0x10000
    &&& r.b1 == b / 0x10000
    &&& r.low_term == r.a0 * r.b0
    &&& r.cross_term == r.a1 * r.b0 + r.a0 * r.b1
    &&& r.high_term == r.a1 * r.b1
    &&& r.product == a * b
}

impl MulReduction {
    /// The low word of the product.
    pub fn low(self) -> (r: u32)
        ensures
            r == self.product % 0x1_0000_0000,
    {
        proof { model::lemma_u64_shifts(self.product); }
        self.product as u32
    }

    /// The high word of the product.
    pub fn high(self) -> (r: u32)
        ensures
            r == self.product / 0x1_0000_0000,
    {
        proof { model::lemma_u64_shifts(self.product); }
        (self.product >> 32) as u32
    }
}

/// Multiplies two words through their 16-bit limbs.
pub fn reduce_u32_mul(a: u32, b: u32) -> (r: MulReduction)
    ensures
        is_reduction_of(r, a, b),
{
    proof {
        model::lemma_word_fields(a);
        model::lemma_word_fields(b);
        model::lemma_limb_product(a, b);
    }
    let a0 = a & 0xffff;
    let a1 = a >> 16;
    let b0 = b & 0xffff;
    let b1 = b >> 16;
    let low_term = (a0 as u64) * (b0 as u64);
    let cross_term = (a1 as u64) * (b0 as u64) + (a0 as u64) * (b1 as u64);
    let high_term = (a1 as u64) * (b1 as u64);
    proof {
        model::lemma_u64_shifts(cross_term);
        model::lemma_u64_shifts(high_term);
    }
    let product = (high_term << 32) + (cross_term << 16) + low_term;
    MulReduction { a0, a1, b0, b1, low_term, cross_term, high_term, product }
}

/// The full 64-bit product.
pub fn product_u64(a: u32, b: u32) -> (r: u64)
    ensures
        r == a * b,
{
    reduce_u32_mul(a, b).product
}

/// MUL: the low word of the product.
pub fn mul(a: u32, b: u32) -> (r: u32)
    ensures
        r == (a * b) % 0x1_0000_0000,
{
    reduce_u32_mul(a, b).low()
}

/// MULHU: the high word of the unsigned product.
pub fn mulhu(a: u32, b: u32) -> (r: u32)
    ensures
        r == (a * b) / 0x1_0000_0000,
{
    reduce_u32_mul(a, b).high()
}

/// For `k > 0`, the quotient by `k` of a value reduced modulo `k * k` is the
/// quotient reduced modulo `k`.
proof fn lemma_high_half(x: int, k: int)
    requires
        k > 0,
    ensures
        (x % (k * k)) / k == (x / k) % k,
{
    let q = x / k;
    let r = x % k;
    vstd::arithmetic::div_mod::lemma_fundamental_div_mod(x, k);
    vstd::arithmetic::div_mod::lemma_fundamental_div_mod(q, k);
    vstd::arithmetic::div_mod::lemma_mod_bound(x, k);
    vstd::arithmetic::div_mod::lemma_mod_bound(q, k);
    let (q1, q0) = (q / k, q % k);
    assert(x == q1 * (k * k) + (q0 * k + r) && 0 <= q0 * k + r < k * k) by (nonlinear_arith)
        requires
            x == k * q + r,
            q == k * q1 + q0,
            0 <= q0 < k,
            0 <= r < k,
    ;
    vstd::arithmetic::div_mod::lemma_fundamental_div_mod_converse(x, k * k, q1, q0 * k + r);
    vstd::arithmetic::div_mod::lemma_fundamental_div_mod_converse(q0 * k + r, k, q0, r);
}

/// Expanding the signed product of two words in terms of the corrections.
proof fn lemma_signed_expansion(a: int, b: int, sa: int, sb: int, k: int)
    ensures
        (a - sa * k) * (b - sb * k) == (a * b - sa * (b * k) - sb * (a * k)) + sa * sb * (k * k),
{
    let (x, y) = (sa * k, sb * k);
    assert((a - x) * (b - y) == (a - x) * b - (a - x) * y) by (nonlinear_arith);
    assert((a - x) * b == a * b - x * b) by (nonlinear_arith);
    assert((a - x) * y == a * y - x * y) by (nonlinear_arith);
    assert(x * b == sa * (b * k)) by (nonlinear_arith)
        requires
            x == sa * k,
    ;
    assert(a * y == sb * (a * k)) by (nonlinear_arith)
        requires
            y == sb * k,
    ;
    assert(x * y == sa * sb * (k * k)) by (nonlinear_arith)
        requires
            x == sa * k,
            y == sb * k,
    ;
}

/// Subtracting `c` from `p` with wrap-around leaves `(p - c) mod 2^64`.
proof fn lemma_wrapping_sub_u64(p: u64, c: u64)
    ensures
        vstd::wrapping::u64_specs::wrapping_sub(p, c) as int == (p - c) % 0x1_0000_0000_0000_0000int,
{
    let m: int = 0x1_0000_0000_0000_0000int;
    if p - c < 0 {
        vstd::arithmetic::div_mod::lemma_fundamental_div_mod_converse(p - c, m, -1, p - c + m);
    } else {
        vstd::arithmetic::div_mod::lemma_small_mod((p - c) as nat, m as nat);
    }
}

/// The high word of a value known modulo 2^64.
proof fn lemma_high_word_of_residue(v: u64, x: int)
    requires
        v as int == x % 0x1_0000_0000_0000_0000int,
    ensures
        v / 0x1_0000_0000 == (x / 0x1_0000_0000) % 0x1_0000_0000,
{
    lemma_high_half(x, 0x1_0000_0000);
}

/// MULHSU: the high word of the product of a signed and an unsigned word,
/// obtained by subtracting `b * 2^32` from the unsigned product when `a` is
/// negative.
pub fn mulhsu(a: u32, b: u32) -> (r: u32)
    ensures
        r == ((model::signed32(a) * b) / 0x1_0000_0000) % 0x1_0000_0000,
{
    let product = product_u64(a, b);
    proof { model::lemma_limb_product(a, b); }
    let shifted = (b as u64) << 32;
    proof { model::lemma_u64_shifts(b as u64); }
    let corrected = if (a >> 31) != 0 {
        product.wrapping_sub(shifted)
    } else {
        product
    };
    proof {
        let m: int = 0x1_0000_0000_0000_0000int;
        let x = model::signed32(a) * b;
        assert((a >> 31u32) != 0 <==> a >= 0x8000_0000) by (bit_vector);
        if a >= 0x8000_0000 {
            lemma_wrapping_sub_u64(product, shifted);
            assert(x == a * b - b * 0x1_0000_0000) by (nonlinear_arith)
                requires
                    x == (a - 0x1_0000_0000) * b,
            ;
        } else {
            vstd::arithmetic::div_mod::lemma_small_mod(product as nat, m as nat);
        }
        lemma_high_word_of_residue(corrected, x);
        model::lemma_u64_shifts(corrected);
    }
    (corrected >> 32) as u32
}

/// MULH: the high word of the signed product, obtained from the unsigned
/// product by subtracting `b * 2^32` when `a` is negative and `a * 2^32` when
/// `b` is negative.
pub fn mulh(a: u32, b: u32) -> (r: u32)
    ensures
        r == ((model::signed32(a) * model::signed32(b)) / 0x1_0000_0000) % 0x1_0000_0000,
{
    let product = product_u64(a, b);
    proof {
        model::lemma_limb_product(a, b);
        model::lemma_u64_shifts(b as u64);
        model::lemma_u64_shifts(a as u64);
        assert((a >> 31u32) != 0 <==> a >= 0x8000_0000) by (bit_vector);
        assert((b >> 31u32) != 0 <==> b >= 0x8000_0000) by (bit_vector);
    }
    let corrected_a = if (a >> 31) != 0 {
        product.wrapping_sub((b as u64) << 32)
    } else {
        product
    };
    let corrected_ab = if (b >> 31) != 0 {
        corrected_a.wrapping_sub((a as u64) << 32)
    } else {
        corrected_a
    };
    proof {
        let m: int = 0x1_0000_0000_0000_0000int;
        let k: int = 0x1_0000_0000;
        let sa: int = if a >= 0x8000_0000 { 1 } else { 0 };
        let sb: int = if b >= 0x8000_0000 { 1 } else { 0 };
        let ca = a * b - sa * (b * k);
        assert(corrected_a as int == ca % m) by {
            if sa == 1 {
                lemma_wrapping_sub_u64(product, ((b as u64) << 32u64));
            } else {
                vstd::arithmetic::div_mod::lemma_small_mod(product as nat, m as nat);
            }
        }
        let cab = ca - sb * (a * k);
        assert(corrected_ab as int == cab % m) by {
            if sb == 1 {
                lemma_wrapping_sub_u64(corrected_a, ((a as u64) << 32u64));
                vstd::arithmetic::div_mod::lemma_sub_mod_noop(ca, a * k, m);
                vstd::arithmetic::div_mod::lemma_mod_twice(ca, m);
            } else {
                vstd::arithmetic::div_mod::lemma_mod_twice(ca, m);
            }
        }
        let x = model::signed32(a) * model::signed32(b);
        lemma_signed_expansion(a as int, b as int, sa, sb, k);
        assert(x == cab + sa * sb * m);
        vstd::arithmetic::div_mod::lemma_mod_multiples_vanish(sa * sb, cab, m);
        assert(m * (sa * sb) + cab == cab + sa * sb * m) by (nonlinear_arith);
        lemma_high_word_of_residue(corrected_ab, x);
        model::lemma_u64_shifts(corrected_ab);
    }
    (corrected_ab >> 32) as u32
}

} // verus!
