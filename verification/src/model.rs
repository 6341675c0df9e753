//! Mathematical model of the RV32IM instruction encoding: bit fields and
//! immediates as arithmetic on the instruction word, and the lemmas that tie
//! the shift-and-mask code to that arithmetic.
use vstd::prelude::*;
use vstd::arithmetic::power2::{pow2, lemma2_to64};

verus! {

/// Bits `[lo, lo + width)` of `word`, read as an unsigned number.
pub open spec fn bits_of(word: u32, lo: nat, width: nat) -> nat {
    (word as nat / pow2(lo)) % pow2(width)
}

/// Major opcode: bits 6..0.
pub open spec fn opcode_of(word: u32) -> u8 {
    (word % 0x80) as u8
}

/// Destination register: bits 11..7.
pub open spec fn rd_of(word: u32) -> u8 {
    ((word / 0x80) % 0x20) as u8
}

/// funct3: bits 14..12.
pub open spec fn funct3_of(word: u32) -> u8 {
    ((word / 0x1000) % 0x8) as u8
}

/// First source register: bits 19..15.
pub open spec fn rs1_of(word: u32) -> u8 {
    ((word / 0x8000) % 0x20) as u8
}

/// Second source register (and shift amount): bits 24..20.
pub open spec fn rs2_of(word: u32) -> u8 {
    ((word / 0x100000) % 0x20) as u8
}

/// funct7: bits 31..25.
pub open spec fn funct7_of(word: u32) -> u8 {
    (word / 0x2000000) as u8
}

/// The 12-bit field in bits 31..20 (I-type immediate bits, CSR address).
pub open spec fn upper12_of(word: u32) -> u16 {
    (word / 0x100000) as u16
}

/// Two's-complement value of the low `width` bits of `value`.
pub open spec fn sext(value: int, width: nat) -> int {
    if width == 0 {
        0
    } else {
        let m = value % (pow2(width) as int);
        if m >= pow2((width - 1) as nat) {
            m - pow2(width)
        } else {
            m
        }
    }
}

/// The value of a word read as a signed 32-bit number.
pub open spec fn signed32(word: u32) -> int {
    if word >= 0x8000_0000 {
        word - 0x1_0000_0000
    } else {
        word as int
    }
}

/// Raw 12-bit S-type immediate: bits 31..25 then bits 11..7.
pub open spec fn s_raw(word: u32) -> int {
    funct7_of(word) * 0x20 + rd_of(word)
}

/// Raw 13-bit B-type immediate: imm[12|10:5] in bits 31..25, imm[4:1|11] in bits 11..7.
pub open spec fn b_raw(word: u32) -> int {
    (word / 0x8000_0000) * 0x1000
        + ((word / 0x80) % 2) * 0x800
        + ((word / 0x200_0000) % 0x40) * 0x20
        + ((word / 0x100) % 0x10) * 2
}

/// Raw 21-bit J-type immediate: imm[20|10:1|11|19:12] in bits 31..12.
pub open spec fn j_raw(word: u32) -> int {
    (word / 0x8000_0000) * 0x10_0000
        + ((word / 0x1000) % 0x100) * 0x1000
        + ((word / 0x10_0000) % 2) * 0x800
        + ((word / 0x20_0000) % 0x400) * 2
}

/// I-type immediate (loads, JALR, register-immediate arithmetic).
pub open spec fn imm_i_of(word: u32) -> i32 {
    sext((word / 0x100000) as int, 12) as i32
}

/// S-type immediate (stores).
pub open spec fn imm_s_of(word: u32) -> i32 {
    sext(s_raw(word), 12) as i32
}

/// B-type immediate (branches), always even.
pub open spec fn imm_b_of(word: u32) -> i32 {
    sext(b_raw(word), 13) as i32
}

/// U-type immediate (LUI, AUIPC): the upper 20 bits in place, low 12 bits zero.
pub open spec fn imm_u_of(word: u32) -> i32 {
    signed32((word - word % 0x1000) as u32) as i32
}

/// J-type immediate (JAL), always even.
pub open spec fn imm_j_of(word: u32) -> i32 {
    sext(j_raw(word), 21) as i32
}

/// Bit-level facts about extracting the fixed fields of an instruction word.
pub proof fn lemma_word_fields(w: u32)
    by (bit_vector)
    ensures
        w & 0x7f == w % 0x80,
        (w >> 7u32) & 0x1f == (w / 0x80) % 0x20,
        (w >> 12u32) & 0x7 == (w / 0x1000) % 0x8,
        (w >> 15u32) & 0x1f == (w / 0x8000) % 0x20,
        (w >> 20u32) & 0x1f == (w / 0x100000) % 0x20,
        (w >> 25u32) & 0x7f == w / 0x2000000,
        w >> 25u32 == w / 0x2000000,
        (w >> 20u32) & 0x0fff == w / 0x100000,
        w >> 20u32 == w / 0x100000,
        w >> 20u32 < 0x1000,
        w & 0xffff == w % 0x10000,
        (w >> 16u32) & 0xffff == w / 0x10000,
        w >> 16u32 == w / 0x10000,
        w & 0xffff_f000 == w - w % 0x1000,
        (w >> 28u32) & 0xf == w / 0x1000_0000,
        (w >> 24u32) & 0xf == (w / 0x100_0000) % 0x10,
        (w >> 20u32) & 0xf == (w / 0x10_0000) % 0x10,
        w & 0b11 == w % 4,
        w / 0x2000000 < 0x80,
        w / 0x8000_0000 < 2,
        w / 0x1000_0000 < 0x10,
        w as u16 == w % 0x10000,
        (w >> 16u32) as u16 == w / 0x10000,
        w as u8 == w % 0x100,
{
}

/// Arithmetic right shift of a left-aligned field is sign extension.
#[verifier::rlimit(60)]
pub proof fn lemma_shift_sext_bv(value: u32, shift: u32)
    by (bit_vector)
    requires
        shift < 32,
    ensures
        ({
            let m: u64 = 1u64 << ((32u64 - shift as u64) as u64);
            let r: u64 = (value as u64) & ((m - 1u64) as u64);
            (((value << shift) as i32) >> shift) as int
                == if r >= (m >> 1u64) { r as int - m as int } else { r as int }
        }),
{
}

/// `((value << (32 - width)) as i32) >> (32 - width)` is the sign extension of the
/// low `width` bits of `value`.
pub proof fn lemma_sign_extend_shift(value: u32, width: nat)
    requires
        1 <= width <= 32,
    ensures
        ((((value << ((32 - width) as u32)) as i32) >> ((32 - width) as u32)) as int)
            == sext(value as int, width),
{
    let shift = (32 - width) as u32;
    lemma_shift_sext_bv(value, shift);
    let m: u64 = 1u64 << ((32u64 - shift as u64) as u64);
    vstd::bits::lemma_u64_pow2_no_overflow(width);
    vstd::arithmetic::power2::lemma_pow2_unfold(width);
    vstd::bits::lemma_u64_shl_is_mul(1u64, width as u64);
    assert(m as int == pow2(width));
    assert((m >> 1u64) == m / 2) by (bit_vector);
    vstd::bits::lemma_low_bits_mask_unfold(width);
    vstd::bits::lemma_u64_low_bits_mask_is_mod(value as u64, width);
    assert(pow2(width) as int == 2 * pow2((width - 1) as nat));
}

/// Reading a word as `i32` gives its two's-complement value.
pub proof fn lemma_u32_as_i32(x: u32)
    by (bit_vector)
    ensures
        (x as i32) as int == if x >= 0x8000_0000 { x as int - 0x1_0000_0000 } else { x as int },
{
}

/// Shifts of 64-bit values by 16 and 32 as multiplication and division.
pub proof fn lemma_u64_shifts(x: u64)
    by (bit_vector)
    ensures
        x < 0x1_0000_0000_0000 ==> x << 16u64 == x * 0x10000,
        x < 0x1_0000_0000 ==> x << 32u64 == x * 0x1_0000_0000,
        x >> 32u64 == x / 0x1_0000_0000,
        x as u32 == x % 0x1_0000_0000,
{
}

/// An arithmetic right shift by 32 rounds down.
pub proof fn lemma_i64_shr32_bounds(x: i64)
    by (bit_vector)
    ensures
        (x >> 32u64) as int * 0x1_0000_0000 <= x as int,
        (x as int) < ((x >> 32u64) as int + 1) * 0x1_0000_0000,
{
}

/// An arithmetic right shift by 32 is floor division by 2^32.
pub proof fn lemma_i64_shr32(x: i64)
    ensures
        (x >> 32u64) as int == x as int / 0x1_0000_0000,
{
    lemma_i64_shr32_bounds(x);
    let q = (x >> 32u64) as int;
    vstd::arithmetic::div_mod::lemma_fundamental_div_mod_converse(
        x as int,
        0x1_0000_0000,
        q,
        x as int - q * 0x1_0000_0000,
    );
}

/// Schoolbook multiplication of two 32-bit numbers split into 16-bit limbs.
pub proof fn lemma_limb_product(a: u32, b: u32)
    ensures
        ({
            let (a0, a1, b0, b1) = (a % 0x10000, a / 0x10000, b % 0x10000, b / 0x10000);
            &&& a0 * b0 < 0x1_0000_0000
            &&& a0 * b1 < 0x1_0000_0000
            &&& a1 * b0 < 0x1_0000_0000
            &&& a1 * b1 < 0x1_0000_0000
            &&& a0 * b0 + (a0 * b1 + a1 * b0) * 0x10000 + a1 * b1 * 0x1_0000_0000 == a * b
            &&& a * b <= 0xffff_fffe_0000_0001
        }),
{
    let (a0, a1, b0, b1) = (a % 0x10000, a / 0x10000, b % 0x10000, b / 0x10000);
    assert(a == a0 + a1 * 0x10000);
    assert(b == b0 + b1 * 0x10000);
    assert(0 <= a0 < 0x10000 && 0 <= a1 < 0x10000 && 0 <= b0 < 0x10000 && 0 <= b1 < 0x10000);
    assert(a0 * b0 < 0x1_0000_0000 && a0 * b1 < 0x1_0000_0000 && a1 * b0 < 0x1_0000_0000
        && a1 * b1 < 0x1_0000_0000) by (nonlinear_arith)
        requires
            0 <= a0 < 0x10000,
            0 <= a1 < 0x10000,
            0 <= b0 < 0x10000,
            0 <= b1 < 0x10000,
    ;
    assert((a0 + a1 * 0x10000) * (b0 + b1 * 0x10000) == a0 * b0 + (a0 * b1 + a1 * b0) * 0x10000
        + a1 * b1 * 0x1_0000_0000) by (nonlinear_arith);
    assert(a * b <= 0xffff_ffff * 0xffff_ffff) by (nonlinear_arith)
        requires
            0 <= a <= 0xffff_ffff,
            0 <= b <= 0xffff_ffff,
    ;
}

/// Range of the product of two signed 32-bit values.
pub proof fn lemma_signed_product_bounds(a: int, b: int)
    requires
        -0x8000_0000 <= a < 0x8000_0000,
        -0x8000_0000 <= b < 0x8000_0000,
    ensures
        -0x4000_0000_0000_0000 < a * b <= 0x4000_0000_0000_0000,
        -0x8000_0000 <= (a * b) / 0x1_0000_0000 < 0x8000_0000,
{
    assert(-0x4000_0000_0000_0000 < a * b <= 0x4000_0000_0000_0000) by (nonlinear_arith)
        requires
            -0x8000_0000 <= a < 0x8000_0000,
            -0x8000_0000 <= b < 0x8000_0000,
    ;
}

/// Range of the product of a signed and an unsigned 32-bit value.
pub proof fn lemma_signed_unsigned_product_bounds(a: int, b: int)
    requires
        -0x8000_0000 <= a < 0x8000_0000,
        0 <= b < 0x1_0000_0000,
    ensures
        -0x8000_0000 * 0xffff_ffff <= a * b <= 0x7fff_ffff * 0xffff_ffff,
        -0x8000_0000 <= (a * b) / 0x1_0000_0000 < 0x8000_0000,
{
    assert(-0x8000_0000 * 0xffff_ffff <= a * b <= 0x7fff_ffff * 0xffff_ffff) by (nonlinear_arith)
        requires
            -0x8000_0000 <= a < 0x8000_0000,
            0 <= b < 0x1_0000_0000,
    ;
}

/// OR-ing fields shifted into disjoint bit ranges adds them.
pub proof fn lemma_pack_fields(a: u32, b: u32, c: u32, d: u32)
    by (bit_vector)
    ensures
        (a < 0x80 && b < 0x20) ==> (a << 5u32) | b == a * 0x20 + b,
        (a < 0x80 && b < 0x20) ==> b | (a << 5u32) == a * 0x20 + b,
        (a < 2 && b < 2 && c < 0x40 && d < 0x10) ==> (a << 12u32) | (b << 11u32) | (c << 5u32) | (d << 1u32)
            == a * 0x1000 + b * 0x800 + c * 0x20 + d * 2,
        (a < 2 && b < 2 && c < 0x40 && d < 0x10) ==> (d << 1u32) | (c << 5u32) | (b << 11u32) | (a << 12u32)
            == a * 0x1000 + b * 0x800 + c * 0x20 + d * 2,
        (a < 2 && b < 0x100 && c < 2 && d < 0x400) ==> (a << 20u32) | (b << 12u32) | (c << 11u32) | (d << 1u32)
            == a * 0x10_0000 + b * 0x1000 + c * 0x800 + d * 2,
        (a < 2 && b < 0x100 && c < 2 && d < 0x400) ==> (d << 1u32) | (c << 11u32) | (b << 12u32) | (a << 20u32)
            == a * 0x10_0000 + b * 0x1000 + c * 0x800 + d * 2,
{
}

/// `(word >> start) & ((1 << width) - 1)` is bits `[start, start + width)` of `word`.
pub proof fn lemma_bit_slice(word: u32, start: u32, width: u32)
    requires
        start < 32,
        width < 32,
    ensures
        (word >> start) & (((1u32 << width) - 1) as u32) == bits_of(word, start as nat, width as nat),
        (1u32 << width) as int == pow2(width as nat),
        (1u32 << width) >= 1,
{
    vstd::bits::lemma_u32_shr_is_div(word, start);
    vstd::bits::lemma_u32_pow2_no_overflow(width as nat);
    vstd::bits::lemma_u32_shl_is_mul(1u32, width);
    vstd::bits::lemma_u32_low_bits_mask_is_mod(word >> start, width as nat);
}

/// The single fields that the B-type and J-type immediates are assembled from.
pub proof fn lemma_immediate_fields(w: u32)
    by (bit_vector)
    ensures
        (w >> 31u32) & 0x1 == w / 0x8000_0000,
        w >> 31u32 == w / 0x8000_0000,
        (w >> 7u32) & 0x1 == (w / 0x80) % 2,
        (w >> 25u32) & 0x3f == (w / 0x200_0000) % 0x40,
        (w >> 8u32) & 0x0f == (w / 0x100) % 0x10,
        (w >> 12u32) & 0xff == (w / 0x1000) % 0x100,
        (w >> 20u32) & 0x1 == (w / 0x10_0000) % 2,
        (w >> 21u32) & 0x03ff == (w / 0x20_0000) % 0x400,
        (w >> 7u32) & 0x1f == (w / 0x80) % 0x20,
        (w >> 25u32) & 0x7f == w / 0x2000000,
{
}

/// A signed 32-bit value and its bit pattern as a word.
pub open spec fn as_word(a: int) -> int {
    if a < 0 { a + 0x1_0000_0000 } else { a }
}

/// Reinterpreting an `i32` as a `u32`, and its sign bit.
pub proof fn lemma_i32_as_u32(a: i32)
    by (bit_vector)
    ensures
        (a as u32) as int == if a < 0 { a as int + 0x1_0000_0000 } else { a as int },
        ((a as u32) >> 31u32) & 1 == if a < 0 { 1u32 } else { 0u32 },
{
}

/// The high word of a signed (or mixed) product from the high word of the
/// unsigned product of the bit patterns, minus a sign correction:
/// with `a = au - sa * 2^32` and `b = bu - sb * 2^32`,
/// `floor(a * b / 2^32) = floor(au * bu / 2^32) - (sa * bu + sb * au) (mod 2^32)`.
pub proof fn lemma_high_word_correction(a: int, b: int, au: int, bu: int, sa: int, sb: int)
    requires
        a == au - sa * 0x1_0000_0000,
        b == bu - sb * 0x1_0000_0000,
    ensures
        ((a * b) / 0x1_0000_0000) % 0x1_0000_0000
            == ((au * bu) / 0x1_0000_0000 - (sa * bu + sb * au)) % 0x1_0000_0000,
{
    let k: int = 0x1_0000_0000;
    let j = sa * sb * k - (sa * bu + sb * au);
    assert(a * b == au * bu + j * k) by (nonlinear_arith)
        requires
            a == au - sa * k,
            b == bu - sb * k,
            j == sa * sb * k - (sa * bu + sb * au),
            k == 0x1_0000_0000,
    ;
    vstd::arithmetic::div_mod::lemma_hoist_over_denominator(au * bu, j, k as nat);
    vstd::arithmetic::div_mod::lemma_mod_multiples_vanish(
        sa * sb,
        (au * bu) / k - (sa * bu + sb * au),
        k,
    );
    assert(k * (sa * sb) == sa * sb * k) by (nonlinear_arith);
}

/// Joining two 16-bit limbs into a word.
pub proof fn lemma_join16(low: u16, high: u16)
    by (bit_vector)
    ensures
        (low as u32) | ((high as u32) << 16u32) == low + high * 0x10000,
        ((high as u32) << 16u32) | (low as u32) == low + high * 0x10000,
{
}

/// The bit slices that the immediates are assembled from, as arithmetic.
pub proof fn lemma_immediate_slices(word: u32)
    ensures
        bits_of(word, 20, 12) == word / 0x100000,
        bits_of(word, 25, 7) == word / 0x2000000,
        bits_of(word, 7, 5) == (word / 0x80) % 0x20,
        bits_of(word, 31, 1) == word / 0x8000_0000,
        bits_of(word, 7, 1) == (word / 0x80) % 2,
        bits_of(word, 25, 6) == (word / 0x200_0000) % 0x40,
        bits_of(word, 8, 4) == (word / 0x100) % 0x10,
        bits_of(word, 12, 8) == (word / 0x1000) % 0x100,
        bits_of(word, 20, 1) == (word / 0x10_0000) % 2,
        bits_of(word, 21, 10) == (word / 0x20_0000) % 0x400,
        bits_of(word, 0, 7) == opcode_of(word),
        bits_of(word, 7, 5) == rd_of(word),
        bits_of(word, 12, 3) == funct3_of(word),
        bits_of(word, 15, 5) == rs1_of(word),
        bits_of(word, 20, 5) == rs2_of(word),
        bits_of(word, 25, 7) == funct7_of(word),
{
    lemma2_to64();
    lemma_word_fields(word);
}

/// Absolute value.
pub open spec fn abs(a: int) -> int {
    if a < 0 { -a } else { a }
}

/// Integer division rounding toward zero.
pub open spec fn trunc_div(a: int, b: int) -> int {
    if (a < 0) == (b < 0) { abs(a) / abs(b) } else { -(abs(a) / abs(b)) }
}

/// Remainder of division rounding toward zero; it has the sign of the dividend.
pub open spec fn trunc_rem(a: int, b: int) -> int {
    a - trunc_div(a, b) * b
}

/// RISC-V DIV: signed quotient; division by zero gives -1, and the one
/// overflowing case (`i32::MIN / -1`) gives `i32::MIN`.
pub open spec fn div_signed_of(a: i32, b: i32) -> int {
    if b == 0 {
        -1
    } else if a == i32::MIN && b == -1 {
        i32::MIN as int
    } else {
        trunc_div(a as int, b as int)
    }
}

/// RISC-V REM: signed remainder; division by zero gives the dividend, and the
/// overflowing case (`i32::MIN % -1`) gives 0.
pub open spec fn rem_signed_of(a: i32, b: i32) -> int {
    if b == 0 {
        a as int
    } else if a == i32::MIN && b == -1 {
        0
    } else {
        trunc_rem(a as int, b as int)
    }
}

/// RISC-V DIVU: unsigned quotient; division by zero gives `u32::MAX`.
pub open spec fn div_unsigned_of(a: u32, b: u32) -> int {
    if b == 0 { u32::MAX as int } else { a as int / b as int }
}

/// RISC-V REMU: unsigned remainder; division by zero gives the dividend.
pub open spec fn rem_unsigned_of(a: u32, b: u32) -> int {
    if b == 0 { a as int } else { a as int % b as int }
}

/// Euclidean division by a negative divisor.
pub proof fn lemma_div_neg_divisor(x: int, c: int)
    requires
        x >= 0,
        c > 0,
    ensures
        x / (-c) == -(x / c),
        x % (-c) == x % c,
{
    assert(x / (-c) == -(x / c) && x % (-c) == x % c) by (nonlinear_arith)
        requires
            x >= 0,
            c > 0,
    ;
}

/// Rust's `%` on signed integers (the remainder of truncating division), in
/// terms of Euclidean remainders.
pub proof fn lemma_trunc_rem(a: int, b: int)
    requires
        b != 0,
    ensures
        trunc_rem(a, b) == if a >= 0 { a % b } else { -((-a) % b) },
        trunc_div(a, b) * b + trunc_rem(a, b) == a,
        abs(trunc_rem(a, b)) < abs(b),
        trunc_rem(a, b) == 0 || (trunc_rem(a, b) < 0) == (a < 0),
{
    let (x, c) = (abs(a), abs(b));
    let q = x / c;
    let r = x % c;
    vstd::arithmetic::div_mod::lemma_fundamental_div_mod(x, c);
    vstd::arithmetic::div_mod::lemma_mod_pos_bound(x, c);
    assert(x == q * c + r) by (nonlinear_arith)
        requires
            x == c * q + r,
    ;
    if b < 0 {
        lemma_div_neg_divisor(x, c);
    }
    if a >= 0 && b > 0 {
        assert(trunc_div(a, b) == q);
    } else if a >= 0 && b < 0 {
        assert(trunc_div(a, b) == -q);
        assert(trunc_div(a, b) * b == q * c) by (nonlinear_arith)
            requires
                trunc_div(a, b) == -q,
                b == -c,
        ;
    } else if a < 0 && b > 0 {
        assert(trunc_div(a, b) * b == -(q * c)) by (nonlinear_arith)
            requires
                trunc_div(a, b) == -q,
                b == c,
        ;
    } else {
        assert(trunc_div(a, b) * b == -(q * c)) by (nonlinear_arith)
            requires
                trunc_div(a, b) == q,
                b == -c,
        ;
    }
}

/// The two 16-bit limbs of a word.
pub proof fn lemma_limb_split(w: u32)
    by (bit_vector)
    ensures
        (w & 0xffff) as u16 == w % 0x10000,
        (w >> 16u32) as u16 == w / 0x10000,
        w == (w % 0x10000) + (w / 0x10000) * 0x10000,
{
}

/// An arithmetic right shift by 32 of a 128-bit value rounds down.
pub proof fn lemma_i128_shr32_bounds(x: i128)
    by (bit_vector)
    ensures
        (x >> 32u128) as int * 0x1_0000_0000 <= x as int,
        (x as int) < ((x >> 32u128) as int + 1) * 0x1_0000_0000,
{
}

/// An arithmetic right shift by 32 of a 128-bit value is floor division by 2^32.
pub proof fn lemma_i128_shr32(x: i128)
    ensures
        (x >> 32u128) as int == x as int / 0x1_0000_0000,
{
    lemma_i128_shr32_bounds(x);
    let q = (x >> 32u128) as int;
    vstd::arithmetic::div_mod::lemma_fundamental_div_mod_converse(
        x as int,
        0x1_0000_0000,
        q,
        x as int - q * 0x1_0000_0000,
    );
}

/// The low word of a signed 64-bit value.
pub proof fn lemma_i64_as_u32_bv(x: i64)
    by (bit_vector)
    ensures
        (x as u32) as int + (x >> 32u64) as int * 0x1_0000_0000 == x as int,
{
}

/// Truncating a signed 64-bit value to 32 bits reduces it modulo 2^32.
pub proof fn lemma_i64_as_u32(x: i64)
    ensures
        (x as u32) as int == (x as int) % 0x1_0000_0000,
{
    lemma_i64_as_u32_bv(x);
    lemma_i64_shr32(x);
    vstd::arithmetic::div_mod::lemma_fundamental_div_mod_converse(
        x as int,
        0x1_0000_0000,
        (x >> 32u64) as int,
        (x as u32) as int,
    );
}

/// The U-immediate has its low 12 bits clear; the B- and J-immediates are even.
pub proof fn lemma_immediate_alignment(word: u32)
    ensures
        imm_u_of(word) % 0x1000 == 0,
        imm_b_of(word) % 2 == 0,
        imm_j_of(word) % 2 == 0,
{
    lemma2_to64();
    let u = word - word % 0x1000;
    assert(u % 0x1000 == 0) by {
        vstd::arithmetic::div_mod::lemma_sub_mod_noop(word as int, (word % 0x1000) as int, 0x1000);
        vstd::arithmetic::div_mod::lemma_mod_twice(word as int, 0x1000);
    }
    let b = b_raw(word);
    let j = j_raw(word);
    assert(0 <= b < 0x2000 && b % 2 == 0);
    assert(0 <= j < 0x20_0000 && j % 2 == 0);
    vstd::arithmetic::div_mod::lemma_small_mod(b as nat, 0x2000);
    vstd::arithmetic::div_mod::lemma_small_mod(j as nat, 0x20_0000);
}

/// The word of an R-type instruction with the given fields.
pub open spec fn r_type_word(funct7: u32, rs2: u32, rs1: u32, funct3: u32, rd: u32, opcode: u32) -> u32 {
    (funct7 * 0x200_0000 + rs2 * 0x10_0000 + rs1 * 0x8000 + funct3 * 0x1000 + rd * 0x80 + opcode) as u32
}

/// Encoding the fields of an R-type instruction and reading them back gives
/// the same fields.
pub proof fn law_r_type_fields_round_trip(funct7: u32, rs2: u32, rs1: u32, funct3: u32, rd: u32, opcode: u32)
    requires
        funct7 < 0x80,
        rs2 < 0x20,
        rs1 < 0x20,
        funct3 < 0x8,
        rd < 0x20,
        opcode < 0x80,
    ensures
        opcode_of(r_type_word(funct7, rs2, rs1, funct3, rd, opcode)) == opcode,
        rd_of(r_type_word(funct7, rs2, rs1, funct3, rd, opcode)) == rd,
        funct3_of(r_type_word(funct7, rs2, rs1, funct3, rd, opcode)) == funct3,
        rs1_of(r_type_word(funct7, rs2, rs1, funct3, rd, opcode)) == rs1,
        rs2_of(r_type_word(funct7, rs2, rs1, funct3, rd, opcode)) == rs2,
        funct7_of(r_type_word(funct7, rs2, rs1, funct3, rd, opcode)) == funct7,
{
    let w = r_type_word(funct7, rs2, rs1, funct3, rd, opcode);
    assert(w % 0x80 == opcode && (w / 0x80) % 0x20 == rd && (w / 0x1000) % 0x8 == funct3
        && (w / 0x8000) % 0x20 == rs1 && (w / 0x10_0000) % 0x20 == rs2 && w / 0x200_0000 == funct7)
        by (bit_vector)
        requires
            w == (funct7 * 0x200_0000 + rs2 * 0x10_0000 + rs1 * 0x8000 + funct3 * 0x1000 + rd * 0x80
                + opcode) as u32,
            funct7 < 0x80,
            rs2 < 0x20,
            rs1 < 0x20,
            funct3 < 0x8,
            rd < 0x20,
            opcode < 0x80,
    ;
}

/// Sign extension of a `width`-bit value that already fits in `width` bits.
proof fn lemma_sext_of_fitting(value: int, width: nat)
    requires
        1 <= width,
        0 <= value < pow2(width),
    ensures
        sext(value, width) == if value >= pow2((width - 1) as nat) { value - pow2(width) } else { value },
{
    vstd::arithmetic::div_mod::lemma_small_mod(value as nat, pow2(width));
}

/// The word of an S-type instruction: `imm[11:5]` in bits 31..25 and
/// `imm[4:0]` in bits 11..7.
pub open spec fn s_type_word(imm: i32, rs2: u32, rs1: u32, funct3: u32, opcode: u32) -> u32 {
    let imm12 = (imm as u32) & 0x0fff;
    (((imm12 >> 5u32) & 0x7f) << 25u32) | (rs2 << 20u32) | (rs1 << 15u32) | (funct3 << 12u32)
        | ((imm12 & 0x1f) << 7u32) | opcode
}

/// The word of a B-type instruction: `imm[12]` in bit 31, `imm[10:5]` in bits
/// 30..25, `imm[4:1]` in bits 11..8 and `imm[11]` in bit 7.
pub open spec fn b_type_word(imm: i32, rs2: u32, rs1: u32, funct3: u32, opcode: u32) -> u32 {
    let imm13 = (imm as u32) & 0x1fff;
    (((imm13 >> 12u32) & 0x1) << 31u32) | (((imm13 >> 5u32) & 0x3f) << 25u32) | (rs2 << 20u32)
        | (rs1 << 15u32) | (funct3 << 12u32) | (((imm13 >> 1u32) & 0x0f) << 8u32)
        | (((imm13 >> 11u32) & 0x1) << 7u32) | opcode
}

/// The word of a J-type instruction: `imm[20]` in bit 31, `imm[10:1]` in bits
/// 30..21, `imm[11]` in bit 20 and `imm[19:12]` in bits 19..12.
pub open spec fn j_type_word(imm: i32, rd: u32, opcode: u32) -> u32 {
    let imm21 = (imm as u32) & 0x1f_ffff;
    (((imm21 >> 20u32) & 0x1) << 31u32) | (((imm21 >> 1u32) & 0x03ff) << 21u32)
        | (((imm21 >> 11u32) & 0x1) << 20u32) | (((imm21 >> 12u32) & 0xff) << 12u32) | (rd << 7u32)
        | opcode
}

/// The S-immediate: every word's lies in -2048..=2047, with bits 11..5 taken
/// from word bits 31..25 and bits 4..0 from word bits 11..7; and encoding any
/// immediate in that range into an S-type word and reading it back gives it.
pub proof fn law_s_immediate(word: u32, imm: i32, rs2: u32, rs1: u32, funct3: u32, opcode: u32)
    ensures
        -2048 <= imm_s_of(word) <= 2047,
        (imm_s_of(word) % 0x1000) / 0x20 == word / 0x200_0000,
        imm_s_of(word) % 0x20 == (word / 0x80) % 0x20,
        -2048 <= imm <= 2047 && rs2 < 32 && rs1 < 32 && funct3 < 8 && opcode < 0x80
            ==> imm_s_of(s_type_word(imm, rs2, rs1, funct3, opcode)) == imm,
{
    lemma2_to64();
    let v = s_raw(word);
    lemma_sext_of_fitting(v, 12);
    let x = if v >= 2048 { v - 4096 } else { v };
    assert(x % 0x1000 == v) by {
        if v >= 2048 {
            vstd::arithmetic::div_mod::lemma_fundamental_div_mod_converse(x, 0x1000, -1, v);
        } else {
            vstd::arithmetic::div_mod::lemma_small_mod(v as nat, 0x1000);
        }
    }
    vstd::arithmetic::div_mod::lemma_fundamental_div_mod_converse(v, 0x20, funct7_of(word) as int, rd_of(word) as int);
    assert(x % 0x20 == v % 0x20) by {
        if v >= 2048 {
            vstd::arithmetic::div_mod::lemma_mod_sub_multiples_vanish(v, 0x20);
            assert(x == v - 128 * 0x20);
            vstd::arithmetic::div_mod::lemma_mod_multiples_vanish(-128, v, 0x20);
            assert(0x20 * -128 + v == x);
        }
    }
    if -2048 <= imm <= 2047 && rs2 < 32 && rs1 < 32 && funct3 < 8 && opcode < 0x80 {
        let w = s_type_word(imm, rs2, rs1, funct3, opcode);
        assert((w / 0x200_0000) * 0x20 + (w / 0x80) % 0x20
            == if imm >= 0 { imm as int } else { imm + 0x1000 }) by (bit_vector)
            requires
                w == (((((imm as u32) & 0x0fff) >> 5u32) & 0x7f) << 25u32) | (rs2 << 20u32) | (rs1
                    << 15u32) | (funct3 << 12u32) | ((((imm as u32) & 0x0fff) & 0x1f) << 7u32) | opcode,
                -2048 <= imm <= 2047,
                rs2 < 32,
                rs1 < 32,
                funct3 < 8,
                opcode < 0x80,
        ;
        lemma_sext_of_fitting(s_raw(w), 12);
    }
}

/// The B-immediate: every word's is even and lies in -4096..=4094; and
/// encoding any even immediate in that range into a B-type word and reading it
/// back gives it.
pub proof fn law_b_immediate(word: u32, imm: i32, rs2: u32, rs1: u32, funct3: u32, opcode: u32)
    ensures
        imm_b_of(word) % 2 == 0,
        -4096 <= imm_b_of(word) <= 4094,
        -4096 <= imm <= 4094 && imm % 2 == 0 && rs2 < 32 && rs1 < 32 && funct3 < 8 && opcode < 0x80
            ==> imm_b_of(b_type_word(imm, rs2, rs1, funct3, opcode)) == imm,
{
    lemma2_to64();
    lemma_immediate_alignment(word);
    lemma_sext_of_fitting(b_raw(word), 13);
    if -4096 <= imm <= 4094 && imm % 2 == 0 && rs2 < 32 && rs1 < 32 && funct3 < 8 && opcode < 0x80 {
        let w = b_type_word(imm, rs2, rs1, funct3, opcode);
        assert((w / 0x8000_0000) * 0x1000 + ((w / 0x80) % 2) * 0x800 + ((w / 0x200_0000) % 0x40) * 0x20
            + ((w / 0x100) % 0x10) * 2 == if imm >= 0 { imm as int } else { imm + 0x2000 })
            by (bit_vector)
            requires
                w == ((((((imm as u32) & 0x1fff) >> 12u32) & 0x1) << 31u32) | (((((imm as u32)
                    & 0x1fff) >> 5u32) & 0x3f) << 25u32) | (rs2 << 20u32) | (rs1 << 15u32) | (funct3
                    << 12u32) | (((((imm as u32) & 0x1fff) >> 1u32) & 0x0f) << 8u32) | (((((imm as u32)
                    & 0x1fff) >> 11u32) & 0x1) << 7u32) | opcode),
                -4096 <= imm <= 4094,
                imm % 2 == 0,
                rs2 < 32,
                rs1 < 32,
                funct3 < 8,
                opcode < 0x80,
        ;
        lemma_sext_of_fitting(b_raw(w), 13);
    }
}

/// The J-immediate: every word's is even and lies in -1048576..=1048574; and
/// encoding any even immediate in that range into a J-type word and reading it
/// back gives it.
pub proof fn law_j_immediate(word: u32, imm: i32, rd: u32, opcode: u32)
    ensures
        imm_j_of(word) % 2 == 0,
        -0x10_0000 <= imm_j_of(word) <= 0xf_fffe,
        -0x10_0000 <= imm <= 0xf_fffe && imm % 2 == 0 && rd < 32 && opcode < 0x80
            ==> imm_j_of(j_type_word(imm, rd, opcode)) == imm,
{
    lemma2_to64();
    lemma_immediate_alignment(word);
    lemma_sext_of_fitting(j_raw(word), 21);
    if -0x10_0000 <= imm <= 0xf_fffe && imm % 2 == 0 && rd < 32 && opcode < 0x80 {
        let w = j_type_word(imm, rd, opcode);
        assert((w / 0x8000_0000) * 0x10_0000 + ((w / 0x1000) % 0x100) * 0x1000 + ((w / 0x10_0000) % 2)
            * 0x800 + ((w / 0x20_0000) % 0x400) * 2 == if imm >= 0 { imm as int } else { imm + 0x20_0000 })
            by (bit_vector)
            requires
                w == ((((((imm as u32) & 0x1f_ffff) >> 20u32) & 0x1) << 31u32) | (((((imm as u32)
                    & 0x1f_ffff) >> 1u32) & 0x03ff) << 21u32) | (((((imm as u32) & 0x1f_ffff) >> 11u32)
                    & 0x1) << 20u32) | (((((imm as u32) & 0x1f_ffff) >> 12u32) & 0xff) << 12u32) | (rd
                    << 7u32) | opcode),
                -0x10_0000 <= imm <= 0xf_fffe,
                imm % 2 == 0,
                rd < 32,
                opcode < 0x80,
        ;
        lemma_sext_of_fitting(j_raw(w), 21);
    }
}

/// Any integer modulo 2^64 is its high word (modulo 2^32) times 2^32 plus
/// its low word.
pub proof fn lemma_high_low_split(p: int)
    ensures
        0 <= (p / 0x1_0000_0000) % 0x1_0000_0000 < 0x1_0000_0000,
        ((p / 0x1_0000_0000) % 0x1_0000_0000) * 0x1_0000_0000 + p % 0x1_0000_0000
            == p % 0x1_0000_0000_0000_0000,
{
    let k: int = 0x1_0000_0000;
    let q = p / k;
    let r = p % k;
    vstd::arithmetic::div_mod::lemma_fundamental_div_mod(p, k);
    vstd::arithmetic::div_mod::lemma_fundamental_div_mod(q, k);
    vstd::arithmetic::div_mod::lemma_mod_bound(p, k);
    vstd::arithmetic::div_mod::lemma_mod_bound(q, k);
    let (q1, q0) = (q / k, q % k);
    assert(p == q1 * (k * k) + (q0 * k + r) && 0 <= q0 * k + r < k * k) by (nonlinear_arith)
        requires
            p == k * q + r,
            q == k * q1 + q0,
            0 <= q0 < k,
            0 <= r < k,
    ;
    vstd::arithmetic::div_mod::lemma_fundamental_div_mod_converse(p, k * k, q1, q0 * k + r);
}

/// Products that agree modulo 2^32 have the same low word.
pub proof fn lemma_low_word_of_congruent(x: int, y: int, u: int, v: int)
    requires
        x % 0x1_0000_0000 == u % 0x1_0000_0000,
        y % 0x1_0000_0000 == v % 0x1_0000_0000,
    ensures
        (x * y) % 0x1_0000_0000 == (u * v) % 0x1_0000_0000,
{
    vstd::arithmetic::div_mod::lemma_mul_mod_noop(x, y, 0x1_0000_0000);
    vstd::arithmetic::div_mod::lemma_mul_mod_noop(u, v, 0x1_0000_0000);
}

/// A word and its signed reading agree modulo 2^32.
pub proof fn lemma_signed32_congruent(w: u32)
    ensures
        signed32(w) % 0x1_0000_0000 == (w as int) % 0x1_0000_0000,
{
    if w >= 0x8000_0000 {
        vstd::arithmetic::div_mod::lemma_mod_sub_multiples_vanish(w as int, 0x1_0000_0000);
    }
}

} // verus!
