//! Bit-level model of integer (de)serialization for scan payloads.
//!
//! A scan payload is an ordered sequence of booleans; the bit that sits at
//! index 0 is the first one shifted through the port.  An unsigned integer
//! enters such a payload either least-significant-bit first or
//! most-significant-bit first, and the decoder must invert the encoder
//! exactly for the same width and order.

use vstd::prelude::*;

verus! {

use vstd::arithmetic::div_mod::{lemma_div_denominator, lemma_fundamental_div_mod};
use vstd::arithmetic::power2::{
    lemma2_to64, lemma_pow2_adds, lemma_pow2_pos, lemma_pow2_strictly_increases,
    lemma_pow2_unfold, pow2,
};

/// Order in which an integer's bits enter a scan payload.
#[derive(Clone, Copy, Debug, PartialEq, Eq, Structural)]
pub enum JtagEndian {
    /// Most-significant bit first.
    Big,
    /// Least-significant bit first.
    Little,
}

/// Bit `i` of `v`, counting from the least significant end.
pub open spec fn bit_at(v: u128, i: nat) -> bool {
    (v as nat / pow2(i)) % 2 == 1
}

/// The `w` low bits of `v`, least significant first.
pub open spec fn le_bits(v: u128, w: nat) -> Seq<bool> {
    Seq::new(w, |i: int| bit_at(v, i as nat))
}

/// The `w` low bits of `v`, most significant first.
pub open spec fn be_bits(v: u128, w: nat) -> Seq<bool> {
    Seq::new(w, |i: int| bit_at(v, (w - 1 - i) as nat))
}

/// The payload bits that encode the `w`-bit integer `v` in order `e`.
pub open spec fn encoded_bits(v: u128, w: nat, e: JtagEndian) -> Seq<bool> {
    match e {
        JtagEndian::Big => be_bits(v, w),
        JtagEndian::Little => le_bits(v, w),
    }
}

/// The integer value of `s` read least-significant-bit first.
pub open spec fn val_le(s: Seq<bool>) -> nat
    decreases s.len(),
{
    if s.len() == 0 {
        0
    } else {
        (if s[0] {
            1nat
        } else {
            0nat
        }) + 2 * val_le(s.skip(1))
    }
}

/// The integer value of `s` read most-significant-bit first.
pub open spec fn val_be(s: Seq<bool>) -> nat {
    val_le(s.reverse())
}

/// The integer value of payload bits `s` under order `e`.
pub open spec fn decoded_val(s: Seq<bool>, e: JtagEndian) -> nat {
    match e {
        JtagEndian::Big => val_be(s),
        JtagEndian::Little => val_le(s),
    }
}

/// A payload of `n` bits can only hold values below `pow2(n)`.
pub proof fn lemma_val_le_bound(s: Seq<bool>)
    ensures
        val_le(s) < pow2(s.len()),
    decreases s.len(),
{
    if s.len() == 0 {
        lemma2_to64();
    } else {
        lemma_val_le_bound(s.skip(1));
        lemma_pow2_unfold(s.len());
    }
}

/// `pow2` is monotonic.
pub proof fn lemma_pow2_le(e1: nat, e2: nat)
    requires
        e1 <= e2,
    ensures
        pow2(e1) <= pow2(e2),
{
    if e1 < e2 {
        lemma_pow2_strictly_increases(e1, e2);
    }
}

/// `pow2(128)` is one past the largest `u128`.
pub proof fn lemma_pow2_128()
    ensures
        pow2(128) == 0x1_0000_0000_0000_0000_0000_0000_0000_0000nat,
{
    lemma_pow2_adds(64, 64);
    lemma2_to64();
}

/// Dropping the first payload bit halves the encoded value.
proof fn lemma_bit_at_div2(v: u128, i: nat)
    ensures
        bit_at(v, i + 1) == bit_at((v / 2) as u128, i),
{
    lemma_pow2_unfold(i + 1);
    lemma_pow2_pos(i);
    lemma_div_denominator(v as int, 2, pow2(i) as int);
}

/// Appending a bit shifts a most-significant-first value up by one place.
pub proof fn lemma_val_be_push(s: Seq<bool>, b: bool)
    ensures
        val_be(s.push(b)) == 2 * val_be(s) + (if b {
            1nat
        } else {
            0nat
        }),
{
    assert(s.push(b).reverse() =~= seq![b] + s.reverse());
    assert((seq![b] + s.reverse()).skip(1) =~= s.reverse());
}

/// The two bit orders encode the same bits, mirrored.
pub proof fn lemma_be_is_le_reversed(v: u128, w: nat)
    ensures
        be_bits(v, w).reverse() =~= le_bits(v, w),
{
}

/// Decoding a least-significant-first encoding returns the encoded value.
pub proof fn lemma_le_bits_round_trip(v: u128, w: nat)
    requires
        v < pow2(w),
    ensures
        val_le(le_bits(v, w)) == v,
    decreases w,
{
    if w == 0 {
        lemma2_to64();
        assert(le_bits(v, 0) =~= Seq::<bool>::empty());
    } else {
        let half = v / 2;
        assert forall|i: int| 0 <= i < w - 1 implies le_bits(v, w).skip(1)[i] == le_bits(
            half,
            (w - 1) as nat,
        )[i] by {
            lemma_bit_at_div2(v, i as nat);
        }
        assert(le_bits(v, w).skip(1) =~= le_bits(half, (w - 1) as nat));
        lemma_pow2_unfold(w);
        lemma_le_bits_round_trip(half, (w - 1) as nat);
        lemma2_to64();
        lemma_fundamental_div_mod(v as int, 2);
        assert(bit_at(v, 0) == (v % 2 == 1));
    }
}

/// For any unsigned value `v` that fits in `w` bits and either bit order,
/// decoding the encoding of `v` returns `v` exactly.
pub proof fn lemma_codec_round_trip(v: u128, w: nat, e: JtagEndian)
    requires
        v < pow2(w),
    ensures
        decoded_val(encoded_bits(v, w, e), e) == v,
{
    match e {
        JtagEndian::Little => lemma_le_bits_round_trip(v, w),
        JtagEndian::Big => {
            lemma_be_is_le_reversed(v, w);
            assert(be_bits(v, w).reverse() == le_bits(v, w));
            lemma_le_bits_round_trip(v, w);
        },
    }
}

/// Byte `i` of `v`, counting from the least significant end.
pub open spec fn byte_of(v: u128, i: nat) -> u8 {
    (((v as nat) / pow2(8 * i)) % 256) as u8
}

/// Reads byte `i` of `v`.
pub fn byte_get(v: u128, i: usize) -> (b: u8)
    requires
        i < 16,
    ensures
        b == byte_of(v, i as nat),
{
    let sh: u128 = v >> ((8 * i) as u128);
    proof {
        vstd::bits::lemma_u128_shr_is_div(v, (8 * i) as u128);
        assert((sh & 0xff) == (sh % 256)) by (bit_vector);
    }
    (sh & 0xff) as u8
}

/// Shifting a byte into the low end of a value moves every byte of the old
/// value up one place.
pub proof fn lemma_byte_of_step(acc: u128, b: u128, j: nat)
    requires
        b < 256,
        256 * acc + b <= u128::MAX,
    ensures
        byte_of((256 * acc + b) as u128, j + 1) == byte_of(acc, j),
        byte_of((256 * acc + b) as u128, 0) == b,
{
    let v: u128 = (256 * acc + b) as u128;
    lemma2_to64();
    vstd::arithmetic::div_mod::lemma_div_multiples_vanish_fancy(acc as int, b as int, 256);
    assert(v as int / 256 == acc as int);
    lemma_pow2_adds(8, 8 * j);
    lemma_pow2_pos(8 * j);
    lemma_div_denominator(v as int, 256, pow2(8 * j) as int);
    lemma_fundamental_div_mod(v as int, 256);
    vstd::arithmetic::div_mod::lemma_div_basics(v as int);
    assert(v as nat / pow2(0) == v as nat);
}

/// Reads bit `i` of `v`.  Relied on by the payload encoders.
pub fn bit_get(v: u128, i: usize) -> (b: bool)
    requires
        i < 128,
    ensures
        b == bit_at(v, i as nat),
{
    let sh: u128 = v >> (i as u128);
    proof {
        vstd::bits::lemma_u128_shr_is_div(v, i as u128);
        assert((sh & 1) == (sh % 2)) by (bit_vector);
    }
    (sh & 1) == 1
}

} // verus!
