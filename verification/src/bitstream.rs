//! The mathematical model of a byte window as a sequence of bits, and of the
//! four kinds of integer read from it.

use vstd::prelude::*;
use vstd::arithmetic::power2::{
    pow2, lemma_pow2_adds, lemma_pow2_strictly_increases, lemma_pow2_unfold, lemma2_to64,
    lemma2_to64_rest,
};
use crate::error::ObuError;

verus! {

/// A variable-length code of this many leading zero bits or more is too long.
pub const UVLC_MAX_ZEROS: usize = 32;

/// A little-endian base-128 number of more than this many bytes is too long.
pub const LEB128_MAX_BYTES: usize = 8;

/// Bit `i` of the window, most significant bit of each byte first.
pub open spec fn bit_at(bytes: Seq<u8>, i: int) -> bool {
    (bytes[i / 8] >> ((7 - i % 8) as u8)) & 1u8 == 1u8
}

/// The window as a sequence of bits.
pub open spec fn stream_of(bytes: Seq<u8>) -> Seq<bool> {
    Seq::new(8 * bytes.len(), |i: int| bit_at(bytes, i))
}

/// What decoding one syntax element at a position yields: the value and the
/// position behind it, or the failure.
pub type Decoded<T> = Result<(T, int), ObuError>;

/// The unsigned number written by the `n` bits from `pos` on, first bit most significant.
pub open spec fn bits_value(s: Seq<bool>, pos: int, n: nat) -> nat
    decreases n,
{
    if n == 0 {
        0
    } else {
        2 * bits_value(s, pos, (n - 1) as nat) + if s[pos + n - 1] { 1nat } else { 0nat }
    }
}

/// One bit at `pos`.
pub open spec fn spec_bit(s: Seq<bool>, pos: int) -> Decoded<bool> {
    if pos + 1 <= s.len() {
        Ok((s[pos], pos + 1))
    } else {
        Err(ObuError::Truncated)
    }
}

/// A fixed-width field of `n` bits at `pos`, for `n` up to 32.
pub open spec fn spec_bits(s: Seq<bool>, pos: int, n: nat) -> Decoded<u32> {
    if pos + n <= s.len() {
        Ok((bits_value(s, pos, n) as u32, pos + n))
    } else {
        Err(ObuError::Truncated)
    }
}

/// The number of zero bits in front of the first one bit at or behind
/// `pos + k`, given that the `k` bits from `pos` on are zero.
pub open spec fn uvlc_zeros(s: Seq<bool>, pos: int, k: nat) -> Result<nat, ObuError>
    decreases UVLC_MAX_ZEROS - k,
{
    if k >= UVLC_MAX_ZEROS {
        Err(ObuError::Overflow)
    } else if pos + k + 1 > s.len() {
        Err(ObuError::Truncated)
    } else if s[pos + k] {
        Ok(k)
    } else {
        uvlc_zeros(s, pos, k + 1)
    }
}

/// A variable-length code at `pos`: `k` zero bits, a one bit, and `k` more
/// bits that are added to `2^k - 1`.
pub open spec fn spec_uvlc(s: Seq<bool>, pos: int) -> Decoded<u32> {
    match uvlc_zeros(s, pos, 0) {
        Err(e) => Err(e),
        Ok(k) => if pos + 2 * k + 1 <= s.len() {
            Ok(((pow2(k) - 1 + bits_value(s, pos + k + 1, k)) as u32, pos + 2 * k + 1))
        } else {
            Err(ObuError::Truncated)
        },
    }
}

/// Byte `i` of the little-endian base-128 number at `pos`.
pub open spec fn leb128_byte(s: Seq<bool>, pos: int, i: nat) -> nat {
    bits_value(s, pos + 8 * i, 8)
}

/// The index of the first byte without the continuation bit at or behind
/// byte `i`, given that the `i` bytes from `pos` on have it.
pub open spec fn leb128_last(s: Seq<bool>, pos: int, i: nat) -> Result<nat, ObuError>
    decreases LEB128_MAX_BYTES - i,
{
    if i >= LEB128_MAX_BYTES {
        Err(ObuError::Overflow)
    } else if pos + 8 * (i + 1) > s.len() {
        Err(ObuError::Truncated)
    } else if leb128_byte(s, pos, i) < 128 {
        Ok(i)
    } else {
        leb128_last(s, pos, i + 1)
    }
}

/// The low seven bits of each of the first `n` bytes at `pos`, those of byte
/// `i` shifted left by `7 * i`, added up.
pub open spec fn leb128_sum(s: Seq<bool>, pos: int, n: nat) -> nat
    decreases n,
{
    if n == 0 {
        0
    } else {
        leb128_sum(s, pos, (n - 1) as nat) + (leb128_byte(s, pos, (n - 1) as nat) % 128) * pow2(
            (7 * (n - 1)) as nat,
        )
    }
}

/// A little-endian base-128 number at `pos`.
pub open spec fn spec_leb128(s: Seq<bool>, pos: int) -> Decoded<u64> {
    match leb128_last(s, pos, 0) {
        Err(e) => Err(e),
        Ok(last) => Ok((leb128_sum(s, pos, last + 1) as u64, pos + 8 * (last + 1))),
    }
}

/// The weight of bit `i` of a byte, counted from the least significant, where
/// that bit is set, else zero.
spec fn place(b: u8, i: u8, weight: u32) -> u32 {
    if (b >> i) & 1u8 == 1u8 {
        weight
    } else {
        0u32
    }
}

/// The eight bits of a byte of the window write that byte.
pub proof fn lemma_aligned_byte(bytes: Seq<u8>, j: int)
    requires
        0 <= j < bytes.len(),
    ensures
        bits_value(stream_of(bytes), 8 * j, 8) == bytes[j],
{
    let s = stream_of(bytes);
    let b = bytes[j];
    assert forall|i: int| 0 <= i < 8 implies #[trigger] s[8 * j + i] == ((b >> ((7 - i) as u8)) & 1u8
        == 1u8) by {
        assert((8 * j + i) / 8 == j);
        assert((8 * j + i) % 8 == i);
        assert(s[8 * j + i] == bit_at(bytes, 8 * j + i));
    }
    assert(s[8 * j + 0] == ((b >> 7u8) & 1u8 == 1u8));
    assert(s[8 * j + 1] == ((b >> 6u8) & 1u8 == 1u8));
    assert(s[8 * j + 2] == ((b >> 5u8) & 1u8 == 1u8));
    assert(s[8 * j + 3] == ((b >> 4u8) & 1u8 == 1u8));
    assert(s[8 * j + 4] == ((b >> 3u8) & 1u8 == 1u8));
    assert(s[8 * j + 5] == ((b >> 2u8) & 1u8 == 1u8));
    assert(s[8 * j + 6] == ((b >> 1u8) & 1u8 == 1u8));
    assert(s[8 * j + 7] == ((b >> 0u8) & 1u8 == 1u8));
    assert(place(b, 7, 128) + place(b, 6, 64) + place(b, 5, 32) + place(b, 4, 16) + place(b, 3, 8)
        + place(b, 2, 4) + place(b, 1, 2) + place(b, 0, 1) == b as u32) by (bit_vector);
    reveal_with_fuel(bits_value, 9);
}

/// A field is its first `a` bits, shifted left by the rest's width, plus the
/// rest as a field of its own.
pub proof fn lemma_bits_value_split(s: Seq<bool>, pos: int, a: nat, b: nat)
    ensures
        bits_value(s, pos, a + b) == bits_value(s, pos, a) * pow2(b) + bits_value(s, pos + a, b),
    decreases b,
{
    if b == 0 {
        lemma2_to64();
    } else {
        lemma_bits_value_split(s, pos, a, (b - 1) as nat);
        lemma_pow2_unfold(b);
        let high = bits_value(s, pos, a) as int;
        let half = pow2((b - 1) as nat) as int;
        assert(2 * (high * half) == high * (2 * half)) by (nonlinear_arith);
    }
}

/// A field of `n` bits is below `2^n`.
pub proof fn lemma_bits_value_bound(s: Seq<bool>, pos: int, n: nat)
    ensures
        bits_value(s, pos, n) < pow2(n),
    decreases n,
{
    if n == 0 {
        lemma2_to64();
    } else {
        lemma_bits_value_bound(s, pos, (n - 1) as nat);
        lemma_pow2_unfold(n);
    }
}

/// A fixed-width field of up to 32 bits lies inside the window, and its
/// value is the number that its bits write.
pub proof fn lemma_bits_exact(s: Seq<bool>, pos: int, n: nat)
    requires
        n <= 32,
    ensures
        spec_bits(s, pos, n) matches Ok((v, end)) ==> {
            &&& v == bits_value(s, pos, n)
            &&& v < pow2(n)
            &&& end == pos + n
            &&& end <= s.len()
        },
{
    lemma_bits_value_bound(s, pos, n);
    lemma2_to64();
    if n < 32 {
        lemma_pow2_strictly_increases(n, 32);
    }
}

/// Where a count of leading zero bits is found, fewer than 32 bits are in
/// front of the one bit that ends it, and all of them from bit `k` on are zero.
pub proof fn lemma_uvlc_zeros(s: Seq<bool>, pos: int, k: nat)
    ensures
        uvlc_zeros(s, pos, k) matches Ok(zeros) ==> {
            &&& k <= zeros < UVLC_MAX_ZEROS
            &&& pos + zeros + 1 <= s.len()
            &&& s[pos + zeros]
            &&& forall|j: int| pos + k <= j < pos + zeros ==> !s[j]
        },
    decreases UVLC_MAX_ZEROS - k,
{
    if k < UVLC_MAX_ZEROS && pos + k + 1 <= s.len() && !s[pos + k] {
        lemma_uvlc_zeros(s, pos, k + 1);
    }
}

/// A variable-length code that is read has `zeros` zero bits, a one bit and
/// `zeros` more bits, all inside the window, and its value is `2^zeros - 1`
/// plus the number that these bits write. It is below `2^32 - 1`.
pub proof fn lemma_uvlc_exact(s: Seq<bool>, pos: int)
    ensures
        spec_uvlc(s, pos) matches Ok((v, end)) ==> {
            &&& uvlc_zeros(s, pos, 0) matches Ok(zeros)
            &&& v == pow2(zeros) - 1 + bits_value(s, pos + zeros + 1, zeros)
            &&& v < u32::MAX
            &&& end == pos + 2 * zeros + 1
            &&& end <= s.len()
        },
{
    if let Ok(zeros) = uvlc_zeros(s, pos, 0) {
        lemma_uvlc_zeros(s, pos, 0);
        lemma_bits_value_bound(s, pos + zeros + 1, zeros);
        lemma2_to64();
        if zeros < 31 {
            lemma_pow2_strictly_increases(zeros, 31);
        }
    }
}

/// Where the last byte of a base-128 number is found, it is one of the
/// first eight, it lies inside the window, its high bit is clear, and the
/// high bit of every byte in front of it, from byte `i` on, is set.
pub proof fn lemma_leb128_last(s: Seq<bool>, pos: int, i: nat)
    ensures
        leb128_last(s, pos, i) matches Ok(last) ==> {
            &&& i <= last < LEB128_MAX_BYTES
            &&& pos + 8 * (last + 1) <= s.len()
            &&& leb128_byte(s, pos, last) < 128
            &&& forall|j: nat| i <= j < last ==> #[trigger] leb128_byte(s, pos, j) >= 128
        },
    decreases LEB128_MAX_BYTES - i,
{
    if i < LEB128_MAX_BYTES && pos + 8 * (i + 1) <= s.len() && leb128_byte(s, pos, i) >= 128 {
        lemma_leb128_last(s, pos, i + 1);
    }
}

/// The sum of the first `n` bytes of a base-128 number is below `2^(7 n)`.
pub proof fn lemma_leb128_sum_bound(s: Seq<bool>, pos: int, n: nat)
    ensures
        leb128_sum(s, pos, n) < pow2(7 * n),
    decreases n,
{
    if n == 0 {
        lemma2_to64();
    } else {
        let m = (n - 1) as nat;
        lemma_leb128_sum_bound(s, pos, m);
        lemma_pow2_adds(7 * m, 7);
        lemma2_to64();
        let low = (leb128_byte(s, pos, m) % 128) as int;
        let scale = pow2(7 * m) as int;
        assert(low * scale <= 127 * scale) by (nonlinear_arith)
            requires
                low <= 127,
                scale >= 0,
        ;
        assert(pow2(7 * n) == scale * 128);
        assert((7 * (n - 1)) as nat == 7 * m);
    }
}

/// A base-128 number that is read ends inside the window, and its value is
/// the sum of its bytes' low seven bits, each shifted by its place. It is
/// below `2^56`.
pub proof fn lemma_leb128_exact(s: Seq<bool>, pos: int)
    ensures
        spec_leb128(s, pos) matches Ok((v, end)) ==> {
            &&& leb128_last(s, pos, 0) matches Ok(last)
            &&& v == leb128_sum(s, pos, last + 1)
            &&& v < 0x100_0000_0000_0000
            &&& end == pos + 8 * (last + 1)
            &&& end <= s.len()
        },
{
    if let Ok(last) = leb128_last(s, pos, 0) {
        lemma_leb128_last(s, pos, 0);
        lemma_leb128_sum_bound(s, pos, last + 1);
        lemma2_to64_rest();
        if last + 1 < 8 {
            lemma_pow2_strictly_increases(7 * (last + 1), 56);
        }
    }
}

} // verus!
