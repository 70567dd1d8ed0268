//! A cursor over a byte window that hands out bits, most significant first.

use vstd::prelude::*;
use vstd::arithmetic::power2::{
    pow2, lemma_pow2_adds, lemma_pow2_strictly_increases, lemma_pow2_unfold, lemma2_to64,
    lemma2_to64_rest,
};
use crate::error::ObuError;
use crate::bitstream::{
    bit_at, stream_of, bits_value, spec_bit, spec_bits, spec_uvlc, spec_leb128, uvlc_zeros,
    leb128_byte, leb128_last, leb128_sum, lemma_bits_value_bound, Decoded, UVLC_MAX_ZEROS,
    LEB128_MAX_BYTES,
};

verus! {

/// A byte window and the position of the next unread bit. Every read moves
/// the position forward or leaves it; none moves it back.
#[derive(Debug)]
pub struct BitReader<'a> {
    data: &'a [u8],
    /// Index of the byte that holds the next unread bit.
    byte_pos: usize,
    /// How many bits of that byte are already consumed.
    bit_off: u8,
}

impl<'a> BitReader<'a> {
    /// The cursor stands inside the window or at its end.
    #[verifier::type_invariant]
    pub closed spec fn inv(self) -> bool {
        &&& self.byte_pos <= self.data@.len()
        &&& self.bit_off < 8
        &&& self.byte_pos == self.data@.len() ==> self.bit_off == 0
    }

    /// The position of a reader is a position of its stream.
    pub proof fn lemma_position_in_window(self)
        requires
            self.inv(),
        ensures
            0 <= self.position() <= self.stream().len(),
    {
    }

    /// The bytes of the window.
    pub closed spec fn bytes(self) -> Seq<u8> {
        self.data@
    }

    /// The bits of the window.
    pub open spec fn stream(self) -> Seq<bool> {
        stream_of(self.bytes())
    }

    /// How many bits have been consumed.
    pub closed spec fn position(self) -> int {
        8 * self.byte_pos + self.bit_off
    }

    /// `self` turned into `after` by a read that returned `r`, as `expected` says:
    /// the window is the same, the cursor did not move back, and on success it
    /// stands behind the element.
    pub open spec fn advanced<T>(
        self,
        after: Self,
        r: Result<T, ObuError>,
        expected: Decoded<T>,
    ) -> bool {
        &&& after.bytes() == self.bytes()
        &&& self.position() <= after.position() <= after.stream().len()
        &&& match expected {
            Ok((v, end)) => r == Ok::<T, ObuError>(v) && after.position() == end,
            Err(e) => r == Err::<T, ObuError>(e),
        }
    }

    /// A reader at the first bit of `data`.
    pub fn new(data: &'a [u8]) -> (r: Self)
        ensures
            r.bytes() == data@,
            r.position() == 0,
    {
        BitReader { data, byte_pos: 0, bit_off: 0 }
    }

    /// The number of whole bytes that have been consumed.
    pub fn byte_position(&self) -> (n: usize)
        ensures
            n == self.position() / 8,
    {
        proof {
            use_type_invariant(self);
        }
        self.byte_pos
    }

    /// The number of bits that have been consumed of the byte at
    /// `byte_position()`.
    pub fn bit_offset(&self) -> (n: u8)
        ensures
            n == self.position() % 8,
    {
        proof {
            use_type_invariant(self);
        }
        self.bit_off
    }

    /// The next bit, which the window still holds.
    fn take_bit(&mut self) -> (b: bool)
        requires
            old(self).position() < old(self).stream().len(),
        ensures
            final(self).bytes() == old(self).bytes(),
            final(self).position() == old(self).position() + 1,
            b == old(self).stream()[old(self).position()],
    {
        proof {
            use_type_invariant(&*self);
        }
        let byte = self.data[self.byte_pos];
        let b = (byte >> (7 - self.bit_off)) & 1 == 1;
        assert(b == bit_at(self.data@, self.position()));
        if self.bit_off == 7 {
            *self = BitReader { data: self.data, byte_pos: self.byte_pos + 1, bit_off: 0 };
        } else {
            *self = BitReader {
                data: self.data,
                byte_pos: self.byte_pos,
                bit_off: self.bit_off + 1,
            };
        }
        b
    }

    /// Whether `n` more bits can be read.
    fn has(&self, n: usize) -> (r: bool)
        requires
            n <= 64,
        ensures
            r == (self.position() + n <= self.stream().len()),
            self.position() <= self.stream().len(),
    {
        proof {
            use_type_invariant(self);
        }
        let left: usize = self.data.len() - self.byte_pos;
        left > 8 || left * 8 - self.bit_off as usize >= n
    }

    /// Reads the next bit as a flag. At the end of the window it fails as
    /// truncated and reads nothing.
    pub fn bit(&mut self) -> (r: Result<bool, ObuError>)
        ensures
            old(self).advanced(*final(self), r, spec_bit(old(self).stream(), old(self).position())),
            r is Err ==> final(self).position() == old(self).position(),
    {
        if !self.has(1) {
            return Err(ObuError::Truncated);
        }
        Ok(self.take_bit())
    }

    /// Reads the next `n` bits as an unsigned number, first bit most
    /// significant. Where the window has fewer than `n` bits left, it fails as
    /// truncated and reads nothing.
    pub fn bits(&mut self, n: usize) -> (r: Result<u32, ObuError>)
        requires
            n <= 32,
        ensures
            old(self).advanced(
                *final(self),
                r,
                spec_bits(old(self).stream(), old(self).position(), n as nat),
            ),
            r is Err ==> final(self).position() == old(self).position(),
            r matches Ok(v) ==> v == bits_value(old(self).stream(), old(self).position(), n as nat),
    {
        if !self.has(n) {
            return Err(ObuError::Truncated);
        }
        let mut v: u64 = 0;
        let mut i: usize = 0;
        while i < n
            invariant
                i <= n <= 32,
                self.bytes() == old(self).bytes(),
                self.position() == old(self).position() + i,
                old(self).position() + n <= old(self).stream().len(),
                v == bits_value(old(self).stream(), old(self).position(), i as nat),
            decreases n - i,
        {
            proof {
                lemma_bits_value_bound(old(self).stream(), old(self).position(), i as nat);
                lemma2_to64();
                if i < 32 {
                    lemma_pow2_strictly_increases(i as nat, 32);
                }
            }
            let b = self.take_bit();
            v = 2 * v + if b { 1 } else { 0 };
            i = i + 1;
        }
        proof {
            lemma_bits_value_bound(old(self).stream(), old(self).position(), n as nat);
            lemma2_to64();
            if n < 32 {
                lemma_pow2_strictly_increases(n as nat, 32);
            }
        }
        Ok(v as u32)
    }

    /// Reads the next variable-length code: the count `k` of zero bits up to
    /// the first one bit, then `k` bits that are added to `2^k - 1`. Where the
    /// window ends inside the code, it fails as truncated. A code of 32 zero
    /// bits or more stands for a number that 32 bits cannot hold: it fails as
    /// overflow.
    pub fn uvlc(&mut self) -> (r: Result<u32, ObuError>)
        ensures
            old(self).advanced(
                *final(self),
                r,
                spec_uvlc(old(self).stream(), old(self).position()),
            ),
            r matches Ok(v) ==> v < u32::MAX,
    {
        let mut k: usize = 0;
        let mut base: u64 = 1;
        let mut found = false;
        proof {
            use_type_invariant(&*self);
            lemma2_to64();
        }
        while !found
            invariant
                k <= UVLC_MAX_ZEROS,
                found ==> k < UVLC_MAX_ZEROS,
                base == pow2(k as nat),
                base <= 0x1_0000_0000,
                self.bytes() == old(self).bytes(),
                self.position() == old(self).position() + k + if found { 1int } else { 0int },
                self.position() <= self.stream().len(),
                uvlc_zeros(old(self).stream(), old(self).position(), 0) == if found {
                    Ok::<nat, ObuError>(k as nat)
                } else {
                    uvlc_zeros(old(self).stream(), old(self).position(), k as nat)
                },
            decreases if found { 0int } else { 1 + UVLC_MAX_ZEROS - k },
        {
            if k >= UVLC_MAX_ZEROS {
                return Err(ObuError::Overflow);
            }
            if !self.has(1) {
                return Err(ObuError::Truncated);
            }
            if self.take_bit() {
                found = true;
            } else {
                proof {
                    lemma_pow2_unfold((k + 1) as nat);
                    lemma2_to64();
                    if k + 1 < 32 {
                        lemma_pow2_strictly_increases((k + 1) as nat, 32);
                    }
                }
                k = k + 1;
                base = 2 * base;
            }
        }
        proof {
            lemma_bits_value_bound(old(self).stream(), old(self).position() + k + 1, k as nat);
            lemma2_to64();
            lemma_pow2_strictly_increases(k as nat, 32);
        }
        match self.bits(k) {
            Ok(suffix) => Ok((base - 1 + suffix as u64) as u32),
            Err(e) => Err(e),
        }
    }

    /// Reads the next little-endian base-128 number: bytes up to the first
    /// one whose high bit is clear, each giving seven bits, lowest first.
    /// Where the window ends inside the number, it fails as truncated; where
    /// the eighth byte still has its high bit set, as overflow.
    pub fn leb128(&mut self) -> (r: Result<u64, ObuError>)
        ensures
            old(self).advanced(
                *final(self),
                r,
                spec_leb128(old(self).stream(), old(self).position()),
            ),
            r matches Ok(v) ==> v < 0x100_0000_0000_0000,
    {
        let mut i: usize = 0;
        let mut value: u64 = 0;
        let mut scale: u64 = 1;
        proof {
            use_type_invariant(&*self);
            lemma2_to64();
        }
        loop
            invariant
                i <= LEB128_MAX_BYTES,
                scale == pow2((7 * i) as nat),
                value < scale,
                value == leb128_sum(old(self).stream(), old(self).position(), i as nat),
                self.bytes() == old(self).bytes(),
                self.position() == old(self).position() + 8 * i,
                self.position() <= self.stream().len(),
                leb128_last(old(self).stream(), old(self).position(), 0) == leb128_last(
                    old(self).stream(),
                    old(self).position(),
                    i as nat,
                ),
            decreases LEB128_MAX_BYTES - i,
        {
            if i >= LEB128_MAX_BYTES {
                return Err(ObuError::Overflow);
            }
            let byte = match self.bits(8) {
                Ok(b) => b as u64,
                Err(e) => { return Err(e); },
            };
            proof {
                lemma_bits_value_bound(old(self).stream(), old(self).position() + 8 * i, 8);
                lemma2_to64();
                lemma2_to64_rest();
                lemma_pow2_adds((7 * i) as nat, 7);
                if i < 7 {
                    lemma_pow2_strictly_increases((7 * i) as nat, 49);
                }
                assert(byte == leb128_byte(old(self).stream(), old(self).position(), i as nat));
                assert(scale <= 0x2000000000000);
                assert((byte % 128) * scale <= 127 * scale) by (nonlinear_arith)
                    requires
                        byte % 128 <= 127,
                        scale >= 0,
                ;
                assert(pow2((7 * (i + 1)) as nat) == 128 * scale);
            }
            value = value + (byte % 128) * scale;
            if byte < 128 {
                proof {
                    assert(pow2((7 * (i + 1)) as nat) <= pow2(56)) by {
                        if i + 1 < 8 {
                            lemma_pow2_strictly_increases((7 * (i + 1)) as nat, 56);
                        }
                    }
                }
                return Ok(value);
            }
            scale = 128 * scale;
            i = i + 1;
        }
    }
}

} // verus!
