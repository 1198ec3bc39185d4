//! One queued scan operation and its captured result.
//!
//! A leg describes a single pending shift: which chain it targets, an
//! ordered bit payload of at most 128 bits, and a caller-chosen tag that
//! travels with the captured bits so results can be told apart.  A result
//! carries the tag and exactly as many captured bits as the leg shifted.

use vstd::prelude::*;

verus! {

use vstd::arithmetic::power2::pow2;
use crate::codec::{
    be_bits, bit_get, decoded_val, encoded_bits, le_bits, lemma_pow2_128, lemma_pow2_le,
    lemma_val_be_push, lemma_val_le_bound, JtagEndian,
};

/// Longest payload one leg may carry, in bits.
pub const MAX_SCAN_BITS: usize = 128;

/// Width of the instruction register, in bits: every instruction scan
/// moves an opcode of this many bits.
pub const IR_OP_BITS: usize = 6;

/// Which scan chain a leg drives.
#[derive(Clone, Copy, Debug, PartialEq, Eq, Structural)]
pub enum JtagChain {
    /// The instruction register chain.
    Instruction,
    /// The data register chain.
    Data,
}

/// One pending shift operation, owned by the engine once queued.
pub struct JtagLeg {
    /// Caller-chosen identifier, copied into the result.
    pub tag: String,
    /// Target chain.
    pub chain: JtagChain,
    /// Payload, in shift order: index 0 leaves first.
    pub bits: Vec<bool>,
    /// Bit order declared by the last integer push.
    pub endian: JtagEndian,
}

/// The captured bits of one executed leg, in shift order: index 0 was
/// sampled first.
pub struct ScanResult {
    /// Tag of the originating leg.
    pub tag: String,
    /// Captured bits; as many as the leg's payload held.
    pub bits: Vec<bool>,
}

impl JtagLeg {
    /// An empty leg for `chain`, remembered under `tag`.
    pub fn new(chain: JtagChain, tag: &str) -> (leg: JtagLeg)
        ensures
            leg.tag@ == tag@,
            leg.chain == chain,
            leg.bits@ == Seq::<bool>::empty(),
            leg.endian == JtagEndian::Little,
    {
        JtagLeg { tag: tag.to_owned(), chain, bits: Vec::new(), endian: JtagEndian::Little }
    }

    /// The leg's tag.
    pub fn tag(&self) -> (t: &str)
        ensures
            t@ == self.tag@,
    {
        self.tag.as_str()
    }

    /// Appends the low `width` bits of `value` to the payload in order
    /// `endian`: least-significant bit first for `Little`, most-significant
    /// first for `Big`.
    pub fn push_u128(&mut self, value: u128, width: usize, endian: JtagEndian)
        requires
            width <= 128,
            old(self).bits@.len() + width <= MAX_SCAN_BITS,
        ensures
            final(self).bits@ == old(self).bits@ + encoded_bits(value, width as nat, endian),
            final(self).tag@ == old(self).tag@,
            final(self).chain == old(self).chain,
            final(self).endian == endian,
    {
        match endian {
            JtagEndian::Little => {
                for i in 0..width
                    invariant
                        width <= 128,
                        self.bits@.len() == old(self).bits@.len() + i,
                        self.bits@ == old(self).bits@ + le_bits(value, i as nat),
                        self.tag@ == old(self).tag@,
                        self.chain == old(self).chain,
                        self.endian == old(self).endian,
                {
                    let b = bit_get(value, i);
                    self.bits.push(b);
                    proof {
                        assert(old(self).bits@ + le_bits(value, (i + 1) as nat) =~= (old(
                            self,
                        ).bits@ + le_bits(value, i as nat)).push(b));
                    }
                }
                proof {
                    assert(self.bits@ == old(self).bits@ + encoded_bits(
                        value,
                        width as nat,
                        endian,
                    ));
                }
            },
            JtagEndian::Big => {
                for i in 0..width
                    invariant
                        width <= 128,
                        self.bits@.len() == old(self).bits@.len() + i,
                        self.bits@ == old(self).bits@ + be_bits(value, width as nat).take(i as int),
                        self.tag@ == old(self).tag@,
                        self.chain == old(self).chain,
                        self.endian == old(self).endian,
                {
                    let b = bit_get(value, width - 1 - i);
                    self.bits.push(b);
                    proof {
                        assert(old(self).bits@ + be_bits(value, width as nat).take(
                            i + 1,
                        ) =~= (old(self).bits@ + be_bits(value, width as nat).take(i as int)).push(
                            b,
                        ));
                    }
                }
                proof {
                    assert(be_bits(value, width as nat).take(width as int) =~= be_bits(
                        value,
                        width as nat,
                    ));
                }
            },
        }
        self.endian = endian;
    }

    /// Appends the low `width` bits of a 32-bit `value`, as
    /// [`Self::push_u128`] does.
    pub fn push_u32(&mut self, value: u32, width: usize, endian: JtagEndian)
        requires
            width <= 32,
            old(self).bits@.len() + width <= MAX_SCAN_BITS,
        ensures
            final(self).bits@ == old(self).bits@ + encoded_bits(
                value as u128,
                width as nat,
                endian,
            ),
            final(self).tag@ == old(self).tag@,
            final(self).chain == old(self).chain,
            final(self).endian == endian,
    {
        self.push_u128(value as u128, width, endian);
    }
}

impl ScanResult {
    /// The tag of the leg that produced this result.
    pub fn tag(&self) -> (t: &str)
        ensures
            t@ == self.tag@,
    {
        self.tag.as_str()
    }

    /// How many captured bits are left to decode.
    pub fn len(&self) -> (n: usize)
        ensures
            n == self.bits@.len(),
    {
        self.bits.len()
    }

    /// Removes the first `width` captured bits and decodes them as an
    /// unsigned integer in order `endian` — the exact inverse of the
    /// encoder for the same width and order.  Returns nothing, and leaves
    /// the result untouched, when fewer than `width` bits remain: a missing
    /// result must never be mistaken for a zero one.
    pub fn pop_u128(&mut self, width: usize, endian: JtagEndian) -> (r: Option<u128>)
        requires
            width <= 128,
        ensures
            old(self).bits@.len() >= width ==> {
                &&& r matches Some(v)
                &&& v as nat == decoded_val(old(self).bits@.take(width as int), endian)
                &&& v < pow2(width as nat)
                &&& final(self).bits@ == old(self).bits@.skip(width as int)
            },
            old(self).bits@.len() < width ==> r is None && *final(self) == *old(self),
            final(self).tag@ == old(self).tag@,
    {
        if self.bits.len() < width {
            return None;
        }
        let ghost taken = self.bits@.take(width as int);
        let mut acc: u128 = 0;
        match endian {
            JtagEndian::Little => {
                let mut j: usize = 0;
                while j < width
                    invariant
                        width <= 128,
                        j <= width,
                        self.bits@ == old(self).bits@,
                        self.tag@ == old(self).tag@,
                        width <= self.bits@.len(),
                        taken == self.bits@.take(width as int),
                        acc as nat == crate::codec::val_le(
                            taken.subrange(width - j, width as int),
                        ),
                    decreases width - j,
                {
                    proof {
                        lemma_val_le_bound(taken.subrange(width - j, width as int));
                        vstd::arithmetic::power2::lemma_pow2_unfold((j + 1) as nat);
                        lemma_pow2_le((j + 1) as nat, 128);
                        lemma_pow2_128();
                        assert(taken.subrange(width - j - 1, width as int).skip(1)
                            =~= taken.subrange(width - j, width as int));
                    }
                    let b = self.bits[width - 1 - j];
                    acc = acc * 2 + (if b {
                        1
                    } else {
                        0
                    });
                    j = j + 1;
                }
                proof {
                    assert(taken.subrange(0, width as int) =~= taken);
                }
            },
            JtagEndian::Big => {
                let mut j: usize = 0;
                while j < width
                    invariant
                        width <= 128,
                        j <= width,
                        self.bits@ == old(self).bits@,
                        self.tag@ == old(self).tag@,
                        width <= self.bits@.len(),
                        taken == self.bits@.take(width as int),
                        acc as nat == crate::codec::val_be(taken.take(j as int)),
                    decreases width - j,
                {
                    proof {
                        lemma_val_le_bound(taken.take(j as int).reverse());
                        vstd::arithmetic::power2::lemma_pow2_unfold((j + 1) as nat);
                        lemma_pow2_le((j + 1) as nat, 128);
                        lemma_pow2_128();
                        lemma_val_be_push(taken.take(j as int), taken[j as int]);
                        assert(taken.take(j + 1) =~= taken.take(j as int).push(taken[j as int]));
                    }
                    let b = self.bits[j];
                    acc = acc * 2 + (if b {
                        1
                    } else {
                        0
                    });
                    j = j + 1;
                }
                proof {
                    assert(taken.take(width as int) =~= taken);
                }
            },
        }
        proof {
            match endian {
                JtagEndian::Little => lemma_val_le_bound(taken),
                JtagEndian::Big => lemma_val_le_bound(taken.reverse()),
            }
        }
        let mut k: usize = 0;
        while k < width
            invariant
                k <= width,
                width <= old(self).bits@.len(),
                self.bits@ == old(self).bits@.skip(k as int),
                self.tag@ == old(self).tag@,
            decreases width - k,
        {
            self.bits.remove(0);
            proof {
                assert(self.bits@ =~= old(self).bits@.skip(k + 1));
            }
            k = k + 1;
        }
        Some(acc)
    }

    /// Removes and decodes the first `width` captured bits as a 32-bit
    /// unsigned integer, as [`Self::pop_u128`] does.
    pub fn pop_u32(&mut self, width: usize, endian: JtagEndian) -> (r: Option<u32>)
        requires
            width <= 32,
        ensures
            old(self).bits@.len() >= width ==> {
                &&& r matches Some(v)
                &&& v as nat == decoded_val(old(self).bits@.take(width as int), endian)
                &&& v < pow2(width as nat)
                &&& final(self).bits@ == old(self).bits@.skip(width as int)
            },
            old(self).bits@.len() < width ==> r is None && *final(self) == *old(self),
            final(self).tag@ == old(self).tag@,
    {
        proof {
            if old(self).bits@.len() >= width {
                match endian {
                    JtagEndian::Little => lemma_val_le_bound(old(self).bits@.take(width as int)),
                    JtagEndian::Big => lemma_val_le_bound(
                        old(self).bits@.take(width as int).reverse(),
                    ),
                }
                lemma_pow2_le(width as nat, 32);
                vstd::arithmetic::power2::lemma2_to64();
            }
        }
        match self.pop_u128(width, endian) {
            Some(v) => Some(v as u32),
            None => None,
        }
    }
}

} // verus!
