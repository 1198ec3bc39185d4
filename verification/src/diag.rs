//! Board memory diagnostics, modelled over an explicit arena.
//!
//! The board walks large external memories with a linear-feedback
//! shift-register pattern: one pass writes the stream, a later pass (after
//! a standby cycle) checks every word against the same stream.  Here the
//! memory under test is an arena the caller hands in, indexed and bounds
//! checked, and the pattern and the counts are pinned down exactly.

use vstd::prelude::*;

verus! {

use vstd::pervasive::VecAdditionalExecFns;

/// The pattern generator's starting state.
pub const LFSR_SEED: u32 = 0xffff_ffff;

/// The feedback bit of the pattern generator.
pub open spec fn lfsr_bit(state: u32) -> u32 {
    ((state >> 31u32) ^ (state >> 21u32) ^ (state >> 1u32) ^ state) & 1
}

/// One step of the pattern generator: shift left, feed the parity of the
/// tap positions back into the low bit.
pub open spec fn lfsr_spec(state: u32) -> u32 {
    ((state << 1u32) as int + lfsr_bit(state) as int) as u32
}

/// The generator's state after `n` steps from `seed`.
pub open spec fn lfsr_iter(seed: u32, n: nat) -> u32
    decreases n,
{
    if n == 0 {
        seed
    } else {
        lfsr_spec(lfsr_iter(seed, (n - 1) as nat))
    }
}

/// One step of the pattern generator.
pub fn lfsr_next(state: u32) -> (r: u32)
    ensures
        r == lfsr_spec(state),
{
    let bit = ((state >> 31) ^ (state >> 21) ^ (state >> 1) ^ state) & 1;
    proof {
        assert((state << 1u32) <= 0xffff_fffeu32) by (bit_vector);
        assert((((state >> 31u32) ^ (state >> 21u32) ^ (state >> 1u32) ^ state) & 1) <= 1)
            by (bit_vector);
    }
    (state << 1) + bit
}

/// No step among the first `n` returns the generator to its seed.
pub open spec fn all_fresh(n: nat) -> bool {
    forall|j: nat| 1 <= j <= n ==> lfsr_iter(LFSR_SEED, j) != LFSR_SEED
}

/// How many of the first `n` written words were counted as unique: a word
/// counts while no step so far has wrapped the generator back to its seed.
pub open spec fn uniques_upto(n: nat) -> nat
    decreases n,
{
    if n == 0 {
        0
    } else {
        uniques_upto((n - 1) as nat) + (if all_fresh(n) {
            1nat
        } else {
            0nat
        })
    }
}

/// At most one word per step is counted.
proof fn lemma_uniques_bound(n: nat)
    ensures
        uniques_upto(n) <= n,
    decreases n,
{
    if n > 0 {
        lemma_uniques_bound((n - 1) as nat);
    }
}

/// Fills the arena with the generator's stream and reports how many words
/// were counted as unique before the stream first wrapped.
pub fn ram_standby_init(arena: &mut Vec<u32>) -> (uniques: u32)
    requires
        old(arena).len() <= u32::MAX,
    ensures
        final(arena).len() == old(arena).len(),
        forall|i: int| 0 <= i < final(arena).len() ==> final(arena)@[i] == lfsr_iter(
            LFSR_SEED,
            i as nat,
        ),
        uniques == uniques_upto(old(arena).len() as nat),
{
    let n = arena.len();
    let mut state: u32 = LFSR_SEED;
    let mut uniques: u32 = 0;
    let mut repeat: bool = false;
    let mut i: usize = 0;
    while i < n
        invariant
            n == arena.len() <= u32::MAX,
            arena.len() == old(arena).len(),
            i <= n,
            state == lfsr_iter(LFSR_SEED, i as nat),
            repeat == !all_fresh(i as nat),
            uniques == uniques_upto(i as nat),
            forall|k: int| 0 <= k < i ==> arena@[k] == lfsr_iter(LFSR_SEED, k as nat),
        decreases n - i,
    {
        arena.set(i, state);
        state = lfsr_next(state);
        proof {
            assert(state == lfsr_iter(LFSR_SEED, (i + 1) as nat));
            if all_fresh(i as nat) && state != LFSR_SEED {
                assert forall|j: nat| 1 <= j <= i + 1 implies lfsr_iter(LFSR_SEED, j)
                    != LFSR_SEED by {
                    if j <= i {
                        assert(lfsr_iter(LFSR_SEED, j) != LFSR_SEED);
                    }
                }
            }
            lemma_uniques_bound(i as nat);
        }
        if state == LFSR_SEED {
            repeat = true;
        }
        if !repeat {
            uniques = uniques + 1;
        }
        i = i + 1;
    }
    uniques
}

/// How many of the first `n` words of `s` differ from the generator's
/// stream.
pub open spec fn mismatches_upto(s: Seq<u32>, n: nat) -> nat
    decreases n,
{
    if n == 0 {
        0
    } else {
        mismatches_upto(s, (n - 1) as nat) + (if s[n - 1] == lfsr_iter(LFSR_SEED, (n - 1) as nat) {
            0nat
        } else {
            1nat
        })
    }
}

/// At most one mismatch per word.
proof fn lemma_mismatches_bound(s: Seq<u32>, n: nat)
    ensures
        mismatches_upto(s, n) <= n,
    decreases n,
{
    if n > 0 {
        lemma_mismatches_bound(s, (n - 1) as nat);
    }
}

/// Checks the arena against the generator's stream and counts the words
/// that differ.
pub fn ram_check(arena: &Vec<u32>) -> (errors: u32)
    requires
        arena.len() <= u32::MAX,
    ensures
        errors == mismatches_upto(arena@, arena@.len()),
{
    let n = arena.len();
    let mut state: u32 = LFSR_SEED;
    let mut errors: u32 = 0;
    let mut i: usize = 0;
    while i < n
        invariant
            n == arena.len() <= u32::MAX,
            i <= n,
            state == lfsr_iter(LFSR_SEED, i as nat),
            errors == mismatches_upto(arena@, i as nat),
        decreases n - i,
    {
        proof {
            lemma_mismatches_bound(arena@, i as nat);
        }
        if arena[i] != state {
            errors = errors + 1;
        }
        state = lfsr_next(state);
        i = i + 1;
    }
    errors
}

/// Zeroes the arena.
pub fn ram_clear(arena: &mut Vec<u32>)
    ensures
        final(arena).len() == old(arena).len(),
        forall|i: int| 0 <= i < final(arena).len() ==> final(arena)@[i] == 0,
{
    let n = arena.len();
    let mut i: usize = 0;
    while i < n
        invariant
            n == arena.len(),
            arena.len() == old(arena).len(),
            i <= n,
            forall|k: int| 0 <= k < i ==> arena@[k] == 0,
        decreases n - i,
    {
        arena.set(i, 0);
        i = i + 1;
    }
}

/// The wrapping 32-bit sum of the first `n` words of `s`.
pub open spec fn sum_wrap(s: Seq<u32>, n: nat) -> u32
    decreases n,
{
    if n == 0 {
        0
    } else {
        ((sum_wrap(s, (n - 1) as nat) as int + s[n - 1] as int) % 0x1_0000_0000) as u32
    }
}

/// Sums a memory region word by word, wrapping on overflow, as the bus
/// throughput test does.
pub fn region_checksum(arena: &Vec<u32>) -> (sum: u32)
    ensures
        sum == sum_wrap(arena@, arena@.len()),
{
    let n = arena.len();
    let mut sum: u32 = 0;
    let mut i: usize = 0;
    while i < n
        invariant
            n == arena.len(),
            i <= n,
            sum == sum_wrap(arena@, i as nat),
        decreases n - i,
    {
        sum = sum.wrapping_add(arena[i]);
        i = i + 1;
    }
    sum
}

/// Splits a sample into the two bytes the serial dump sends, low byte
/// first.
pub fn split_u16(n: u16) -> (r: (u8, u8))
    ensures
        r.0 == n % 256,
        r.1 == n / 256,
{
    proof {
        assert((n & 0xff) == (n % 256)) by (bit_vector);
        vstd::bits::lemma_u16_shr_is_div(n, 8);
        vstd::arithmetic::power2::lemma2_to64();
    }
    ((n & 0xff) as u8, (n >> 8) as u8)
}

} // verus!
