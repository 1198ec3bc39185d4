//! The one-time-programmable fuse workflow.
//!
//! The fuse array holds a 256-bit key, a 32-bit user field and a small
//! control field, reachable only through the instruction and data scans
//! below.  A fuse bit is monotonic: once set it can never be cleared, so a
//! candidate key is committed only after an explicit validity check against
//! the key that was actually read back, and the burn fails closed from any
//! other state without driving a single clock edge.

use vstd::prelude::*;

verus! {

use vstd::arithmetic::power2::{lemma2_to64, pow2};
use crate::codec::{bit_at, byte_get, byte_of, le_bits, lemma_pow2_le, val_le, JtagEndian};
use crate::leg::{JtagChain, JtagLeg, IR_OP_BITS};
use crate::mach::{align_len, dr_captured, dr_payload, ir_payload, JtagMach};
use crate::phy::{ErrorKind, JtagPhy};
use crate::tap::TapState;

/// Instruction opcode that selects the fuse key shadow register.
pub const FUSE_KEY_OP: u32 = 0b110001;

/// Instruction opcode that selects the fuse user shadow register.
pub const FUSE_USER_OP: u32 = 0b110011;

/// Instruction opcode that selects the fuse control shadow register.
pub const FUSE_CNTL_OP: u32 = 0b110100;

/// Instruction opcode that commits a staged key to the fuse array.
pub const FUSE_PROGRAM_OP: u32 = 0b110000;

/// The workflow's position in its lifecycle.
#[derive(Clone, Copy, Debug, PartialEq, Eq, Structural)]
pub enum FuseState {
    /// No readback has happened yet.
    Unfetched,
    /// Key, user and control fields hold the last readback.
    Fetched,
    /// A candidate key is staged and not yet validated.
    Staged,
    /// The staged candidate passed the validity check and may be burned.
    Validated,
    /// The candidate was committed; terminal.
    Burned,
}

/// Every set bit of `k` is also set in `c`: committing `c` over `k` never
/// clears a fuse.
pub open spec fn byte_monotone(k: u8, c: u8) -> bool {
    forall|j: nat| j < 8 && #[trigger] bit_at(k as u128, j) ==> bit_at(c as u128, j)
}

/// A candidate `cand` may be committed over the fetched key `key`: every
/// bit that differs goes zero to one, never one to zero.
pub open spec fn fuse_transition_ok(key: Seq<u8>, cand: Seq<u8>) -> bool {
    forall|i: int| 0 <= i < key.len() ==> byte_monotone(#[trigger] key[i], cand[i])
}

/// Bridges the arithmetic bit model to the machine's shift-and-mask test.
proof fn lemma_bit_at_u8(a: u8, j: nat)
    requires
        j < 8,
    ensures
        bit_at(a as u128, j) == (((a >> (j as u8)) & 1) == 1),
{
    vstd::bits::lemma_u8_shr_is_div(a, j as u8);
    let sh = a >> (j as u8);
    assert((sh & 1) == (sh % 2)) by (bit_vector);
}

/// A byte-wide mask test decides bit-level monotonicity: `k & !c == 0`
/// holds exactly when no set bit of `k` is clear in `c`.
pub proof fn lemma_byte_monotone(k: u8, c: u8)
    ensures
        ((k & !c) == 0) == byte_monotone(k, c),
{
    if (k & !c) == 0 {
        assert(forall|j: u8|
            j < 8 ==> (((k >> j) & 1) == 1 ==> ((c >> j) & 1) == 1)) by (bit_vector)
            requires
                (k & !c) == 0,
        ;
        assert forall|j: nat| j < 8 && #[trigger] bit_at(k as u128, j) implies bit_at(
            c as u128,
            j,
        ) by {
            lemma_bit_at_u8(k, j);
            lemma_bit_at_u8(c, j);
            assert(((k >> (j as u8)) & 1) == 1 ==> ((c >> (j as u8)) & 1) == 1);
        }
        assert(byte_monotone(k, c));
    } else {
        assert((((k >> 0u8) & 1) == 1 && ((c >> 0u8) & 1) != 1) || (((k >> 1u8) & 1) == 1 && ((c
            >> 1u8) & 1) != 1) || (((k >> 2u8) & 1) == 1 && ((c >> 2u8) & 1) != 1) || (((k >> 3u8)
            & 1) == 1 && ((c >> 3u8) & 1) != 1) || (((k >> 4u8) & 1) == 1 && ((c >> 4u8) & 1) != 1)
            || (((k >> 5u8) & 1) == 1 && ((c >> 5u8) & 1) != 1) || (((k >> 6u8) & 1) == 1 && ((c
            >> 6u8) & 1) != 1) || (((k >> 7u8) & 1) == 1 && ((c >> 7u8) & 1) != 1)) by (bit_vector)
            requires
                (k & !c) != 0,
        ;
        assert(exists|j: u8| j < 8 && ((k >> j) & 1) == 1 && ((c >> j) & 1) != 1);
        let jw = choose|j: u8| j < 8 && ((k >> j) & 1) == 1 && ((c >> j) & 1) != 1;
        lemma_bit_at_u8(k, jw as nat);
        lemma_bit_at_u8(c, jw as nat);
        assert(bit_at(k as u128, jw as nat) && !bit_at(c as u128, jw as nat));
        assert(!byte_monotone(k, c));
    }
}

/// Monotonic fuse invariant: validity of a candidate against a fetched key
/// is decided bit by bit.  Whenever some bit position holds one in the key
/// and zero in the candidate, the candidate is invalid; whenever every bit
/// set in the key stays set in the candidate, it is valid.
pub proof fn lemma_monotonic_fuse(key: Seq<u8>, cand: Seq<u8>)
    requires
        key.len() == cand.len(),
    ensures
        (exists|i: int, j: nat|
            0 <= i < key.len() && j < 8 && #[trigger] bit_at(key[i] as u128, j) && !bit_at(
                cand[i] as u128,
                j,
            )) ==> !fuse_transition_ok(key, cand),
        (forall|i: int, j: nat|
            0 <= i < key.len() && j < 8 && #[trigger] bit_at(key[i] as u128, j) ==> bit_at(
                cand[i] as u128,
                j,
            )) ==> fuse_transition_ok(key, cand),
{
    if exists|i: int, j: nat|
        0 <= i < key.len() && j < 8 && #[trigger] bit_at(key[i] as u128, j) && !bit_at(
            cand[i] as u128,
            j,
        ) {
        let (iw, jw) = choose|i: int, j: nat|
            0 <= i < key.len() && j < 8 && #[trigger] bit_at(key[i] as u128, j) && !bit_at(
                cand[i] as u128,
                j,
            );
        assert(!byte_monotone(key[iw], cand[iw]));
        assert(!fuse_transition_ok(key, cand));
    }
    if forall|i: int, j: nat|
        0 <= i < key.len() && j < 8 && #[trigger] bit_at(key[i] as u128, j) ==> bit_at(
            cand[i] as u128,
            j,
        ) {
        assert forall|i: int| 0 <= i < key.len() implies byte_monotone(
            #[trigger] key[i],
            cand[i],
        ) by {
            assert forall|j: nat| j < 8 && #[trigger] bit_at(key[i] as u128, j) implies bit_at(
                cand[i] as u128,
                j,
            ) by {
                assert(bit_at(key[i] as u128, j) ==> bit_at(cand[i] as u128, j));
            }
        }
    }
}

/// Decides [`fuse_transition_ok`] for two 256-bit values held as bytes.
pub fn candidate_ok(key: &[u8; 32], cand: &[u8; 32]) -> (r: bool)
    ensures
        r == fuse_transition_ok(key@, cand@),
{
    let mut ok = true;
    for i in 0..32
        invariant
            ok == (forall|j: int| 0 <= j < i ==> byte_monotone(#[trigger] key@[j], cand@[j])),
    {
        let good = (key[i] & !cand[i]) == 0;
        proof {
            lemma_byte_monotone(key[i as int], cand[i as int]);
            if !good {
                assert(!byte_monotone(key@[i as int], cand@[i as int]));
            }
        }
        ok = ok && good;
    }
    ok
}

/// Reads sixteen consecutive bytes of `key` as one 128-bit little-endian
/// value, as the fuse data scans move them.
pub(crate) fn half_from_bytes(key: &[u8; 32], base: usize) -> (r: u128)
    requires
        base == 0 || base == 16,
    ensures
        forall|j: nat| j < 16 ==> byte_of(r, j) == key@[base + j as int],
{
    let mut acc: u128 = 0;
    let mut i: usize = 16;
    proof {
        lemma2_to64();
    }
    while i > 0
        invariant
            i <= 16,
            base == 0 || base == 16,
            acc < pow2((8 * (16 - i)) as nat),
            forall|j: nat| j < 16 - i ==> byte_of(acc, j) == key@[base + i + j as int],
        decreases i,
    {
        i = i - 1;
        let b = key[base + i];
        let ghost accp = acc;
        proof {
            lemma2_to64();
            lemma_pow2_le((8 * (15 - i)) as nat, 120);
            assert(pow2(120) * 256 == pow2(128)) by {
                vstd::arithmetic::power2::lemma_pow2_adds(120, 8);
                lemma2_to64();
            }
            crate::codec::lemma_pow2_128();
        }
        acc = acc * 256 + (b as u128);
        proof {
            vstd::arithmetic::power2::lemma_pow2_adds((8 * (15 - i)) as nat, 8);
            assert forall|j: nat| j < 16 - i implies byte_of(acc, j) == key@[base + i + j as int] by {
                if j == 0 {
                    crate::codec::lemma_byte_of_step(accp, b as u128, 0);
                } else {
                    crate::codec::lemma_byte_of_step(accp, b as u128, (j - 1) as nat);
                }
            }
        }
    }
    acc
}

/// Splits two 128-bit halves back into the byte array they encode, low
/// half first.
fn bytes_from_halves(lo: u128, hi: u128) -> (r: [u8; 32])
    ensures
        forall|j: nat| j < 16 ==> r@[j as int] == byte_of(lo, j),
        forall|j: nat| j < 16 ==> r@[16 + j as int] == byte_of(hi, j),
{
    let mut out: [u8; 32] = [0; 32];
    for i in 0..16
        invariant
            forall|j: nat| j < i ==> out@[j as int] == byte_of(lo, j),
    {
        out[i] = byte_get(lo, i);
    }
    for i in 0..16
        invariant
            forall|j: nat| j < 16 ==> out@[j as int] == byte_of(lo, j),
            forall|j: nat| j < i ==> out@[16 + j as int] == byte_of(hi, j),
    {
        out[16 + i] = byte_get(hi, i);
    }
    out
}

/// The image of the fuse array and the staged candidate, owned by the
/// workflow.
pub struct EfuseApi {
    /// Lifecycle position.
    pub state: FuseState,
    /// 256-bit key, as read back (or as committed by a burn).
    pub key: [u8; 32],
    /// 32-bit user field, as read back.
    pub user: u32,
    /// Control bits, as read back.
    pub cntl: u8,
    /// The staged candidate key.
    pub candidate: [u8; 32],
}

impl EfuseApi {
    /// In the `Validated` state the staged candidate really is committable
    /// over the fetched key.
    pub open spec fn inv(&self) -> bool {
        self.state == FuseState::Validated ==> fuse_transition_ok(self.key@, self.candidate@)
    }

    /// A fresh workflow: nothing fetched, nothing staged.
    pub fn new() -> (e: EfuseApi)
        ensures
            e.state == FuseState::Unfetched,
            e.inv(),
    {
        EfuseApi {
            state: FuseState::Unfetched,
            key: [0; 32],
            user: 0,
            cntl: 0,
            candidate: [0; 32],
        }
    }

    /// The fetched 256-bit key.
    pub fn phy_key(&self) -> (k: [u8; 32])
        ensures
            k@ == self.key@,
    {
        self.key
    }

    /// The fetched user field.
    pub fn phy_user(&self) -> (u: u32)
        ensures
            u == self.user,
    {
        self.user
    }

    /// The fetched control bits.
    pub fn phy_cntl(&self) -> (c: u8)
        ensures
            c == self.cntl,
    {
        self.cntl
    }

    /// Stages a candidate key.  Allowed once a readback exists and as long
    /// as nothing was burned; staging discards any earlier validation.
    pub fn set_key(&mut self, candidate: [u8; 32]) -> (r: Result<(), ErrorKind>)
        requires
            old(self).inv(),
        ensures
            final(self).inv(),
            (old(self).state == FuseState::Fetched || old(self).state == FuseState::Staged || old(
                self,
            ).state == FuseState::Validated) ==> {
                &&& r is Ok
                &&& final(self).state == FuseState::Staged
                &&& final(self).candidate@ == candidate@
                &&& final(self).key@ == old(self).key@
                &&& final(self).user == old(self).user
                &&& final(self).cntl == old(self).cntl
            },
            (old(self).state == FuseState::Unfetched || old(self).state == FuseState::Burned)
                ==> r == Err::<(), ErrorKind>(ErrorKind::UsageError) && *final(self) == *old(self),
    {
        match self.state {
            FuseState::Fetched | FuseState::Staged | FuseState::Validated => {
                self.candidate = candidate;
                self.state = FuseState::Staged;
                Ok(())
            },
            FuseState::Unfetched | FuseState::Burned => Err(ErrorKind::UsageError),
        }
    }

    /// Recomputes whether the staged candidate may be committed over the
    /// fetched key — true exactly when no fuse bit would go one to zero —
    /// and, from `Staged`, moves to `Validated` on a positive outcome.
    pub fn is_valid(&mut self) -> (r: bool)
        requires
            old(self).inv(),
        ensures
            final(self).inv(),
            r == fuse_transition_ok(old(self).key@, old(self).candidate@),
            final(self).key@ == old(self).key@,
            final(self).candidate@ == old(self).candidate@,
            final(self).user == old(self).user,
            final(self).cntl == old(self).cntl,
            final(self).state == (if old(self).state == FuseState::Staged && r {
                FuseState::Validated
            } else {
                old(self).state
            }),
    {
        let ok = candidate_ok(&self.key, &self.candidate);
        if ok && matches!(self.state, FuseState::Staged) {
            self.state = FuseState::Validated;
        }
        ok
    }

    /// Reads the fuse shadow registers back into the image: the canonical
    /// instruction scan for each field, then data scans for the two key
    /// halves, the user word and the control bits, all queued as one batch
    /// and retrieved in order.  A readback never leaves `Burned`; from any
    /// other state it lands in `Fetched`.  On a transport fault the image
    /// is untouched and the engine is drained so the caller can retry.
    pub fn fetch<P: JtagPhy>(&mut self, jtag: &mut JtagMach, phy: &mut P) -> (r: Result<
        (),
        ErrorKind,
    >)
        requires
            old(self).inv(),
            old(jtag).wf(),
            old(jtag).pending@.len() == 0,
            old(jtag).done@.len() == 0,
        ensures
            final(self).inv(),
            final(jtag).wf(),
            final(jtag).pending@.len() == 0,
            final(jtag).done@.len() == 0,
            r is Ok ==> {
                &&& final(self).state == (if old(self).state == FuseState::Burned {
                    FuseState::Burned
                } else {
                    FuseState::Fetched
                })
                &&& final(self).candidate@ == old(self).candidate@
                &&& final(jtag).state == TapState::Idle
            },
            r is Ok ==> ({
                // What went on the wire and what the image now holds: the
                // three canonical opcodes were driven, and the key, user and
                // control fields are exactly the decodes of the levels the
                // device answered on the four data scans.
                let seg = final(phy).trace().skip(
                    old(phy).trace().len() + align_len(old(jtag).state) as int,
                );
                let lo = val_le(dr_captured(seg, 12, 128));
                let hi = val_le(dr_captured(seg, 145, 128));
                &&& seg.len() == 352
                &&& ir_payload(seg, 0, 6) == le_bits(FUSE_KEY_OP as u128, 6)
                &&& ir_payload(seg, 278, 6) == le_bits(FUSE_USER_OP as u128, 6)
                &&& ir_payload(seg, 327, 6) == le_bits(FUSE_CNTL_OP as u128, 6)
                &&& forall|j: nat| j < 16 ==> final(self).key@[j as int] == #[trigger] byte_of(
                    (lo as u128),
                    j,
                )
                &&& forall|j: nat| j < 16 ==> final(self).key@[16 + j as int] == #[trigger] byte_of(
                    (hi as u128),
                    j,
                )
                &&& final(self).user as nat == val_le(dr_captured(seg, 290, 32))
                &&& final(self).cntl as nat == val_le(dr_captured(seg, 339, 8))
            }),
            r matches Err(e) ==> e == ErrorKind::TransportFault && *final(self) == *old(self),
    {
        let mut ir_key = JtagLeg::new(JtagChain::Instruction, "fuse_key_cmd");
        ir_key.push_u32(FUSE_KEY_OP, IR_OP_BITS, JtagEndian::Little);
        let ghost l0 = ir_key;
        jtag.add(ir_key);

        let mut dr_lo = JtagLeg::new(JtagChain::Data, "fuse_key_lo");
        dr_lo.push_u128(0, 128, JtagEndian::Little);
        let ghost l1 = dr_lo;
        jtag.add(dr_lo);

        let mut dr_hi = JtagLeg::new(JtagChain::Data, "fuse_key_hi");
        dr_hi.push_u128(0, 128, JtagEndian::Little);
        let ghost l2 = dr_hi;
        jtag.add(dr_hi);

        let mut ir_user = JtagLeg::new(JtagChain::Instruction, "fuse_user_cmd");
        ir_user.push_u32(FUSE_USER_OP, IR_OP_BITS, JtagEndian::Little);
        let ghost l3 = ir_user;
        jtag.add(ir_user);

        let mut dr_user = JtagLeg::new(JtagChain::Data, "fuse_user");
        dr_user.push_u32(0, 32, JtagEndian::Little);
        let ghost l4 = dr_user;
        jtag.add(dr_user);

        let mut ir_cntl = JtagLeg::new(JtagChain::Instruction, "fuse_cntl_cmd");
        ir_cntl.push_u32(FUSE_CNTL_OP, IR_OP_BITS, JtagEndian::Little);
        let ghost l5 = ir_cntl;
        jtag.add(ir_cntl);

        let mut dr_cntl = JtagLeg::new(JtagChain::Data, "fuse_cntl");
        dr_cntl.push_u32(0, 8, JtagEndian::Little);
        let ghost l6 = dr_cntl;
        jtag.add(dr_cntl);

        let ghost legs = jtag.pending@;
        proof {
            assert(legs =~= seq![l0, l1, l2, l3, l4, l5, l6]);
        }

        match jtag.next(phy) {
            Ok(()) => (),
            Err(e) => {
                jtag.drain();
                return Err(e);
            },
        }
        let ghost batch = jtag.done@;
        proof {
            assert(batch == jtag.done@.skip(0));
            assert(crate::mach::results_match(legs, batch));
        }

        let _ = match jtag.take_result() {
            Ok(res) => res,
            Err(_) => {
                jtag.drain();
                return Err(ErrorKind::TransportFault);
            },
        };
        let mut r_lo = match jtag.take_result() {
            Ok(res) => res,
            Err(_) => {
                jtag.drain();
                return Err(ErrorKind::TransportFault);
            },
        };
        let mut r_hi = match jtag.take_result() {
            Ok(res) => res,
            Err(_) => {
                jtag.drain();
                return Err(ErrorKind::TransportFault);
            },
        };
        let _ = match jtag.take_result() {
            Ok(res) => res,
            Err(_) => {
                jtag.drain();
                return Err(ErrorKind::TransportFault);
            },
        };
        let mut r_user = match jtag.take_result() {
            Ok(res) => res,
            Err(_) => {
                jtag.drain();
                return Err(ErrorKind::TransportFault);
            },
        };
        let _ = match jtag.take_result() {
            Ok(res) => res,
            Err(_) => {
                jtag.drain();
                return Err(ErrorKind::TransportFault);
            },
        };
        let mut r_cntl = match jtag.take_result() {
            Ok(res) => res,
            Err(_) => {
                jtag.drain();
                return Err(ErrorKind::TransportFault);
            },
        };
        proof {
            assert(r_lo == batch[1]);
            assert(r_hi == batch[2]);
            assert(r_user == batch[4]);
            assert(r_cntl == batch[6]);
            assert(crate::mach::result_matches(batch[1], legs[1]));
            assert(crate::mach::result_matches(batch[2], legs[2]));
            assert(crate::mach::result_matches(batch[4], legs[4]));
            assert(crate::mach::result_matches(batch[6], legs[6]));
        }

        let lo = match r_lo.pop_u128(128, JtagEndian::Little) {
            Some(v) => v,
            None => {
                return Err(ErrorKind::TransportFault);
            },
        };
        let hi = match r_hi.pop_u128(128, JtagEndian::Little) {
            Some(v) => v,
            None => {
                return Err(ErrorKind::TransportFault);
            },
        };
        let user = match r_user.pop_u32(32, JtagEndian::Little) {
            Some(v) => v,
            None => {
                return Err(ErrorKind::TransportFault);
            },
        };
        let cntl = match r_cntl.pop_u32(8, JtagEndian::Little) {
            Some(v) => v,
            None => {
                return Err(ErrorKind::TransportFault);
            },
        };
        proof {
            lemma2_to64();
            let t0 = old(phy).trace();
            let al = align_len(old(jtag).state) as int;
            let seg = phy.trace().skip(t0.len() + al);
            assert(crate::mach::batch_trace_ok(legs, batch, seg));
            crate::mach::lemma_batch_total_len(legs, batch, seg);
            reveal_with_fuel(crate::mach::batch_offset, 8);
            assert(l0.bits@ =~= le_bits(FUSE_KEY_OP as u128, 6));
            assert(l1.bits@ =~= le_bits(0u128, 128));
            assert(l2.bits@ =~= le_bits(0u128, 128));
            assert(l3.bits@ =~= le_bits(FUSE_USER_OP as u128, 6));
            assert(l4.bits@ =~= le_bits(0u128, 32));
            assert(l5.bits@ =~= le_bits(FUSE_CNTL_OP as u128, 6));
            assert(l6.bits@ =~= le_bits(0u128, 8));
            assert(crate::mach::batch_offset(legs, 1) == 12);
            assert(crate::mach::batch_offset(legs, 2) == 145);
            assert(crate::mach::batch_offset(legs, 3) == 278);
            assert(crate::mach::batch_offset(legs, 4) == 290);
            assert(crate::mach::batch_offset(legs, 5) == 327);
            assert(crate::mach::batch_offset(legs, 6) == 339);
            assert(crate::mach::batch_offset(legs, 7) == 352);
            assert(seg.len() == 352);
            crate::mach::lemma_batch_index(legs, batch, seg, 0);
            crate::mach::lemma_batch_index(legs, batch, seg, 1);
            crate::mach::lemma_batch_index(legs, batch, seg, 2);
            crate::mach::lemma_batch_index(legs, batch, seg, 3);
            crate::mach::lemma_batch_index(legs, batch, seg, 4);
            crate::mach::lemma_batch_index(legs, batch, seg, 5);
            crate::mach::lemma_batch_index(legs, batch, seg, 6);

            assert forall|j: int| 0 <= j < 128 implies batch[1].bits@[j] == dr_captured(
                seg,
                12,
                128,
            )[j] by {
                assert(batch[1].bits@[j] == seg.subrange(12, 145)[3 + j].tdo);
                assert(seg.subrange(12, 145)[3 + j] == seg[15 + j]);
            }
            assert(batch[1].bits@ =~= dr_captured(seg, 12, 128));
            assert forall|j: int| 0 <= j < 128 implies batch[2].bits@[j] == dr_captured(
                seg,
                145,
                128,
            )[j] by {
                assert(batch[2].bits@[j] == seg.subrange(145, 278)[3 + j].tdo);
                assert(seg.subrange(145, 278)[3 + j] == seg[148 + j]);
            }
            assert(batch[2].bits@ =~= dr_captured(seg, 145, 128));
            assert forall|j: int| 0 <= j < 32 implies batch[4].bits@[j] == dr_captured(
                seg,
                290,
                32,
            )[j] by {
                assert(batch[4].bits@[j] == seg.subrange(290, 327)[3 + j].tdo);
                assert(seg.subrange(290, 327)[3 + j] == seg[293 + j]);
            }
            assert(batch[4].bits@ =~= dr_captured(seg, 290, 32));
            assert forall|j: int| 0 <= j < 8 implies batch[6].bits@[j] == dr_captured(
                seg,
                339,
                8,
            )[j] by {
                assert(batch[6].bits@[j] == seg.subrange(339, 352)[3 + j].tdo);
                assert(seg.subrange(339, 352)[3 + j] == seg[342 + j]);
            }
            assert(batch[6].bits@ =~= dr_captured(seg, 339, 8));

            assert(batch[1].bits@.take(128) =~= batch[1].bits@);
            assert(batch[2].bits@.take(128) =~= batch[2].bits@);
            assert(batch[4].bits@.take(32) =~= batch[4].bits@);
            assert(batch[6].bits@.take(8) =~= batch[6].bits@);
            assert(lo as nat == val_le(dr_captured(seg, 12, 128)));
            assert(hi as nat == val_le(dr_captured(seg, 145, 128)));
            assert(user as nat == val_le(dr_captured(seg, 290, 32)));
            assert(cntl as nat == val_le(dr_captured(seg, 339, 8)));

            assert forall|j: int| 0 <= j < 6 implies ir_payload(seg, 0, 6)[j] == le_bits(
                FUSE_KEY_OP as u128,
                6,
            )[j] by {
                assert(seg.subrange(0, 12)[4 + j].tdi == l0.bits@[j]);
                assert(seg.subrange(0, 12)[4 + j] == seg[4 + j]);
            }
            assert(ir_payload(seg, 0, 6) =~= le_bits(FUSE_KEY_OP as u128, 6));
            assert forall|j: int| 0 <= j < 6 implies ir_payload(seg, 278, 6)[j] == le_bits(
                FUSE_USER_OP as u128,
                6,
            )[j] by {
                assert(seg.subrange(278, 290)[4 + j].tdi == l3.bits@[j]);
                assert(seg.subrange(278, 290)[4 + j] == seg[282 + j]);
            }
            assert(ir_payload(seg, 278, 6) =~= le_bits(FUSE_USER_OP as u128, 6));
            assert forall|j: int| 0 <= j < 6 implies ir_payload(seg, 327, 6)[j] == le_bits(
                FUSE_CNTL_OP as u128,
                6,
            )[j] by {
                assert(seg.subrange(327, 339)[4 + j].tdi == l5.bits@[j]);
                assert(seg.subrange(327, 339)[4 + j] == seg[331 + j]);
            }
            assert(ir_payload(seg, 327, 6) =~= le_bits(FUSE_CNTL_OP as u128, 6));
        }

        self.key = bytes_from_halves(lo, hi);
        self.user = user;
        self.cntl = cntl as u8;
        if !matches!(self.state, FuseState::Burned) {
            self.state = FuseState::Fetched;
        }
        Ok(())
    }

    /// Commits the staged candidate to the physical fuse array.  Permitted
    /// only immediately after a positive validity check: from any other
    /// state the call fails closed — no scan is issued, not one clock edge
    /// is driven — with `InvalidCandidate` when a staged candidate would
    /// clear a set bit and `UsageError` otherwise.  On success the image
    /// records the candidate as the new key and the workflow terminates in
    /// `Burned`.
    pub fn burn<P: JtagPhy>(&mut self, jtag: &mut JtagMach, phy: &mut P) -> (r: Result<
        (),
        ErrorKind,
    >)
        requires
            old(self).inv(),
            old(jtag).wf(),
            old(jtag).pending@.len() == 0,
            old(jtag).done@.len() == 0,
        ensures
            final(self).inv(),
            final(jtag).wf(),
            final(jtag).pending@.len() == 0,
            final(jtag).done@.len() == 0,
            old(self).state != FuseState::Validated ==> {
                &&& *final(self) == *old(self)
                &&& *final(jtag) == *old(jtag)
                &&& final(phy).trace() == old(phy).trace()
                &&& r == Err::<(), ErrorKind>(
                    if old(self).state == FuseState::Staged && !fuse_transition_ok(
                        old(self).key@,
                        old(self).candidate@,
                    ) {
                        ErrorKind::InvalidCandidate
                    } else {
                        ErrorKind::UsageError
                    },
                )
            },
            old(self).state == FuseState::Validated && r is Ok ==> {
                &&& final(self).state == FuseState::Burned
                &&& final(self).key@ == old(self).candidate@
                &&& final(self).candidate@ == old(self).candidate@
                &&& final(self).user == old(self).user
                &&& final(self).cntl == old(self).cntl
                &&& fuse_transition_ok(old(self).key@, old(self).candidate@)
                &&& final(jtag).state == TapState::Idle
            },
            old(self).state == FuseState::Validated && r is Ok ==> ({
                // What a successful burn put on the wire: the programming
                // opcode, then 256 payload bits that decode, half by half,
                // to exactly the staged candidate — no other value can have
                // been committed.
                let seg = final(phy).trace().skip(
                    old(phy).trace().len() + align_len(old(jtag).state) as int,
                );
                &&& seg.len() == 278
                &&& ir_payload(seg, 0, 6) == le_bits(FUSE_PROGRAM_OP as u128, 6)
                &&& forall|j: nat|
                    j < 16 ==> #[trigger] byte_of(
                        (val_le(dr_payload(seg, 12, 128)) as u128),
                        j,
                    ) == old(self).candidate@[j as int]
                &&& forall|j: nat|
                    j < 16 ==> #[trigger] byte_of(
                        (val_le(dr_payload(seg, 145, 128)) as u128),
                        j,
                    ) == old(self).candidate@[16 + j as int]
            }),
            old(self).state == FuseState::Validated && r is Err ==> r == Err::<(), ErrorKind>(
                ErrorKind::TransportFault,
            ) && *final(self) == *old(self),
    {
        match self.state {
            FuseState::Validated => (),
            FuseState::Staged => {
                let ok = candidate_ok(&self.key, &self.candidate);
                if !ok {
                    return Err(ErrorKind::InvalidCandidate);
                } else {
                    return Err(ErrorKind::UsageError);
                }
            },
            _ => {
                return Err(ErrorKind::UsageError);
            },
        }

        let lo = half_from_bytes(&self.candidate, 0);
        let hi = half_from_bytes(&self.candidate, 16);

        let mut ir_prog = JtagLeg::new(JtagChain::Instruction, "fuse_prog_cmd");
        ir_prog.push_u32(FUSE_PROGRAM_OP, IR_OP_BITS, JtagEndian::Little);
        let ghost p0 = ir_prog;
        jtag.add(ir_prog);

        let mut dr_lo = JtagLeg::new(JtagChain::Data, "fuse_prog_lo");
        dr_lo.push_u128(lo, 128, JtagEndian::Little);
        let ghost p1 = dr_lo;
        jtag.add(dr_lo);

        let mut dr_hi = JtagLeg::new(JtagChain::Data, "fuse_prog_hi");
        dr_hi.push_u128(hi, 128, JtagEndian::Little);
        let ghost p2 = dr_hi;
        jtag.add(dr_hi);

        let ghost legs = jtag.pending@;
        proof {
            assert(legs =~= seq![p0, p1, p2]);
        }

        match jtag.next(phy) {
            Ok(()) => (),
            Err(e) => {
                jtag.drain();
                return Err(e);
            },
        }
        let ghost batch = jtag.done@;
        proof {
            assert(batch == jtag.done@.skip(0));
            let t0 = old(phy).trace();
            let al = align_len(old(jtag).state) as int;
            let seg = phy.trace().skip(t0.len() + al);
            assert(crate::mach::batch_trace_ok(legs, batch, seg));
            crate::mach::lemma_batch_total_len(legs, batch, seg);
            reveal_with_fuel(crate::mach::batch_offset, 4);
            assert(p0.bits@ =~= le_bits(FUSE_PROGRAM_OP as u128, 6));
            assert(p1.bits@ =~= le_bits(lo, 128));
            assert(p2.bits@ =~= le_bits(hi, 128));
            assert(crate::mach::batch_offset(legs, 1) == 12);
            assert(crate::mach::batch_offset(legs, 2) == 145);
            assert(crate::mach::batch_offset(legs, 3) == 278);
            assert(seg.len() == 278);
            crate::mach::lemma_batch_index(legs, batch, seg, 0);
            crate::mach::lemma_batch_index(legs, batch, seg, 1);
            crate::mach::lemma_batch_index(legs, batch, seg, 2);

            assert forall|j: int| 0 <= j < 6 implies ir_payload(seg, 0, 6)[j] == le_bits(
                FUSE_PROGRAM_OP as u128,
                6,
            )[j] by {
                assert(seg.subrange(0, 12)[4 + j].tdi == p0.bits@[j]);
                assert(seg.subrange(0, 12)[4 + j] == seg[4 + j]);
            }
            assert(ir_payload(seg, 0, 6) =~= le_bits(FUSE_PROGRAM_OP as u128, 6));

            assert forall|j: int| 0 <= j < 128 implies dr_payload(seg, 12, 128)[j] == le_bits(
                lo,
                128,
            )[j] by {
                assert(seg.subrange(12, 145)[3 + j].tdi == p1.bits@[j]);
                assert(seg.subrange(12, 145)[3 + j] == seg[15 + j]);
            }
            assert(dr_payload(seg, 12, 128) =~= le_bits(lo, 128));
            assert forall|j: int| 0 <= j < 128 implies dr_payload(seg, 145, 128)[j] == le_bits(
                hi,
                128,
            )[j] by {
                assert(seg.subrange(145, 278)[3 + j].tdi == p2.bits@[j]);
                assert(seg.subrange(145, 278)[3 + j] == seg[148 + j]);
            }
            assert(dr_payload(seg, 145, 128) =~= le_bits(hi, 128));

            crate::codec::lemma_pow2_128();
            crate::codec::lemma_le_bits_round_trip(lo, 128);
            crate::codec::lemma_le_bits_round_trip(hi, 128);
            assert(val_le(dr_payload(seg, 12, 128)) == lo);
            assert(val_le(dr_payload(seg, 145, 128)) == hi);
        }
        jtag.drain();

        self.key = self.candidate;
        self.state = FuseState::Burned;
        Ok(())
    }
}

} // verus!
