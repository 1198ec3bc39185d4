//! The scan queue and engine.
//!
//! The engine accepts zero or more queued legs, executes them against the
//! port in strict submission order, and exposes the captured results one at
//! a time, in the same order the legs were submitted.  The contracts below
//! pin down both the bookkeeping (first in, first out; one result per leg;
//! tags and lengths preserved) and the exact edge schedule each leg puts on
//! the wire.

use vstd::prelude::*;

verus! {

use crate::leg::{JtagChain, JtagLeg, ScanResult};
use crate::phy::{ErrorKind, JtagPhy, PhyOp};
use crate::tap::{tap_after_ones, tap_next, TapState};

/// A result accounts for a leg when it carries the leg's tag and exactly
/// one captured bit per payload bit.
pub open spec fn result_matches(res: ScanResult, leg: JtagLeg) -> bool {
    &&& res.tag@ == leg.tag@
    &&& res.bits@.len() == leg.bits@.len()
}

/// Each result accounts for the leg queued at the same position.
pub open spec fn results_match(legs: Seq<JtagLeg>, results: Seq<ScanResult>) -> bool {
    &&& results.len() == legs.len()
    &&& forall|i: int| 0 <= i < legs.len() ==> result_matches(#[trigger] results[i], legs[i])
}

/// Number of edges that walk the controller from `Idle` into the shift
/// state of `chain`.
pub open spec fn header_len(chain: JtagChain) -> nat {
    match chain {
        JtagChain::Instruction => 4,
        JtagChain::Data => 3,
    }
}

/// Number of edges one leg of `n` payload bits puts on the wire: the walk
/// into the shift state, one edge per bit (the last one also leaves the
/// shift state), and the walk back to `Idle`.
pub open spec fn leg_seg_len(chain: JtagChain, n: nat) -> nat {
    header_len(chain) + n + 2
}

/// The walk from `Idle` into the shift state: mode-select high to reach
/// the chain's select state, then low twice through capture into shift,
/// with the data-out line quiet.
pub open spec fn header_ok(chain: JtagChain, seg: Seq<PhyOp>) -> bool {
    match chain {
        JtagChain::Instruction => {
            &&& seg[0].tms && seg[1].tms && !seg[2].tms && !seg[3].tms
            &&& !seg[0].tdi && !seg[1].tdi && !seg[2].tdi && !seg[3].tdi
        },
        JtagChain::Data => {
            &&& seg[0].tms && !seg[1].tms && !seg[2].tms
            &&& !seg[0].tdi && !seg[1].tdi && !seg[2].tdi
        },
    }
}

/// The exact edge schedule of one executed leg: the header walk, then the
/// payload bits in order with mode-select raised on the final bit so the
/// shift state is left on the same edge that moves the last bit, then one
/// edge into update and one back to `Idle`.  `captured` holds the level
/// sampled on each payload edge.
pub open spec fn leg_segment_ok(
    chain: JtagChain,
    payload: Seq<bool>,
    captured: Seq<bool>,
    seg: Seq<PhyOp>,
) -> bool {
    let h = header_len(chain) as int;
    let n = payload.len() as int;
    &&& seg.len() == leg_seg_len(chain, payload.len())
    &&& captured.len() == payload.len()
    &&& header_ok(chain, seg)
    &&& forall|j: int| 0 <= j < n ==> (#[trigger] seg[h + j]).tdi == payload[j]
    &&& forall|j: int| 0 <= j < n ==> (#[trigger] seg[h + j]).tms == (j == n - 1)
    &&& forall|j: int| 0 <= j < n ==> captured[j] == (#[trigger] seg[h + j]).tdo
    &&& seg[h + n].tms && !seg[h + n].tdi
    &&& !seg[h + n + 1].tms && !seg[h + n + 1].tdi
}

/// The edge schedule of a whole batch: one well-formed segment per leg,
/// laid end to end in submission order, and nothing else.
pub open spec fn batch_trace_ok(
    legs: Seq<JtagLeg>,
    results: Seq<ScanResult>,
    seg: Seq<PhyOp>,
) -> bool
    decreases legs.len(),
{
    if legs.len() == 0 {
        results.len() == 0 && seg.len() == 0
    } else {
        let l = leg_seg_len(legs[0].chain, legs[0].bits@.len()) as int;
        &&& results.len() == legs.len()
        &&& seg.len() >= l
        &&& leg_segment_ok(legs[0].chain, legs[0].bits@, results[0].bits@, seg.take(l))
        &&& batch_trace_ok(legs.skip(1), results.skip(1), seg.skip(l))
    }
}

/// Where leg `i`'s segment starts inside a batch's edge schedule.
pub open spec fn batch_offset(legs: Seq<JtagLeg>, i: int) -> nat
    decreases i,
{
    if i <= 0 {
        0nat
    } else {
        batch_offset(legs, i - 1) + leg_seg_len(legs[i - 1].chain, legs[i - 1].bits@.len())
    }
}

/// Peeling the first leg shifts every later offset down by its segment.
proof fn lemma_batch_offset_skip(legs: Seq<JtagLeg>, i: int)
    requires
        1 <= i <= legs.len(),
    ensures
        batch_offset(legs, i) == leg_seg_len(legs[0].chain, legs[0].bits@.len()) + batch_offset(
            legs.skip(1),
            i - 1,
        ),
    decreases i,
{
    reveal_with_fuel(batch_offset, 2);
    if i > 1 {
        lemma_batch_offset_skip(legs, i - 1);
        assert(legs.skip(1)[i - 2] == legs[i - 1]);
    }
}

/// Positional reading of a batch schedule: leg `i`'s segment sits at its
/// offset, is well formed for that leg, and produced result `i`.
pub proof fn lemma_batch_index(
    legs: Seq<JtagLeg>,
    results: Seq<ScanResult>,
    seg: Seq<PhyOp>,
    i: int,
)
    requires
        batch_trace_ok(legs, results, seg),
        0 <= i < legs.len(),
    ensures
        results.len() == legs.len(),
        seg.len() >= batch_offset(legs, i) + leg_seg_len(legs[i].chain, legs[i].bits@.len()),
        leg_segment_ok(
            legs[i].chain,
            legs[i].bits@,
            results[i].bits@,
            seg.subrange(
                batch_offset(legs, i) as int,
                batch_offset(legs, i) + leg_seg_len(legs[i].chain, legs[i].bits@.len()) as int,
            ),
        ),
    decreases i,
{
    let l0 = leg_seg_len(legs[0].chain, legs[0].bits@.len()) as int;
    if i == 0 {
        lemma_batch_len_ge(legs, results, seg);
        assert(seg.take(l0) =~= seg.subrange(0, l0));
    } else {
        lemma_batch_index(legs.skip(1), results.skip(1), seg.skip(l0), i - 1);
        lemma_batch_offset_skip(legs, i);
        assert(legs.skip(1)[i - 1] == legs[i]);
        assert(results.skip(1)[i - 1] == results[i]);
        let off = batch_offset(legs.skip(1), i - 1) as int;
        let l = leg_seg_len(legs[i].chain, legs[i].bits@.len()) as int;
        assert forall|m: int| 0 <= m < l implies #[trigger] seg.skip(l0).subrange(off, off + l)[m]
            == seg.subrange(l0 + off, l0 + off + l)[m] by {
            assert(seg.skip(l0).subrange(off, off + l)[m] == seg.skip(l0)[off + m]);
            assert(seg.skip(l0)[off + m] == seg[l0 + off + m]);
        }
        assert(seg.skip(l0).subrange(off, off + l) =~= seg.subrange(l0 + off, l0 + off + l));
    }
}

/// A batch schedule is exactly as long as its legs' segments together.
pub proof fn lemma_batch_total_len(legs: Seq<JtagLeg>, results: Seq<ScanResult>, seg: Seq<PhyOp>)
    requires
        batch_trace_ok(legs, results, seg),
    ensures
        seg.len() == batch_offset(legs, legs.len() as int),
    decreases legs.len(),
{
    if legs.len() > 0 {
        let l0 = leg_seg_len(legs[0].chain, legs[0].bits@.len()) as int;
        lemma_batch_total_len(legs.skip(1), results.skip(1), seg.skip(l0));
        lemma_batch_offset_skip(legs, legs.len() as int);
    }
}

/// The levels sampled back on the payload edges of a data-chain segment
/// that starts at `off` inside `seg` and moves `n` bits.
pub open spec fn dr_captured(seg: Seq<PhyOp>, off: int, n: nat) -> Seq<bool> {
    Seq::new(n, |j: int| seg[off + 3 + j].tdo)
}

/// The payload levels driven out on that same data-chain segment.
pub open spec fn dr_payload(seg: Seq<PhyOp>, off: int, n: nat) -> Seq<bool> {
    Seq::new(n, |j: int| seg[off + 3 + j].tdi)
}

/// The payload levels driven out on an instruction-chain segment that
/// starts at `off` inside `seg` and moves `n` bits.
pub open spec fn ir_payload(seg: Seq<PhyOp>, off: int, n: nat) -> Seq<bool> {
    Seq::new(n, |j: int| seg[off + 4 + j].tdi)
}

/// A batch schedule is at least as long as any of its legs' segments need.
proof fn lemma_batch_len_ge(legs: Seq<JtagLeg>, results: Seq<ScanResult>, seg: Seq<PhyOp>)
    requires
        batch_trace_ok(legs, results, seg),
        legs.len() >= 1,
    ensures
        seg.len() >= leg_seg_len(legs[0].chain, legs[0].bits@.len()),
{
}

/// Edges the engine spends bringing the controller to `Idle` before a
/// batch: none when already there, otherwise five with mode-select high
/// (which reach `Reset` from anywhere) and one low.
pub open spec fn align_len(s: TapState) -> nat {
    if s == TapState::Idle {
        0
    } else {
        6
    }
}

/// The shape of that alignment walk.
pub open spec fn align_ok(s: TapState, seg: Seq<PhyOp>) -> bool {
    &&& seg.len() == align_len(s)
    &&& forall|j: int| 0 <= j < seg.len() ==> !(#[trigger] seg[j]).tdi && (seg[j].tms == (j < 5))
}

/// Appending one more leg's segment to a well-formed batch keeps the batch
/// well formed.
proof fn lemma_batch_push(
    legs: Seq<JtagLeg>,
    results: Seq<ScanResult>,
    seg: Seq<PhyOp>,
    leg: JtagLeg,
    res: ScanResult,
    seg2: Seq<PhyOp>,
)
    requires
        batch_trace_ok(legs, results, seg),
        leg_segment_ok(leg.chain, leg.bits@, res.bits@, seg2),
    ensures
        batch_trace_ok(legs.push(leg), results.push(res), seg + seg2),
    decreases legs.len(),
{
    reveal_with_fuel(batch_trace_ok, 2);
    if legs.len() == 0 {
        assert(legs.push(leg)[0] == leg);
        assert(results.push(res)[0] == res);
        assert(seg + seg2 =~= seg2);
        assert((seg + seg2).take(seg2.len() as int) =~= seg2);
        assert((seg + seg2).skip(seg2.len() as int) =~= Seq::<PhyOp>::empty());
        assert(legs.push(leg).skip(1) =~= Seq::<JtagLeg>::empty());
        assert(results.push(res).skip(1) =~= Seq::<ScanResult>::empty());
    } else {
        let l = leg_seg_len(legs[0].chain, legs[0].bits@.len()) as int;
        assert(legs.push(leg)[0] == legs[0]);
        assert(results.push(res)[0] == results[0]);
        lemma_batch_push(legs.skip(1), results.skip(1), seg.skip(l), leg, res, seg2);
        assert(legs.push(leg).skip(1) =~= legs.skip(1).push(leg));
        assert(results.push(res).skip(1) =~= results.skip(1).push(res));
        assert((seg + seg2).take(l) =~= seg.take(l));
        assert((seg + seg2).skip(l) =~= seg.skip(l) + seg2);
    }
}

/// First-in, first-out delivery: when the results of a batch account for
/// its legs position by position, then after `i` retrievals the next
/// result retrieved is exactly the one produced by the `i`-th queued leg.
pub proof fn lemma_fifo_order(legs: Seq<JtagLeg>, results: Seq<ScanResult>, i: int)
    requires
        results_match(legs, results),
        0 <= i < legs.len(),
    ensures
        results.skip(i)[0] == results[i],
        result_matches(results.skip(i)[0], legs[i]),
{
}

/// The scan queue and engine over one test access port.
pub struct JtagMach {
    /// Mirror of the port controller's state, one transition per driven edge.
    pub state: TapState,
    /// Legs accepted and not yet executed, oldest first.
    pub pending: Vec<JtagLeg>,
    /// Results of executed legs, oldest first.
    pub done: Vec<ScanResult>,
    /// Second, independent result channel: the number of bits captured by
    /// each executed leg, oldest first.
    pub dbg: Vec<u32>,
}

impl JtagMach {
    /// Every queued leg carries between one and 128 payload bits.
    pub open spec fn wf(&self) -> bool {
        forall|i: int|
            0 <= i < self.pending@.len() ==> 1 <= (#[trigger] self.pending@[i]).bits@.len() <= 128
    }

    /// A fresh engine: controller at power-up state, nothing queued.
    pub fn new() -> (m: JtagMach)
        ensures
            m.state == TapState::Reset,
            m.pending@.len() == 0,
            m.done@.len() == 0,
            m.dbg@.len() == 0,
            m.wf(),
    {
        JtagMach { state: TapState::Reset, pending: Vec::new(), done: Vec::new(), dbg: Vec::new() }
    }

    /// Drives one clock edge and mirrors the controller transition.
    fn one_edge<P: JtagPhy>(&mut self, phy: &mut P, tdi: bool, tms: bool) -> (r: Result<
        bool,
        ErrorKind,
    >)
        ensures
            r matches Ok(tdo) ==> {
                &&& final(self).state == tap_next(old(self).state, tms)
                &&& final(phy).trace() == old(phy).trace().push(PhyOp { tdi, tms, tdo })
            },
            r is Err ==> *final(self) == *old(self) && final(phy).trace() == old(phy).trace(),
            r matches Err(e) ==> e == ErrorKind::TransportFault,
            final(self).pending@ == old(self).pending@,
            final(self).done@ == old(self).done@,
            final(self).dbg@ == old(self).dbg@,
    {
        match phy.sync(tdi, tms) {
            Ok(tdo) => {
                self.state = self.state.advance(tms);
                Ok(tdo)
            },
            Err(e) => Err(e),
        }
    }

    /// One mode-select step, as the raw protocol primitive: drives a single
    /// edge with the data-out line low and returns the sampled level.
    pub fn step<P: JtagPhy>(&mut self, phy: &mut P, tms: bool) -> (r: Result<bool, ErrorKind>)
        ensures
            r matches Ok(tdo) ==> {
                &&& final(self).state == tap_next(old(self).state, tms)
                &&& final(phy).trace() == old(phy).trace().push(PhyOp { tdi: false, tms, tdo })
            },
            r is Err ==> *final(self) == *old(self) && final(phy).trace() == old(phy).trace(),
            r matches Err(e) ==> e == ErrorKind::TransportFault,
            final(self).pending@ == old(self).pending@,
            final(self).done@ == old(self).done@,
            final(self).dbg@ == old(self).dbg@,
    {
        self.one_edge(phy, false, tms)
    }

    /// The fail-safe recovery operation: five consecutive edges with
    /// mode-select high reach `Reset` from any state, deterministically.
    pub fn reset<P: JtagPhy>(&mut self, phy: &mut P) -> (r: Result<(), ErrorKind>)
        ensures
            r is Ok ==> ({
                let t1 = final(phy).trace();
                &&& final(self).state == TapState::Reset
                &&& t1.len() == old(phy).trace().len() + 5
                &&& t1.take(old(phy).trace().len() as int) == old(phy).trace()
                &&& forall|j: int|
                    old(phy).trace().len() <= j < t1.len() ==> (#[trigger] t1[j]).tms
                        && !t1[j].tdi
            }),
            r matches Err(e) ==> e == ErrorKind::TransportFault,
            old(phy).trace().len() <= final(phy).trace().len(),
            final(self).pending@ == old(self).pending@,
            final(self).done@ == old(self).done@,
            final(self).dbg@ == old(self).dbg@,
    {
        let ghost t0 = phy.trace();
        let mut k: usize = 0;
        while k < 5
            invariant
                t0 == old(phy).trace(),
                k <= 5,
                self.state == tap_after_ones(old(self).state, k as nat),
                phy.trace().len() == t0.len() + k,
                phy.trace().take(t0.len() as int) == t0,
                forall|j: int|
                    t0.len() <= j < phy.trace().len() ==> (#[trigger] phy.trace()[j]).tms && !phy
                        .trace()[j].tdi,
                self.pending@ == old(self).pending@,
                self.done@ == old(self).done@,
                self.dbg@ == old(self).dbg@,
            decreases 5 - k,
        {
            let ghost tprev = phy.trace();
            match self.one_edge(phy, false, true) {
                Ok(_) => (),
                Err(e) => {
                    return Err(e);
                },
            }
            proof {
                assert(phy.trace().take(t0.len() as int) =~= tprev.take(t0.len() as int));
                crate::tap::lemma_after_ones_step(old(self).state, k as nat);
            }
            k = k + 1;
        }
        proof {
            crate::tap::lemma_reset_convergence(old(self).state);
        }
        Ok(())
    }

    /// Accepts a leg for later execution; nothing is driven yet.
    pub fn add(&mut self, leg: JtagLeg)
        requires
            old(self).wf(),
            1 <= leg.bits@.len() <= 128,
        ensures
            final(self).wf(),
            final(self).pending@ == old(self).pending@.push(leg),
            final(self).state == old(self).state,
            final(self).done@ == old(self).done@,
            final(self).dbg@ == old(self).dbg@,
    {
        self.pending.push(leg);
    }

    /// Pops the oldest pending result, or reports that none is pending —
    /// never a fabricated default.
    pub fn get(&mut self) -> (r: Option<ScanResult>)
        ensures
            old(self).done@.len() > 0 ==> {
                &&& r matches Some(res)
                &&& res == old(self).done@[0]
                &&& final(self).done@ == old(self).done@.skip(1)
            },
            old(self).done@.len() == 0 ==> r is None && *final(self) == *old(self),
            final(self).pending@ == old(self).pending@,
            final(self).state == old(self).state,
            final(self).dbg@ == old(self).dbg@,
            final(self).wf() == old(self).wf(),
    {
        if self.done.len() == 0 {
            None
        } else {
            let res = self.done.remove(0);
            proof {
                assert(self.done@ =~= old(self).done@.skip(1));
            }
            Some(res)
        }
    }

    /// Like [`Self::get`], but reports the empty queue as an error value.
    pub fn take_result(&mut self) -> (r: Result<ScanResult, ErrorKind>)
        ensures
            old(self).done@.len() > 0 ==> {
                &&& r matches Ok(res)
                &&& res == old(self).done@[0]
                &&& final(self).done@ == old(self).done@.skip(1)
            },
            old(self).done@.len() == 0 ==> r == Err::<ScanResult, ErrorKind>(
                ErrorKind::QueueEmpty,
            ) && *final(self) == *old(self),
            final(self).pending@ == old(self).pending@,
            final(self).state == old(self).state,
            final(self).dbg@ == old(self).dbg@,
            final(self).wf() == old(self).wf(),
    {
        match self.get() {
            Some(res) => Ok(res),
            None => Err(ErrorKind::QueueEmpty),
        }
    }

    /// Clears the debug channel.
    pub fn dbg_reset(&mut self)
        ensures
            final(self).dbg@.len() == 0,
            final(self).pending@ == old(self).pending@,
            final(self).done@ == old(self).done@,
            final(self).state == old(self).state,
            final(self).wf() == old(self).wf(),
    {
        self.dbg.clear();
    }

    /// Pops the oldest entry of the debug channel, or reports that none is
    /// pending.
    pub fn dbg_get(&mut self) -> (r: Option<u32>)
        ensures
            old(self).dbg@.len() > 0 ==> {
                &&& r == Some(old(self).dbg@[0])
                &&& final(self).dbg@ == old(self).dbg@.skip(1)
            },
            old(self).dbg@.len() == 0 ==> r is None && *final(self) == *old(self),
            final(self).pending@ == old(self).pending@,
            final(self).done@ == old(self).done@,
            final(self).state == old(self).state,
            final(self).wf() == old(self).wf(),
    {
        if self.dbg.len() == 0 {
            None
        } else {
            let v = self.dbg.remove(0);
            proof {
                assert(self.dbg@ =~= old(self).dbg@.skip(1));
            }
            Some(v)
        }
    }

    /// Discards everything queued and every undelivered result, on both
    /// channels.  The recovery path after a transport fault.
    pub fn drain(&mut self)
        ensures
            final(self).pending@.len() == 0,
            final(self).done@.len() == 0,
            final(self).dbg@.len() == 0,
            final(self).state == old(self).state,
            final(self).wf(),
    {
        self.pending.clear();
        self.done.clear();
        self.dbg.clear();
    }

    /// Executes one leg from `Idle`: walks into the shift state, moves the
    /// payload while sampling the same edges, and walks back to `Idle`.
    /// On a transport fault the leg is handed back untouched.
    fn scan_one<P: JtagPhy>(&mut self, phy: &mut P, leg: JtagLeg) -> (r: Result<
        ScanResult,
        (ErrorKind, JtagLeg),
    >)
        requires
            old(self).state == TapState::Idle,
            1 <= leg.bits@.len() <= 128,
        ensures
            r matches Ok(res) ==> {
                &&& final(self).state == TapState::Idle
                &&& result_matches(res, leg)
                &&& final(phy).trace().len() == old(phy).trace().len() + leg_seg_len(
                    leg.chain,
                    leg.bits@.len(),
                )
                &&& final(phy).trace().take(old(phy).trace().len() as int) == old(phy).trace()
                &&& leg_segment_ok(
                    leg.chain,
                    leg.bits@,
                    res.bits@,
                    final(phy).trace().skip(old(phy).trace().len() as int),
                )
            },
            r matches Err((e, l)) ==> e == ErrorKind::TransportFault && l == leg,
            old(phy).trace().len() <= final(phy).trace().len(),
            final(phy).trace().take(old(phy).trace().len() as int) == old(phy).trace(),
            final(self).pending@ == old(self).pending@,
            final(self).done@ == old(self).done@,
            final(self).dbg@ == old(self).dbg@,
    {
        let ghost t0 = phy.trace();
        let n = leg.bits.len();
        let ghost h = header_len(leg.chain) as int;

        // Walk from Idle into the chain's shift state.
        let hr = match leg.chain {
            JtagChain::Instruction => {
                let r1 = self.one_edge(phy, false, true);
                let r2 = if r1.is_ok() {
                    self.one_edge(phy, false, true)
                } else {
                    r1
                };
                let r3 = if r2.is_ok() {
                    self.one_edge(phy, false, false)
                } else {
                    r2
                };
                if r3.is_ok() {
                    self.one_edge(phy, false, false)
                } else {
                    r3
                }
            },
            JtagChain::Data => {
                let r1 = self.one_edge(phy, false, true);
                let r2 = if r1.is_ok() {
                    self.one_edge(phy, false, false)
                } else {
                    r1
                };
                if r2.is_ok() {
                    self.one_edge(phy, false, false)
                } else {
                    r2
                }
            },
        };
        match hr {
            Ok(_) => (),
            Err(e) => {
                proof {
                    assert(phy.trace().take(t0.len() as int) =~= t0);
                }
                return Err((e, leg));
            },
        }
        proof {
            assert(phy.trace().take(t0.len() as int) =~= t0);
        }

        // Move the payload; mode-select rises on the final bit so the shift
        // state is left on the same edge.
        let mut captured: Vec<bool> = Vec::new();
        let mut i: usize = 0;
        let ghost shift_state = self.state;
        while i < n
            invariant
                t0 == old(phy).trace(),
                1 <= n <= 128,
                n == leg.bits@.len(),
                i <= n,
                captured@.len() == i,
                self.state == if i < n {
                    shift_state
                } else {
                    tap_next(shift_state, true)
                },
                shift_state == (if leg.chain is Instruction {
                    TapState::ShiftIr
                } else {
                    TapState::ShiftDr
                }),
                phy.trace().len() == t0.len() + h + i,
                phy.trace().take(t0.len() as int) == t0,
                header_ok(leg.chain, phy.trace().skip(t0.len() as int)),
                h == header_len(leg.chain) as int,
                forall|j: int|
                    0 <= j < i ==> (#[trigger] phy.trace()[t0.len() + h + j]).tdi == leg.bits@[j],
                forall|j: int|
                    0 <= j < i ==> (#[trigger] phy.trace()[t0.len() + h + j]).tms == (j == n - 1),
                forall|j: int|
                    0 <= j < i ==> captured@[j] == (#[trigger] phy.trace()[t0.len() + h + j]).tdo,
                self.pending@ == old(self).pending@,
                self.done@ == old(self).done@,
                self.dbg@ == old(self).dbg@,
            decreases n - i,
        {
            let ghost tprev = phy.trace();
            let last = i == n - 1;
            let tdo = match self.one_edge(phy, leg.bits[i], last) {
                Ok(tdo) => tdo,
                Err(e) => {
                    return Err((e, leg));
                },
            };
            captured.push(tdo);
            proof {
                assert(phy.trace().take(t0.len() as int) =~= tprev.take(t0.len() as int));
            }
            i = i + 1;
        }

        // Walk Exit1 -> Update -> Idle.
        let ghost tshift = phy.trace();
        match self.one_edge(phy, false, true) {
            Ok(_) => (),
            Err(e) => {
                proof {
                    assert(phy.trace().take(t0.len() as int) =~= t0);
                }
                return Err((e, leg));
            },
        }
        match self.one_edge(phy, false, false) {
            Ok(_) => (),
            Err(e) => {
                proof {
                    assert(phy.trace().take(t0.len() as int) =~= t0);
                }
                return Err((e, leg));
            },
        }
        proof {
            assert(phy.trace().take(t0.len() as int) =~= t0);
            let seg = phy.trace().skip(t0.len() as int);
            assert(seg.len() == leg_seg_len(leg.chain, leg.bits@.len()));
            assert forall|j: int| 0 <= j < n implies (#[trigger] seg[h + j]).tdi == leg.bits@[j]
                && seg[h + j].tms == (j == n - 1) && captured@[j] == seg[h + j].tdo by {
                assert(seg[h + j] == phy.trace()[t0.len() + h + j]);
            }
            assert(leg_segment_ok(leg.chain, leg.bits@, captured@, seg));
        }
        Ok(ScanResult { tag: leg.tag, bits: captured })
    }

    /// Executes every pending leg in submission order, appending one result
    /// per leg to the result channel and the captured bit count of each to
    /// the debug channel.  The controller is brought to `Idle` first if it
    /// is anywhere else, and ends at `Idle`.  On a transport fault the legs
    /// not yet executed (including the interrupted one) stay queued, and
    /// the results of the legs already executed stay delivered.
    pub fn next<P: JtagPhy>(&mut self, phy: &mut P) -> (r: Result<(), ErrorKind>)
        requires
            old(self).wf(),
        ensures
            final(self).wf(),
            r is Ok ==> {
                &&& final(self).state == TapState::Idle
                &&& final(self).pending@.len() == 0
                &&& final(self).done@.len() == old(self).done@.len() + old(self).pending@.len()
                &&& final(self).done@.take(old(self).done@.len() as int) == old(self).done@
                &&& results_match(
                    old(self).pending@,
                    final(self).done@.skip(old(self).done@.len() as int),
                )
                &&& final(self).dbg@.len() == old(self).dbg@.len() + old(self).pending@.len()
                &&& final(self).dbg@.take(old(self).dbg@.len() as int) == old(self).dbg@
                &&& forall|i: int|
                    0 <= i < old(self).pending@.len() ==> final(self).dbg@[old(self).dbg@.len() + i]
                        == (#[trigger] old(self).pending@[i]).bits@.len()
                &&& align_ok(
                    old(self).state,
                    final(phy).trace().skip(old(phy).trace().len() as int).take(
                        align_len(old(self).state) as int,
                    ),
                )
                &&& batch_trace_ok(
                    old(self).pending@,
                    final(self).done@.skip(old(self).done@.len() as int),
                    final(phy).trace().skip(
                        old(phy).trace().len() + align_len(old(self).state) as int,
                    ),
                )
                &&& final(phy).trace().len() == old(phy).trace().len() + align_len(
                    old(self).state,
                ) + batch_offset(old(self).pending@, old(self).pending@.len() as int)
            },
            r matches Err(e) ==> e == ErrorKind::TransportFault,
            r is Err ==> {
                let k = old(self).pending@.len() - final(self).pending@.len();
                &&& 0 <= k <= old(self).pending@.len()
                &&& final(self).pending@ == old(self).pending@.skip(k)
                &&& final(self).done@.len() == old(self).done@.len() + k
                &&& final(self).done@.take(old(self).done@.len() as int) == old(self).done@
                &&& results_match(
                    old(self).pending@.take(k),
                    final(self).done@.skip(old(self).done@.len() as int),
                )
            },
            final(phy).trace().take(old(phy).trace().len() as int) == old(phy).trace(),
            old(phy).trace().len() <= final(phy).trace().len(),
    {
        let ghost t0 = phy.trace();

        // Bring the controller to Idle if it is anywhere else.
        if !matches!(self.state, TapState::Idle) {
            let mut k: usize = 0;
            while k < 5
                invariant
                    t0 == old(phy).trace(),
                    self.wf(),
                    k <= 5,
                    self.state == tap_after_ones(old(self).state, k as nat),
                    phy.trace().len() == t0.len() + k,
                    phy.trace().take(t0.len() as int) == t0,
                    forall|j: int|
                        t0.len() <= j < phy.trace().len() ==> !(#[trigger] phy.trace()[j]).tdi
                            && phy.trace()[j].tms,
                    self.pending@ == old(self).pending@,
                    self.done@ == old(self).done@,
                    self.dbg@ == old(self).dbg@,
                decreases 5 - k,
            {
                let ghost tprev = phy.trace();
                match self.one_edge(phy, false, true) {
                    Ok(_) => (),
                    Err(e) => {
                        proof {
                            assert(self.pending@ =~= old(self).pending@.skip(0));
                            assert(self.done@.take(old(self).done@.len() as int) =~= old(
                                self,
                            ).done@);
                            assert(old(self).pending@.take(0) =~= Seq::<JtagLeg>::empty());
                            assert(self.done@.skip(old(self).done@.len() as int) =~= Seq::<
                                ScanResult,
                            >::empty());
                        }
                        return Err(e);
                    },
                }
                proof {
                    assert(phy.trace().take(t0.len() as int) =~= tprev.take(t0.len() as int));
                    crate::tap::lemma_after_ones_step(old(self).state, k as nat);
                }
                k = k + 1;
            }
            proof {
                crate::tap::lemma_reset_convergence(old(self).state);
            }
            let ghost tprev = phy.trace();
            match self.one_edge(phy, false, false) {
                Ok(_) => (),
                Err(e) => {
                    proof {
                        assert(self.pending@ =~= old(self).pending@.skip(0));
                        assert(self.done@.take(old(self).done@.len() as int) =~= old(self).done@);
                        assert(old(self).pending@.take(0) =~= Seq::<JtagLeg>::empty());
                        assert(self.done@.skip(old(self).done@.len() as int) =~= Seq::<
                            ScanResult,
                        >::empty());
                    }
                    return Err(e);
                },
            }
            proof {
                assert(phy.trace().take(t0.len() as int) =~= tprev.take(t0.len() as int));
            }
        }
        proof {
            let aseg = phy.trace().skip(t0.len() as int).take(align_len(old(self).state) as int);
            assert(aseg.len() == align_len(old(self).state));
            assert forall|j: int| 0 <= j < aseg.len() implies !(#[trigger] aseg[j]).tdi && (
            aseg[j].tms == (j < 5)) by {
                assert(aseg[j] == phy.trace()[t0.len() + j]);
            }
            assert(align_ok(old(self).state, aseg));
        }

        // Execute the batch in submission order.
        let ghost ta = phy.trace();
        let ghost legs0 = old(self).pending@;
        let ghost done0 = old(self).done@;
        let ghost dbg0 = old(self).dbg@;
        let mut k: usize = 0;
        let total: usize = self.pending.len();
        while self.pending.len() > 0
            invariant
                t0 == old(phy).trace(),
                legs0 == old(self).pending@,
                done0 == old(self).done@,
                dbg0 == old(self).dbg@,
                self.wf(),
                self.state == TapState::Idle,
                k <= total,
                total == legs0.len(),
                self.pending@ == legs0.skip(k as int),
                self.done@.len() == done0.len() + k,
                self.done@.take(done0.len() as int) == done0,
                results_match(legs0.take(k as int), self.done@.skip(done0.len() as int)),
                self.dbg@.len() == dbg0.len() + k,
                self.dbg@.take(dbg0.len() as int) == dbg0,
                forall|i: int|
                    0 <= i < k ==> self.dbg@[dbg0.len() + i] == (#[trigger] legs0[i]).bits@.len(),
                phy.trace().take(t0.len() as int) == t0,
                phy.trace().take(ta.len() as int) == ta,
                t0.len() <= ta.len() <= phy.trace().len(),
                align_ok(
                    old(self).state,
                    ta.skip(t0.len() as int).take(align_len(old(self).state) as int),
                ),
                ta.len() == t0.len() + align_len(old(self).state),
                batch_trace_ok(
                    legs0.take(k as int),
                    self.done@.skip(done0.len() as int),
                    phy.trace().skip(ta.len() as int),
                ),
            decreases self.pending@.len(),
        {
            let ghost tprev = phy.trace();
            let ghost resprev = self.done@.skip(done0.len() as int);
            let leg = self.pending.remove(0);
            let ghost legsnap = leg;
            proof {
                assert(self.pending@ =~= legs0.skip(k + 1));
                assert(legs0.skip(k as int)[0] == legs0[k as int]);
            }
            match self.scan_one(phy, leg) {
                Ok(res) => {
                    let nbits = res.bits.len();
                    self.done.push(res);
                    self.dbg.push(nbits as u32);
                    proof {
                        assert(self.done@.take(done0.len() as int) =~= done0);
                        assert(self.dbg@.take(dbg0.len() as int) =~= dbg0);
                        assert(legs0.take(k + 1) =~= legs0.take(k as int).push(legs0[k as int]));
                        assert(self.done@.skip(done0.len() as int) =~= resprev.push(res));
                        assert(phy.trace().take(ta.len() as int) =~= tprev.take(ta.len() as int));
                        assert(phy.trace().take(t0.len() as int) =~= tprev.take(t0.len() as int));
                        let seg2 = phy.trace().skip(tprev.len() as int);
                        lemma_batch_push(
                            legs0.take(k as int),
                            resprev,
                            tprev.skip(ta.len() as int),
                            legsnap,
                            res,
                            seg2,
                        );
                        assert(phy.trace().skip(ta.len() as int) =~= tprev.skip(ta.len() as int)
                            + seg2);
                    }
                    k = k + 1;
                },
                Err((e, back)) => {
                    self.pending.insert(0, back);
                    proof {
                        assert(self.pending@ =~= legs0.skip(k as int));
                        assert(phy.trace().take(t0.len() as int) =~= tprev.take(t0.len() as int));
                    }
                    return Err(e);
                },
            }
        }
        proof {
            assert(legs0.take(total as int) =~= legs0);
            lemma_batch_total_len(
                legs0,
                self.done@.skip(done0.len() as int),
                phy.trace().skip(ta.len() as int),
            );
            let alen = align_len(old(self).state) as int;
            assert forall|j: int| 0 <= j < alen implies phy.trace().skip(t0.len() as int).take(
            alen)[j] == ta.skip(t0.len() as int).take(alen)[j] by {
                assert(phy.trace()[t0.len() + j] == ta[t0.len() + j]);
            }
            assert(phy.trace().skip(t0.len() as int).take(alen) =~= ta.skip(t0.len() as int).take(
            alen));
        }
        Ok(())
    }
}

} // verus!
