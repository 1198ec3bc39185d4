//! A software model of the device end of the test access port.
//!
//! The model mirrors the sixteen-state controller, an instruction shift
//! register, and one data register per supported instruction: the
//! identification code, the unique die identifier, and the fuse array's
//! shadow registers.  Key registers move in two 128-bit halves selected by
//! a pointer that advances on every key-register update and rewinds on an
//! instruction update.  Programming ORs the shifted bits into the fuse
//! bytes: a software fuse, like the physical one, never clears a bit.

use vstd::prelude::*;

verus! {

use crate::console::{DNA_OP, IDCODE_OP};
use crate::efuse::{
    byte_monotone, half_from_bytes, lemma_byte_monotone, FUSE_CNTL_OP, FUSE_KEY_OP,
    FUSE_PROGRAM_OP, FUSE_USER_OP,
};
use crate::codec::byte_get;
use crate::phy::{ErrorKind, JtagPhy, PhyOp};
use crate::tap::TapState;

/// The device model and its fixture contents.
pub struct SimPhy {
    /// The device's own controller state.
    pub state: TapState,
    /// Instruction shift register (six bits).
    pub ir_shift: u32,
    /// The committed instruction.
    pub instr: u32,
    /// Data shift register, wide enough for the widest register.
    pub dr_shift: u128,
    /// Fixture identification code.
    pub idcode: u32,
    /// Fixture unique die identifier.
    pub dna: u64,
    /// The fuse array: 256-bit key.
    pub fuse_key: [u8; 32],
    /// The fuse array: 32-bit user field.
    pub fuse_user: u32,
    /// The fuse array: control bits.
    pub fuse_cntl: u8,
    /// Which 128-bit key half the next key scan serves.
    pub key_ptr: usize,
    /// Every clock edge driven so far.
    pub hist: Ghost<Seq<PhyOp>>,
}

/// The data register width selected by each instruction, in bits.
pub open spec fn spec_dr_width(instr: u32) -> usize {
    if instr == IDCODE_OP {
        32
    } else if instr == DNA_OP {
        64
    } else if instr == FUSE_KEY_OP || instr == FUSE_PROGRAM_OP {
        128
    } else if instr == FUSE_USER_OP {
        32
    } else if instr == FUSE_CNTL_OP {
        8
    } else {
        1
    }
}

/// Width of the data register the committed instruction selects.
fn dr_width(instr: u32) -> (w: usize)
    ensures
        w == spec_dr_width(instr),
        1 <= w <= 128,
{
    if instr == IDCODE_OP {
        32
    } else if instr == DNA_OP {
        64
    } else if instr == FUSE_KEY_OP || instr == FUSE_PROGRAM_OP {
        128
    } else if instr == FUSE_USER_OP {
        32
    } else if instr == FUSE_CNTL_OP {
        8
    } else {
        1
    }
}

impl SimPhy {
    /// A device with the given fixture contents, its controller at the
    /// power-up state and the identification instruction selected, as a
    /// real controller loads it on reset.
    pub fn new(idcode: u32, dna: u64, fuse_key: [u8; 32], fuse_user: u32, fuse_cntl: u8) -> (s:
        SimPhy)
        ensures
            s.trace().len() == 0,
            s.state == TapState::Reset,
            s.idcode == idcode,
            s.dna == dna,
            s.fuse_key@ == fuse_key@,
            s.fuse_user == fuse_user,
            s.fuse_cntl == fuse_cntl,
    {
        SimPhy {
            state: TapState::Reset,
            ir_shift: 0,
            instr: IDCODE_OP,
            dr_shift: 0,
            idcode,
            dna,
            fuse_key,
            fuse_user,
            fuse_cntl,
            key_ptr: 0,
            hist: Ghost(Seq::empty()),
        }
    }

    /// The fuse key bytes as the simulated array currently holds them.
    pub fn fuse_key_bytes(&self) -> (k: [u8; 32])
        ensures
            k@ == self.fuse_key@,
    {
        self.fuse_key
    }

    /// The value the selected data register captures.
    fn capture_value(&self) -> u128 {
        if self.instr == IDCODE_OP {
            self.idcode as u128
        } else if self.instr == DNA_OP {
            self.dna as u128
        } else if self.instr == FUSE_KEY_OP || self.instr == FUSE_PROGRAM_OP {
            half_from_bytes(&self.fuse_key, if self.key_ptr == 0 {
                0
            } else {
                16
            })
        } else if self.instr == FUSE_USER_OP {
            self.fuse_user as u128
        } else if self.instr == FUSE_CNTL_OP {
            self.fuse_cntl as u128
        } else {
            0
        }
    }

    /// Applies an update of the selected data register: a key read
    /// advances the half pointer; programming ORs the shifted bits into
    /// the fuse bytes, then advances the pointer.  The simulated fuses are
    /// monotonic like the physical ones: no update ever clears a set bit.
    fn apply_dr_update(&mut self)
        ensures
            final(self).hist == old(self).hist,
            forall|i: int|
                0 <= i < 32 ==> byte_monotone(
                    #[trigger] old(self).fuse_key@[i],
                    final(self).fuse_key@[i],
                ),
    {
        if self.instr == FUSE_KEY_OP {
            self.key_ptr = if self.key_ptr == 0 {
                1
            } else {
                0
            };
        } else if self.instr == FUSE_PROGRAM_OP {
            let base: usize = if self.key_ptr == 0 {
                0
            } else {
                16
            };
            for i in 0..16
                invariant
                    base == 0 || base == 16,
                    self.hist == old(self).hist,
                    forall|k: int|
                        0 <= k < 32 && !(base <= k < base + i) ==> self.fuse_key@[k] == old(
                            self,
                        ).fuse_key@[k],
                    forall|k: int|
                        base <= k < base + i ==> byte_monotone(
                            #[trigger] old(self).fuse_key@[k],
                            self.fuse_key@[k],
                        ),
            {
                let prev = self.fuse_key[base + i];
                let b = byte_get(self.dr_shift, i);
                proof {
                    assert((prev & !(prev | b)) == 0) by (bit_vector);
                    lemma_byte_monotone(prev, prev | b);
                }
                self.fuse_key[base + i] = prev | b;
            }
            self.key_ptr = if self.key_ptr == 0 {
                1
            } else {
                0
            };
        }
    }
}

/// A link that goes down after a budget of edges: every edge beyond the
/// budget reports a transport fault and drives nothing.  For exercising
/// fault recovery without hardware.
pub struct FlakyPhy {
    /// The device behind the link.
    pub sim: SimPhy,
    /// Edges left before the link goes down.
    pub edges_left: usize,
}

impl FlakyPhy {
    /// A link to `sim` that survives `edges` more clock edges.
    pub fn new(sim: SimPhy, edges: usize) -> (p: FlakyPhy)
        ensures
            p.sim == sim,
            p.edges_left == edges,
    {
        FlakyPhy { sim, edges_left: edges }
    }

    /// Brings the link back up for `edges` more clock edges.
    pub fn refuel(&mut self, edges: usize)
        ensures
            final(self).sim == old(self).sim,
            final(self).edges_left == edges,
    {
        self.edges_left = edges;
    }
}

impl JtagPhy for FlakyPhy {
    open spec fn trace(&self) -> Seq<PhyOp> {
        self.sim.hist@
    }

    fn sync(&mut self, tdi: bool, tms: bool) -> (r: Result<bool, ErrorKind>) {
        if self.edges_left == 0 {
            Err(ErrorKind::TransportFault)
        } else {
            self.edges_left = self.edges_left - 1;
            self.sim.sync(tdi, tms)
        }
    }
}

impl JtagPhy for SimPhy {
    open spec fn trace(&self) -> Seq<PhyOp> {
        self.hist@
    }

    fn sync(&mut self, tdi: bool, tms: bool) -> (r: Result<bool, ErrorKind>) {
        // Sample and shift while in a shift state.
        let tdo: bool;
        if matches!(self.state, TapState::ShiftIr) {
            tdo = (self.ir_shift & 1) == 1;
            self.ir_shift = ((self.ir_shift >> 1) | (if tdi {
                0x20
            } else {
                0
            })) & 0x3f;
        } else if matches!(self.state, TapState::ShiftDr) {
            tdo = (self.dr_shift & 1) == 1;
            let w = dr_width(self.instr);
            self.dr_shift = (self.dr_shift >> 1) | (if tdi {
                1u128 << ((w - 1) as u128)
            } else {
                0
            });
        } else {
            tdo = false;
        }

        // Advance the controller and apply its entry actions.
        let next = self.state.advance(tms);
        match next {
            TapState::Reset => {
                self.instr = IDCODE_OP;
                self.key_ptr = 0;
            },
            TapState::CaptureIr => {
                self.ir_shift = 0x01;
            },
            TapState::CaptureDr => {
                self.dr_shift = self.capture_value();
            },
            TapState::UpdateIr => {
                self.instr = self.ir_shift & 0x3f;
                self.key_ptr = 0;
            },
            TapState::UpdateDr => {
                self.apply_dr_update();
            },
            _ => (),
        }
        self.state = next;
        self.hist = Ghost(self.hist@.push(PhyOp { tdi, tms, tdo }));
        Ok(tdo)
    }
}

} // verus!
