//! Console-level flows over the scan engine.
//!
//! Each flow is the computational core of one operator command: it queues
//! the canonical legs, runs them, and interprets the captured bits.  The
//! byte-oriented line editor that collects those commands lives here too;
//! rendering and command dispatch stay with the caller.

use vstd::prelude::*;

verus! {

use crate::codec::{le_bits, val_le, JtagEndian};
use crate::leg::{JtagChain, JtagLeg, IR_OP_BITS};
use crate::mach::{dr_captured, ir_payload, JtagMach};
use crate::phy::{ErrorKind, JtagPhy};
use crate::tap::TapState;

/// Instruction opcode that selects the device identification register.
pub const IDCODE_OP: u32 = 0b001001;

/// Instruction opcode that selects the unique die identifier register.
pub const DNA_OP: u32 = 0b110010;

/// Width of the identification data register, in bits.
pub const IDCODE_BITS: usize = 32;

/// Width of the unique die identifier register, in bits.
pub const DNA_BITS: usize = 64;

/// What an identification read returned.
pub struct IdReadout {
    /// Tag of the data leg that produced the code.
    pub tag: String,
    /// The 32-bit identification code.
    pub code: u32,
    /// The debug channel's record for the data leg: its captured bit count.
    pub dbg_bits: Option<u32>,
}

/// What a die-identifier read returned.
pub struct DnaReadout {
    /// Tag of the data leg that produced the identifier.
    pub tag: String,
    /// The unique die identifier, at most 64 significant bits.
    pub dna: u128,
}

/// Reads the device identification code: a port reset, the identification
/// opcode on the instruction chain, a check that the instruction scan
/// produced a result at all, then a 32-bit data scan whose captured bits
/// are the code.
pub fn cmd_id<P: JtagPhy>(jtag: &mut JtagMach, phy: &mut P) -> (r: Result<IdReadout, ErrorKind>)
    requires
        old(jtag).wf(),
        old(jtag).pending@.len() == 0,
        old(jtag).done@.len() == 0,
    ensures
        final(jtag).wf(),
        final(jtag).pending@.len() == 0,
        final(jtag).done@.len() == 0,
        r matches Ok(out) ==> out.tag@ == "idcode"@ && final(jtag).state == TapState::Idle,
        r matches Ok(out) ==> ({
            // The wire saw the port reset, the identification opcode on the
            // instruction chain, and one 32-bit data scan; the returned code
            // is the decode of the levels the device answered on that scan,
            // and the debug channel recorded its bit count.
            let t = final(phy).trace();
            let base = old(phy).trace().len() as int;
            &&& t.len() == base + 60
            &&& ir_payload(t.subrange(base + 11, base + 23), 0, 6) == le_bits(IDCODE_OP as u128, 6)
            &&& out.code as nat == val_le(dr_captured(t.subrange(base + 23, base + 60), 0, 32))
            &&& out.dbg_bits == Some(32u32)
        }),
        r matches Err(e) ==> e == ErrorKind::TransportFault,
{
    let ghost t0 = phy.trace();
    match jtag.reset(phy) {
        Ok(()) => (),
        Err(e) => {
            return Err(e);
        },
    }

    let ghost t1 = phy.trace();
    let mut ir = JtagLeg::new(JtagChain::Instruction, "idcmd");
    ir.push_u32(IDCODE_OP, IR_OP_BITS, JtagEndian::Little);
    let ghost ir_leg = ir;
    jtag.add(ir);
    let ghost legs1 = jtag.pending@;
    match jtag.next(phy) {
        Ok(()) => (),
        Err(e) => {
            jtag.drain();
            return Err(e);
        },
    }
    let ghost t2 = phy.trace();
    let ghost batch1 = jtag.done@;
    proof {
        assert(legs1 =~= seq![ir_leg]);
        assert(batch1 == jtag.done@.skip(0));
        let seg1 = t2.skip(t1.len() as int + 6);
        assert(crate::mach::batch_trace_ok(legs1, batch1, seg1));
        crate::mach::lemma_batch_total_len(legs1, batch1, seg1);
        reveal_with_fuel(crate::mach::batch_offset, 2);
        assert(ir_leg.bits@ =~= le_bits(IDCODE_OP as u128, 6));
        crate::mach::lemma_batch_index(legs1, batch1, seg1, 0);
        assert(seg1.len() == 12);
        assert(t2.len() == t0.len() as int + 23);
        let sega = t2.subrange(t0.len() as int + 11, t0.len() as int + 23);
        assert forall|j: int| 0 <= j < 6 implies ir_payload(sega, 0, 6)[j] == le_bits(
            IDCODE_OP as u128,
            6,
        )[j] by {
            assert(seg1.subrange(0, 12)[4 + j].tdi == ir_leg.bits@[j]);
            assert(seg1.subrange(0, 12)[4 + j] == t2[t0.len() as int + 11 + 4 + j]);
            assert(sega[4 + j] == t2[t0.len() as int + 11 + 4 + j]);
        }
        assert(ir_payload(sega, 0, 6) =~= le_bits(IDCODE_OP as u128, 6));
    }
    let _ = match jtag.take_result() {
        Ok(res) => res,
        Err(_) => {
            jtag.drain();
            return Err(ErrorKind::TransportFault);
        },
    };

    let mut dr = JtagLeg::new(JtagChain::Data, "idcode");
    dr.push_u32(0, IDCODE_BITS, JtagEndian::Little);
    let ghost data_leg = dr;
    jtag.add(dr);
    let ghost legs2 = jtag.pending@;
    jtag.dbg_reset();
    match jtag.next(phy) {
        Ok(()) => (),
        Err(e) => {
            jtag.drain();
            return Err(e);
        },
    }
    let ghost t3 = phy.trace();
    let ghost batch2 = jtag.done@;
    proof {
        assert(legs2 =~= seq![data_leg]);
        assert(batch2 == jtag.done@.skip(0));
        let seg2 = t3.skip(t2.len() as int);
        assert(crate::mach::batch_trace_ok(legs2, batch2, seg2));
        crate::mach::lemma_batch_total_len(legs2, batch2, seg2);
        reveal_with_fuel(crate::mach::batch_offset, 2);
        assert(data_leg.bits@ =~= le_bits(0u128, 32));
        crate::mach::lemma_batch_index(legs2, batch2, seg2, 0);
        assert(seg2.len() == 37);
        assert(t3.len() == t0.len() as int + 60);
        let segb = t3.subrange(t0.len() as int + 23, t0.len() as int + 60);
        assert forall|j: int| 0 <= j < 32 implies batch2[0].bits@[j] == dr_captured(
            segb,
            0,
            32,
        )[j] by {
            assert(batch2[0].bits@[j] == seg2.subrange(0, 37)[3 + j].tdo);
            assert(seg2.subrange(0, 37)[3 + j] == t3[t2.len() + 3 + j]);
            assert(segb[3 + j] == t3[t0.len() as int + 23 + 3 + j]);
        }
        assert(batch2[0].bits@ =~= dr_captured(segb, 0, 32));
        // the earlier instruction segment is untouched by the later edges
        assert forall|j: int| t0.len() as int + 11 <= j < t0.len() as int + 23 implies #[trigger] t3[j]
            == t2[j] by {
            assert(t3.take(t2.len() as int)[j] == t3[j]);
        }
        assert(t3.subrange(t0.len() as int + 11, t0.len() as int + 23) =~= t2.subrange(
            t0.len() as int + 11,
            t0.len() as int + 23,
        ));
    }
    let dbg_bits = jtag.dbg_get();
    let mut data = match jtag.take_result() {
        Ok(res) => res,
        Err(_) => {
            jtag.drain();
            return Err(ErrorKind::TransportFault);
        },
    };
    let code = match data.pop_u32(IDCODE_BITS, JtagEndian::Little) {
        Some(v) => v,
        None => {
            return Err(ErrorKind::TransportFault);
        },
    };
    proof {
        assert(batch2[0].bits@.take(32) =~= batch2[0].bits@);
    }
    Ok(IdReadout { tag: data.tag, code, dbg_bits })
}

/// Reads the unique die identifier: the identifier opcode on the
/// instruction chain, a check that the instruction scan produced a result,
/// then a 64-bit data scan.
pub fn cmd_dna<P: JtagPhy>(jtag: &mut JtagMach, phy: &mut P) -> (r: Result<DnaReadout, ErrorKind>)
    requires
        old(jtag).wf(),
        old(jtag).pending@.len() == 0,
        old(jtag).done@.len() == 0,
    ensures
        final(jtag).wf(),
        final(jtag).pending@.len() == 0,
        final(jtag).done@.len() == 0,
        r matches Ok(out) ==> out.tag@ == "dna"@ && out.dna < 0x1_0000_0000_0000_0000
            && final(jtag).state == TapState::Idle,
        r matches Ok(out) ==> ({
            // The wire saw the port reset, the identifier opcode on the
            // instruction chain, and one 64-bit data scan; the returned
            // identifier is the decode of the levels the device answered.
            let t = final(phy).trace();
            let base = old(phy).trace().len() as int;
            &&& t.len() == base + 92
            &&& ir_payload(t.subrange(base + 11, base + 23), 0, 6) == le_bits(DNA_OP as u128, 6)
            &&& out.dna as nat == val_le(dr_captured(t.subrange(base + 23, base + 92), 0, 64))
        }),
        r matches Err(e) ==> e == ErrorKind::TransportFault,
{
    let ghost t0 = phy.trace();
    match jtag.reset(phy) {
        Ok(()) => (),
        Err(e) => {
            return Err(e);
        },
    }

    let ghost t1 = phy.trace();
    let mut ir = JtagLeg::new(JtagChain::Instruction, "dnacmd");
    ir.push_u32(DNA_OP, IR_OP_BITS, JtagEndian::Little);
    let ghost ir_leg = ir;
    jtag.add(ir);
    let ghost legs1 = jtag.pending@;
    match jtag.next(phy) {
        Ok(()) => (),
        Err(e) => {
            jtag.drain();
            return Err(e);
        },
    }
    let ghost t2 = phy.trace();
    let ghost batch1 = jtag.done@;
    proof {
        assert(legs1 =~= seq![ir_leg]);
        assert(batch1 == jtag.done@.skip(0));
        let seg1 = t2.skip(t1.len() as int + 6);
        assert(crate::mach::batch_trace_ok(legs1, batch1, seg1));
        crate::mach::lemma_batch_total_len(legs1, batch1, seg1);
        reveal_with_fuel(crate::mach::batch_offset, 2);
        assert(ir_leg.bits@ =~= le_bits(DNA_OP as u128, 6));
        crate::mach::lemma_batch_index(legs1, batch1, seg1, 0);
        assert(seg1.len() == 12);
        assert(t2.len() == t0.len() as int + 23);
        let sega = t2.subrange(t0.len() as int + 11, t0.len() as int + 23);
        assert forall|j: int| 0 <= j < 6 implies ir_payload(sega, 0, 6)[j] == le_bits(
            DNA_OP as u128,
            6,
        )[j] by {
            assert(seg1.subrange(0, 12)[4 + j].tdi == ir_leg.bits@[j]);
            assert(seg1.subrange(0, 12)[4 + j] == t2[t0.len() as int + 11 + 4 + j]);
            assert(sega[4 + j] == t2[t0.len() as int + 11 + 4 + j]);
        }
        assert(ir_payload(sega, 0, 6) =~= le_bits(DNA_OP as u128, 6));
    }
    let _ = match jtag.take_result() {
        Ok(res) => res,
        Err(_) => {
            jtag.drain();
            return Err(ErrorKind::TransportFault);
        },
    };

    let mut dr = JtagLeg::new(JtagChain::Data, "dna");
    dr.push_u128(0, DNA_BITS, JtagEndian::Little);
    let ghost data_leg = dr;
    jtag.add(dr);
    let ghost legs2 = jtag.pending@;
    match jtag.next(phy) {
        Ok(()) => (),
        Err(e) => {
            jtag.drain();
            return Err(e);
        },
    }
    let ghost t3 = phy.trace();
    let ghost batch2 = jtag.done@;
    proof {
        assert(legs2 =~= seq![data_leg]);
        assert(batch2 == jtag.done@.skip(0));
        let seg2 = t3.skip(t2.len() as int);
        assert(crate::mach::batch_trace_ok(legs2, batch2, seg2));
        crate::mach::lemma_batch_total_len(legs2, batch2, seg2);
        reveal_with_fuel(crate::mach::batch_offset, 2);
        assert(data_leg.bits@ =~= le_bits(0u128, 64));
        crate::mach::lemma_batch_index(legs2, batch2, seg2, 0);
        assert(seg2.len() == 69);
        assert(t3.len() == t0.len() as int + 92);
        let segb = t3.subrange(t0.len() as int + 23, t0.len() as int + 92);
        assert forall|j: int| 0 <= j < 64 implies batch2[0].bits@[j] == dr_captured(
            segb,
            0,
            64,
        )[j] by {
            assert(batch2[0].bits@[j] == seg2.subrange(0, 69)[3 + j].tdo);
            assert(seg2.subrange(0, 69)[3 + j] == t3[t2.len() + 3 + j]);
            assert(segb[3 + j] == t3[t0.len() as int + 23 + 3 + j]);
        }
        assert(batch2[0].bits@ =~= dr_captured(segb, 0, 64));
        assert forall|j: int| t0.len() as int + 11 <= j < t0.len() as int + 23 implies #[trigger] t3[j]
            == t2[j] by {
            assert(t3.take(t2.len() as int)[j] == t3[j]);
        }
        assert(t3.subrange(t0.len() as int + 11, t0.len() as int + 23) =~= t2.subrange(
            t0.len() as int + 11,
            t0.len() as int + 23,
        ));
    }
    let mut data = match jtag.take_result() {
        Ok(res) => res,
        Err(_) => {
            jtag.drain();
            return Err(ErrorKind::TransportFault);
        },
    };
    let dna = match data.pop_u128(DNA_BITS, JtagEndian::Little) {
        Some(v) => v,
        None => {
            return Err(ErrorKind::TransportFault);
        },
    };
    proof {
        vstd::arithmetic::power2::lemma2_to64();
        assert(batch2[0].bits@.take(64) =~= batch2[0].bits@);
    }
    Ok(DnaReadout { tag: data.tag, dna })
}

/// Collects one command line, a byte at a time.  Printable characters
/// append, backspace removes the newest character, carriage return closes
/// the line: the collected bytes become the current command and the input
/// buffer restarts empty.
pub struct LineEditor {
    /// Characters typed so far on the open line.
    pub input: Vec<u8>,
    /// The last fully formed command line.
    pub cmd: Vec<u8>,
}

impl LineEditor {
    /// An editor with nothing typed and no command yet.
    pub fn new() -> (ed: LineEditor)
        ensures
            ed.input@.len() == 0,
            ed.cmd@.len() == 0,
    {
        LineEditor { input: Vec::new(), cmd: Vec::new() }
    }

    /// Feeds one byte.  Returns true exactly when the byte closed a line,
    /// so the caller knows a fresh command is ready.
    pub fn input_char(&mut self, c: u8) -> (completed: bool)
        ensures
            0x20 <= c <= 0x7e ==> {
                &&& !completed
                &&& final(self).input@ == old(self).input@.push(c)
                &&& final(self).cmd@ == old(self).cmd@
            },
            c == 0x08 ==> {
                &&& !completed
                &&& final(self).input@ == (if old(self).input@.len() > 0 {
                    old(self).input@.drop_last()
                } else {
                    old(self).input@
                })
                &&& final(self).cmd@ == old(self).cmd@
            },
            c == 0x0d ==> {
                &&& completed
                &&& final(self).cmd@ == old(self).input@
                &&& final(self).input@.len() == 0
            },
            !(0x20 <= c <= 0x7e) && c != 0x08 && c != 0x0d ==> *final(self) == *old(self)
                && !completed,
    {
        if 0x20 <= c && c <= 0x7e {
            self.input.push(c);
            false
        } else if c == 0x08 {
            if self.input.len() > 0 {
                self.input.pop();
                proof {
                    assert(self.input@ =~= old(self).input@.drop_last());
                }
            }
            false
        } else if c == 0x0d {
            let mut line: Vec<u8> = Vec::new();
            core::mem::swap(&mut line, &mut self.input);
            self.cmd = line;
            true
        } else {
            false
        }
    }

    /// The last fully formed command line.
    pub fn get_cmd(&self) -> (c: &Vec<u8>)
        ensures
            c@ == self.cmd@,
    {
        &self.cmd
    }

    /// The line being typed.
    pub fn get_input(&self) -> (i: &Vec<u8>)
        ensures
            i@ == self.input@,
    {
        &self.input
    }
}

} // verus!
