//! The physical-link capability under the scan engine.
//!
//! A link drives three output lines (clock, mode select, data out) and
//! samples one input line (data in).  Every implementation exposes the same
//! single-bit shift-clock semantics: one call, one clock edge, one sampled
//! bit.  The ghost trace records each edge ever driven, so that callers can
//! state exactly what a sequence of operations put on the wire.

use vstd::prelude::*;

verus! {

/// Why an operation failed, across the whole engine.
#[derive(Clone, Copy, Debug, PartialEq, Eq, Structural)]
pub enum ErrorKind {
    /// The link timed out or desynchronized; recover with a port reset.
    TransportFault,
    /// A result was requested but none is pending.
    QueueEmpty,
    /// The staged fuse candidate would clear a bit that is already set.
    InvalidCandidate,
    /// An operation was invoked from a state that forbids it.
    UsageError,
}

/// One clock edge as seen on the wire: the two levels driven out and the
/// level sampled back on the same edge.
pub struct PhyOp {
    pub tdi: bool,
    pub tms: bool,
    pub tdo: bool,
}

/// A physical link to one test access port.
///
/// The library ships a software model of the device end ([`crate::sim`]);
/// a deployment adds its own implementations, such as a bit-banged variant
/// over discrete signal lines or a variant that tunnels each edge as a
/// request/response frame over a serial channel (see [`encode_request`]
/// and [`decode_response`] for that frame layout).
pub trait JtagPhy {
    /// Every clock edge this link has driven, oldest first.
    spec fn trace(&self) -> Seq<PhyOp>;

    /// Drives the data-out and mode-select lines, advances the clock by one
    /// edge, and samples the data-in line on that same edge.
    ///
    /// A link that cannot complete the edge (a tunneled link whose response
    /// frame never arrives, for instance) must report a transport fault
    /// rather than block forever, and must leave the trace unchanged: an
    /// unacknowledged edge never counts as driven.
    fn sync(&mut self, tdi: bool, tms: bool) -> (r: Result<bool, ErrorKind>)
        ensures
            r matches Ok(tdo) ==> final(self).trace() == old(self).trace().push(
                PhyOp { tdi, tms, tdo },
            ),
            r is Err ==> final(self).trace() == old(self).trace(),
            r matches Err(e) ==> e == ErrorKind::TransportFault,
    ;
}

/// The request byte a tunneled link sends for one clock edge: a fixed
/// marker in the high bits, the mode-select level in bit 1 and the data-out
/// level in bit 0.
pub open spec fn spec_request_byte(tdi: bool, tms: bool) -> u8 {
    (0xA0 + (if tms {
        2int
    } else {
        0int
    }) + (if tdi {
        1int
    } else {
        0int
    })) as u8
}

/// Encodes one clock-edge operation as a request frame.
pub fn encode_request(tdi: bool, tms: bool) -> (b: u8)
    ensures
        b == spec_request_byte(tdi, tms),
{
    let mut b: u8 = 0xA0;
    if tms {
        b = b + 2;
    }
    if tdi {
        b = b + 1;
    }
    b
}

/// Decodes a response frame: the companion controller answers each request
/// with a marker byte carrying the sampled data-in level in bit 0.  Any
/// other byte is a transport desync.
pub fn decode_response(b: u8) -> (r: Option<bool>)
    ensures
        b == 0x50 ==> r == Some(false),
        b == 0x51 ==> r == Some(true),
        b != 0x50 && b != 0x51 ==> r is None,
{
    if b == 0x50 {
        Some(false)
    } else if b == 0x51 {
        Some(true)
    } else {
        None
    }
}

} // verus!
