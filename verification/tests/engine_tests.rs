use tapscan::codec::JtagEndian;
use tapscan::console::{cmd_dna, cmd_id};
use tapscan::leg::{JtagChain, JtagLeg};
use tapscan::mach::JtagMach;
use tapscan::phy::{decode_response, encode_request, ErrorKind};
use tapscan::sim::SimPhy;
use tapscan::tap::TapState;

const FIX_IDCODE: u32 = 0x0362_D093;
const FIX_DNA: u64 = 0x00C0_FFEE_1234_5678;

fn fixture() -> SimPhy {
    let mut key = [0u8; 32];
    for (i, b) in key.iter_mut().enumerate() {
        *b = i as u8;
    }
    SimPhy::new(FIX_IDCODE, FIX_DNA, key, 0xAABB_CCDD, 0x5A)
}

#[test]
fn empty_get_is_none() {
    let mut jtag = JtagMach::new();
    assert!(jtag.get().is_none());
}

#[test]
fn take_result_reports_empty_queue() {
    let mut jtag = JtagMach::new();
    assert_eq!(jtag.take_result().err(), Some(ErrorKind::QueueEmpty));
}

#[test]
fn reset_lands_in_reset_state() {
    let mut phy = fixture();
    let mut jtag = JtagMach::new();
    // walk somewhere first
    assert!(jtag.step(&mut phy, false).is_ok());
    assert!(jtag.step(&mut phy, true).is_ok());
    assert!(jtag.reset(&mut phy).is_ok());
    assert_eq!(jtag.state, TapState::Reset);
}

#[test]
fn step_follows_transition_table() {
    let mut phy = fixture();
    let mut jtag = JtagMach::new();
    assert_eq!(jtag.state, TapState::Reset);
    assert!(jtag.step(&mut phy, false).is_ok());
    assert_eq!(jtag.state, TapState::Idle);
    assert!(jtag.step(&mut phy, true).is_ok());
    assert_eq!(jtag.state, TapState::SelectDr);
    assert!(jtag.step(&mut phy, false).is_ok());
    assert_eq!(jtag.state, TapState::CaptureDr);
}

#[test]
fn fifo_three_legs_one_next() {
    let mut phy = fixture();
    let mut jtag = JtagMach::new();
    let mut a = JtagLeg::new(JtagChain::Data, "first");
    a.push_u32(0x1, 8, JtagEndian::Little);
    let mut b = JtagLeg::new(JtagChain::Data, "second");
    b.push_u32(0x2, 16, JtagEndian::Little);
    let mut c = JtagLeg::new(JtagChain::Data, "third");
    c.push_u32(0x3, 24, JtagEndian::Little);
    jtag.add(a);
    jtag.add(b);
    jtag.add(c);
    assert!(jtag.next(&mut phy).is_ok());
    let ra = jtag.get().expect("first result");
    let rb = jtag.get().expect("second result");
    let rc = jtag.get().expect("third result");
    assert_eq!(ra.tag(), "first");
    assert_eq!(rb.tag(), "second");
    assert_eq!(rc.tag(), "third");
    assert_eq!(ra.bits.len(), 8);
    assert_eq!(rb.bits.len(), 16);
    assert_eq!(rc.bits.len(), 24);
    assert!(jtag.get().is_none());
}

#[test]
fn dbg_channel_counts_bits_per_leg() {
    let mut phy = fixture();
    let mut jtag = JtagMach::new();
    let mut a = JtagLeg::new(JtagChain::Data, "a");
    a.push_u32(0, 12, JtagEndian::Little);
    let mut b = JtagLeg::new(JtagChain::Data, "b");
    b.push_u32(0, 7, JtagEndian::Little);
    jtag.add(a);
    jtag.add(b);
    jtag.dbg_reset();
    assert!(jtag.next(&mut phy).is_ok());
    assert_eq!(jtag.dbg_get(), Some(12));
    assert_eq!(jtag.dbg_get(), Some(7));
    assert_eq!(jtag.dbg_get(), None);
    // the primary channel is independent of the debug channel
    assert!(jtag.get().is_some());
    assert!(jtag.get().is_some());
}

#[test]
fn id_scan_returns_fixture_idcode() {
    let mut phy = fixture();
    let mut jtag = JtagMach::new();
    // instruction scan with the identification opcode, then a 32-bit data scan
    let mut ir = JtagLeg::new(JtagChain::Instruction, "idcode");
    ir.push_u32(0b001001, 6, JtagEndian::Little);
    jtag.add(ir);
    assert!(jtag.next(&mut phy).is_ok());
    let first = jtag.get();
    assert!(first.is_some(), "instruction scan must yield a result");

    let mut dr = JtagLeg::new(JtagChain::Data, "iddata");
    dr.push_u32(0, 32, JtagEndian::Little);
    jtag.add(dr);
    assert!(jtag.next(&mut phy).is_ok());
    let mut data = jtag.get().expect("data scan must yield a result");
    assert_eq!(data.pop_u32(32, JtagEndian::Little), Some(FIX_IDCODE));
}

#[test]
fn cmd_id_scenario() {
    let mut phy = fixture();
    let mut jtag = JtagMach::new();
    let out = cmd_id(&mut jtag, &mut phy).expect("id read succeeds");
    assert_eq!(out.tag, "idcode");
    assert_eq!(out.code, FIX_IDCODE);
    assert_eq!(out.dbg_bits, Some(32));
}

#[test]
fn cmd_dna_scenario() {
    let mut phy = fixture();
    let mut jtag = JtagMach::new();
    let out = cmd_dna(&mut jtag, &mut phy).expect("dna read succeeds");
    assert_eq!(out.tag, "dna");
    assert_eq!(out.dna, FIX_DNA as u128);
}

#[test]
fn phy_frame_round_trip() {
    assert_eq!(encode_request(false, false), 0xA0);
    assert_eq!(encode_request(true, false), 0xA1);
    assert_eq!(encode_request(false, true), 0xA2);
    assert_eq!(encode_request(true, true), 0xA3);
    assert_eq!(decode_response(0x50), Some(false));
    assert_eq!(decode_response(0x51), Some(true));
    assert_eq!(decode_response(0xA0), None);
    assert_eq!(decode_response(0x00), None);
}

#[test]
fn transport_fault_keeps_unexecuted_legs_queued() {
    let mut phy = tapscan::sim::FlakyPhy::new(fixture(), 10);
    let mut jtag = JtagMach::new();
    for tag in ["one", "two", "three"] {
        let mut leg = JtagLeg::new(JtagChain::Data, tag);
        leg.push_u32(0, 8, JtagEndian::Little);
        jtag.add(leg);
    }
    // ten edges cover the alignment walk but not the first leg
    let e = jtag.next(&mut phy).expect_err("link goes down mid-batch");
    assert_eq!(e, ErrorKind::TransportFault);
    assert_eq!(jtag.pending.len(), 3);
    assert!(jtag.get().is_none());
    // the link comes back: the batch completes in submission order
    phy.refuel(1_000);
    jtag.next(&mut phy).expect("retry succeeds");
    assert_eq!(jtag.get().expect("first").tag(), "one");
    assert_eq!(jtag.get().expect("second").tag(), "two");
    assert_eq!(jtag.get().expect("third").tag(), "three");
}

#[test]
fn transport_fault_leaves_fuse_image_untouched() {
    let mut key = [0u8; 32];
    for (i, b) in key.iter_mut().enumerate() {
        *b = i as u8;
    }
    let sim = SimPhy::new(FIX_IDCODE, FIX_DNA, key, 0xAABB_CCDD, 0x5A);
    let mut phy = tapscan::sim::FlakyPhy::new(sim, 4);
    let mut jtag = JtagMach::new();
    let mut efuse = tapscan::efuse::EfuseApi::new();
    let e = efuse.fetch(&mut jtag, &mut phy).expect_err("fetch must fault");
    assert_eq!(e, ErrorKind::TransportFault);
    assert_eq!(efuse.state, tapscan::efuse::FuseState::Unfetched);
    // the engine is drained, so the caller can simply retry
    phy.refuel(1_000);
    efuse.fetch(&mut jtag, &mut phy).expect("retry succeeds");
    assert_eq!(efuse.phy_key(), key);
}
