use tapscan::efuse::{candidate_ok, EfuseApi, FuseState};
use tapscan::mach::JtagMach;
use tapscan::phy::ErrorKind;
use tapscan::sim::SimPhy;

const FIX_USER: u32 = 0xAABB_CCDD;
const FIX_CNTL: u8 = 0x5A;

fn fixture_key() -> [u8; 32] {
    let mut key = [0u8; 32];
    for (i, b) in key.iter_mut().enumerate() {
        // bytes 24..27 left clear so the patch below is a pure 0 -> 1 change
        *b = if (24..=26).contains(&i) { 0 } else { i as u8 };
    }
    key
}

fn rig() -> (SimPhy, JtagMach, EfuseApi) {
    (
        SimPhy::new(0x0362_D093, 0x1122_3344_5566_7788, fixture_key(), FIX_USER, FIX_CNTL),
        JtagMach::new(),
        EfuseApi::new(),
    )
}

#[test]
fn fetch_reads_back_fixture() {
    let (mut phy, mut jtag, mut efuse) = rig();
    assert_eq!(efuse.state, FuseState::Unfetched);
    efuse.fetch(&mut jtag, &mut phy).expect("fetch succeeds");
    assert_eq!(efuse.state, FuseState::Fetched);
    assert_eq!(efuse.phy_key(), fixture_key());
    assert_eq!(efuse.phy_user(), FIX_USER);
    assert_eq!(efuse.phy_cntl(), FIX_CNTL);
}

#[test]
fn validity_is_bitwise_monotone() {
    let key = fixture_key();
    // clearing a set bit is invalid
    let mut down = key;
    down[1] &= !0x01;
    assert!(!candidate_ok(&key, &down));
    // setting fresh bits is valid
    let mut up = key;
    up[24] = 0xA0;
    up[25] = 0x03;
    up[26] = 0x81;
    assert!(candidate_ok(&key, &up));
    // the unchanged key is trivially valid over itself
    assert!(candidate_ok(&key, &key));
}

#[test]
fn set_key_before_fetch_is_refused() {
    let (_phy, _jtag, mut efuse) = rig();
    assert_eq!(efuse.set_key([0xFF; 32]).err(), Some(ErrorKind::UsageError));
    assert_eq!(efuse.state, FuseState::Unfetched);
}

#[test]
fn burn_without_validation_leaves_fuses_untouched() {
    let (mut phy, mut jtag, mut efuse) = rig();
    efuse.fetch(&mut jtag, &mut phy).expect("fetch succeeds");
    let mut cand = fixture_key();
    cand[24] = 0xA0;
    efuse.set_key(cand).expect("staging succeeds");
    let before = phy.fuse_key_bytes();
    // staged but never validated: refused, not one clock edge driven
    let e = efuse.burn(&mut jtag, &mut phy).expect_err("burn must be refused");
    assert_eq!(e, ErrorKind::UsageError);
    assert_eq!(phy.fuse_key_bytes(), before);
    assert_eq!(efuse.state, FuseState::Staged);
}

#[test]
fn burn_with_invalid_candidate_reports_invalid() {
    let (mut phy, mut jtag, mut efuse) = rig();
    efuse.fetch(&mut jtag, &mut phy).expect("fetch succeeds");
    let mut cand = fixture_key();
    cand[2] = 0;  // clears set bits: a 1 -> 0 transition
    efuse.set_key(cand).expect("staging succeeds");
    assert!(!efuse.is_valid());
    let before = phy.fuse_key_bytes();
    let e = efuse.burn(&mut jtag, &mut phy).expect_err("burn must be refused");
    assert_eq!(e, ErrorKind::InvalidCandidate);
    assert_eq!(phy.fuse_key_bytes(), before);
}

#[test]
fn burn_from_unfetched_is_usage_error() {
    let (mut phy, mut jtag, mut efuse) = rig();
    let e = efuse.burn(&mut jtag, &mut phy).expect_err("burn must be refused");
    assert_eq!(e, ErrorKind::UsageError);
}

#[test]
fn validated_burn_commits_candidate() {
    let (mut phy, mut jtag, mut efuse) = rig();
    efuse.fetch(&mut jtag, &mut phy).expect("fetch succeeds");
    let mut cand = fixture_key();
    cand[24] = 0xA0;
    cand[25] = 0x03;
    cand[26] = 0x81;
    efuse.set_key(cand).expect("staging succeeds");
    assert!(efuse.is_valid());
    assert_eq!(efuse.state, FuseState::Validated);
    efuse.burn(&mut jtag, &mut phy).expect("validated burn succeeds");
    assert_eq!(efuse.state, FuseState::Burned);
    assert_eq!(efuse.phy_key(), cand);
    // the simulated fuse array holds the committed key, byte for byte
    assert_eq!(phy.fuse_key_bytes(), cand);
    // terminal: a second burn is refused
    let e = efuse.burn(&mut jtag, &mut phy).expect_err("second burn refused");
    assert_eq!(e, ErrorKind::UsageError);
}

#[test]
fn refetch_after_burn_reads_committed_key() {
    let (mut phy, mut jtag, mut efuse) = rig();
    efuse.fetch(&mut jtag, &mut phy).expect("fetch succeeds");
    let mut cand = fixture_key();
    cand[24] = 0x11;
    efuse.set_key(cand).expect("staging succeeds");
    assert!(efuse.is_valid());
    efuse.burn(&mut jtag, &mut phy).expect("burn succeeds");
    efuse.fetch(&mut jtag, &mut phy).expect("refetch succeeds");
    assert_eq!(efuse.state, FuseState::Burned);
    assert_eq!(efuse.phy_key(), cand);
}

#[test]
fn restaging_discards_validation() {
    let (mut phy, mut jtag, mut efuse) = rig();
    efuse.fetch(&mut jtag, &mut phy).expect("fetch succeeds");
    let mut cand = fixture_key();
    cand[24] = 0x01;
    efuse.set_key(cand).expect("staging succeeds");
    assert!(efuse.is_valid());
    assert_eq!(efuse.state, FuseState::Validated);
    cand[25] = 0x02;
    efuse.set_key(cand).expect("restaging succeeds");
    assert_eq!(efuse.state, FuseState::Staged);
}
