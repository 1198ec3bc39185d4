use tapscan::codec::{bit_get, byte_get, JtagEndian};
use tapscan::leg::{JtagChain, JtagLeg, ScanResult};

fn result_of(leg: JtagLeg) -> ScanResult {
    ScanResult { tag: leg.tag, bits: leg.bits }
}

#[test]
fn round_trip_u32_little() {
    let mut leg = JtagLeg::new(JtagChain::Data, "rt");
    leg.push_u32(0xDEAD_BEEF, 32, JtagEndian::Little);
    let mut res = result_of(leg);
    assert_eq!(res.pop_u32(32, JtagEndian::Little), Some(0xDEAD_BEEF));
    assert_eq!(res.len(), 0);
}

#[test]
fn round_trip_u32_big() {
    let mut leg = JtagLeg::new(JtagChain::Data, "rt");
    leg.push_u32(0xDEAD_BEEF, 32, JtagEndian::Big);
    let mut res = result_of(leg);
    assert_eq!(res.pop_u32(32, JtagEndian::Big), Some(0xDEAD_BEEF));
}

#[test]
fn round_trip_u128_little() {
    let v: u128 = 0x0123_4567_89AB_CDEF_FEDC_BA98_7654_3210;
    let mut leg = JtagLeg::new(JtagChain::Data, "rt");
    leg.push_u128(v, 128, JtagEndian::Little);
    let mut res = result_of(leg);
    assert_eq!(res.pop_u128(128, JtagEndian::Little), Some(v));
}

#[test]
fn round_trip_u128_big() {
    let v: u128 = u128::MAX - 12345;
    let mut leg = JtagLeg::new(JtagChain::Data, "rt");
    leg.push_u128(v, 128, JtagEndian::Big);
    let mut res = result_of(leg);
    assert_eq!(res.pop_u128(128, JtagEndian::Big), Some(v));
}

#[test]
fn round_trip_zero_and_max_u32() {
    for e in [JtagEndian::Little, JtagEndian::Big] {
        for v in [0u32, u32::MAX, 1, 0x8000_0000] {
            let mut leg = JtagLeg::new(JtagChain::Data, "rt");
            leg.push_u32(v, 32, e);
            let mut res = result_of(leg);
            assert_eq!(res.pop_u32(32, e), Some(v));
        }
    }
}

#[test]
fn narrow_width_round_trip() {
    let mut leg = JtagLeg::new(JtagChain::Instruction, "ir");
    leg.push_u32(0b001001, 6, JtagEndian::Little);
    assert_eq!(leg.bits.len(), 6);
    // least significant bit first
    assert_eq!(leg.bits, vec![true, false, false, true, false, false]);
    let mut res = result_of(leg);
    assert_eq!(res.pop_u32(6, JtagEndian::Little), Some(0b001001));
}

#[test]
fn big_endian_puts_high_bit_first() {
    let mut leg = JtagLeg::new(JtagChain::Data, "be");
    leg.push_u32(0b100001, 6, JtagEndian::Big);
    assert_eq!(leg.bits, vec![true, false, false, false, false, true]);
}

#[test]
fn pop_from_short_result_is_none() {
    let mut leg = JtagLeg::new(JtagChain::Data, "short");
    leg.push_u32(0x3, 4, JtagEndian::Little);
    let mut res = result_of(leg);
    assert_eq!(res.pop_u32(8, JtagEndian::Little), None);
    // untouched after the refusal
    assert_eq!(res.len(), 4);
    assert_eq!(res.pop_u32(4, JtagEndian::Little), Some(0x3));
}

#[test]
fn sequential_pops_consume_in_order() {
    let mut leg = JtagLeg::new(JtagChain::Data, "seq");
    leg.push_u32(0xAB, 8, JtagEndian::Little);
    leg.push_u32(0xCD, 8, JtagEndian::Little);
    let mut res = result_of(leg);
    assert_eq!(res.pop_u32(8, JtagEndian::Little), Some(0xAB));
    assert_eq!(res.pop_u32(8, JtagEndian::Little), Some(0xCD));
    assert_eq!(res.pop_u32(8, JtagEndian::Little), None);
}

#[test]
fn bit_and_byte_extraction() {
    let v: u128 = 0x1122_3344_5566_7788_99AA_BBCC_DDEE_FF00;
    assert!(!bit_get(v, 0));
    assert!(bit_get(v, 9));
    assert_eq!(byte_get(v, 0), 0x00);
    assert_eq!(byte_get(v, 1), 0xFF);
    assert_eq!(byte_get(v, 15), 0x11);
}

#[test]
fn tag_travels_with_leg() {
    let leg = JtagLeg::new(JtagChain::Data, "mytag");
    assert_eq!(leg.tag(), "mytag");
    let res = result_of(leg);
    assert_eq!(res.tag(), "mytag");
}
