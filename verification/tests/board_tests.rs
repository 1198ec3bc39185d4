use tapscan::bounce::{Bounce, Point, Rect};
use tapscan::console::LineEditor;
use tapscan::diag::{lfsr_next, ram_check, ram_clear, ram_standby_init, region_checksum, split_u16};
use tapscan::text::TextArea;
use tapscan::xadc::{
    cc_mv, config0_word, config1_word, config2_word, sample_code, vbus_mv, XadcFilter, XadcPower,
    XadcRegs, XadcSeq,
};

#[test]
fn lfsr_steps() {
    // from all-ones the feedback parity is zero: a pure shift
    assert_eq!(lfsr_next(0xffff_ffff), 0xffff_fffe);
    // from one, only the low tap fires
    assert_eq!(lfsr_next(1), 0b11);
}

#[test]
fn ram_fill_check_clear() {
    let mut arena = vec![0u32; 64];
    let uniques = ram_standby_init(&mut arena);
    // the pattern never wraps to the seed in 64 steps
    assert_eq!(uniques, 64);
    assert_eq!(arena[0], 0xffff_ffff);
    assert_eq!(arena[1], 0xffff_fffe);
    assert_eq!(ram_check(&arena), 0);
    arena[10] ^= 1;
    arena[20] ^= 0x8000_0000;
    assert_eq!(ram_check(&arena), 2);
    ram_clear(&mut arena);
    assert!(arena.iter().all(|w| *w == 0));
}

#[test]
fn checksum_wraps() {
    let arena = vec![0xffff_ffffu32, 2, 3];
    assert_eq!(region_checksum(&arena), 4);
    let empty: Vec<u32> = Vec::new();
    assert_eq!(region_checksum(&empty), 0);
}

#[test]
fn sample_bytes_split_low_first() {
    assert_eq!(split_u16(0xBEEF), (0xEF, 0xBE));
    assert_eq!(split_u16(0x00FF), (0xFF, 0x00));
}

#[test]
fn xadc_conversions() {
    // a code of 993 on the bus channel reads back as 4997 millivolts
    assert_eq!(vbus_mv(993 << 4), 4997);
    assert_eq!(sample_code(0x8010), 0x801);
    assert_eq!(cc_mv(2048 << 4), 500);
}

#[test]
fn xadc_config_words() {
    assert_eq!(config0_word(XadcFilter::Avg16), 0x9000);
    assert_eq!(config1_word(XadcSeq::Continuous), 0x2EF0);
    assert_eq!(config2_word(XadcPower::AllOn), 0x0400);
    assert_eq!(XadcRegs::Config0.addr(), 0x40);
    assert_eq!(XadcRegs::Vaux9.addr(), 25);
    assert_eq!(XadcRegs::AlarmVccBramLower.addr(), 0x5C);
}

#[test]
fn line_editor_collects_commands() {
    let mut ed = LineEditor::new();
    for b in b"dna" {
        assert!(!ed.input_char(*b));
    }
    assert_eq!(ed.get_input().as_slice(), b"dna");
    // backspace removes the newest character
    assert!(!ed.input_char(0x08));
    assert_eq!(ed.get_input().as_slice(), b"dn");
    assert!(!ed.input_char(b'a'));
    // carriage return closes the line
    assert!(ed.input_char(0x0d));
    assert_eq!(ed.get_cmd().as_slice(), b"dna");
    assert_eq!(ed.get_input().len(), 0);
    // control bytes other than backspace and return are ignored
    assert!(!ed.input_char(0x07));
    assert_eq!(ed.get_input().len(), 0);
}

#[test]
fn text_area_chunks_and_trims() {
    let mut ta = TextArea::new(3);
    ta.add_text(b"hello");
    assert_eq!(ta.get_line(0).as_slice(), b"hello");
    // a long message splits at 38 characters, tail chunk on top
    let long = b"0123456789012345678901234567890123456789";  // 40 bytes
    ta.add_text(long);
    assert_eq!(ta.get_line(0).as_slice(), b"89");
    assert_eq!(ta.get_line(1).as_slice(), &long[..38]);
    assert_eq!(ta.get_line(2).as_slice(), b"hello");
    // the window keeps only the newest three lines
    ta.add_text(b"newest");
    assert_eq!(ta.get_line(0).as_slice(), b"newest");
    assert_eq!(ta.get_line(1).as_slice(), b"89");
    assert_eq!(ta.get_line(2).as_slice(), &long[..38]);
    // out of range reads come back empty
    assert_eq!(ta.get_line(3).len(), 0);
    assert_eq!(ta.get_line(99).len(), 0);
    assert_eq!(ta.get_height(), 3);
    assert_eq!(ta.get_width(), 38);
}

#[test]
fn bounce_stays_in_box() {
    let bounds = Rect {
        top_left: Point { x: 0, y: 378 },
        bottom_right: Point { x: 336, y: 535 },
    };
    let mut ball = Bounce::new(14, bounds);
    for _ in 0..1000 {
        ball.update();
        assert!(ball.loc.x >= bounds.top_left.x + 14);
        assert!(ball.loc.x <= bounds.bottom_right.x - 14);
        assert!(ball.loc.y >= bounds.top_left.y + 14);
        assert!(ball.loc.y <= bounds.bottom_right.y - 14);
    }
}
