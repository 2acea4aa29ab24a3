use thumb_disasm::render::{render_dec, render_reg};
use thumb_disasm::reglist::render_register_list;

#[test]
fn decimal_numerals() {
    assert_eq!(render_dec(0), "0");
    assert_eq!(render_dec(7), "7");
    assert_eq!(render_dec(10), "10");
    assert_eq!(render_dec(31), "31");
    assert_eq!(render_dec(255), "255");
    assert_eq!(render_dec(1020), "1020");
    assert_eq!(render_dec(65535), "65535");
}

#[test]
fn register_names() {
    assert_eq!(render_reg(0), "r0");
    assert_eq!(render_reg(7), "r7");
    assert_eq!(render_reg(13), "r13");
    assert_eq!(render_reg(15), "r15");
}

#[test]
fn register_list_of_empty_bitmap() {
    assert_eq!(render_register_list(0b0000_0000), "");
}

#[test]
fn register_list_single_bits() {
    assert_eq!(render_register_list(0b0000_0001), "r0");
    assert_eq!(render_register_list(0b1000_0000), "r7");
}

#[test]
fn register_list_ascending_no_repeats() {
    assert_eq!(render_register_list(0b0000_0101), "r0,r2");
    assert_eq!(render_register_list(0b1010_1010), "r1,r3,r5,r7");
    assert_eq!(render_register_list(0b1111_1111), "r0,r1,r2,r3,r4,r5,r6,r7");
}

#[test]
fn register_list_round_trips_through_a_parser() {
    // Re-parse each rendered list and compare with the set bits, ascending.
    for bitmap in 0u16..=255 {
        let bitmap = bitmap as u8;
        let rendered = render_register_list(bitmap);
        let mut parsed: Vec<u8> = Vec::new();
        if !rendered.is_empty() {
            for part in rendered.split(',') {
                let rest = part.strip_prefix('r').expect("register name");
                parsed.push(rest.parse().expect("register index"));
            }
        }
        let expected: Vec<u8> = (0u8..8).filter(|i| bitmap & (1 << i) != 0).collect();
        assert_eq!(parsed, expected, "bitmap {:08b}", bitmap);
        // Each register at most once.
        for w in parsed.windows(2) {
            assert!(w[0] < w[1]);
        }
    }
}
