use thumb_disasm::stream::{decode_stream, get_instruction};

const NOTICE: &str = "32-BIT INSTRUCTION. NEXT WORD IGNORED!";

#[test]
fn words_are_big_endian() {
    let code: Vec<u8> = vec![0x12, 0x34, 0xab, 0xcd];
    assert_eq!(get_instruction(&code, 0), Some(0x1234));
    assert_eq!(get_instruction(&code, 2), Some(0xabcd));
}

#[test]
fn end_of_stream_is_reported_not_an_error() {
    let code: Vec<u8> = vec![0x12];
    assert_eq!(get_instruction(&code, 0), None);
    let code: Vec<u8> = vec![0x12, 0x34, 0x56];
    assert_eq!(get_instruction(&code, 2), None);
    assert_eq!(get_instruction(&code, 3), None);
    let empty: Vec<u8> = Vec::new();
    assert_eq!(get_instruction(&empty, 0), None);
}

#[test]
fn stream_of_one_instruction() {
    let lines = decode_stream(&vec![0x1c, 0x53]);
    assert_eq!(lines, vec!["ADDS r3, r2, #1".to_string()]);
}

#[test]
fn stream_ignores_odd_trailing_byte() {
    let lines = decode_stream(&vec![0x1c, 0x53, 0xff]);
    assert_eq!(lines, vec!["ADDS r3, r2, #1".to_string()]);
    assert_eq!(decode_stream(&vec![0x1c]), Vec::<String>::new());
    assert_eq!(decode_stream(&Vec::new()), Vec::<String>::new());
}

#[test]
fn wide_prefix_discards_exactly_one_word() {
    // Top five bits 11110: the following word is consumed undecoded,
    // whatever it holds.
    let a = decode_stream(&vec![0xf0, 0x00, 0x12, 0x34]);
    let b = decode_stream(&vec![0xf0, 0x00, 0xff, 0xff]);
    assert_eq!(a, vec![NOTICE.to_string()]);
    assert_eq!(a, b);
}

#[test]
fn wide_prefix_then_decoding_resumes() {
    // After the skipped word, the next word decodes normally.
    let lines = decode_stream(&vec![0xf0, 0x00, 0x1c, 0x53, 0x00, 0x0a]);
    assert_eq!(lines, vec![NOTICE.to_string(), "MOVS r2, r1".to_string()]);
}

#[test]
fn wide_prefix_with_missing_second_word() {
    // The prefix is still reported even when the stream ends before the
    // word it announces.
    assert_eq!(decode_stream(&vec![0xe8, 0x00]), vec![NOTICE.to_string()]);
    assert_eq!(decode_stream(&vec![0xf8, 0x00, 0x12]), vec![NOTICE.to_string()]);
}

#[test]
fn mixed_stream() {
    let lines = decode_stream(&vec![
        0x40, 0x19, // ANDS r1, r3
        0xca, 0x06, // LDM r2, {r1,r2}
        0xf8, 0x00, 0x00, 0x00, // wide prefix, one word skipped
        0xb0, 0x00, // placeholder family
    ]);
    assert_eq!(
        lines,
        vec![
            "ANDS r1, r3".to_string(),
            "LDM r2, {r1,r2}".to_string(),
            NOTICE.to_string(),
            "UNIMPLEMENTED: miscellaneous 16-bit".to_string(),
        ]
    );
}
