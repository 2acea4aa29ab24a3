use thumb_disasm::classify::{classify_family, classify_word_width, Family, WordWidth};
use thumb_disasm::decode::decode_instruction;

#[test]
fn wide_prefixes_by_top_five_bits() {
    // Exactly the top-five-bit values 11101, 11110, 11111 are 32-bit prefixes.
    for top5 in 0u16..32 {
        let word = top5 << 11;
        let expect_wide = top5 == 0b11101 || top5 == 0b11110 || top5 == 0b11111;
        let width = classify_word_width(word);
        if expect_wide {
            assert_eq!(width, WordWidth::Is32BitPrefix, "top5 {:05b}", top5);
        } else {
            assert_eq!(width, WordWidth::Is16Bit, "top5 {:05b}", top5);
        }
        // The low bits never matter.
        assert_eq!(classify_word_width(word | 0x07ff), width);
    }
}

#[test]
fn classification_is_total_over_all_words() {
    for word in 0u16..=0xffff {
        let family = classify_family(word);
        let wide = classify_word_width(word) == WordWidth::Is32BitPrefix;
        assert_eq!(family == Family::Not16Bit, wide, "word {:#06x}", word);
        // Every 16-bit word decodes to a line; every prefix to None.
        assert_eq!(decode_instruction(word).is_some(), !wide, "word {:#06x}", word);
        // No bit pattern falls through the cascade: the width check claims
        // the opcodes the table leaves out.
        assert_ne!(family, Family::Unknown, "word {:#06x}", word);
    }
}

#[test]
fn classification_depends_only_on_opcode_bits() {
    for op in 0u16..64 {
        let low = classify_family(op << 10);
        let high = classify_family((op << 10) | 0x03ff);
        assert_eq!(low, high, "opcode {:06b}", op);
    }
}

#[test]
fn family_of_each_opcode_range() {
    assert_eq!(classify_family(0x0000), Family::Arithmetic); // opcode 000000
    assert_eq!(classify_family(0x3c00), Family::Arithmetic); // opcode 001111
    assert_eq!(classify_family(0x4000), Family::DataProcessingRegister); // 010000
    assert_eq!(classify_family(0x4400), Family::SpecialData); // 010001
    assert_eq!(classify_family(0x4800), Family::LiteralLoad); // 010010
    assert_eq!(classify_family(0x4c00), Family::LiteralLoad); // 010011
    assert_eq!(classify_family(0xa000), Family::AddressOfLabel); // 101000
    assert_eq!(classify_family(0xa800), Family::StackAddImmediate); // 101010
    assert_eq!(classify_family(0xc000), Family::StoreMultiple); // 110000
    assert_eq!(classify_family(0xc800), Family::LoadMultiple); // 110010
    assert_eq!(classify_family(0xe000), Family::UnconditionalBranch); // 111000
    assert_eq!(classify_family(0xb000), Family::Miscellaneous16Bit); // 101100
    assert_eq!(classify_family(0xd000), Family::CondBranchSupervisorCall); // 110100
    assert_eq!(classify_family(0x5000), Family::LoadStoreSingleData); // 010100
    assert_eq!(classify_family(0x6000), Family::LoadStoreSingleData); // 011000
    assert_eq!(classify_family(0x8000), Family::LoadStoreSingleData); // 100000
    assert_eq!(classify_family(0xe800), Family::Not16Bit); // 11101..
    assert_eq!(classify_family(0xf000), Family::Not16Bit); // 11110..
    assert_eq!(classify_family(0xf800), Family::Not16Bit); // 11111..
}

#[test]
fn width_check_precedes_the_cascade() {
    // Opcodes 111010 through 111111 never reach the cascade: every word
    // carrying them is claimed first by the width check.
    for op in 0x3au16..0x40 {
        for low in [0u16, 0x03ff] {
            let word = (op << 10) | low;
            assert_eq!(classify_word_width(word), WordWidth::Is32BitPrefix);
            assert_eq!(classify_family(word), Family::Not16Bit);
        }
    }
}
