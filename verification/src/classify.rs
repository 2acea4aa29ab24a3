//! Word-width and instruction-family classification.
//!
//! A raw word is first tested for the 32-bit prefix patterns (top five bits
//! `11101`, `11110`, `11111`); every other word is a complete 16-bit
//! instruction and is routed to exactly one family by an ordered cascade of
//! masked comparisons on the 6-bit primary opcode (bits 15-10). The order of
//! the cascade matters: the masks of later, coarser rules overlap bit
//! patterns already claimed by earlier, narrower rules.

use vstd::prelude::*;

verus! {

/// Whether a word is a complete 16-bit instruction or the first half of a
/// 32-bit instruction (whose second word the caller must discard).
#[derive(PartialEq, Eq, Structural, Clone, Copy, Debug)]
pub enum WordWidth {
    Is16Bit,
    Is32BitPrefix,
}

/// The instruction family of a word, one per word.
#[derive(PartialEq, Eq, Structural, Clone, Copy, Debug)]
pub enum Family {
    /// Shift/add/subtract/move/compare immediate and low-register arithmetic.
    Arithmetic,
    /// Two-register ALU operations selected by a 4-bit sub-opcode.
    DataProcessingRegister,
    /// High-register add/compare/move and branch-exchange.
    SpecialData,
    /// PC-relative literal load.
    LiteralLoad,
    /// PC-relative address computation (ADR).
    AddressOfLabel,
    /// SP-relative add-immediate.
    StackAddImmediate,
    /// Store-multiple-registers.
    StoreMultiple,
    /// Load-multiple-registers.
    LoadMultiple,
    /// Placeholder family: 16-bit unconditional branch.
    UnconditionalBranch,
    /// Placeholder family: miscellaneous 16-bit instructions.
    Miscellaneous16Bit,
    /// Placeholder family: conditional branch and supervisor call.
    CondBranchSupervisorCall,
    /// Placeholder family: single-data load/store.
    LoadStoreSingleData,
    /// A bit pattern the classification table leaves unclassified.
    Unknown,
    /// Not a 16-bit instruction: the word is a 32-bit prefix.
    Not16Bit,
}

/// The word is the first half of a 32-bit instruction: its top five bits
/// are `11101`, `11110` or `11111`.
pub open spec fn is_wide_prefix(w: u16) -> bool {
    w & 0xf800 == 0xe800 || w & 0xf800 == 0xf000 || w & 0xf800 == 0xf800
}

/// The 6-bit primary opcode: bits 15-10 of the word.
pub open spec fn primary_opcode(w: u16) -> u16 {
    (w & 0xfc00) >> 10
}

/// The family of a word already confirmed 16-bit, as a function of its
/// primary opcode. The cascade is ordered by precedence.
pub open spec fn classify_opcode(op: u16) -> Family {
    if op & 0x0030 == 0x0000 {
        Family::Arithmetic
    } else if op == 0x0010 {
        Family::DataProcessingRegister
    } else if op == 0x0011 {
        Family::SpecialData
    } else if op & 0x003e == 0x0012 {
        Family::LiteralLoad
    } else if op & 0x003e == 0x0028 {
        Family::AddressOfLabel
    } else if op & 0x003e == 0x002a {
        Family::StackAddImmediate
    } else if op & 0x003e == 0x0030 {
        Family::StoreMultiple
    } else if op & 0x003e == 0x0032 {
        Family::LoadMultiple
    } else if op & 0x003e == 0x0038 {
        Family::UnconditionalBranch
    } else if op & 0x003c == 0x002c {
        Family::Miscellaneous16Bit
    } else if op & 0x003c == 0x0034 {
        Family::CondBranchSupervisorCall
    } else if op & 0x003c == 0x0014 || op & 0x0038 == 0x0018 || op & 0x0038 == 0x0020 {
        Family::LoadStoreSingleData
    } else {
        Family::Unknown
    }
}

/// The family of any 16-bit word: a total function. Wide prefixes are their
/// own class; everything else goes through the opcode cascade.
pub open spec fn spec_classify(w: u16) -> Family {
    if is_wide_prefix(w) {
        Family::Not16Bit
    } else {
        classify_opcode(primary_opcode(w))
    }
}

/// Decides whether the word is a complete 16-bit instruction or the first
/// half of a 32-bit instruction. This check has the highest precedence: it
/// runs before any family classification.
pub fn classify_word_width(instruction: u16) -> (r: WordWidth)
    ensures
        r == WordWidth::Is32BitPrefix <==> is_wide_prefix(instruction),
        r == WordWidth::Is32BitPrefix <==> (instruction >> 11 == 0x1d || instruction >> 11
            == 0x1e || instruction >> 11 == 0x1f),
{
    proof {
        assert((instruction & 0xf800 == 0xe800 || instruction & 0xf800 == 0xf000 || instruction
            & 0xf800 == 0xf800) <==> (instruction >> 11 == 0x1d || instruction >> 11 == 0x1e
            || instruction >> 11 == 0x1f)) by (bit_vector);
    }
    let bits15to11 = instruction & 0xf800;
    if bits15to11 == 0xe800 || bits15to11 == 0xf000 || bits15to11 == 0xf800 {
        WordWidth::Is32BitPrefix
    } else {
        WordWidth::Is16Bit
    }
}

/// Classifies a word into its instruction family.
pub fn classify_family(instruction: u16) -> (f: Family)
    ensures
        f == spec_classify(instruction),
{
    if classify_word_width(instruction) == WordWidth::Is32BitPrefix {
        return Family::Not16Bit;
    }
    let op = (instruction & 0xfc00) >> 10;
    if op & 0x0030 == 0x0000 {
        Family::Arithmetic
    } else if op == 0x0010 {
        Family::DataProcessingRegister
    } else if op == 0x0011 {
        Family::SpecialData
    } else if op & 0x003e == 0x0012 {
        Family::LiteralLoad
    } else if op & 0x003e == 0x0028 {
        Family::AddressOfLabel
    } else if op & 0x003e == 0x002a {
        Family::StackAddImmediate
    } else if op & 0x003e == 0x0030 {
        Family::StoreMultiple
    } else if op & 0x003e == 0x0032 {
        Family::LoadMultiple
    } else if op & 0x003e == 0x0038 {
        Family::UnconditionalBranch
    } else if op & 0x003c == 0x002c {
        Family::Miscellaneous16Bit
    } else if op & 0x003c == 0x0034 {
        Family::CondBranchSupervisorCall
    } else if op & 0x003c == 0x0014 || op & 0x0038 == 0x0018 || op & 0x0038 == 0x0020 {
        Family::LoadStoreSingleData
    } else {
        Family::Unknown
    }
}

/// Classification is a pure function of the word's bits 15-10 alone: two
/// words that agree on the primary opcode (and hence on the width bits,
/// which lie inside it) classify identically, whatever their other bits.
/// Together with `spec_classify` being a total function of the word, this
/// is the totality and purity of the classifier.
pub proof fn lemma_classification_depends_only_on_opcode(w1: u16, w2: u16)
    requires
        w1 >> 10 == w2 >> 10,
    ensures
        spec_classify(w1) == spec_classify(w2),
{
    assert(w1 & 0xf800 == w2 & 0xf800 && (w1 & 0xfc00) >> 10 == (w2 & 0xfc00) >> 10)
        by (bit_vector)
        requires
            w1 >> 10 == w2 >> 10,
    ;
}

} // verus!
