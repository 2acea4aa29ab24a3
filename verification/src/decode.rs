//! Per-word decoding: classification followed by family dispatch.
//!
//! `decode_instruction` is the single entry point for one word: it returns
//! the rendered line for a complete 16-bit instruction, or `None` when the
//! word is the first half of a 32-bit instruction, in which case the caller
//! must read and discard the next word of the stream without interpreting
//! it.

use vstd::prelude::*;
use vstd::string::StringExecFns;
use crate::arith::{decode_arithmetic_instruction, spec_arithmetic_line};
use crate::classify::{classify_family, is_wide_prefix, spec_classify, Family};
use crate::dataproc::{decode_data_handling_instruction, spec_data_processing_line};
use crate::memory::{
    handle_add_sp_plus_immediate, handle_adr, handle_ldr_literal, handle_load_multiple_register,
    handle_store_multiple_registers, spec_add_sp_plus_immediate, spec_adr, spec_ldr_literal,
    spec_load_multiple, spec_store_multiple,
};
use crate::placeholders::{
    decode_cond_branch_supv_call, decode_load_store_single_data, decode_misc_16_bit,
    handle_unconditional_branch_t2, spec_cond_branch_supv_call_line,
    spec_load_store_single_data_line, spec_misc_16_bit_line, spec_unconditional_branch_line,
};
use crate::special::{decode_special_instructions, spec_special_line};

verus! {

/// The rendered line of a 16-bit word, one per family. Total over the
/// words that are not 32-bit prefixes; words no rule claims render as the
/// unknown-instruction marker.
pub open spec fn spec_decode_line(w: u16) -> Seq<char> {
    match spec_classify(w) {
        Family::Arithmetic => spec_arithmetic_line(w),
        Family::DataProcessingRegister => spec_data_processing_line(w),
        Family::SpecialData => spec_special_line(w),
        Family::LiteralLoad => spec_ldr_literal(w),
        Family::AddressOfLabel => spec_adr(w),
        Family::StackAddImmediate => spec_add_sp_plus_immediate(w),
        Family::StoreMultiple => spec_store_multiple(w),
        Family::LoadMultiple => spec_load_multiple(w),
        Family::UnconditionalBranch => spec_unconditional_branch_line(),
        Family::Miscellaneous16Bit => spec_misc_16_bit_line(),
        Family::CondBranchSupervisorCall => spec_cond_branch_supv_call_line(),
        Family::LoadStoreSingleData => spec_load_store_single_data_line(),
        Family::Unknown => "????"@,
        Family::Not16Bit => Seq::empty(),
    }
}

/// Decodes one word. Returns the rendered line of a complete 16-bit
/// instruction; returns `None` exactly when the word is the first half of
/// a 32-bit instruction, whose following word the caller must discard.
pub fn decode_instruction(instruction: u16) -> (r: Option<String>)
    ensures
        r is Some <==> !is_wide_prefix(instruction),
        r is Some ==> r->Some_0@ == spec_decode_line(instruction),
{
    match classify_family(instruction) {
        Family::Arithmetic => Some(decode_arithmetic_instruction(instruction)),
        Family::DataProcessingRegister => Some(decode_data_handling_instruction(instruction)),
        Family::SpecialData => Some(decode_special_instructions(instruction)),
        Family::LiteralLoad => Some(handle_ldr_literal(instruction)),
        Family::AddressOfLabel => Some(handle_adr(instruction)),
        Family::StackAddImmediate => Some(handle_add_sp_plus_immediate(instruction)),
        Family::StoreMultiple => Some(handle_store_multiple_registers(instruction)),
        Family::LoadMultiple => Some(handle_load_multiple_register(instruction)),
        Family::UnconditionalBranch => Some(handle_unconditional_branch_t2(instruction)),
        Family::Miscellaneous16Bit => Some(decode_misc_16_bit(instruction)),
        Family::CondBranchSupervisorCall => Some(decode_cond_branch_supv_call(instruction)),
        Family::LoadStoreSingleData => Some(decode_load_store_single_data(instruction)),
        Family::Unknown => Some(String::from_str("????")),
        Family::Not16Bit => None,
    }
}

} // verus!
