//! Placeholder families.
//!
//! Classification routes to these four families exactly as the cascade
//! requires, but their operand semantics are out of scope: each renders an
//! explicit not-yet-implemented marker per word instead of a mnemonic, so
//! decoding a stream that contains them stays total and never misrenders
//! silently.

use vstd::prelude::*;
use vstd::string::StringExecFns;

verus! {

/// The marker line of the 16-bit unconditional-branch family.
pub open spec fn spec_unconditional_branch_line() -> Seq<char> {
    "UNIMPLEMENTED: unconditional branch"@
}

/// The marker line of the miscellaneous 16-bit family.
pub open spec fn spec_misc_16_bit_line() -> Seq<char> {
    "UNIMPLEMENTED: miscellaneous 16-bit"@
}

/// The marker line of the conditional-branch / supervisor-call family.
pub open spec fn spec_cond_branch_supv_call_line() -> Seq<char> {
    "UNIMPLEMENTED: conditional branch / supervisor call"@
}

/// The marker line of the single-data load/store family.
pub open spec fn spec_load_store_single_data_line() -> Seq<char> {
    "UNIMPLEMENTED: single-data load/store"@
}

pub fn handle_unconditional_branch_t2(_instruction: u16) -> (r: String)
    ensures
        r@ == spec_unconditional_branch_line(),
{
    String::from_str("UNIMPLEMENTED: unconditional branch")
}

pub fn decode_misc_16_bit(_instruction: u16) -> (r: String)
    ensures
        r@ == spec_misc_16_bit_line(),
{
    String::from_str("UNIMPLEMENTED: miscellaneous 16-bit")
}

pub fn decode_cond_branch_supv_call(_instruction: u16) -> (r: String)
    ensures
        r@ == spec_cond_branch_supv_call_line(),
{
    String::from_str("UNIMPLEMENTED: conditional branch / supervisor call")
}

pub fn decode_load_store_single_data(_instruction: u16) -> (r: String)
    ensures
        r@ == spec_load_store_single_data_line(),
{
    String::from_str("UNIMPLEMENTED: single-data load/store")
}

} // verus!
