//! Bitfield extraction.
//!
//! Every operand of every family is a contiguous or composite bit range,
//! identified by a mask and a shift. `field` is the spec-level meaning and
//! `extract_field` the executable extractor; all decoders go through them.

use vstd::prelude::*;

verus! {

/// The value of the field selected by `mask` and `shift` in `w`.
pub open spec fn field(w: u16, mask: u16, shift: u16) -> u16 {
    (w & mask) >> shift
}

/// Extracts the field selected by `mask` and `shift` from `w`.
pub fn extract_field(w: u16, mask: u16, shift: u16) -> (r: u16)
    requires
        shift < 16,
    ensures
        r == field(w, mask, shift),
{
    (w & mask) >> shift
}

} // verus!
