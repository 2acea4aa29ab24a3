//! Decoders for the data-processing-register family.
//!
//! A 4-bit sub-opcode at bits 9-6 selects among sixteen two-register ALU
//! operations. Two mnemonics have operand-order aliasing rules:
//! reverse-subtract-from-zero renders a two-operand form when source and
//! destination coincide, and multiply renders a two-operand form when its
//! two register fields coincide. In the three-operand multiply form the
//! destination register doubles as the second factor (`MULS rdm, rn, rdm`),
//! since the encoding holds only two register fields.

use vstd::prelude::*;
use vstd::string::StringExecFns;
use crate::fields::{extract_field, field};
use crate::render::{reg_name, render_reg};

verus! {

/// A two-operand register line: `MNEMONIC ra, rb`.
pub open spec fn spec_two_reg(mnemonic: Seq<char>, a: u16, b: u16) -> Seq<char> {
    mnemonic + reg_name(a) + ", "@ + reg_name(b)
}

/// Renders `MNEMONIC ra, rb`.
fn render_two_reg(mnemonic: &str, a: u16, b: u16) -> (r: String)
    ensures
        r@ == spec_two_reg(mnemonic@, a, b),
{
    let mut s = String::from_str(mnemonic);
    s.append(render_reg(a).as_str());
    s.append(", ");
    s.append(render_reg(b).as_str());
    s
}

/// `RSBS`: two-operand form when source and destination coincide, else
/// three-operand; the immediate is always zero.
pub open spec fn spec_rsb_imm(w: u16) -> Seq<char> {
    let rn = field(w, 0x0038, 3);
    let rd = field(w, 0x0007, 0);
    if rn == rd {
        "RSBS "@ + reg_name(rn) + ", #0"@
    } else {
        "RSBS "@ + reg_name(rd) + ", "@ + reg_name(rn) + ", #0"@
    }
}

/// `MULS`: two-operand form when the register fields coincide, else the
/// three-operand form in which the destination is also the second factor.
pub open spec fn spec_mul_register(w: u16) -> Seq<char> {
    let rn = field(w, 0x0038, 3);
    let rdm = field(w, 0x0007, 0);
    if rdm == rn {
        "MULS "@ + reg_name(rn) + ", "@ + reg_name(rdm)
    } else {
        "MULS "@ + reg_name(rdm) + ", "@ + reg_name(rn) + ", "@ + reg_name(rdm)
    }
}

/// The rendered line of a word of the data-processing-register family,
/// selected by the 4-bit sub-opcode at bits 9-6.
pub open spec fn spec_data_processing_line(w: u16) -> Seq<char> {
    let op = field(w, 0x03c0, 6);
    let rm = field(w, 0x0038, 3);
    let rdn = field(w, 0x0007, 0);
    if op == 0x0000 {
        spec_two_reg("ANDS "@, rdn, rm)
    } else if op == 0x0001 {
        spec_two_reg("EORS "@, rdn, rm)
    } else if op == 0x0002 {
        spec_two_reg("LSLS "@, rdn, rm)
    } else if op == 0x0003 {
        spec_two_reg("LSRS "@, rdn, rm)
    } else if op == 0x0004 {
        spec_two_reg("ASRS "@, rdn, rm)
    } else if op == 0x0005 {
        spec_two_reg("ADCS "@, rdn, rm)
    } else if op == 0x0006 {
        spec_two_reg("SBCS "@, rdn, rm)
    } else if op == 0x0007 {
        spec_two_reg("RORS "@, rdn, rm)
    } else if op == 0x0008 {
        spec_two_reg("TST "@, rdn, rm)
    } else if op == 0x0009 {
        spec_rsb_imm(w)
    } else if op == 0x000a {
        spec_two_reg("CMP "@, rdn, rm)
    } else if op == 0x000b {
        spec_two_reg("CMN "@, rdn, rm)
    } else if op == 0x000c {
        spec_two_reg("ORRS "@, rdn, rm)
    } else if op == 0x000d {
        spec_mul_register(w)
    } else if op == 0x000e {
        spec_two_reg("BICS "@, rdn, rm)
    } else if op == 0x000f {
        spec_two_reg("MVNS "@, rdn, rm)
    } else {
        "??? FROM DATA HANDLING"@
    }
}

pub fn handle_and_register(instruction: u16) -> (r: String)
    ensures
        r@ == spec_two_reg("ANDS "@, field(instruction, 0x0007, 0), field(instruction, 0x0038, 3)),
{
    render_two_reg("ANDS ", extract_field(instruction, 0x0007, 0), extract_field(instruction, 0x0038, 3))
}

pub fn handle_eor_register(instruction: u16) -> (r: String)
    ensures
        r@ == spec_two_reg("EORS "@, field(instruction, 0x0007, 0), field(instruction, 0x0038, 3)),
{
    render_two_reg("EORS ", extract_field(instruction, 0x0007, 0), extract_field(instruction, 0x0038, 3))
}

pub fn handle_lsl_register(instruction: u16) -> (r: String)
    ensures
        r@ == spec_two_reg("LSLS "@, field(instruction, 0x0007, 0), field(instruction, 0x0038, 3)),
{
    render_two_reg("LSLS ", extract_field(instruction, 0x0007, 0), extract_field(instruction, 0x0038, 3))
}

pub fn handle_lsr_register(instruction: u16) -> (r: String)
    ensures
        r@ == spec_two_reg("LSRS "@, field(instruction, 0x0007, 0), field(instruction, 0x0038, 3)),
{
    render_two_reg("LSRS ", extract_field(instruction, 0x0007, 0), extract_field(instruction, 0x0038, 3))
}

pub fn handle_asr_register(instruction: u16) -> (r: String)
    ensures
        r@ == spec_two_reg("ASRS "@, field(instruction, 0x0007, 0), field(instruction, 0x0038, 3)),
{
    render_two_reg("ASRS ", extract_field(instruction, 0x0007, 0), extract_field(instruction, 0x0038, 3))
}

pub fn handle_adc_register(instruction: u16) -> (r: String)
    ensures
        r@ == spec_two_reg("ADCS "@, field(instruction, 0x0007, 0), field(instruction, 0x0038, 3)),
{
    render_two_reg("ADCS ", extract_field(instruction, 0x0007, 0), extract_field(instruction, 0x0038, 3))
}

pub fn handle_sbc_register(instruction: u16) -> (r: String)
    ensures
        r@ == spec_two_reg("SBCS "@, field(instruction, 0x0007, 0), field(instruction, 0x0038, 3)),
{
    render_two_reg("SBCS ", extract_field(instruction, 0x0007, 0), extract_field(instruction, 0x0038, 3))
}

pub fn handle_ror_register(instruction: u16) -> (r: String)
    ensures
        r@ == spec_two_reg("RORS "@, field(instruction, 0x0007, 0), field(instruction, 0x0038, 3)),
{
    render_two_reg("RORS ", extract_field(instruction, 0x0007, 0), extract_field(instruction, 0x0038, 3))
}

pub fn handle_tst_register(instruction: u16) -> (r: String)
    ensures
        r@ == spec_two_reg("TST "@, field(instruction, 0x0007, 0), field(instruction, 0x0038, 3)),
{
    render_two_reg("TST ", extract_field(instruction, 0x0007, 0), extract_field(instruction, 0x0038, 3))
}

pub fn handle_rsb_imm(instruction: u16) -> (r: String)
    ensures
        r@ == spec_rsb_imm(instruction),
{
    let rn = extract_field(instruction, 0x0038, 3);
    let rd = extract_field(instruction, 0x0007, 0);
    if rn == rd {
        let mut s = String::from_str("RSBS ");
        s.append(render_reg(rn).as_str());
        s.append(", #0");
        s
    } else {
        let mut s = String::from_str("RSBS ");
        s.append(render_reg(rd).as_str());
        s.append(", ");
        s.append(render_reg(rn).as_str());
        s.append(", #0");
        s
    }
}

pub fn handle_cmp_register_t1(instruction: u16) -> (r: String)
    ensures
        r@ == spec_two_reg("CMP "@, field(instruction, 0x0007, 0), field(instruction, 0x0038, 3)),
{
    render_two_reg("CMP ", extract_field(instruction, 0x0007, 0), extract_field(instruction, 0x0038, 3))
}

pub fn handle_cmn_register(instruction: u16) -> (r: String)
    ensures
        r@ == spec_two_reg("CMN "@, field(instruction, 0x0007, 0), field(instruction, 0x0038, 3)),
{
    render_two_reg("CMN ", extract_field(instruction, 0x0007, 0), extract_field(instruction, 0x0038, 3))
}

pub fn handle_orr_register(instruction: u16) -> (r: String)
    ensures
        r@ == spec_two_reg("ORRS "@, field(instruction, 0x0007, 0), field(instruction, 0x0038, 3)),
{
    render_two_reg("ORRS ", extract_field(instruction, 0x0007, 0), extract_field(instruction, 0x0038, 3))
}

pub fn handle_mul_register(instruction: u16) -> (r: String)
    ensures
        r@ == spec_mul_register(instruction),
{
    let rn = extract_field(instruction, 0x0038, 3);
    let rdm = extract_field(instruction, 0x0007, 0);
    if rdm == rn {
        render_two_reg("MULS ", rn, rdm)
    } else {
        let mut s = String::from_str("MULS ");
        s.append(render_reg(rdm).as_str());
        s.append(", ");
        s.append(render_reg(rn).as_str());
        s.append(", ");
        s.append(render_reg(rdm).as_str());
        s
    }
}

pub fn handle_bic_register(instruction: u16) -> (r: String)
    ensures
        r@ == spec_two_reg("BICS "@, field(instruction, 0x0007, 0), field(instruction, 0x0038, 3)),
{
    render_two_reg("BICS ", extract_field(instruction, 0x0007, 0), extract_field(instruction, 0x0038, 3))
}

pub fn handle_mvn_register(instruction: u16) -> (r: String)
    ensures
        r@ == spec_two_reg("MVNS "@, field(instruction, 0x0007, 0), field(instruction, 0x0038, 3)),
{
    render_two_reg("MVNS ", extract_field(instruction, 0x0007, 0), extract_field(instruction, 0x0038, 3))
}

/// Dispatches a word of the data-processing-register family to its
/// operation's decoder.
pub fn decode_data_handling_instruction(instruction: u16) -> (r: String)
    ensures
        r@ == spec_data_processing_line(instruction),
{
    let op = extract_field(instruction, 0x03c0, 6);
    if op == 0x0000 {
        handle_and_register(instruction)
    } else if op == 0x0001 {
        handle_eor_register(instruction)
    } else if op == 0x0002 {
        handle_lsl_register(instruction)
    } else if op == 0x0003 {
        handle_lsr_register(instruction)
    } else if op == 0x0004 {
        handle_asr_register(instruction)
    } else if op == 0x0005 {
        handle_adc_register(instruction)
    } else if op == 0x0006 {
        handle_sbc_register(instruction)
    } else if op == 0x0007 {
        handle_ror_register(instruction)
    } else if op == 0x0008 {
        handle_tst_register(instruction)
    } else if op == 0x0009 {
        handle_rsb_imm(instruction)
    } else if op == 0x000a {
        handle_cmp_register_t1(instruction)
    } else if op == 0x000b {
        handle_cmn_register(instruction)
    } else if op == 0x000c {
        handle_orr_register(instruction)
    } else if op == 0x000d {
        handle_mul_register(instruction)
    } else if op == 0x000e {
        handle_bic_register(instruction)
    } else if op == 0x000f {
        handle_mvn_register(instruction)
    } else {
        String::from_str("??? FROM DATA HANDLING")
    }
}

} // verus!
