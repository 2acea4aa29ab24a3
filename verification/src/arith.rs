//! Decoders for the arithmetic family.
//!
//! The family covers shifts by immediate, add/subtract in three-register
//! and 3-bit-immediate forms, and move/compare/add/subtract with an 8-bit
//! immediate. A 5-bit sub-opcode at bits 13-9 selects the four exact
//! add/subtract forms; the remaining values are grouped by their top three
//! bits (bits 13-11).

use vstd::prelude::*;
use vstd::string::StringExecFns;
use crate::fields::{extract_field, field};
use crate::render::{dec_rep, reg_name, render_dec, render_reg};

verus! {

/// `ADDS rd, rn, rm`: add, three-register form.
pub open spec fn spec_add_register_t1(w: u16) -> Seq<char> {
    "ADDS "@ + reg_name(field(w, 0x0007, 0)) + ", "@ + reg_name(field(w, 0x0038, 3)) + ", "@
        + reg_name(field(w, 0x01c0, 6))
}

/// `SUBS rd, rn, rm`: subtract, three-register form.
pub open spec fn spec_sub_register(w: u16) -> Seq<char> {
    "SUBS "@ + reg_name(field(w, 0x0007, 0)) + ", "@ + reg_name(field(w, 0x0038, 3)) + ", "@
        + reg_name(field(w, 0x01c0, 6))
}

/// `ADDS rd, rn, #imm3`: add, 3-bit-immediate form.
pub open spec fn spec_add_three_bit_imm(w: u16) -> Seq<char> {
    "ADDS "@ + reg_name(field(w, 0x0007, 0)) + ", "@ + reg_name(field(w, 0x0038, 3)) + ", #"@
        + dec_rep(field(w, 0x01c0, 6) as nat)
}

/// `SUBS rd, rn, #imm3`: subtract, 3-bit-immediate form.
pub open spec fn spec_sub_three_bit_imm(w: u16) -> Seq<char> {
    "SUBS "@ + reg_name(field(w, 0x0007, 0)) + ", "@ + reg_name(field(w, 0x0038, 3)) + ", #"@
        + dec_rep(field(w, 0x01c0, 6) as nat)
}

/// Shift-left-immediate, with the architectural alias: a zero immediate
/// renders as a register move.
pub open spec fn spec_lsl_imm(w: u16) -> Seq<char> {
    if field(w, 0x07c0, 6) != 0 {
        "LSLS "@ + reg_name(field(w, 0x0007, 0)) + ", "@ + reg_name(field(w, 0x0038, 3))
            + ", #"@ + dec_rep(field(w, 0x07c0, 6) as nat)
    } else {
        "MOVS "@ + reg_name(field(w, 0x0007, 0)) + ", "@ + reg_name(field(w, 0x0038, 3))
    }
}

/// `LSRS rd, rm, #imm5`: logical shift right by immediate.
pub open spec fn spec_lsr_imm(w: u16) -> Seq<char> {
    "LSRS "@ + reg_name(field(w, 0x0007, 0)) + ", "@ + reg_name(field(w, 0x0038, 3)) + ", #"@
        + dec_rep(field(w, 0x07c0, 6) as nat)
}

/// `ASRS rd, rm, #imm5`: arithmetic shift right by immediate.
pub open spec fn spec_asr_imm(w: u16) -> Seq<char> {
    "ASRS "@ + reg_name(field(w, 0x0007, 0)) + ", "@ + reg_name(field(w, 0x0038, 3)) + ", #"@
        + dec_rep(field(w, 0x07c0, 6) as nat)
}

/// `MOVS rd, #imm8`: move immediate.
pub open spec fn spec_move_imm(w: u16) -> Seq<char> {
    "MOVS "@ + reg_name(field(w, 0x0700, 8)) + ", #"@ + dec_rep(field(w, 0x00ff, 0) as nat)
}

/// `CMP rn, #imm8`: compare immediate.
pub open spec fn spec_compare_imm(w: u16) -> Seq<char> {
    "CMP "@ + reg_name(field(w, 0x0700, 8)) + ", #"@ + dec_rep(field(w, 0x00ff, 0) as nat)
}

/// `ADDS rdn, #imm8`: add 8-bit immediate.
pub open spec fn spec_add_eight_bit_imm(w: u16) -> Seq<char> {
    "ADDS "@ + reg_name(field(w, 0x0700, 8)) + ", #"@ + dec_rep(field(w, 0x00ff, 0) as nat)
}

/// `SUBS rdn, #imm8`: subtract 8-bit immediate.
pub open spec fn spec_sub_eight_bit_imm(w: u16) -> Seq<char> {
    "SUBS "@ + reg_name(field(w, 0x0700, 8)) + ", #"@ + dec_rep(field(w, 0x00ff, 0) as nat)
}

/// The rendered line of a word of the arithmetic family. The four exact
/// sub-opcodes come first; the rest are grouped by their top three bits.
pub open spec fn spec_arithmetic_line(w: u16) -> Seq<char> {
    let op = field(w, 0x3e00, 9);
    if op == 0x000c {
        spec_add_register_t1(w)
    } else if op == 0x000d {
        spec_sub_register(w)
    } else if op == 0x000e {
        spec_add_three_bit_imm(w)
    } else if op == 0x000f {
        spec_sub_three_bit_imm(w)
    } else {
        let group = op & 0x001c;
        if group == 0x0000 {
            spec_lsl_imm(w)
        } else if group == 0x0004 {
            spec_lsr_imm(w)
        } else if group == 0x0008 {
            spec_asr_imm(w)
        } else if group == 0x0010 {
            spec_move_imm(w)
        } else if group == 0x0014 {
            spec_compare_imm(w)
        } else if group == 0x0018 {
            spec_add_eight_bit_imm(w)
        } else if group == 0x001c {
            spec_sub_eight_bit_imm(w)
        } else {
            "ARITHMETIC: ???"@
        }
    }
}

pub fn handle_add_register_t1(instruction: u16) -> (r: String)
    ensures
        r@ == spec_add_register_t1(instruction),
{
    let rm = extract_field(instruction, 0x01c0, 6);
    let rn = extract_field(instruction, 0x0038, 3);
    let rd = extract_field(instruction, 0x0007, 0);
    let mut s = String::from_str("ADDS ");
    s.append(render_reg(rd).as_str());
    s.append(", ");
    s.append(render_reg(rn).as_str());
    s.append(", ");
    s.append(render_reg(rm).as_str());
    s
}

pub fn handle_sub_register(instruction: u16) -> (r: String)
    ensures
        r@ == spec_sub_register(instruction),
{
    let rm = extract_field(instruction, 0x01c0, 6);
    let rn = extract_field(instruction, 0x0038, 3);
    let rd = extract_field(instruction, 0x0007, 0);
    let mut s = String::from_str("SUBS ");
    s.append(render_reg(rd).as_str());
    s.append(", ");
    s.append(render_reg(rn).as_str());
    s.append(", ");
    s.append(render_reg(rm).as_str());
    s
}

pub fn handle_add_three_bit_imm(instruction: u16) -> (r: String)
    ensures
        r@ == spec_add_three_bit_imm(instruction),
{
    let imm3 = extract_field(instruction, 0x01c0, 6);
    let rn = extract_field(instruction, 0x0038, 3);
    let rd = extract_field(instruction, 0x0007, 0);
    let mut s = String::from_str("ADDS ");
    s.append(render_reg(rd).as_str());
    s.append(", ");
    s.append(render_reg(rn).as_str());
    s.append(", #");
    s.append(render_dec(imm3).as_str());
    s
}

pub fn handle_sub_three_bit_imm(instruction: u16) -> (r: String)
    ensures
        r@ == spec_sub_three_bit_imm(instruction),
{
    let imm3 = extract_field(instruction, 0x01c0, 6);
    let rn = extract_field(instruction, 0x0038, 3);
    let rd = extract_field(instruction, 0x0007, 0);
    let mut s = String::from_str("SUBS ");
    s.append(render_reg(rd).as_str());
    s.append(", ");
    s.append(render_reg(rn).as_str());
    s.append(", #");
    s.append(render_dec(imm3).as_str());
    s
}

pub fn handle_lsl_imm(instruction: u16) -> (r: String)
    ensures
        r@ == spec_lsl_imm(instruction),
{
    let imm5 = extract_field(instruction, 0x07c0, 6);
    let rm = extract_field(instruction, 0x0038, 3);
    let rd = extract_field(instruction, 0x0007, 0);
    if imm5 != 0 {
        let mut s = String::from_str("LSLS ");
        s.append(render_reg(rd).as_str());
        s.append(", ");
        s.append(render_reg(rm).as_str());
        s.append(", #");
        s.append(render_dec(imm5).as_str());
        s
    } else {
        let mut s = String::from_str("MOVS ");
        s.append(render_reg(rd).as_str());
        s.append(", ");
        s.append(render_reg(rm).as_str());
        s
    }
}

pub fn handle_lsr_imm(instruction: u16) -> (r: String)
    ensures
        r@ == spec_lsr_imm(instruction),
{
    let imm5 = extract_field(instruction, 0x07c0, 6);
    let rm = extract_field(instruction, 0x0038, 3);
    let rd = extract_field(instruction, 0x0007, 0);
    let mut s = String::from_str("LSRS ");
    s.append(render_reg(rd).as_str());
    s.append(", ");
    s.append(render_reg(rm).as_str());
    s.append(", #");
    s.append(render_dec(imm5).as_str());
    s
}

pub fn handle_asr_imm(instruction: u16) -> (r: String)
    ensures
        r@ == spec_asr_imm(instruction),
{
    let imm5 = extract_field(instruction, 0x07c0, 6);
    let rm = extract_field(instruction, 0x0038, 3);
    let rd = extract_field(instruction, 0x0007, 0);
    let mut s = String::from_str("ASRS ");
    s.append(render_reg(rd).as_str());
    s.append(", ");
    s.append(render_reg(rm).as_str());
    s.append(", #");
    s.append(render_dec(imm5).as_str());
    s
}

pub fn handle_move_imm(instruction: u16) -> (r: String)
    ensures
        r@ == spec_move_imm(instruction),
{
    let rd = extract_field(instruction, 0x0700, 8);
    let imm8 = extract_field(instruction, 0x00ff, 0);
    let mut s = String::from_str("MOVS ");
    s.append(render_reg(rd).as_str());
    s.append(", #");
    s.append(render_dec(imm8).as_str());
    s
}

pub fn handle_compare_imm(instruction: u16) -> (r: String)
    ensures
        r@ == spec_compare_imm(instruction),
{
    let rn = extract_field(instruction, 0x0700, 8);
    let imm8 = extract_field(instruction, 0x00ff, 0);
    let mut s = String::from_str("CMP ");
    s.append(render_reg(rn).as_str());
    s.append(", #");
    s.append(render_dec(imm8).as_str());
    s
}

pub fn handle_add_eight_bit_imm(instruction: u16) -> (r: String)
    ensures
        r@ == spec_add_eight_bit_imm(instruction),
{
    let rdn = extract_field(instruction, 0x0700, 8);
    let imm8 = extract_field(instruction, 0x00ff, 0);
    let mut s = String::from_str("ADDS ");
    s.append(render_reg(rdn).as_str());
    s.append(", #");
    s.append(render_dec(imm8).as_str());
    s
}

pub fn handle_sub_eight_bit_imm(instruction: u16) -> (r: String)
    ensures
        r@ == spec_sub_eight_bit_imm(instruction),
{
    let rdn = extract_field(instruction, 0x0700, 8);
    let imm8 = extract_field(instruction, 0x00ff, 0);
    let mut s = String::from_str("SUBS ");
    s.append(render_reg(rdn).as_str());
    s.append(", #");
    s.append(render_dec(imm8).as_str());
    s
}

/// Dispatches a word of the arithmetic family to its form's decoder.
pub fn decode_arithmetic_instruction(instruction: u16) -> (r: String)
    ensures
        r@ == spec_arithmetic_line(instruction),
{
    let op = extract_field(instruction, 0x3e00, 9);
    if op == 0x000c {
        handle_add_register_t1(instruction)
    } else if op == 0x000d {
        handle_sub_register(instruction)
    } else if op == 0x000e {
        handle_add_three_bit_imm(instruction)
    } else if op == 0x000f {
        handle_sub_three_bit_imm(instruction)
    } else {
        let group = op & 0x001c;
        if group == 0x0000 {
            handle_lsl_imm(instruction)
        } else if group == 0x0004 {
            handle_lsr_imm(instruction)
        } else if group == 0x0008 {
            handle_asr_imm(instruction)
        } else if group == 0x0010 {
            handle_move_imm(instruction)
        } else if group == 0x0014 {
            handle_compare_imm(instruction)
        } else if group == 0x0018 {
            handle_add_eight_bit_imm(instruction)
        } else if group == 0x001c {
            handle_sub_eight_bit_imm(instruction)
        } else {
            String::from_str("ARITHMETIC: ???")
        }
    }
}

} // verus!
