//! Decoders for the PC/SP-relative and multiple-register families.
//!
//! The three PC/SP-relative forms share a layout: a 3-bit destination at
//! bits 10-8 and an 8-bit immediate at bits 7-0 that is scaled by four
//! (shifted left by two) before rendering as a byte offset. The
//! multiple-register forms take a 3-bit base register and an 8-bit
//! register bitmap. Store-multiple always writes back to the base;
//! load-multiple suppresses the write-back marker when the base register's
//! own bit is in the bitmap, since the loaded value would otherwise be
//! overwritten by the address update.

use vstd::prelude::*;
use vstd::string::StringExecFns;
use crate::fields::{extract_field, field};
use crate::reglist::{list_str, reg_indices, render_register_list};
use crate::render::{dec_rep, reg_name, render_dec, render_reg};

verus! {

/// The 8-bit immediate at bits 7-0, scaled by four.
pub open spec fn scaled_imm8(w: u16) -> u16 {
    (w & 0x00ff) << 2u16
}

/// The register bitmap at bits 7-0.
pub open spec fn reg_bitmap(w: u16) -> u8 {
    (w & 0x00ff) as u8
}

/// `LDR rt, [PC, #imm]`: PC-relative literal load.
pub open spec fn spec_ldr_literal(w: u16) -> Seq<char> {
    "LDR "@ + reg_name(field(w, 0x0700, 8)) + ", [PC, #"@ + dec_rep(scaled_imm8(w) as nat)
        + "]"@
}

/// `ADD rd, PC, #imm`: address of label (ADR).
pub open spec fn spec_adr(w: u16) -> Seq<char> {
    "ADD "@ + reg_name(field(w, 0x0700, 8)) + ", PC, #"@ + dec_rep(scaled_imm8(w) as nat)
}

/// `ADD rd, SP, #imm`: stack-pointer-relative add-immediate.
pub open spec fn spec_add_sp_plus_immediate(w: u16) -> Seq<char> {
    "ADD "@ + reg_name(field(w, 0x0700, 8)) + ", SP, #"@ + dec_rep(scaled_imm8(w) as nat)
}

/// `STM rn!, {list}`: store-multiple, always with write-back.
pub open spec fn spec_store_multiple(w: u16) -> Seq<char> {
    "STM "@ + reg_name(field(w, 0x0700, 8)) + "!, {"@ + list_str(reg_indices(reg_bitmap(w)))
        + "}"@
}

/// Whether the base register's own bit is set in the bitmap, which
/// suppresses write-back on a load-multiple.
pub open spec fn base_in_list(w: u16) -> bool {
    reg_bitmap(w) & (1u8 << (field(w, 0x0700, 8) as u8)) != 0
}

/// `LDM rn, {list}` when the base register is in the list, else
/// `LDM rn!, {list}`.
pub open spec fn spec_load_multiple(w: u16) -> Seq<char> {
    if base_in_list(w) {
        "LDM "@ + reg_name(field(w, 0x0700, 8)) + ", {"@ + list_str(reg_indices(reg_bitmap(w)))
            + "}"@
    } else {
        "LDM "@ + reg_name(field(w, 0x0700, 8)) + "!, {"@ + list_str(
            reg_indices(reg_bitmap(w)),
        ) + "}"@
    }
}

pub fn handle_ldr_literal(instruction: u16) -> (r: String)
    ensures
        r@ == spec_ldr_literal(instruction),
{
    let rt = extract_field(instruction, 0x0700, 8);
    let imm = (instruction & 0x00ff) << 2u16;
    let mut s = String::from_str("LDR ");
    s.append(render_reg(rt).as_str());
    s.append(", [PC, #");
    s.append(render_dec(imm).as_str());
    s.append("]");
    s
}

pub fn handle_adr(instruction: u16) -> (r: String)
    ensures
        r@ == spec_adr(instruction),
{
    let rd = extract_field(instruction, 0x0700, 8);
    let imm = (instruction & 0x00ff) << 2u16;
    let mut s = String::from_str("ADD ");
    s.append(render_reg(rd).as_str());
    s.append(", PC, #");
    s.append(render_dec(imm).as_str());
    s
}

pub fn handle_add_sp_plus_immediate(instruction: u16) -> (r: String)
    ensures
        r@ == spec_add_sp_plus_immediate(instruction),
{
    let rd = extract_field(instruction, 0x0700, 8);
    let imm = (instruction & 0x00ff) << 2u16;
    let mut s = String::from_str("ADD ");
    s.append(render_reg(rd).as_str());
    s.append(", SP, #");
    s.append(render_dec(imm).as_str());
    s
}

pub fn handle_store_multiple_registers(instruction: u16) -> (r: String)
    ensures
        r@ == spec_store_multiple(instruction),
{
    let rn = extract_field(instruction, 0x0700, 8);
    let registers = (instruction & 0x00ff) as u8;
    let mut s = String::from_str("STM ");
    s.append(render_reg(rn).as_str());
    s.append("!, {");
    s.append(render_register_list(registers).as_str());
    s.append("}");
    s
}

pub fn handle_load_multiple_register(instruction: u16) -> (r: String)
    ensures
        r@ == spec_load_multiple(instruction),
{
    let rn = extract_field(instruction, 0x0700, 8);
    let registers = (instruction & 0x00ff) as u8;
    proof {
        assert((instruction & 0x0700) >> 8 < 8) by (bit_vector);
    }
    let rn8 = rn as u8;
    let base_present = registers & (1u8 << rn8) != 0;
    let mut s = String::from_str("LDM ");
    s.append(render_reg(rn).as_str());
    if base_present {
        s.append(", {");
    } else {
        s.append("!, {");
    }
    s.append(render_register_list(registers).as_str());
    s.append("}");
    s
}

} // verus!
