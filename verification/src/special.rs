//! Decoders for the special-data family.
//!
//! These instructions use an extended register addressing mode: bit 7
//! extends the 3-bit destination field to 4 bits, so high registers
//! (r8-r15) are reachable. Sub-cases at bits 9-6: add (with SP-specific
//! aliasing when either operand is the stack pointer), compare, move,
//! branch-exchange and branch-and-link-exchange.

use vstd::prelude::*;
use vstd::string::StringExecFns;
use crate::fields::{extract_field, field};
use crate::render::{reg_name, render_reg};

verus! {

/// The 4-bit register at bits 6-3.
pub open spec fn wide_rm(w: u16) -> u16 {
    field(w, 0x0078, 3)
}

/// The 4-bit register made of bit 7 (moved down to bit 3) and bits 2-0.
pub open spec fn wide_rdn(w: u16) -> u16 {
    field(w, 0x0080, 4) | field(w, 0x0007, 0)
}

/// `ADD` on high registers, with the stack-pointer aliases: both operands
/// SP, destination SP, or source SP each render their own form.
pub open spec fn spec_add_register_t2(w: u16) -> Seq<char> {
    let rm = wide_rm(w);
    let rdn = wide_rdn(w);
    if rdn == 0x000d && rm == 0x000d {
        "ADD SP, SP, SP"@
    } else if rdn == 0x000d {
        "ADD SP, "@ + reg_name(rm)
    } else if rm == 0x000d {
        "ADD "@ + reg_name(rdn) + ", SP, "@ + reg_name(rdn)
    } else {
        "ADD "@ + reg_name(rdn) + ", "@ + reg_name(rm)
    }
}

/// `CMP rn, rm` on high registers.
pub open spec fn spec_cmp_register_t2(w: u16) -> Seq<char> {
    "CMP "@ + reg_name(wide_rdn(w)) + ", "@ + reg_name(wide_rm(w))
}

/// `MOV rd, rm` on high registers.
pub open spec fn spec_mov_register(w: u16) -> Seq<char> {
    "MOV "@ + reg_name(wide_rdn(w)) + ", "@ + reg_name(wide_rm(w))
}

/// `BX rm`: branch and exchange.
pub open spec fn spec_bx(w: u16) -> Seq<char> {
    "BX "@ + reg_name(wide_rm(w))
}

/// `BLX rm`: branch with link and exchange.
pub open spec fn spec_blx_register(w: u16) -> Seq<char> {
    "BLX "@ + reg_name(wide_rm(w))
}

/// The rendered line of a word of the special-data family, sub-classified
/// by the 4-bit field at bits 9-6.
pub open spec fn spec_special_line(w: u16) -> Seq<char> {
    let op = field(w, 0x03c0, 6);
    if op & 0x000c == 0x0000 {
        spec_add_register_t2(w)
    } else if op == 0x0005 || op & 0x000e == 0x0006 {
        spec_cmp_register_t2(w)
    } else if op & 0x000c == 0x0008 {
        spec_mov_register(w)
    } else if op & 0x000e == 0x000c {
        spec_bx(w)
    } else if op & 0x000e == 0x000e {
        spec_blx_register(w)
    } else {
        "??? -> FROM SPECIAL INSTRUCTIONS"@
    }
}

pub fn handle_add_register_t2(instruction: u16) -> (r: String)
    ensures
        r@ == spec_add_register_t2(instruction),
{
    let rm = extract_field(instruction, 0x0078, 3);
    let rdn = extract_field(instruction, 0x0080, 4) | extract_field(instruction, 0x0007, 0);
    if rdn == 0x000d && rm == 0x000d {
        String::from_str("ADD SP, SP, SP")
    } else if rdn == 0x000d {
        let mut s = String::from_str("ADD SP, ");
        s.append(render_reg(rm).as_str());
        s
    } else if rm == 0x000d {
        let mut s = String::from_str("ADD ");
        s.append(render_reg(rdn).as_str());
        s.append(", SP, ");
        s.append(render_reg(rdn).as_str());
        s
    } else {
        let mut s = String::from_str("ADD ");
        s.append(render_reg(rdn).as_str());
        s.append(", ");
        s.append(render_reg(rm).as_str());
        s
    }
}

pub fn handle_cmp_register_t2(instruction: u16) -> (r: String)
    ensures
        r@ == spec_cmp_register_t2(instruction),
{
    let rm = extract_field(instruction, 0x0078, 3);
    let rn = extract_field(instruction, 0x0080, 4) | extract_field(instruction, 0x0007, 0);
    let mut s = String::from_str("CMP ");
    s.append(render_reg(rn).as_str());
    s.append(", ");
    s.append(render_reg(rm).as_str());
    s
}

pub fn handle_mov_register(instruction: u16) -> (r: String)
    ensures
        r@ == spec_mov_register(instruction),
{
    let rm = extract_field(instruction, 0x0078, 3);
    let rd = extract_field(instruction, 0x0080, 4) | extract_field(instruction, 0x0007, 0);
    let mut s = String::from_str("MOV ");
    s.append(render_reg(rd).as_str());
    s.append(", ");
    s.append(render_reg(rm).as_str());
    s
}

pub fn handle_bx(instruction: u16) -> (r: String)
    ensures
        r@ == spec_bx(instruction),
{
    let mut s = String::from_str("BX ");
    s.append(render_reg(extract_field(instruction, 0x0078, 3)).as_str());
    s
}

pub fn handle_blx_register(instruction: u16) -> (r: String)
    ensures
        r@ == spec_blx_register(instruction),
{
    let mut s = String::from_str("BLX ");
    s.append(render_reg(extract_field(instruction, 0x0078, 3)).as_str());
    s
}

/// Dispatches a word of the special-data family to its sub-case's decoder.
pub fn decode_special_instructions(instruction: u16) -> (r: String)
    ensures
        r@ == spec_special_line(instruction),
{
    let op = extract_field(instruction, 0x03c0, 6);
    if op & 0x000c == 0x0000 {
        handle_add_register_t2(instruction)
    } else if op == 0x0005 || op & 0x000e == 0x0006 {
        handle_cmp_register_t2(instruction)
    } else if op & 0x000c == 0x0008 {
        handle_mov_register(instruction)
    } else if op & 0x000e == 0x000c {
        handle_bx(instruction)
    } else if op & 0x000e == 0x000e {
        handle_blx_register(instruction)
    } else {
        String::from_str("??? -> FROM SPECIAL INSTRUCTIONS")
    }
}

} // verus!
