use thumb_disasm::arith::{decode_arithmetic_instruction, handle_lsl_imm};
use thumb_disasm::dataproc::decode_data_handling_instruction;
use thumb_disasm::decode::decode_instruction;
use thumb_disasm::memory::{
    handle_add_sp_plus_immediate, handle_adr, handle_ldr_literal, handle_load_multiple_register,
    handle_store_multiple_registers,
};
use thumb_disasm::placeholders::{
    decode_cond_branch_supv_call, decode_load_store_single_data, decode_misc_16_bit,
    handle_unconditional_branch_t2,
};
use thumb_disasm::special::decode_special_instructions;

fn line(word: u16) -> String {
    decode_instruction(word).expect("16-bit instruction")
}

#[test]
fn add_three_bit_imm_end_to_end() {
    // imm3 = 1, rn = 2, rd = 3.
    assert_eq!(line(0b0001110001010011), "ADDS r3, r2, #1");
}

#[test]
fn add_and_sub_three_register_forms() {
    assert_eq!(line(0x1853), "ADDS r3, r2, r1");
    assert_eq!(line(0x1bf5), "SUBS r5, r6, r7");
}

#[test]
fn sub_three_bit_imm() {
    assert_eq!(line(0x1fc1), "SUBS r1, r0, #7");
}

#[test]
fn shift_left_zero_immediate_is_register_move() {
    // imm5 = 0, rm = 1, rd = 2: renders as a move, not a shift.
    assert_eq!(handle_lsl_imm(0x000a), "MOVS r2, r1");
    assert_eq!(line(0x000a), "MOVS r2, r1");
}

#[test]
fn shift_left_nonzero_immediate() {
    // imm5 = 5, rm = 1, rd = 2.
    assert_eq!(handle_lsl_imm(0x014a), "LSLS r2, r1, #5");
    assert_eq!(line(0x014a), "LSLS r2, r1, #5");
}

#[test]
fn shift_right_immediates() {
    assert_eq!(line(0x0847), "LSRS r7, r0, #1");
    assert_eq!(line(0x17f0), "ASRS r0, r6, #31");
}

#[test]
fn eight_bit_immediate_forms() {
    assert_eq!(line(0x21c8), "MOVS r1, #200");
    assert_eq!(line(0x2f00), "CMP r7, #0");
    assert_eq!(line(0x32ff), "ADDS r2, #255");
    assert_eq!(line(0x3a0a), "SUBS r2, #10");
    assert_eq!(decode_arithmetic_instruction(0x21c8), "MOVS r1, #200");
}

#[test]
fn data_processing_two_register_ops() {
    assert_eq!(line(0x4019), "ANDS r1, r3");
    assert_eq!(line(0x4059), "EORS r1, r3");
    assert_eq!(line(0x4099), "LSLS r1, r3");
    assert_eq!(line(0x40d9), "LSRS r1, r3");
    assert_eq!(line(0x4119), "ASRS r1, r3");
    assert_eq!(line(0x4159), "ADCS r1, r3");
    assert_eq!(line(0x4199), "SBCS r1, r3");
    assert_eq!(line(0x41d9), "RORS r1, r3");
    assert_eq!(line(0x4219), "TST r1, r3");
    assert_eq!(line(0x4299), "CMP r1, r3");
    assert_eq!(line(0x42d9), "CMN r1, r3");
    assert_eq!(line(0x4319), "ORRS r1, r3");
    assert_eq!(line(0x4399), "BICS r1, r3");
    assert_eq!(line(0x43e5), "MVNS r5, r4");
    assert_eq!(decode_data_handling_instruction(0x4019), "ANDS r1, r3");
}

#[test]
fn reverse_subtract_operand_aliasing() {
    // Source and destination coincide: two-operand form.
    assert_eq!(line(0x4252), "RSBS r2, #0");
    // Distinct: three-operand form.
    assert_eq!(line(0x424a), "RSBS r2, r1, #0");
}

#[test]
fn multiply_operand_aliasing() {
    // Register fields coincide: two-operand form.
    assert_eq!(line(0x435b), "MULS r3, r3");
    // Distinct: the destination doubles as the second factor.
    assert_eq!(line(0x434a), "MULS r2, r1, r2");
}

#[test]
fn special_data_add_forms() {
    assert_eq!(line(0x4411), "ADD r1, r2");
    assert_eq!(line(0x449d), "ADD SP, r3");
    assert_eq!(line(0x4469), "ADD r1, SP, r1");
    assert_eq!(line(0x44ed), "ADD SP, SP, SP");
    assert_eq!(decode_special_instructions(0x4411), "ADD r1, r2");
}

#[test]
fn special_data_compare_move_branch() {
    assert_eq!(line(0x4571), "CMP r1, r14");
    assert_eq!(line(0x4690), "MOV r8, r2");
    assert_eq!(line(0x4718), "BX r3");
    assert_eq!(line(0x47a0), "BLX r4");
}

#[test]
fn pc_and_sp_relative_forms_scale_by_four() {
    assert_eq!(line(0x49ff), "LDR r1, [PC, #1020]");
    assert_eq!(line(0xa204), "ADD r2, PC, #16");
    assert_eq!(line(0xab01), "ADD r3, SP, #4");
    assert_eq!(handle_ldr_literal(0x49ff), "LDR r1, [PC, #1020]");
    assert_eq!(handle_adr(0xa204), "ADD r2, PC, #16");
    assert_eq!(handle_add_sp_plus_immediate(0xab01), "ADD r3, SP, #4");
}

#[test]
fn store_multiple_always_writes_back() {
    assert_eq!(line(0xc109), "STM r1!, {r0,r3}");
    assert_eq!(handle_store_multiple_registers(0xc000), "STM r0!, {}");
}

#[test]
fn load_multiple_base_in_list_suppresses_write_back() {
    // Base r2, bitmap includes bit 2: no write-back marker.
    assert_eq!(line(0xca06), "LDM r2, {r1,r2}");
    assert_eq!(handle_load_multiple_register(0xca06), "LDM r2, {r1,r2}");
}

#[test]
fn load_multiple_base_not_in_list_writes_back() {
    // Base r2, bitmap excludes bit 2: write-back marker present.
    assert_eq!(line(0xca03), "LDM r2!, {r0,r1}");
    assert_eq!(handle_load_multiple_register(0xca03), "LDM r2!, {r0,r1}");
}

#[test]
fn placeholder_families_render_markers() {
    assert_eq!(handle_unconditional_branch_t2(0xe123), "UNIMPLEMENTED: unconditional branch");
    assert_eq!(decode_misc_16_bit(0xb000), "UNIMPLEMENTED: miscellaneous 16-bit");
    assert_eq!(
        decode_cond_branch_supv_call(0xd000),
        "UNIMPLEMENTED: conditional branch / supervisor call"
    );
    assert_eq!(decode_load_store_single_data(0x5000), "UNIMPLEMENTED: single-data load/store");
    assert_eq!(line(0xe123), "UNIMPLEMENTED: unconditional branch");
    assert_eq!(line(0xb000), "UNIMPLEMENTED: miscellaneous 16-bit");
    assert_eq!(line(0xd000), "UNIMPLEMENTED: conditional branch / supervisor call");
    assert_eq!(line(0x5000), "UNIMPLEMENTED: single-data load/store");
}

#[test]
fn wide_prefix_words_do_not_decode() {
    assert_eq!(decode_instruction(0xe800), None);
    assert_eq!(decode_instruction(0xf000), None);
    assert_eq!(decode_instruction(0xf800), None);
    assert_eq!(decode_instruction(0xffff), None);
}
