use psx::command::GteError;
use psx::gte::Gte;

const SF: u32 = 1 << 19;

fn ctrl(g: &mut Gte, reg: u32, val: u32) {
    assert_eq!(g.set_control(reg, val), Ok(()));
}

fn put(g: &mut Gte, reg: u32, val: u32) {
    assert_eq!(g.set_data(reg, val), Ok(()));
}

fn get(g: &Gte, reg: u32) -> u32 {
    g.data(reg).unwrap()
}

fn flags(g: &Gte) -> u32 {
    g.control(31).unwrap()
}

fn summary_consistent(f: u32) -> bool {
    (f & (1 << 31)) == (((f & 0x7F87_E000) != 0) as u32) << 31
}

#[test]
fn reset_state_reads_zero_except_lzcr() {
    let g = Gte::new();
    for reg in 0..32 {
        assert_eq!(g.control(reg), Ok(0));
    }
    for reg in 0..31 {
        assert_eq!(g.data(reg), Ok(0));
    }
    assert_eq!(g.data(31), Ok(32));
}

#[test]
fn xy_fifo_write_14_duplicates_into_slot_3() {
    let mut g = Gte::new();
    put(&mut g, 12, 0x0001_0002);
    put(&mut g, 13, 0x0003_0004);
    put(&mut g, 14, 0xFFFE_0005);
    assert_eq!(get(&g, 12), 0x0001_0002);
    assert_eq!(get(&g, 13), 0x0003_0004);
    assert_eq!(get(&g, 14), 0xFFFE_0005);
    assert_eq!(get(&g, 15), 0xFFFE_0005);
}

#[test]
fn xy_fifo_write_15_pushes() {
    let mut g = Gte::new();
    put(&mut g, 12, 0x0000_0001);
    put(&mut g, 13, 0x0000_0002);
    put(&mut g, 14, 0x0000_0003);
    put(&mut g, 15, 0x0007_0009);
    assert_eq!(get(&g, 12), 0x0000_0002);
    assert_eq!(get(&g, 13), 0x0000_0003);
    assert_eq!(get(&g, 14), 0x0000_0003);
    assert_eq!(get(&g, 15), 0x0007_0009);
}

#[test]
fn xy_fifo_write_15_moves_old_slot_3_into_slot_2() {
    let mut g = Gte::new();
    put(&mut g, 15, 5);
    assert_eq!(get(&g, 14), 0);
    assert_eq!(get(&g, 15), 5);
    put(&mut g, 15, 6);
    assert_eq!(get(&g, 13), 0);
    assert_eq!(get(&g, 14), 5);
    assert_eq!(get(&g, 15), 6);
}

#[test]
fn control_registers_round_trip() {
    let v: u32 = 0x8765_C321;
    for reg in 0..32u32 {
        let mut g = Gte::new();
        ctrl(&mut g, reg, v);
        let expected = match reg {
            4 | 12 | 20 => 0xFFFF_C321,
            0..=23 => v,
            24 | 25 | 28 => v,
            26 => 0xFFFF_C321,
            27 | 29 | 30 => 0xFFFF_C321,
            _ => (v & 0x7FFF_F000) | (1 << 31),
        };
        assert_eq!(g.control(reg), Ok(expected), "register {}", reg);
    }
}

#[test]
fn control_h_is_stored_unsigned_and_read_sign_extended() {
    let mut g = Gte::new();
    ctrl(&mut g, 26, 0x0000_FFFF);
    assert_eq!(g.control(26), Ok(0xFFFF_FFFF));
    ctrl(&mut g, 26, 0x0000_7FFF);
    assert_eq!(g.control(26), Ok(0x0000_7FFF));
}

#[test]
fn control_flag_write_keeps_writable_bits_and_summarises() {
    let mut g = Gte::new();
    ctrl(&mut g, 31, 0x0100_0000);
    assert_eq!(flags(&g), 0x8100_0000);
    ctrl(&mut g, 31, 0x0040_1000);
    assert_eq!(flags(&g), 0x0040_1000);
    ctrl(&mut g, 31, 0xFFFF_FFFF);
    assert_eq!(flags(&g), 0xFFFF_F000);
    ctrl(&mut g, 31, 0x8000_0FFF);
    assert_eq!(flags(&g), 0);
    for v in [0u32, 0x1000, 0x2000, 0x80000, 0x0080_0000, 0x7FFF_FFFF, 0xDEAD_BEEF] {
        ctrl(&mut g, 31, v);
        assert!(summary_consistent(flags(&g)));
    }
}

#[test]
fn data_registers_round_trip() {
    let v: u32 = 0x8765_C321;
    let mut g = Gte::new();
    for reg in [0u32, 2, 4, 6, 12, 13, 20, 21, 22, 23, 24, 25, 26, 27] {
        put(&mut g, reg, v);
        assert_eq!(get(&g, reg), v, "register {}", reg);
    }
    put(&mut g, 1, v);
    assert_eq!(get(&g, 1), 0xFFFF_C321);
    put(&mut g, 7, v);
    assert_eq!(get(&g, 7), 0xC321);
    put(&mut g, 9, v);
    assert_eq!(get(&g, 9), 0xFFFF_C321);
    put(&mut g, 17, v);
    assert_eq!(get(&g, 17), 0xC321);
}

#[test]
fn packed_ir_write_and_read() {
    let mut g = Gte::new();
    put(&mut g, 28, 0x7FFF);
    assert_eq!(get(&g, 9), 31 << 7);
    assert_eq!(get(&g, 10), 31 << 7);
    assert_eq!(get(&g, 11), 31 << 7);
    assert_eq!(get(&g, 28), 0x7FFF);
    assert_eq!(get(&g, 29), 0x7FFF);
    put(&mut g, 28, 0x0C43);
    assert_eq!(get(&g, 9), 3 << 7);
    assert_eq!(get(&g, 10), 2 << 7);
    assert_eq!(get(&g, 11), 3 << 7);
    put(&mut g, 9, (-200i32) as u32);
    put(&mut g, 10, 0x7FFF);
    assert_eq!(get(&g, 28), (0x1F << 5) | (3 << 10));
    put(&mut g, 29, 0);
    assert_eq!(get(&g, 28), (0x1F << 5) | (3 << 10));
}

#[test]
fn leading_zero_count() {
    let mut g = Gte::new();
    put(&mut g, 30, 0x0000_FFFF);
    assert_eq!(get(&g, 30), 0x0000_FFFF);
    assert_eq!(get(&g, 31), 16);
    put(&mut g, 30, 0xFFFF_FFFF);
    assert_eq!(get(&g, 31), 32);
    put(&mut g, 30, 0x8000_0000);
    assert_eq!(get(&g, 31), 1);
    put(&mut g, 30, 0);
    assert_eq!(get(&g, 31), 32);
    put(&mut g, 30, 0xF000_0000);
    assert_eq!(get(&g, 31), 4);
}

#[test]
fn leading_zero_result_is_read_only() {
    let mut g = Gte::new();
    put(&mut g, 30, 0x00FF_0000);
    assert_eq!(g.set_data(31, 3), Ok(()));
    assert_eq!(get(&g, 31), 8);
}

#[test]
fn unsupported_registers_are_refused() {
    let mut g = Gte::new();
    assert_eq!(g.control(32), Err(GteError::UnsupportedRegister(32)));
    assert_eq!(g.data(40), Err(GteError::UnsupportedRegister(40)));
    assert_eq!(g.set_control(33, 1), Err(GteError::UnsupportedRegister(33)));
    assert_eq!(g.set_data(32, 1), Err(GteError::UnsupportedRegister(32)));
}

#[test]
fn unsupported_opcode_is_refused_and_changes_nothing() {
    let mut g = Gte::new();
    ctrl(&mut g, 31, 0x0100_0000);
    assert_eq!(g.command(0x0000_0000), Err(GteError::UnsupportedOpcode(0)));
    assert_eq!(g.command(0x0000_0002), Err(GteError::UnsupportedOpcode(2)));
    assert_eq!(flags(&g), 0x8100_0000);
}

#[test]
fn invalid_operand_selection_is_refused() {
    let mut g = Gte::new();
    put(&mut g, 9, 5);
    // MVMVA with matrix selector 3.
    assert_eq!(g.command(0x12 | (3 << 17)), Err(GteError::InvalidOperandSelection));
    // MVMVA adding the far color vector.
    assert_eq!(g.command(0x12 | (2 << 13)), Err(GteError::InvalidOperandSelection));
    assert_eq!(get(&g, 9), 5);
    assert_eq!(get(&g, 25), 0);
}

fn identity_rotation(g: &mut Gte) {
    ctrl(g, 0, 0x0000_1000);
    ctrl(g, 1, 0);
    ctrl(g, 2, 0x0000_1000);
    ctrl(g, 3, 0);
    ctrl(g, 4, 0x1000);
}

#[test]
fn rtps_identity_projects_to_the_origin() {
    let mut g = Gte::new();
    identity_rotation(&mut g);
    ctrl(&mut g, 26, 100);
    ctrl(&mut g, 27, 1);
    put(&mut g, 0, 0);
    put(&mut g, 1, 200);
    assert_eq!(g.command(SF | 0x01), Ok(()));
    assert_eq!(get(&g, 19), 200);
    assert_eq!(get(&g, 24), psx::divider::divide(100, 200));
    assert_eq!(get(&g, 24), 32768);
    assert_eq!(get(&g, 14), 0);
    assert_eq!(get(&g, 15), 0);
    assert_eq!(get(&g, 11), 200);
    assert_eq!(get(&g, 8), 8);
    assert_eq!(flags(&g), 0);
}

#[test]
fn rtps_projects_with_offset_and_factor() {
    let mut g = Gte::new();
    identity_rotation(&mut g);
    ctrl(&mut g, 26, 100);
    ctrl(&mut g, 24, 160 << 16);
    ctrl(&mut g, 25, 120 << 16);
    put(&mut g, 0, (20u32 << 16) | 10);
    put(&mut g, 1, 200);
    assert_eq!(g.command(SF | 0x01), Ok(()));
    // x = 10 * 0.5 + 160, y = 20 * 0.5 + 120.
    assert_eq!(get(&g, 14), (130 << 16) | 165);
    assert_eq!(get(&g, 25), 10);
    assert_eq!(get(&g, 26), 20);
    assert_eq!(flags(&g), 0);
}

#[test]
fn rtps_near_plane_sets_divide_overflow() {
    let mut g = Gte::new();
    identity_rotation(&mut g);
    ctrl(&mut g, 26, 100);
    put(&mut g, 1, 40);
    assert_eq!(g.command(SF | 0x01), Ok(()));
    assert_eq!(get(&g, 19), 40);
    let f = flags(&g);
    assert_eq!(f, (1 << 17) | (1 << 31));
    assert!(summary_consistent(f));
}

#[test]
fn rtpt_fills_both_fifos() {
    let mut g = Gte::new();
    identity_rotation(&mut g);
    ctrl(&mut g, 26, 100);
    put(&mut g, 0, 2);
    put(&mut g, 1, 200);
    put(&mut g, 2, 4);
    put(&mut g, 3, 400);
    put(&mut g, 4, 8);
    put(&mut g, 5, 800);
    assert_eq!(g.command(SF | 0x30), Ok(()));
    assert_eq!(get(&g, 16), 0);
    assert_eq!(get(&g, 17), 200);
    assert_eq!(get(&g, 18), 400);
    assert_eq!(get(&g, 19), 800);
    assert_eq!(get(&g, 12), 1);
    assert_eq!(get(&g, 13), 1);
    assert_eq!(get(&g, 14), 1);
    assert_eq!(flags(&g), 0);
}

#[test]
fn nclip_computes_signed_area() {
    let mut g = Gte::new();
    put(&mut g, 12, 0);
    put(&mut g, 13, 10);
    put(&mut g, 14, 10 << 16);
    assert_eq!(g.command(0x06), Ok(()));
    assert_eq!(get(&g, 24), 100);
    put(&mut g, 13, 10 << 16);
    put(&mut g, 14, 10);
    assert_eq!(g.command(0x06), Ok(()));
    assert_eq!(get(&g, 24) as i32, -100);
    assert_eq!(flags(&g), 0);
}

#[test]
fn op_uses_the_rotation_diagonal() {
    let mut g = Gte::new();
    ctrl(&mut g, 0, 2);
    ctrl(&mut g, 2, 3);
    ctrl(&mut g, 4, 4);
    put(&mut g, 9, 1);
    put(&mut g, 10, 2);
    put(&mut g, 11, 3);
    assert_eq!(g.command(0x0c), Ok(()));
    assert_eq!(get(&g, 25), 1);
    assert_eq!(get(&g, 26) as i32, -2);
    assert_eq!(get(&g, 27), 1);
    assert_eq!(get(&g, 10) as i32, -2);
}

#[test]
fn sqr_squares_ir() {
    let mut g = Gte::new();
    put(&mut g, 9, 3);
    put(&mut g, 10, (-4i32) as u32);
    put(&mut g, 11, 5);
    assert_eq!(g.command(0x28), Ok(()));
    assert_eq!(get(&g, 25), 9);
    assert_eq!(get(&g, 26), 16);
    assert_eq!(get(&g, 27), 25);
    assert_eq!(get(&g, 11), 25);
    put(&mut g, 9, 300);
    assert_eq!(g.command(0x28), Ok(()));
    assert_eq!(get(&g, 25), 90000);
    assert_eq!(get(&g, 9), 32767);
    assert_eq!(flags(&g), (1 << 24) | (1 << 31));
}

#[test]
fn avsz3_averages_three_depths() {
    let mut g = Gte::new();
    ctrl(&mut g, 29, 1);
    put(&mut g, 16, 999);
    put(&mut g, 17, 10);
    put(&mut g, 18, 20);
    put(&mut g, 19, 30);
    assert_eq!(g.command(0x2d), Ok(()));
    assert_eq!(get(&g, 24), 60);
    assert_eq!(get(&g, 7), 0);
    assert_eq!(flags(&g), 0);
}

#[test]
fn avsz4_averages_four_depths() {
    let mut g = Gte::new();
    ctrl(&mut g, 30, 0x400);
    put(&mut g, 16, 100);
    put(&mut g, 17, 200);
    put(&mut g, 18, 300);
    put(&mut g, 19, 400);
    assert_eq!(g.command(0x2e), Ok(()));
    assert_eq!(get(&g, 24), 1000 * 0x400);
    assert_eq!(get(&g, 7), 250);
    assert_eq!(flags(&g), 0);
}

#[test]
fn avsz3_negative_scale_flags_otz() {
    let mut g = Gte::new();
    ctrl(&mut g, 29, 0xFFFF);
    put(&mut g, 17, 10000);
    assert_eq!(g.command(0x2d), Ok(()));
    assert_eq!(get(&g, 24) as i32, -10000);
    assert_eq!(get(&g, 7), 0);
    assert_eq!(flags(&g), (1 << 18) | (1 << 31));
}

#[test]
fn gpf_multiplies_by_ir0() {
    let mut g = Gte::new();
    put(&mut g, 6, 0x7700_0000);
    put(&mut g, 8, 2);
    put(&mut g, 9, 10);
    put(&mut g, 10, 20);
    put(&mut g, 11, 30);
    assert_eq!(g.command(0x3d), Ok(()));
    assert_eq!(get(&g, 25), 20);
    assert_eq!(get(&g, 26), 40);
    assert_eq!(get(&g, 27), 60);
    assert_eq!(get(&g, 22), 0x7703_0201);
}

#[test]
fn gpl_accumulates_into_mac() {
    let mut g = Gte::new();
    put(&mut g, 25, 5);
    put(&mut g, 26, 6);
    put(&mut g, 27, 7);
    put(&mut g, 8, 2);
    put(&mut g, 9, 10);
    put(&mut g, 10, 20);
    put(&mut g, 11, 30);
    assert_eq!(g.command(0x3e), Ok(()));
    assert_eq!(get(&g, 25), 25);
    assert_eq!(get(&g, 26), 46);
    assert_eq!(get(&g, 27), 67);
    put(&mut g, 25, 1);
    assert_eq!(g.command(SF | 0x3e), Ok(()));
    assert_eq!(get(&g, 25), 1);
}

#[test]
fn mvmva_rotates_and_translates() {
    let mut g = Gte::new();
    identity_rotation(&mut g);
    ctrl(&mut g, 5, 1);
    ctrl(&mut g, 6, 2);
    ctrl(&mut g, 7, 3);
    put(&mut g, 0, (20 << 16) | 10);
    put(&mut g, 1, 30);
    assert_eq!(g.command(SF | 0x12), Ok(()));
    assert_eq!(get(&g, 25), 11);
    assert_eq!(get(&g, 26), 22);
    assert_eq!(get(&g, 27), 33);
    assert_eq!(get(&g, 11), 33);
}

#[test]
fn mvmva_reads_ir_as_vector_three() {
    let mut g = Gte::new();
    identity_rotation(&mut g);
    put(&mut g, 9, 7);
    put(&mut g, 10, 8);
    put(&mut g, 11, 9);
    // Vector selector 3, zero control vector.
    assert_eq!(g.command(SF | (3 << 15) | (3 << 13) | 0x12), Ok(()));
    assert_eq!(get(&g, 25), 7);
    assert_eq!(get(&g, 26), 8);
    assert_eq!(get(&g, 27), 9);
}

#[test]
fn dpcs_with_zero_far_color_and_ir0_keeps_the_color() {
    let mut g = Gte::new();
    put(&mut g, 6, 0x5530_2010);
    assert_eq!(g.command(SF | 0x10), Ok(()));
    assert_eq!(get(&g, 25), 0x100);
    assert_eq!(get(&g, 26), 0x200);
    assert_eq!(get(&g, 27), 0x300);
    assert_eq!(get(&g, 22), 0x5530_2010);
}

#[test]
fn dpcs_full_ir0_reaches_the_far_color() {
    let mut g = Gte::new();
    put(&mut g, 6, 0x0000_0010);
    ctrl(&mut g, 21, 0x800);
    put(&mut g, 8, 0x1000);
    assert_eq!(g.command(SF | 0x10), Ok(()));
    assert_eq!(get(&g, 25), 0x80 << 4);
    assert_eq!(get(&g, 22), 0x0000_0080);
}

#[test]
fn dpct_cues_the_whole_color_fifo() {
    let mut g = Gte::new();
    put(&mut g, 6, 0x9900_0000);
    put(&mut g, 20, 0x0001_0203);
    put(&mut g, 21, 0x0004_0506);
    put(&mut g, 22, 0x0007_0809);
    assert_eq!(g.command(SF | 0x2a), Ok(()));
    assert_eq!(get(&g, 20), 0x9901_0203);
    assert_eq!(get(&g, 21), 0x9904_0506);
    assert_eq!(get(&g, 22), 0x9907_0809);
}

#[test]
fn dcpl_shades_the_color_by_ir() {
    let mut g = Gte::new();
    put(&mut g, 6, 0x0030_2010);
    put(&mut g, 9, 0x1000);
    put(&mut g, 10, 0x800);
    put(&mut g, 11, 0x1000);
    assert_eq!(g.command(SF | 0x29), Ok(()));
    assert_eq!(get(&g, 22), 0x0030_1010);
}

#[test]
fn intpl_with_zero_ir0_keeps_ir() {
    let mut g = Gte::new();
    put(&mut g, 9, 100);
    put(&mut g, 10, 200);
    put(&mut g, 11, 300);
    assert_eq!(g.command(SF | 0x11), Ok(()));
    assert_eq!(get(&g, 25), 100);
    assert_eq!(get(&g, 27), 300);
    assert_eq!(get(&g, 22), (18 << 16) | (12 << 8) | 6);
}

#[test]
fn cc_modulates_background_by_color() {
    let mut g = Gte::new();
    ctrl(&mut g, 13, 100);
    ctrl(&mut g, 14, 200);
    ctrl(&mut g, 15, 300);
    put(&mut g, 6, 0x0020_4080);
    assert_eq!(g.command(SF | 0x1c), Ok(()));
    assert_eq!(get(&g, 25), 50);
    assert_eq!(get(&g, 26), 50);
    assert_eq!(get(&g, 27), 37);
    assert_eq!(get(&g, 22), (2 << 16) | (3 << 8) | 3);
}

#[test]
fn ncs_pushes_background_color_and_flags_saturation() {
    let mut g = Gte::new();
    ctrl(&mut g, 13, 160);
    ctrl(&mut g, 14, 320);
    ctrl(&mut g, 15, 4800);
    assert_eq!(g.command(SF | 0x1e), Ok(()));
    assert_eq!(get(&g, 22), (255 << 16) | (20 << 8) | 10);
    let f = flags(&g);
    assert_eq!(f, 1 << 19);
    assert!(summary_consistent(f));
}

#[test]
fn nct_pushes_three_colors() {
    let mut g = Gte::new();
    ctrl(&mut g, 13, 16);
    ctrl(&mut g, 14, 32);
    ctrl(&mut g, 15, 48);
    assert_eq!(g.command(SF | 0x20), Ok(()));
    for reg in 20..23 {
        assert_eq!(get(&g, reg), (3 << 16) | (2 << 8) | 1);
    }
}

#[test]
fn nccs_and_ncct_modulate_by_color() {
    let mut g = Gte::new();
    ctrl(&mut g, 13, 100);
    ctrl(&mut g, 14, 200);
    ctrl(&mut g, 15, 300);
    put(&mut g, 6, 0x0020_4080);
    assert_eq!(g.command(SF | 0x1b), Ok(()));
    assert_eq!(get(&g, 25), 50);
    assert_eq!(get(&g, 22), (2 << 16) | (3 << 8) | 3);
    assert_eq!(g.command(SF | 0x3f), Ok(()));
    for reg in 20..23 {
        assert_eq!(get(&g, reg), (2 << 16) | (3 << 8) | 3);
    }
}

#[test]
fn ncds_and_ncdt_depth_cue_the_lit_color() {
    let mut g = Gte::new();
    ctrl(&mut g, 13, 256);
    ctrl(&mut g, 14, 512);
    ctrl(&mut g, 15, 768);
    put(&mut g, 6, 0x0010_1010);
    assert_eq!(g.command(SF | 0x13), Ok(()));
    assert_eq!(get(&g, 22), (3 << 16) | (2 << 8) | 1);
    assert_eq!(g.command(SF | 0x16), Ok(()));
    for reg in 20..23 {
        assert_eq!(get(&g, reg), (3 << 16) | (2 << 8) | 1);
    }
}

#[test]
fn every_command_leaves_a_consistent_summary_bit() {
    let opcodes = [
        0x01u32, 0x06, 0x0c, 0x10, 0x11, 0x12, 0x13, 0x16, 0x1b, 0x1c, 0x1e, 0x20, 0x28, 0x29,
        0x2a, 0x2d, 0x2e, 0x30, 0x3d, 0x3e, 0x3f,
    ];
    for &op in opcodes.iter() {
        for extra in [0u32, SF, 1 << 10, SF | (1 << 10)] {
            let mut g = Gte::new();
            ctrl(&mut g, 0, 0x7FFF_8001);
            ctrl(&mut g, 5, 0x7FFF_FFFF);
            ctrl(&mut g, 13, 0x8000_0000);
            ctrl(&mut g, 26, 0x1234);
            ctrl(&mut g, 27, 0x8000);
            ctrl(&mut g, 29, 0x7FFF);
            put(&mut g, 0, 0x8000_7FFF);
            put(&mut g, 1, 0x7FFF);
            put(&mut g, 6, 0xFFFF_FFFF);
            put(&mut g, 8, 0x7FFF);
            put(&mut g, 9, 0x8000);
            put(&mut g, 19, 0xFFFF);
            assert_eq!(g.command(op | extra), Ok(()));
            assert!(summary_consistent(flags(&g)), "opcode {:02x}", op);
        }
    }
}

#[test]
fn xy_fifo_push_after_duplicate_keeps_previous_entries() {
    let mut g = Gte::new();
    put(&mut g, 12, 0x0000_0001);
    put(&mut g, 13, 0x0000_0002);
    put(&mut g, 14, 0x0005_0006);
    put(&mut g, 15, 0x0005_0006);
    assert_eq!(get(&g, 12), 0x0000_0002);
    assert_eq!(get(&g, 13), 0x0005_0006);
    assert_eq!(get(&g, 14), 0x0005_0006);
    assert_eq!(get(&g, 15), 0x0005_0006);
}
