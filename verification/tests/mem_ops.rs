//! The memory operand builder: field overwrites, displacement wrap-around,
//! and the rendering of addressing modes.

use x86emit::gp_regs::{self, RName, RSize};
use x86emit::mem::{Mem, Scale};
use x86emit::nasm::NasmWriter;
use x86emit::operand::{OSize, Operand};
use x86emit::writer::X86Writer;

fn rendered_operand(m: Mem<'_>) -> String {
    let mut w = NasmWriter::new();
    w.push(Operand::from(m));
    let line = w.take_output();
    let trimmed = line
        .strip_prefix("    push ")
        .and_then(|rest| rest.strip_suffix("\n"))
        .unwrap();
    trimmed.to_string()
}

#[test]
fn displacement_accumulation_is_associative() {
    let cases: Vec<(i64, i64)> = vec![
        (3, 4),
        (-8, 13),
        (i64::MAX, 1),
        (i64::MIN, -1),
        (i64::MAX, i64::MAX),
        (i64::MIN, i64::MIN),
        (0, i64::MIN),
    ];
    for &(x, y) in cases.iter() {
        let base = Mem::new().displaced_i64(77);
        let one_by_one = base.displaced_i64(x).displaced_i64(y);
        let at_once = base.displaced_i64(x.wrapping_add(y));
        assert_eq!(one_by_one, at_once);
    }
}

#[test]
fn narrower_displacements_sign_or_zero_extend() {
    assert_eq!(Mem::new().displaced_i8(-1), Mem::new().displaced_i64(-1));
    assert_eq!(Mem::new().displaced_i16(-300), Mem::new().displaced_i64(-300));
    assert_eq!(Mem::new().displaced_i32(-70000), Mem::new().displaced_i64(-70000));
    assert_eq!(Mem::new().displaced_u8(255), Mem::new().displaced_i64(255));
    assert_eq!(Mem::new().displaced_u16(65535), Mem::new().displaced_i64(65535));
    assert_eq!(Mem::new().displaced_u32(4000000000), Mem::new().displaced_i64(4000000000));
    assert_eq!(
        Mem::new().displaced_u64(u64::MAX),
        Mem::new().displaced_i64(-1)
    );
}

#[test]
fn setters_overwrite_their_own_field_last_write_wins() {
    let m = Mem::new()
        .based(gp_regs::rax())
        .based(gp_regs::rbx())
        .indexed(gp_regs::rcx())
        .indexed_scaled(gp_regs::rdx(), Scale::Eight)
        .labeled("first")
        .labeled("second")
        .sized(OSize::Byte)
        .sized(OSize::QWord);
    assert_eq!(m.base, Some(gp_regs::rbx()));
    assert_eq!(m.index, Some((gp_regs::rdx(), Scale::Eight)));
    assert_eq!(m.label, Some("second"));
    assert_eq!(m.size, Some(OSize::QWord));
}

#[test]
fn distinct_fields_compose_in_any_order() {
    let a = Mem::new().based(gp_regs::rbp()).sized(OSize::DWord).displaced_i64(4);
    let b = Mem::new().displaced_i64(4).sized(OSize::DWord).based(gp_regs::rbp());
    assert_eq!(a, b);
}

#[test]
fn reg_mem_builds_base_only_operand() {
    let m = gp_regs::rsi().mem();
    assert_eq!(m.base, Some(gp_regs::rsi()));
    assert_eq!(m.index, None);
    assert_eq!(m.offset, 0);
    assert_eq!(m.label, None);
    assert_eq!(m.size, None);
}

#[test]
fn full_addressing_mode_renders_qword_base_index_scale_negative_offset() {
    let m = Mem::new()
        .based(gp_regs::rbx())
        .indexed_scaled(gp_regs::rcx(), Scale::Four)
        .displaced_i64(-8)
        .sized(OSize::QWord);
    assert_eq!(rendered_operand(m), "qword [rbx + rcx * 4 - 8]");
}

#[test]
fn empty_memory_operand_renders_bare_brackets() {
    assert_eq!(rendered_operand(Mem::new()), "[]");
}

#[test]
fn label_only_operand_renders_label_inside_brackets() {
    assert_eq!(rendered_operand(Mem::new().labeled("table")), "[table]");
}

#[test]
fn label_base_index_offset_render_left_to_right() {
    let m = Mem::new()
        .labeled("tbl")
        .based(gp_regs::rdi())
        .indexed_scaled(gp_regs::rsi(), Scale::Two)
        .displaced_i64(16);
    assert_eq!(rendered_operand(m), "[tbl + rdi + rsi * 2 + 16]");
}

#[test]
fn unit_scale_omits_multiplier_suffix() {
    let m = Mem::new().indexed(gp_regs::rdx());
    assert_eq!(rendered_operand(m), "[rdx]");
}

#[test]
fn lone_negative_offset_renders_signed_decimal() {
    assert_eq!(rendered_operand(Mem::new().displaced_i64(-40)), "[-40]");
}

#[test]
fn operand_size_inference() {
    let r = Operand::from(gp_regs::ax());
    assert_eq!(r.size(), Some(OSize::Word));
    let m = Operand::from(Mem::new().sized(OSize::DWord));
    assert_eq!(m.size(), Some(OSize::DWord));
    let untagged = Operand::from(Mem::new().based(gp_regs::rax()));
    assert_eq!(untagged.size(), None);
    assert_eq!(Operand::from(7i64).size(), None);
    assert_eq!(Operand::from("loop_head").size(), None);
    assert_eq!(
        Operand::from(RName::R10.with_size(RSize::Byte)).size(),
        Some(OSize::Byte)
    );
}

#[test]
fn integer_conversions_widen_to_i64() {
    assert_eq!(Operand::from(-5i8), Operand::from(-5i64));
    assert_eq!(Operand::from(-5i16), Operand::from(-5i64));
    assert_eq!(Operand::from(-5i32), Operand::from(-5i64));
    assert_eq!(Operand::from(200u8), Operand::from(200i64));
    assert_eq!(Operand::from(60000u16), Operand::from(60000i64));
    assert_eq!(Operand::from(4000000000u32), Operand::from(4000000000i64));
    assert_eq!(Operand::from(u64::MAX), Operand::from(-1i64));
}
