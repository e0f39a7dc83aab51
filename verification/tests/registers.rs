//! The register catalog: name/width commutation, the 64 constants, and
//! their canonical spellings.

use x86emit::gp_regs::{self, RName, RSize, Reg};
use x86emit::render::reg_str;

fn catalog() -> Vec<(Reg, &'static str)> {
    vec![
        (gp_regs::al(), "al"),
        (gp_regs::ax(), "ax"),
        (gp_regs::eax(), "eax"),
        (gp_regs::rax(), "rax"),
        (gp_regs::bl(), "bl"),
        (gp_regs::bx(), "bx"),
        (gp_regs::ebx(), "ebx"),
        (gp_regs::rbx(), "rbx"),
        (gp_regs::cl(), "cl"),
        (gp_regs::cx(), "cx"),
        (gp_regs::ecx(), "ecx"),
        (gp_regs::rcx(), "rcx"),
        (gp_regs::dl(), "dl"),
        (gp_regs::dx(), "dx"),
        (gp_regs::edx(), "edx"),
        (gp_regs::rdx(), "rdx"),
        (gp_regs::dil(), "dil"),
        (gp_regs::di(), "di"),
        (gp_regs::edi(), "edi"),
        (gp_regs::rdi(), "rdi"),
        (gp_regs::sil(), "sil"),
        (gp_regs::si(), "si"),
        (gp_regs::esi(), "esi"),
        (gp_regs::rsi(), "rsi"),
        (gp_regs::bpl(), "bpl"),
        (gp_regs::bp(), "bp"),
        (gp_regs::ebp(), "ebp"),
        (gp_regs::rbp(), "rbp"),
        (gp_regs::spl(), "spl"),
        (gp_regs::sp(), "sp"),
        (gp_regs::esp(), "esp"),
        (gp_regs::rsp(), "rsp"),
        (gp_regs::r8b(), "r8b"),
        (gp_regs::r8w(), "r8w"),
        (gp_regs::r8d(), "r8d"),
        (gp_regs::r8(), "r8"),
        (gp_regs::r9b(), "r9b"),
        (gp_regs::r9w(), "r9w"),
        (gp_regs::r9d(), "r9d"),
        (gp_regs::r9(), "r9"),
        (gp_regs::r10b(), "r10b"),
        (gp_regs::r10w(), "r10w"),
        (gp_regs::r10d(), "r10d"),
        (gp_regs::r10(), "r10"),
        (gp_regs::r11b(), "r11b"),
        (gp_regs::r11w(), "r11w"),
        (gp_regs::r11d(), "r11d"),
        (gp_regs::r11(), "r11"),
        (gp_regs::r12b(), "r12b"),
        (gp_regs::r12w(), "r12w"),
        (gp_regs::r12d(), "r12d"),
        (gp_regs::r12(), "r12"),
        (gp_regs::r13b(), "r13b"),
        (gp_regs::r13w(), "r13w"),
        (gp_regs::r13d(), "r13d"),
        (gp_regs::r13(), "r13"),
        (gp_regs::r14b(), "r14b"),
        (gp_regs::r14w(), "r14w"),
        (gp_regs::r14d(), "r14d"),
        (gp_regs::r14(), "r14"),
        (gp_regs::r15b(), "r15b"),
        (gp_regs::r15w(), "r15w"),
        (gp_regs::r15d(), "r15d"),
        (gp_regs::r15(), "r15"),
    ]
}

fn all_names() -> Vec<RName> {
    vec![
        RName::A,
        RName::B,
        RName::C,
        RName::D,
        RName::DI,
        RName::SI,
        RName::BP,
        RName::SP,
        RName::R8,
        RName::R9,
        RName::R10,
        RName::R11,
        RName::R12,
        RName::R13,
        RName::R14,
        RName::R15,
    ]
}

fn all_sizes() -> Vec<RSize> {
    vec![RSize::Byte, RSize::Word, RSize::DWord, RSize::QWord]
}

#[test]
fn name_then_width_equals_width_then_name() {
    for &name in all_names().iter() {
        for &size in all_sizes().iter() {
            assert_eq!(name.with_size(size), size.with_name(name));
        }
    }
}

#[test]
fn both_transforms_reach_every_catalog_constant() {
    let cat = catalog();
    let names = all_names();
    let sizes = all_sizes();
    assert_eq!(cat.len(), 64);
    for (i, &name) in names.iter().enumerate() {
        for (j, &size) in sizes.iter().enumerate() {
            let (constant, _) = cat[i * 4 + j];
            assert_eq!(name.with_size(size), constant);
            assert_eq!(size.with_name(name), constant);
        }
    }
}

#[test]
fn catalog_constants_pairwise_distinct() {
    let cat = catalog();
    for i in 0..cat.len() {
        for j in 0..cat.len() {
            if i != j {
                assert_ne!(cat[i].0, cat[j].0);
            }
        }
    }
}

#[test]
fn every_constant_renders_its_canonical_spelling() {
    for &(constant, expected) in catalog().iter() {
        assert_eq!(reg_str(constant), expected);
    }
}

#[test]
fn no_two_constants_share_a_spelling() {
    let cat = catalog();
    for i in 0..cat.len() {
        for j in 0..cat.len() {
            if i != j {
                assert_ne!(reg_str(cat[i].0), reg_str(cat[j].0));
            }
        }
    }
}

#[test]
fn r8_spellings_by_width() {
    assert_eq!(reg_str(RName::R8.with_size(RSize::DWord)), "r8d");
    assert_eq!(reg_str(RName::R8.with_size(RSize::QWord)), "r8");
}

#[test]
fn with_name_and_with_size_replace_one_field() {
    let r = gp_regs::rax();
    assert_eq!(r.with_name(RName::B), gp_regs::rbx());
    assert_eq!(r.with_size(RSize::Byte), gp_regs::al());
}
