//! The NASM renderer: one line per emission call, instruction and directive
//! formats, and the byte-string classification of `db`.

use x86emit::gp_regs;
use x86emit::mem::{Mem, Scale};
use x86emit::nasm::{is_ascii_printable, NasmWriter};
use x86emit::operand::{OSize, Operand};
use x86emit::writer::{Condition, X86Writer};

fn one_line<F: FnOnce(&mut NasmWriter)>(emit: F) -> String {
    let mut w = NasmWriter::new();
    emit(&mut w);
    w.take_output()
}

#[test]
fn mov_of_64_bit_immediate_into_rax() {
    let line = one_line(|w| w.mov(Operand::from(gp_regs::rax()), Operand::from(5i64)));
    assert_eq!(line, "    mov rax, 5\n");
}

#[test]
fn conditional_jump_to_label() {
    let line = one_line(|w| w.jcc(Condition::E, Operand::from("L1")));
    assert_eq!(line, "    je L1\n");
}

#[test]
fn conditional_set_into_al() {
    let line = one_line(|w| w.setcc(Condition::Z, Operand::from(gp_regs::al())));
    assert_eq!(line, "    setz al\n");
}

#[test]
fn conditional_move_suffixes_the_mnemonic() {
    let line = one_line(|w| {
        w.cmov(
            Condition::NLE,
            Operand::from(gp_regs::rcx()),
            Operand::from(gp_regs::rdx()),
        )
    });
    assert_eq!(line, "    cmovnle rcx, rdx\n");
}

#[test]
fn db_printable_chunk_renders_quoted_string() {
    let line = one_line(|w| w.db("lbl", &[&[0x61, 0x62, 0x63]]));
    assert_eq!(line, "lbl db \"abc\"\n");
}

#[test]
fn db_unprintable_chunk_renders_decimal_list() {
    let line = one_line(|w| w.db("lbl", &[&[0x00, 0x01]]));
    assert_eq!(line, "lbl db 0, 1\n");
}

#[test]
fn db_mixed_chunks_keep_caller_order_and_classification() {
    let line = one_line(|w| w.db("msg", &[b"hi", &[10, 0], b"!"]));
    assert_eq!(line, "msg db \"hi\", 10, 0, \"!\"\n");
}

#[test]
fn db_chunk_with_quote_byte_is_not_printable() {
    let line = one_line(|w| w.db("q", &[&[0x61, 0x22, 0x62]]));
    assert_eq!(line, "q db 97, 34, 98\n");
}

#[test]
fn db_classification_is_per_whole_chunk() {
    assert!(is_ascii_printable(b"hello!"));
    assert!(!is_ascii_printable(&[0x61, 0x1f]));
    assert!(!is_ascii_printable(&[0x80]));
    assert!(is_ascii_printable(&[]));
    assert!(is_ascii_printable(&[0x7f, 0x20]));
}

#[test]
fn preamble_and_section_markers() {
    assert_eq!(one_line(|w| w.emit_preamble()), "default rel\n");
    assert_eq!(one_line(|w| w.text()), "section .text\n");
    assert_eq!(one_line(|w| w.rodata()), "section .rodata\n");
    assert_eq!(one_line(|w| w.blank()), "\n");
}

#[test]
fn label_global_comment_and_equ_lines() {
    assert_eq!(one_line(|w| w.label("main")), "main:\n");
    assert_eq!(one_line(|w| w.global("main")), "global main\n");
    assert_eq!(one_line(|w| w.comment("spill slot")), "  ; spill slot\n");
    assert_eq!(one_line(|w| w.equ("WORD_SIZE", 8)), "WORD_SIZE equ 8\n");
    assert_eq!(one_line(|w| w.equ("NEG", -123)), "NEG equ -123\n");
}

#[test]
fn nulop_lines_are_indented_bare_mnemonics() {
    assert_eq!(one_line(|w| w.ret()), "    ret\n");
    assert_eq!(one_line(|w| w.syscall()), "    syscall\n");
    assert_eq!(one_line(|w| w.cqo()), "    cqo\n");
    assert_eq!(one_line(|w| w.nop()), "    nop\n");
    assert_eq!(one_line(|w| w.std_insn()), "    std\n");
    assert_eq!(one_line(|w| w.cld()), "    cld\n");
}

#[test]
fn unop_lines() {
    assert_eq!(
        one_line(|w| w.push(Operand::from(gp_regs::rbp()))),
        "    push rbp\n"
    );
    assert_eq!(
        one_line(|w| w.pop(Operand::from(gp_regs::rbp()))),
        "    pop rbp\n"
    );
    assert_eq!(one_line(|w| w.call(Operand::from("f"))), "    call f\n");
    assert_eq!(
        one_line(|w| w.nop1(Operand::from(gp_regs::eax()))),
        "    nop eax\n"
    );
    assert_eq!(
        one_line(|w| w.div(Operand::from(gp_regs::rcx()))),
        "    div rcx\n"
    );
}

#[test]
fn binop_lines() {
    assert_eq!(
        one_line(|w| w.add(Operand::from(gp_regs::rax()), Operand::from(1i64))),
        "    add rax, 1\n"
    );
    assert_eq!(
        one_line(|w| w.xor(Operand::from(gp_regs::eax()), Operand::from(gp_regs::eax()))),
        "    xor eax, eax\n"
    );
    assert_eq!(
        one_line(|w| w.cmp(Operand::from(gp_regs::rdi()), Operand::from(-1i64))),
        "    cmp rdi, -1\n"
    );
}

#[test]
fn imul_forms_share_one_mnemonic() {
    assert_eq!(
        one_line(|w| w.imul1(Operand::from(gp_regs::rcx()))),
        "    imul rcx\n"
    );
    assert_eq!(
        one_line(|w| w.imul2(Operand::from(gp_regs::rax()), Operand::from(gp_regs::rcx()))),
        "    imul rax, rcx\n"
    );
    assert_eq!(
        one_line(|w| {
            w.imul3(
                Operand::from(gp_regs::rax()),
                Operand::from(gp_regs::rcx()),
                Operand::from(16i64),
            )
        }),
        "    imul rax, rcx, 16\n"
    );
}

#[test]
fn lea_takes_register_and_memory_operand() {
    let line = one_line(|w| {
        w.lea(
            gp_regs::rax(),
            Mem::new().based(gp_regs::rbp()).displaced_i64(-16),
        )
    });
    assert_eq!(line, "    lea rax, [rbp - 16]\n");
}

#[test]
fn memory_operand_with_size_tag_in_instruction() {
    let m = Mem::new()
        .based(gp_regs::rsp())
        .displaced_i64(8)
        .sized(OSize::Byte);
    let line = one_line(|w| w.mov(Operand::from(m), Operand::from(0i64)));
    assert_eq!(line, "    mov byte [rsp + 8], 0\n");
}

#[test]
fn scaled_index_inside_instruction_line() {
    let m = Mem::new()
        .labeled("jump_table")
        .indexed_scaled(gp_regs::rax(), Scale::Eight);
    let line = one_line(|w| w.jmp(Operand::from(m)));
    assert_eq!(line, "    jmp [jump_table + rax * 8]\n");
}

#[test]
fn calls_append_in_program_order() {
    let mut w = NasmWriter::new();
    w.emit_preamble();
    w.global("main");
    w.text();
    w.label("main");
    w.mov(Operand::from(gp_regs::rax()), Operand::from(60i64));
    w.xor(
        Operand::from(gp_regs::edi()),
        Operand::from(gp_regs::edi()),
    );
    w.syscall();
    let expected = "default rel\n\
                    global main\n\
                    section .text\n\
                    main:\n    \
                    mov rax, 60\n    \
                    xor edi, edi\n    \
                    syscall\n";
    assert_eq!(w.as_str(), expected);
}

#[test]
fn take_output_drains_the_buffer() {
    let mut w = NasmWriter::new();
    w.ret();
    assert_eq!(w.take_output(), "    ret\n");
    assert_eq!(w.as_str(), "");
    w.nop();
    assert_eq!(w.take_output(), "    nop\n");
}

#[test]
fn immediate_extremes_render_in_decimal() {
    assert_eq!(
        one_line(|w| w.mov(Operand::from(gp_regs::rax()), Operand::from(i64::MIN))),
        "    mov rax, -9223372036854775808\n"
    );
    assert_eq!(
        one_line(|w| w.mov(Operand::from(gp_regs::rax()), Operand::from(i64::MAX))),
        "    mov rax, 9223372036854775807\n"
    );
    assert_eq!(
        one_line(|w| w.push(Operand::from(0i64))),
        "    push 0\n"
    );
}

#[test]
fn negative_offset_at_i64_min_renders_magnitude() {
    let m = Mem::new().based(gp_regs::rax()).displaced_i64(i64::MIN);
    assert_eq!(
        one_line(|w| w.push(Operand::from(m))),
        "    push [rax - 9223372036854775808]\n"
    );
}
