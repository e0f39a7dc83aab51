//! The textual renderer: a writer that appends one line of NASM-syntax
//! assembly per emission call to an in-memory buffer.

use vstd::prelude::*;

use crate::gp_regs::Reg;
use crate::mem::{Mem, Scale};
use crate::operand::{OSize, Operand};
use crate::render::{
    binop_cc_line, binop_line, byte_list_text, cc_str, cc_text, chunk_printable, comment_line,
    db_chunk_text, db_chunks_upto, db_line, dec_nat, equ_line, global_line, label_line,
    mem_inner_text, mem_text, nulop_line, operand_text, push_dec_i64, push_dec_u64, reg_str,
    reg_text, size_str, size_text, triop_line, unop_cc_line, unop_line,
};
use crate::writer::{Condition, X86Writer};

verus! {

/// A renderer that formats each emission call as exactly one line of NASM
/// syntax and appends it to an owned text buffer. The buffer stands in for
/// the output sink; a caller drains it with [`NasmWriter::take_output`] and
/// hands the text to whatever byte sink it owns.
pub struct NasmWriter {
    out: String,
}

impl NasmWriter {
    /// A renderer with an empty buffer.
    pub fn new() -> (w: Self)
        ensures
            w.sink() == Seq::<char>::empty(),
    {
        NasmWriter { out: String::new() }
    }

    /// The buffered text, read without draining it.
    pub fn as_str(&self) -> (s: &str)
        ensures
            s@ == self.sink(),
    {
        self.out.as_str()
    }

    /// Drains the buffer: returns everything written so far and leaves the
    /// renderer empty.
    pub fn take_output(&mut self) -> (s: String)
        ensures
            s@ == old(self).sink(),
            final(self).sink() == Seq::<char>::empty(),
    {
        let mut s = String::new();
        core::mem::swap(&mut s, &mut self.out);
        s
    }

    /// Appends the canonical spelling of a register.
    fn print_reg(&mut self, reg: Reg)
        ensures
            final(self).out@ == old(self).out@ + reg_text(reg),
    {
        let s = reg_str(reg);
        self.out.append(s);
    }

    /// Appends the keyword of an operand-size tag.
    fn print_size(&mut self, size: OSize)
        ensures
            final(self).out@ == old(self).out@ + size_text(size),
    {
        let s = size_str(size);
        self.out.append(s);
    }

    /// Appends the lowercase suffix of a condition code.
    fn print_cc(&mut self, cc: Condition)
        ensures
            final(self).out@ == old(self).out@ + cc_text(cc),
    {
        let s = cc_str(cc);
        self.out.append(s);
    }

    /// Appends the rendering of an operand.
    fn print_operand(&mut self, op: &Operand)
        ensures
            final(self).out@ == old(self).out@ + operand_text(*op),
    {
        match op {
            Operand::Reg(reg) => self.print_reg(*reg),
            Operand::Mem(mem) => self.print_mem(mem),
            Operand::Integer(value) => push_dec_i64(&mut self.out, *value),
            Operand::Label(label) => self.out.append(label),
        }
    }

    /// Appends a joined component: `" + "` when something came before it,
    /// then the register and its scale suffix.
    fn print_joined_reg(&mut self, r: Reg, scale: Scale, preceded: bool)
        ensures
            final(self).out@ == old(self).out@ + crate::render::plus_if(preceded) + reg_text(r)
                + crate::render::scale_text(scale),
    {
        if preceded {
            self.out.append(" + ");
        }
        self.print_reg(r);
        match scale {
            Scale::One => (),
            Scale::Two => self.out.append(" * 2"),
            Scale::Four => self.out.append(" * 4"),
            Scale::Eight => self.out.append(" * 8"),
        }
        proof {
            assert(self.out@ =~= old(self).out@ + crate::render::plus_if(preceded) + reg_text(r)
                + crate::render::scale_text(scale));
        }
    }

    /// Appends the displacement component of a memory operand.
    fn print_offset(&mut self, off: i64, preceded: bool)
        ensures
            final(self).out@ == old(self).out@ + crate::render::offset_text(off, preceded),
    {
        if off != 0 {
            if preceded && off < 0 {
                self.out.append(" - ");
                let mag: u64 = if off == i64::MIN {
                    9223372036854775808u64
                } else {
                    (-off) as u64
                };
                push_dec_u64(&mut self.out, mag);
                proof {
                    assert(self.out@ =~= old(self).out@ + crate::render::offset_text(
                        off,
                        preceded,
                    ));
                }
            } else if preceded {
                self.out.append(" + ");
                push_dec_u64(&mut self.out, off as u64);
                proof {
                    assert(self.out@ =~= old(self).out@ + crate::render::offset_text(
                        off,
                        preceded,
                    ));
                }
            } else {
                push_dec_i64(&mut self.out, off);
            }
        }
    }

    /// Appends the text between the brackets of a memory operand.
    #[verifier::rlimit(50)]
    fn print_mem_inner(&mut self, mem: &Mem)
        ensures
            final(self).out@ == old(self).out@ + mem_inner_text(*mem),
    {
        let ghost m = *mem;
        let ghost pre = self.out@;
        let mut needs_plus = false;

        if let Some(label) = mem.label {
            needs_plus = true;
            self.out.append(label);
        }
        let ghost lbl = if m.label is Some {
            m.label->0@
        } else {
            Seq::<char>::empty()
        };

        if let Some(base) = mem.base {
            self.print_joined_reg(base, Scale::One, needs_plus);
            needs_plus = true;
        }
        let ghost based = if m.base is Some {
            crate::render::plus_if(m.label is Some) + reg_text(m.base->0)
        } else {
            Seq::<char>::empty()
        };
        proof {
            assert(self.out@ =~= pre + lbl + based);
        }

        if let Some((index, scale)) = mem.index {
            self.print_joined_reg(index, scale, needs_plus);
            needs_plus = true;
        }
        let ghost pair = m.index->0;
        let ghost idx = if m.index is Some {
            crate::render::plus_if(m.label is Some || m.base is Some) + reg_text(pair.0)
                + crate::render::scale_text(pair.1)
        } else {
            Seq::<char>::empty()
        };
        proof {
            assert(self.out@ =~= pre + lbl + based + idx);
            assert(needs_plus == (m.label is Some || m.base is Some || m.index is Some));
        }

        self.print_offset(mem.offset, needs_plus);
        proof {
            assert(self.out@ =~= pre + mem_inner_text(m));
        }
    }

    /// Appends the rendering of a memory operand: optional size keyword,
    /// then the bracketed label, base, scaled index and displacement.
    fn print_mem(&mut self, mem: &Mem)
        ensures
            final(self).out@ == old(self).out@ + mem_text(*mem),
    {
        if let Some(size) = mem.size {
            self.print_size(size);
            self.out.append(" ");
        }
        self.out.append("[");
        self.print_mem_inner(mem);
        self.out.append("]");
        proof {
            assert(self.out@ =~= old(self).out@ + mem_text(*mem));
        }
    }

    /// Appends one line holding a bare mnemonic.
    fn emit_nulop(&mut self, name: &str)
        ensures
            final(self).out@ == old(self).out@ + nulop_line(name@),
    {
        self.out.append("    ");
        self.out.append(name);
        self.out.append("\n");
        proof {
            assert(self.out@ =~= old(self).out@ + nulop_line(name@));
        }
    }

    /// Appends one line holding a mnemonic and one operand.
    fn emit_unop(&mut self, name: &str, r: Operand<'_>)
        ensures
            final(self).out@ == old(self).out@ + unop_line(name@, r),
    {
        self.out.append("    ");
        self.out.append(name);
        self.out.append(" ");
        self.print_operand(&r);
        self.out.append("\n");
        proof {
            assert(self.out@ =~= old(self).out@ + unop_line(name@, r));
        }
    }

    /// Appends one line holding a condition-suffixed mnemonic and one
    /// operand.
    fn emit_unop_cc(&mut self, name: &str, cc: Condition, r: Operand<'_>)
        ensures
            final(self).out@ == old(self).out@ + unop_cc_line(name@, cc, r),
    {
        self.out.append("    ");
        self.out.append(name);
        self.print_cc(cc);
        self.out.append(" ");
        self.print_operand(&r);
        self.out.append("\n");
        proof {
            assert(self.out@ =~= old(self).out@ + unop_cc_line(name@, cc, r));
        }
    }

    /// Appends one line holding a mnemonic and two operands.
    fn emit_binop(&mut self, name: &str, rd: Operand<'_>, rs: Operand<'_>)
        ensures
            final(self).out@ == old(self).out@ + binop_line(name@, rd, rs),
    {
        self.out.append("    ");
        self.out.append(name);
        self.out.append(" ");
        self.print_operand(&rd);
        self.out.append(", ");
        self.print_operand(&rs);
        self.out.append("\n");
        proof {
            assert(self.out@ =~= old(self).out@ + binop_line(name@, rd, rs));
        }
    }

    /// Appends one line holding a condition-suffixed mnemonic and two
    /// operands.
    fn emit_binop_cc(&mut self, name: &str, cc: Condition, rd: Operand<'_>, rs: Operand<'_>)
        ensures
            final(self).out@ == old(self).out@ + binop_cc_line(name@, cc, rd, rs),
    {
        self.out.append("    ");
        self.out.append(name);
        self.print_cc(cc);
        self.out.append(" ");
        self.print_operand(&rd);
        self.out.append(", ");
        self.print_operand(&rs);
        self.out.append("\n");
        proof {
            assert(self.out@ =~= old(self).out@ + binop_cc_line(name@, cc, rd, rs));
        }
    }

    /// Appends one line holding a mnemonic and three operands.
    fn emit_triop(&mut self, name: &str, rd: Operand<'_>, rs0: Operand<'_>, rs1: Operand<'_>)
        ensures
            final(self).out@ == old(self).out@ + triop_line(name@, rd, rs0, rs1),
    {
        self.out.append("    ");
        self.out.append(name);
        self.out.append(" ");
        self.print_operand(&rd);
        self.out.append(", ");
        self.print_operand(&rs0);
        self.out.append(", ");
        self.print_operand(&rs1);
        self.out.append("\n");
        proof {
            assert(self.out@ =~= old(self).out@ + triop_line(name@, rd, rs0, rs1));
        }
    }
}

/// Whether every byte is printable non-quote ASCII, so that a `db` chunk of
/// these bytes renders as a double-quoted string literal.
pub fn is_ascii_printable(bytes: &[u8]) -> (r: bool)
    ensures
        r == chunk_printable(bytes@),
{
    let mut i: usize = 0;
    while i < bytes.len()
        invariant
            i <= bytes@.len(),
            forall|j: int| 0 <= j < i ==> 32 <= #[trigger] bytes@[j] <= 127 && bytes@[j] != 34,
        decreases bytes@.len() - i,
    {
        let byte = bytes[i];
        if byte > 127 || byte < 32 || byte == 34 {
            proof {
                assert(!(32 <= bytes@[i as int] <= 127 && bytes@[i as int] != 34));
            }
            return false;
        }
        i = i + 1;
    }
    true
}

impl X86Writer for NasmWriter {
    /// Everything written so far: the buffer's contents.
    closed spec fn sink(&self) -> Seq<char> {
        self.out@
    }

    fn emit_preamble(&mut self) {
        self.out.append("default rel\n");
    }

    fn label(&mut self, label: &str) {
        self.out.append(label);
        self.out.append(":\n");
        proof {
            assert(self.out@ =~= old(self).out@ + label_line(label@));
        }
    }

    fn global(&mut self, label: &str) {
        self.out.append("global ");
        self.out.append(label);
        self.out.append("\n");
        proof {
            assert(self.out@ =~= old(self).out@ + global_line(label@));
        }
    }

    fn text(&mut self) {
        self.out.append("section .text\n");
    }

    fn rodata(&mut self) {
        self.out.append("section .rodata\n");
    }

    fn blank(&mut self) {
        self.out.append("\n");
    }

    fn comment(&mut self, comment: &str) {
        self.out.append("  ; ");
        self.out.append(comment);
        self.out.append("\n");
        proof {
            assert(self.out@ =~= old(self).out@ + comment_line(comment@));
        }
    }

    fn db(&mut self, label: &str, bytes: &[&[u8]]) {
        let ghost cs = bytes@.map_values(|c: &[u8]| c@);
        self.out.append(label);
        self.out.append(" db ");
        let ghost head = self.out@;
        let n = bytes.len();
        let mut i: usize = 0;
        while i < n
            invariant
                i <= n,
                n == bytes@.len(),
                cs == bytes@.map_values(|c: &[u8]| c@),
                self.out@ == head + db_chunks_upto(cs, i as int),
            decreases n - i,
        {
            let chunk: &[u8] = bytes[i];
            self.print_db_chunk(chunk);
            if i + 1 < n {
                self.out.append(", ");
            }
            i = i + 1;
            proof {
                assert(self.out@ =~= head + db_chunks_upto(cs, i as int));
            }
        }
        self.out.append("\n");
        proof {
            assert(self.out@ =~= old(self).out@ + db_line(label@, cs));
        }
    }

    fn equ(&mut self, label: &str, value: i64) {
        self.out.append(label);
        self.out.append(" equ ");
        push_dec_i64(&mut self.out, value);
        self.out.append("\n");
        proof {
            assert(self.out@ =~= old(self).out@ + equ_line(label@, value));
        }
    }

    fn adc(&mut self, rd: Operand<'_>, rs: Operand<'_>) {
        self.emit_binop("adc", rd, rs)
    }

    fn add(&mut self, rd: Operand<'_>, rs: Operand<'_>) {
        self.emit_binop("add", rd, rs)
    }

    fn and(&mut self, rd: Operand<'_>, rs: Operand<'_>) {
        self.emit_binop("and", rd, rs)
    }

    fn call(&mut self, rs: Operand<'_>) {
        self.emit_unop("call", rs)
    }

    fn cdq(&mut self) {
        self.emit_nulop("cdq")
    }

    fn clc(&mut self) {
        self.emit_nulop("clc")
    }

    fn cld(&mut self) {
        self.emit_nulop("cld")
    }

    fn cli(&mut self) {
        self.emit_nulop("cli")
    }

    fn cmp(&mut self, rd: Operand<'_>, rs: Operand<'_>) {
        self.emit_binop("cmp", rd, rs)
    }

    fn cmov(&mut self, cc: Condition, rd: Operand<'_>, rs: Operand<'_>) {
        self.emit_binop_cc("cmov", cc, rd, rs)
    }

    fn cqo(&mut self) {
        self.emit_nulop("cqo")
    }

    fn cwd(&mut self) {
        self.emit_nulop("cwd")
    }

    fn dec(&mut self, rd: Operand<'_>) {
        self.emit_unop("dec", rd)
    }

    fn div(&mut self, rs: Operand<'_>) {
        self.emit_unop("div", rs)
    }

    fn idiv(&mut self, rs: Operand<'_>) {
        self.emit_unop("idiv", rs)
    }

    fn imul1(&mut self, rd: Operand<'_>) {
        self.emit_unop("imul", rd)
    }

    fn imul2(&mut self, rd: Operand<'_>, rs: Operand<'_>) {
        self.emit_binop("imul", rd, rs)
    }

    fn imul3(&mut self, rd: Operand<'_>, rs0: Operand<'_>, rs1: Operand<'_>) {
        self.emit_triop("imul", rd, rs0, rs1)
    }

    fn inc(&mut self, rd: Operand<'_>) {
        self.emit_unop("inc", rd)
    }

    fn jcc(&mut self, cc: Condition, rs: Operand<'_>) {
        self.emit_unop_cc("j", cc, rs)
    }

    fn jmp(&mut self, rs: Operand<'_>) {
        self.emit_unop("jmp", rs)
    }

    fn lea(&mut self, rd: Reg, rs: Mem<'_>) {
        self.emit_binop("lea", Operand::Reg(rd), Operand::Mem(rs))
    }

    fn mov(&mut self, rd: Operand<'_>, rs: Operand<'_>) {
        self.emit_binop("mov", rd, rs)
    }

    fn movsx(&mut self, rd: Operand<'_>, rs: Operand<'_>) {
        self.emit_binop("movsx", rd, rs)
    }

    fn movzx(&mut self, rd: Operand<'_>, rs: Operand<'_>) {
        self.emit_binop("movzx", rd, rs)
    }

    fn mul(&mut self, rs: Operand<'_>) {
        self.emit_unop("mul", rs)
    }

    fn neg(&mut self, rd: Operand<'_>) {
        self.emit_unop("neg", rd)
    }

    fn not(&mut self, rd: Operand<'_>) {
        self.emit_unop("not", rd)
    }

    fn nop(&mut self) {
        self.emit_nulop("nop")
    }

    fn nop1(&mut self, rs: Operand<'_>) {
        self.emit_unop("nop", rs)
    }

    fn or(&mut self, rd: Operand<'_>, rs: Operand<'_>) {
        self.emit_binop("or", rd, rs)
    }

    fn pop(&mut self, rd: Operand<'_>) {
        self.emit_unop("pop", rd)
    }

    fn push(&mut self, rs: Operand<'_>) {
        self.emit_unop("push", rs)
    }

    fn rcl(&mut self, rd: Operand<'_>, rs: Operand<'_>) {
        self.emit_binop("rcl", rd, rs)
    }

    fn rcr(&mut self, rd: Operand<'_>, rs: Operand<'_>) {
        self.emit_binop("rcr", rd, rs)
    }

    fn ret(&mut self) {
        self.emit_nulop("ret")
    }

    fn rol(&mut self, rd: Operand<'_>, rs: Operand<'_>) {
        self.emit_binop("rol", rd, rs)
    }

    fn ror(&mut self, rd: Operand<'_>, rs: Operand<'_>) {
        self.emit_binop("ror", rd, rs)
    }

    fn sal(&mut self, rd: Operand<'_>, rs: Operand<'_>) {
        self.emit_binop("sal", rd, rs)
    }

    fn sar(&mut self, rd: Operand<'_>, rs: Operand<'_>) {
        self.emit_binop("sar", rd, rs)
    }

    fn sbb(&mut self, rd: Operand<'_>, rs: Operand<'_>) {
        self.emit_binop("sbb", rd, rs)
    }

    fn setcc(&mut self, cc: Condition, dst: Operand<'_>) {
        self.emit_unop_cc("set", cc, dst)
    }

    fn shl(&mut self, rd: Operand<'_>, rs: Operand<'_>) {
        self.emit_binop("shl", rd, rs)
    }

    fn shr(&mut self, rd: Operand<'_>, rs: Operand<'_>) {
        self.emit_binop("shr", rd, rs)
    }

    fn stc(&mut self) {
        self.emit_nulop("stc")
    }

    fn std_insn(&mut self) {
        self.emit_nulop("std")
    }

    fn sti(&mut self) {
        self.emit_nulop("sti")
    }

    fn sub(&mut self, rd: Operand<'_>, rs: Operand<'_>) {
        self.emit_binop("sub", rd, rs)
    }

    fn syscall(&mut self) {
        self.emit_nulop("syscall")
    }

    fn test(&mut self, rd: Operand<'_>, rs: Operand<'_>) {
        self.emit_binop("test", rd, rs)
    }

    fn xor(&mut self, rd: Operand<'_>, rs: Operand<'_>) {
        self.emit_binop("xor", rd, rs)
    }
}

/// Relies on `String::push`: appends exactly the one given character.
#[verifier::external_body]
fn push_char(out: &mut String, c: char)
    ensures
        final(out)@ == old(out)@ + seq![c],
{
    out.push(c);
}

impl NasmWriter {
    /// Appends the bytes of a printable chunk as characters.
    fn print_chunk_chars(&mut self, chunk: &[u8])
        ensures
            final(self).out@ == old(self).out@ + chunk@.map_values(|b: u8| b as char),
    {
        let n = chunk.len();
        let mut i: usize = 0;
        while i < n
            invariant
                i <= n,
                n == chunk@.len(),
                self.out@ == old(self).out@ + chunk@.map_values(|b: u8| b as char).take(i as int),
            decreases n - i,
        {
            let byte = chunk[i];
            push_char(&mut self.out, byte as char);
            i = i + 1;
            proof {
                assert(self.out@ =~= old(self).out@ + chunk@.map_values(|b: u8| b as char).take(
                    i as int,
                ));
            }
        }
        proof {
            assert(chunk@.map_values(|b: u8| b as char).take(n as int) =~= chunk@.map_values(
                |b: u8| b as char,
            ));
        }
    }

    /// Appends the bytes of a chunk as a comma-separated decimal list.
    fn print_byte_list(&mut self, chunk: &[u8])
        ensures
            final(self).out@ == old(self).out@ + byte_list_text(chunk@),
    {
        let n = chunk.len();
        let mut i: usize = 0;
        while i < n
            invariant
                i <= n,
                n == chunk@.len(),
                self.out@ == old(self).out@ + byte_list_text(chunk@.take(i as int)) + (
                if 0 < i < n {
                    ", "@
                } else {
                    Seq::<char>::empty()
                }),
            decreases n - i,
        {
            push_dec_u64(&mut self.out, chunk[i] as u64);
            if i + 1 < n {
                self.out.append(", ");
            }
            i = i + 1;
            proof {
                lemma_byte_list_take_step(chunk@, i as int);
                assert(self.out@ =~= old(self).out@ + byte_list_text(chunk@.take(i as int)) + (
                if 0 < i < n {
                    ", "@
                } else {
                    Seq::<char>::empty()
                }));
            }
        }
        proof {
            assert(chunk@.take(n as int) =~= chunk@);
        }
    }

    /// Appends one `db` chunk: quoted text when printable, a byte list
    /// otherwise.
    fn print_db_chunk(&mut self, chunk: &[u8])
        ensures
            final(self).out@ == old(self).out@ + db_chunk_text(chunk@),
    {
        if is_ascii_printable(chunk) {
            self.out.append("\"");
            self.print_chunk_chars(chunk);
            self.out.append("\"");
            proof {
                assert(self.out@ =~= old(self).out@ + db_chunk_text(chunk@));
            }
        } else {
            self.print_byte_list(chunk);
        }
    }
}

/// Appending one byte to a byte list appends the separator (when the list
/// was not empty) and that byte's digits.
proof fn lemma_byte_list_snoc(s: Seq<u8>, b: u8)
    ensures
        byte_list_text(s + seq![b]) == byte_list_text(s) + (if s.len() == 0 {
            Seq::<char>::empty()
        } else {
            ", "@
        }) + dec_nat(b as int),
    decreases s.len(),
{
    let t = s + seq![b];
    if s.len() == 0 {
        assert(t =~= seq![b]);
        assert(byte_list_text(t) =~= byte_list_text(s) + Seq::<char>::empty() + dec_nat(b as int));
    } else {
        assert(t.drop_first() =~= s.drop_first() + seq![b]);
        lemma_byte_list_snoc(s.drop_first(), b);
        assert(byte_list_text(t) =~= byte_list_text(s) + ", "@ + dec_nat(b as int));
    }
}

/// Extending the prefix of a byte list by one byte appends the separator and
/// that byte's digits.
proof fn lemma_byte_list_take_step(c: Seq<u8>, i: int)
    requires
        0 < i <= c.len(),
    ensures
        byte_list_text(c.take(i)) == byte_list_text(c.take(i - 1)) + (if i == 1 {
            Seq::<char>::empty()
        } else {
            ", "@
        }) + dec_nat(c[i - 1] as int),
{
    assert(c.take(i) =~= c.take(i - 1) + seq![c[i - 1]]);
    lemma_byte_list_snoc(c.take(i - 1), c[i - 1]);
}


} // verus!
