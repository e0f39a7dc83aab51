//! The condition-code model and the abstract instruction-emission contract.

use vstd::prelude::*;

use crate::gp_regs::Reg;
use crate::mem::Mem;
use crate::operand::Operand;
use crate::render::{
    binop_cc_line, binop_line, blank_line, comment_line, db_line, equ_line, global_line,
    label_line, nulop_line, preamble_line, rodata_line, text_line, triop_line, unop_cc_line,
    unop_line,
};

verus! {

/// A named flag-test condition. The 33 mnemonics cover 16 semantically
/// distinct tests; several are synonym pairs (for example `A` and `NBE`).
#[derive(Copy, Clone, Debug, PartialEq, Eq, Hash, Structural)]
pub enum Condition {
    A,
    AE,
    B,
    BE,
    C,
    CXZ,
    ECXZ,
    RCXZ,
    E,
    G,
    GE,
    L,
    LE,
    NA,
    NAE,
    NB,
    NBE,
    NC,
    NE,
    NG,
    NGE,
    NL,
    NLE,
    NO,
    NP,
    NS,
    NZ,
    O,
    P,
    PE,
    PO,
    S,
    Z,
}

/// The signed counterpart of a condition: the eight unsigned magnitude tests
/// map to their signed forms, every other condition maps to itself.
pub open spec fn signed_equiv(c: Condition) -> Condition {
    match c {
        Condition::A => Condition::G,
        Condition::AE => Condition::GE,
        Condition::B => Condition::L,
        Condition::BE => Condition::LE,
        Condition::NA => Condition::NG,
        Condition::NAE => Condition::NGE,
        Condition::NB => Condition::NL,
        Condition::NBE => Condition::NLE,
        _ => c,
    }
}

/// The unsigned counterpart of a condition: the eight signed magnitude tests
/// map to their unsigned forms, every other condition maps to itself.
pub open spec fn unsigned_equiv(c: Condition) -> Condition {
    match c {
        Condition::G => Condition::A,
        Condition::GE => Condition::AE,
        Condition::L => Condition::B,
        Condition::LE => Condition::BE,
        Condition::NG => Condition::NA,
        Condition::NGE => Condition::NAE,
        Condition::NL => Condition::NB,
        Condition::NLE => Condition::NBE,
        _ => c,
    }
}

impl Condition {
    /// The condition that reads the same flags as a signed magnitude
    /// comparison; the identity for every condition that is not an unsigned
    /// magnitude test.
    pub fn signed_equivalent(self) -> (r: Self)
        ensures
            r == signed_equiv(self),
    {
        match self {
            Condition::A => Condition::G,
            Condition::AE => Condition::GE,
            Condition::B => Condition::L,
            Condition::BE => Condition::LE,
            Condition::NA => Condition::NG,
            Condition::NAE => Condition::NGE,
            Condition::NB => Condition::NL,
            Condition::NBE => Condition::NLE,
            _ => self,
        }
    }

    /// The condition that reads the same flags as an unsigned magnitude
    /// comparison; the identity for every condition that is not a signed
    /// magnitude test.
    pub fn unsigned_equivalent(self) -> (r: Self)
        ensures
            r == unsigned_equiv(self),
    {
        match self {
            Condition::G => Condition::A,
            Condition::GE => Condition::AE,
            Condition::L => Condition::B,
            Condition::LE => Condition::BE,
            Condition::NG => Condition::NA,
            Condition::NGE => Condition::NAE,
            Condition::NL => Condition::NB,
            Condition::NLE => Condition::NBE,
            _ => self,
        }
    }
}

/// The abstract instruction-emission contract: one operation per instruction
/// mnemonic or directive a scalar backend needs. A code generator calls the
/// operations in the exact order the instruction stream should appear; an
/// implementation appends exactly one line of text per call to its sink and
/// keeps no other state. Operand legality is never checked: the caller is
/// responsible for emitting architecturally valid combinations.
pub trait X86Writer {
    /// Everything this writer has emitted so far.
    spec fn sink(&self) -> Seq<char>;

    /// Emits the `default rel` preamble line.
    fn emit_preamble(&mut self)
        ensures
            final(self).sink() == old(self).sink() + preamble_line(),
    ;

    /// Emits a label declaration line: the label text and a colon.
    fn label(&mut self, label: &str)
        ensures
            final(self).sink() == old(self).sink() + label_line(label@),
    ;

    /// Emits a `global` directive line for the given symbol.
    fn global(&mut self, label: &str)
        ensures
            final(self).sink() == old(self).sink() + global_line(label@),
    ;

    /// Emits the text section marker line.
    fn text(&mut self)
        ensures
            final(self).sink() == old(self).sink() + text_line(),
    ;

    /// Emits the read-only data section marker line.
    fn rodata(&mut self)
        ensures
            final(self).sink() == old(self).sink() + rodata_line(),
    ;

    /// Emits a blank line.
    fn blank(&mut self)
        ensures
            final(self).sink() == old(self).sink() + blank_line(),
    ;

    /// Emits a comment line.
    fn comment(&mut self, comment: &str)
        ensures
            final(self).sink() == old(self).sink() + comment_line(comment@),
    ;

    /// Emits a `db` byte-string declaration: the label, then each chunk in
    /// the caller's order, comma-separated. A chunk of printable non-quote
    /// ASCII renders as a double-quoted string, any other chunk as a decimal
    /// byte list.
    fn db(&mut self, label: &str, bytes: &[&[u8]])
        ensures
            final(self).sink() == old(self).sink() + db_line(
                label@,
                bytes@.map_values(|c: &[u8]| c@),
            ),
    ;

    /// Emits an `equ` symbolic-constant declaration line.
    fn equ(&mut self, label: &str, value: i64)
        ensures
            final(self).sink() == old(self).sink() + equ_line(label@, value),
    ;

    /// Emits an `adc` instruction line with two operands.
    fn adc(&mut self, rd: Operand<'_>, rs: Operand<'_>)
        ensures
            final(self).sink() == old(self).sink() + binop_line("adc"@, rd, rs),
    ;

    /// Emits an `add` instruction line with two operands.
    fn add(&mut self, rd: Operand<'_>, rs: Operand<'_>)
        ensures
            final(self).sink() == old(self).sink() + binop_line("add"@, rd, rs),
    ;

    /// Emits an `and` instruction line with two operands.
    fn and(&mut self, rd: Operand<'_>, rs: Operand<'_>)
        ensures
            final(self).sink() == old(self).sink() + binop_line("and"@, rd, rs),
    ;

    /// Emits a `call` instruction line with one operand.
    fn call(&mut self, rs: Operand<'_>)
        ensures
            final(self).sink() == old(self).sink() + unop_line("call"@, rs),
    ;

    /// Emits a bare `cdq` instruction line.
    fn cdq(&mut self)
        ensures
            final(self).sink() == old(self).sink() + nulop_line("cdq"@),
    ;

    /// Emits a bare `clc` instruction line.
    fn clc(&mut self)
        ensures
            final(self).sink() == old(self).sink() + nulop_line("clc"@),
    ;

    /// Emits a bare `cld` instruction line.
    fn cld(&mut self)
        ensures
            final(self).sink() == old(self).sink() + nulop_line("cld"@),
    ;

    /// Emits a bare `cli` instruction line.
    fn cli(&mut self)
        ensures
            final(self).sink() == old(self).sink() + nulop_line("cli"@),
    ;

    /// Emits a `cmp` instruction line with two operands.
    fn cmp(&mut self, rd: Operand<'_>, rs: Operand<'_>)
        ensures
            final(self).sink() == old(self).sink() + binop_line("cmp"@, rd, rs),
    ;

    /// Emits a conditional move: `cmov` suffixed with the condition's
    /// mnemonic, then the two operands.
    fn cmov(&mut self, cc: Condition, rd: Operand<'_>, rs: Operand<'_>)
        ensures
            final(self).sink() == old(self).sink() + binop_cc_line("cmov"@, cc, rd, rs),
    ;

    /// Emits a bare `cqo` instruction line.
    fn cqo(&mut self)
        ensures
            final(self).sink() == old(self).sink() + nulop_line("cqo"@),
    ;

    /// Emits a bare `cwd` instruction line.
    fn cwd(&mut self)
        ensures
            final(self).sink() == old(self).sink() + nulop_line("cwd"@),
    ;

    /// Emits a `dec` instruction line with one operand.
    fn dec(&mut self, rd: Operand<'_>)
        ensures
            final(self).sink() == old(self).sink() + unop_line("dec"@, rd),
    ;

    /// Emits a `div` instruction line with one operand.
    fn div(&mut self, rs: Operand<'_>)
        ensures
            final(self).sink() == old(self).sink() + unop_line("div"@, rs),
    ;

    /// Emits an `idiv` instruction line with one operand.
    fn idiv(&mut self, rs: Operand<'_>)
        ensures
            final(self).sink() == old(self).sink() + unop_line("idiv"@, rs),
    ;

    /// Emits an `imul` instruction line with one operand.
    fn imul1(&mut self, rd: Operand<'_>)
        ensures
            final(self).sink() == old(self).sink() + unop_line("imul"@, rd),
    ;

    /// Emits an `imul` instruction line with two operands.
    fn imul2(&mut self, rd: Operand<'_>, rs: Operand<'_>)
        ensures
            final(self).sink() == old(self).sink() + binop_line("imul"@, rd, rs),
    ;

    /// Emits an `imul` instruction line with three operands.
    fn imul3(&mut self, rd: Operand<'_>, rs0: Operand<'_>, rs1: Operand<'_>)
        ensures
            final(self).sink() == old(self).sink() + triop_line("imul"@, rd, rs0, rs1),
    ;

    /// Emits an `inc` instruction line with one operand.
    fn inc(&mut self, rd: Operand<'_>)
        ensures
            final(self).sink() == old(self).sink() + unop_line("inc"@, rd),
    ;

    /// Emits a conditional jump: `j` suffixed with the condition's
    /// mnemonic, then the target operand.
    fn jcc(&mut self, cc: Condition, rs: Operand<'_>)
        ensures
            final(self).sink() == old(self).sink() + unop_cc_line("j"@, cc, rs),
    ;

    /// Emits a `jmp` instruction line with one operand.
    fn jmp(&mut self, rs: Operand<'_>)
        ensures
            final(self).sink() == old(self).sink() + unop_line("jmp"@, rs),
    ;

    /// Emits a `lea` instruction line from a register and a memory
    /// operand.
    fn lea(&mut self, rd: Reg, rs: Mem<'_>)
        ensures
            final(self).sink() == old(self).sink() + binop_line(
                "lea"@,
                Operand::Reg(rd),
                Operand::Mem(rs),
            ),
    ;

    /// Emits a `mov` instruction line with two operands.
    fn mov(&mut self, rd: Operand<'_>, rs: Operand<'_>)
        ensures
            final(self).sink() == old(self).sink() + binop_line("mov"@, rd, rs),
    ;

    /// Emits a `movsx` instruction line with two operands.
    fn movsx(&mut self, rd: Operand<'_>, rs: Operand<'_>)
        ensures
            final(self).sink() == old(self).sink() + binop_line("movsx"@, rd, rs),
    ;

    /// Emits a `movzx` instruction line with two operands.
    fn movzx(&mut self, rd: Operand<'_>, rs: Operand<'_>)
        ensures
            final(self).sink() == old(self).sink() + binop_line("movzx"@, rd, rs),
    ;

    /// Emits a `mul` instruction line with one operand.
    fn mul(&mut self, rs: Operand<'_>)
        ensures
            final(self).sink() == old(self).sink() + unop_line("mul"@, rs),
    ;

    /// Emits a `neg` instruction line with one operand.
    fn neg(&mut self, rd: Operand<'_>)
        ensures
            final(self).sink() == old(self).sink() + unop_line("neg"@, rd),
    ;

    /// Emits a `not` instruction line with one operand.
    fn not(&mut self, rd: Operand<'_>)
        ensures
            final(self).sink() == old(self).sink() + unop_line("not"@, rd),
    ;

    /// Emits a bare `nop` instruction line.
    fn nop(&mut self)
        ensures
            final(self).sink() == old(self).sink() + nulop_line("nop"@),
    ;

    /// Emits a `nop` instruction line with one operand.
    fn nop1(&mut self, rs: Operand<'_>)
        ensures
            final(self).sink() == old(self).sink() + unop_line("nop"@, rs),
    ;

    /// Emits an `or` instruction line with two operands.
    fn or(&mut self, rd: Operand<'_>, rs: Operand<'_>)
        ensures
            final(self).sink() == old(self).sink() + binop_line("or"@, rd, rs),
    ;

    /// Emits a `pop` instruction line with one operand.
    fn pop(&mut self, rd: Operand<'_>)
        ensures
            final(self).sink() == old(self).sink() + unop_line("pop"@, rd),
    ;

    /// Emits a `push` instruction line with one operand.
    fn push(&mut self, rs: Operand<'_>)
        ensures
            final(self).sink() == old(self).sink() + unop_line("push"@, rs),
    ;

    /// Emits a `rcl` instruction line with two operands.
    fn rcl(&mut self, rd: Operand<'_>, rs: Operand<'_>)
        ensures
            final(self).sink() == old(self).sink() + binop_line("rcl"@, rd, rs),
    ;

    /// Emits a `rcr` instruction line with two operands.
    fn rcr(&mut self, rd: Operand<'_>, rs: Operand<'_>)
        ensures
            final(self).sink() == old(self).sink() + binop_line("rcr"@, rd, rs),
    ;

    /// Emits a bare `ret` instruction line.
    fn ret(&mut self)
        ensures
            final(self).sink() == old(self).sink() + nulop_line("ret"@),
    ;

    /// Emits a `rol` instruction line with two operands.
    fn rol(&mut self, rd: Operand<'_>, rs: Operand<'_>)
        ensures
            final(self).sink() == old(self).sink() + binop_line("rol"@, rd, rs),
    ;

    /// Emits a `ror` instruction line with two operands.
    fn ror(&mut self, rd: Operand<'_>, rs: Operand<'_>)
        ensures
            final(self).sink() == old(self).sink() + binop_line("ror"@, rd, rs),
    ;

    /// Emits a `sal` instruction line with two operands.
    fn sal(&mut self, rd: Operand<'_>, rs: Operand<'_>)
        ensures
            final(self).sink() == old(self).sink() + binop_line("sal"@, rd, rs),
    ;

    /// Emits a `sar` instruction line with two operands.
    fn sar(&mut self, rd: Operand<'_>, rs: Operand<'_>)
        ensures
            final(self).sink() == old(self).sink() + binop_line("sar"@, rd, rs),
    ;

    /// Emits a `sbb` instruction line with two operands.
    fn sbb(&mut self, rd: Operand<'_>, rs: Operand<'_>)
        ensures
            final(self).sink() == old(self).sink() + binop_line("sbb"@, rd, rs),
    ;

    /// Emits a conditional set: `set` suffixed with the condition's
    /// mnemonic, then the destination operand.
    fn setcc(&mut self, cc: Condition, dst: Operand<'_>)
        ensures
            final(self).sink() == old(self).sink() + unop_cc_line("set"@, cc, dst),
    ;

    /// Emits a `shl` instruction line with two operands.
    fn shl(&mut self, rd: Operand<'_>, rs: Operand<'_>)
        ensures
            final(self).sink() == old(self).sink() + binop_line("shl"@, rd, rs),
    ;

    /// Emits a `shr` instruction line with two operands.
    fn shr(&mut self, rd: Operand<'_>, rs: Operand<'_>)
        ensures
            final(self).sink() == old(self).sink() + binop_line("shr"@, rd, rs),
    ;

    /// Emits a bare `stc` instruction line.
    fn stc(&mut self)
        ensures
            final(self).sink() == old(self).sink() + nulop_line("stc"@),
    ;

    /// Emits a bare `std` instruction line. The method is not called `std`, since that word cannot name an item here.
    fn std_insn(&mut self)
        ensures
            final(self).sink() == old(self).sink() + nulop_line("std"@),
    ;

    /// Emits a bare `sti` instruction line.
    fn sti(&mut self)
        ensures
            final(self).sink() == old(self).sink() + nulop_line("sti"@),
    ;

    /// Emits a `sub` instruction line with two operands.
    fn sub(&mut self, rd: Operand<'_>, rs: Operand<'_>)
        ensures
            final(self).sink() == old(self).sink() + binop_line("sub"@, rd, rs),
    ;

    /// Emits a bare `syscall` instruction line.
    fn syscall(&mut self)
        ensures
            final(self).sink() == old(self).sink() + nulop_line("syscall"@),
    ;

    /// Emits a `test` instruction line with two operands.
    fn test(&mut self, rd: Operand<'_>, rs: Operand<'_>)
        ensures
            final(self).sink() == old(self).sink() + binop_line("test"@, rd, rs),
    ;

    /// Emits a `xor` instruction line with two operands.
    fn xor(&mut self, rd: Operand<'_>, rs: Operand<'_>)
        ensures
            final(self).sink() == old(self).sink() + binop_line("xor"@, rd, rs),
    ;
}

} // verus!
