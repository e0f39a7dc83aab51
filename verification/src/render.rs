//! The rendering model: spec functions that pin down, character by character,
//! the NASM text that every register, condition code, operand and line form
//! renders to, together with small verified helpers shared by the renderer.

use vstd::prelude::*;

use crate::gp_regs::{reg, RName, RSize, Reg};
use crate::mem::{Mem, Scale};
use crate::operand::{OSize, Operand};
use crate::writer::Condition;

verus! {

/// The canonical lowercase spelling of a register: one of the 64 surface
/// names `al` through `r15`.
#[verifier::opaque]
pub open spec fn reg_text(r: Reg) -> Seq<char> {
    match r.name {
        RName::A => match r.size {
            RSize::Byte => "al"@,
            RSize::Word => "ax"@,
            RSize::DWord => "eax"@,
            RSize::QWord => "rax"@,
        },
        RName::B => match r.size {
            RSize::Byte => "bl"@,
            RSize::Word => "bx"@,
            RSize::DWord => "ebx"@,
            RSize::QWord => "rbx"@,
        },
        RName::C => match r.size {
            RSize::Byte => "cl"@,
            RSize::Word => "cx"@,
            RSize::DWord => "ecx"@,
            RSize::QWord => "rcx"@,
        },
        RName::D => match r.size {
            RSize::Byte => "dl"@,
            RSize::Word => "dx"@,
            RSize::DWord => "edx"@,
            RSize::QWord => "rdx"@,
        },
        RName::DI => match r.size {
            RSize::Byte => "dil"@,
            RSize::Word => "di"@,
            RSize::DWord => "edi"@,
            RSize::QWord => "rdi"@,
        },
        RName::SI => match r.size {
            RSize::Byte => "sil"@,
            RSize::Word => "si"@,
            RSize::DWord => "esi"@,
            RSize::QWord => "rsi"@,
        },
        RName::BP => match r.size {
            RSize::Byte => "bpl"@,
            RSize::Word => "bp"@,
            RSize::DWord => "ebp"@,
            RSize::QWord => "rbp"@,
        },
        RName::SP => match r.size {
            RSize::Byte => "spl"@,
            RSize::Word => "sp"@,
            RSize::DWord => "esp"@,
            RSize::QWord => "rsp"@,
        },
        RName::R8 => match r.size {
            RSize::Byte => "r8b"@,
            RSize::Word => "r8w"@,
            RSize::DWord => "r8d"@,
            RSize::QWord => "r8"@,
        },
        RName::R9 => match r.size {
            RSize::Byte => "r9b"@,
            RSize::Word => "r9w"@,
            RSize::DWord => "r9d"@,
            RSize::QWord => "r9"@,
        },
        RName::R10 => match r.size {
            RSize::Byte => "r10b"@,
            RSize::Word => "r10w"@,
            RSize::DWord => "r10d"@,
            RSize::QWord => "r10"@,
        },
        RName::R11 => match r.size {
            RSize::Byte => "r11b"@,
            RSize::Word => "r11w"@,
            RSize::DWord => "r11d"@,
            RSize::QWord => "r11"@,
        },
        RName::R12 => match r.size {
            RSize::Byte => "r12b"@,
            RSize::Word => "r12w"@,
            RSize::DWord => "r12d"@,
            RSize::QWord => "r12"@,
        },
        RName::R13 => match r.size {
            RSize::Byte => "r13b"@,
            RSize::Word => "r13w"@,
            RSize::DWord => "r13d"@,
            RSize::QWord => "r13"@,
        },
        RName::R14 => match r.size {
            RSize::Byte => "r14b"@,
            RSize::Word => "r14w"@,
            RSize::DWord => "r14d"@,
            RSize::QWord => "r14"@,
        },
        RName::R15 => match r.size {
            RSize::Byte => "r15b"@,
            RSize::Word => "r15w"@,
            RSize::DWord => "r15d"@,
            RSize::QWord => "r15"@,
        },
    }
}

/// The lowercase keyword of an operand-size tag.
#[verifier::opaque]
pub open spec fn size_text(s: OSize) -> Seq<char> {
    match s {
        OSize::Byte => "byte"@,
        OSize::Word => "word"@,
        OSize::DWord => "dword"@,
        OSize::QWord => "qword"@,
    }
}

/// The lowercase mnemonic suffix of a condition code.
#[verifier::opaque]
pub open spec fn cc_text(c: Condition) -> Seq<char> {
    match c {
        Condition::A => "a"@,
        Condition::AE => "ae"@,
        Condition::B => "b"@,
        Condition::BE => "be"@,
        Condition::C => "c"@,
        Condition::CXZ => "cxz"@,
        Condition::ECXZ => "ecxz"@,
        Condition::RCXZ => "rcxz"@,
        Condition::E => "e"@,
        Condition::G => "g"@,
        Condition::GE => "ge"@,
        Condition::L => "l"@,
        Condition::LE => "le"@,
        Condition::NA => "na"@,
        Condition::NAE => "nae"@,
        Condition::NB => "nb"@,
        Condition::NBE => "nbe"@,
        Condition::NC => "nc"@,
        Condition::NE => "ne"@,
        Condition::NG => "ng"@,
        Condition::NGE => "nge"@,
        Condition::NL => "nl"@,
        Condition::NLE => "nle"@,
        Condition::NO => "no"@,
        Condition::NP => "np"@,
        Condition::NS => "ns"@,
        Condition::NZ => "nz"@,
        Condition::O => "o"@,
        Condition::P => "p"@,
        Condition::PE => "pe"@,
        Condition::PO => "po"@,
        Condition::S => "s"@,
        Condition::Z => "z"@,
    }
}

/// The multiplier suffix of a scaled index: empty at unit scale.
pub open spec fn scale_text(s: Scale) -> Seq<char> {
    match s {
        Scale::One => Seq::<char>::empty(),
        Scale::Two => " * 2"@,
        Scale::Four => " * 4"@,
        Scale::Eight => " * 8"@,
    }
}

/// The decimal digit character for a value below ten.
pub open spec fn dec_digit(d: int) -> char {
    if d == 0 {
        '0'
    } else if d == 1 {
        '1'
    } else if d == 2 {
        '2'
    } else if d == 3 {
        '3'
    } else if d == 4 {
        '4'
    } else if d == 5 {
        '5'
    } else if d == 6 {
        '6'
    } else if d == 7 {
        '7'
    } else if d == 8 {
        '8'
    } else {
        '9'
    }
}

/// The decimal digit string of a non-negative value, most significant digit
/// first and without leading zeros (except for the value zero itself).
pub open spec fn dec_nat(n: int) -> Seq<char>
    recommends
        n >= 0,
    decreases n,
{
    if n < 10 {
        seq![dec_digit(n)]
    } else {
        dec_nat(n / 10) + seq![dec_digit(n % 10)]
    }
}

/// The decimal rendering of a signed value: a leading minus sign and the
/// magnitude's digits when negative, the plain digits otherwise.
pub open spec fn dec_int(v: int) -> Seq<char> {
    if v < 0 {
        "-"@ + dec_nat(-v)
    } else {
        dec_nat(v)
    }
}

/// `" + "` when a component of a memory operand follows an earlier one,
/// empty otherwise.
pub open spec fn plus_if(preceded: bool) -> Seq<char> {
    if preceded {
        " + "@
    } else {
        Seq::<char>::empty()
    }
}

/// The rendering of a displacement inside brackets: empty when zero; joined
/// with `" - "` and the magnitude, or `" + "` and the digits, after an
/// earlier component; the bare signed decimal otherwise.
pub open spec fn offset_text(off: i64, preceded: bool) -> Seq<char> {
    if off == 0 {
        Seq::<char>::empty()
    } else if preceded && off < 0 {
        " - "@ + dec_nat(-(off as int))
    } else if preceded {
        " + "@ + dec_nat(off as int)
    } else {
        dec_int(off as int)
    }
}

/// The text between the brackets of a memory operand: label, base register,
/// scaled index and displacement, left to right, each later component joined
/// to an earlier one with `" + "` (or `" - "` for a negative displacement).
pub open spec fn mem_inner_text(m: Mem) -> Seq<char> {
    let lbl = if m.label is Some {
        m.label->0@
    } else {
        Seq::<char>::empty()
    };
    let base = if m.base is Some {
        plus_if(m.label is Some) + reg_text(m.base->0)
    } else {
        Seq::<char>::empty()
    };
    let idx = if m.index is Some {
        let pair = m.index->0;
        plus_if(m.label is Some || m.base is Some) + reg_text(pair.0) + scale_text(pair.1)
    } else {
        Seq::<char>::empty()
    };
    lbl + base + idx + offset_text(
        m.offset,
        m.label is Some || m.base is Some || m.index is Some,
    )
}

/// The full rendering of a memory operand: the size keyword and a space when
/// a tag is present, then the bracketed components. An operand with no
/// populated field renders as bare brackets.
pub open spec fn mem_text(m: Mem) -> Seq<char> {
    let prefix = if m.size is Some {
        size_text(m.size->0) + " "@
    } else {
        Seq::<char>::empty()
    };
    prefix + "["@ + mem_inner_text(m) + "]"@
}

/// The rendering of an operand: the register spelling, the bracketed memory
/// reference, the decimal immediate, or the raw label text.
pub open spec fn operand_text(op: Operand) -> Seq<char> {
    match op {
        Operand::Reg(r) => reg_text(r),
        Operand::Mem(m) => mem_text(m),
        Operand::Integer(v) => dec_int(v as int),
        Operand::Label(l) => l@,
    }
}

/// An instruction line with no operand.
pub open spec fn nulop_line(name: Seq<char>) -> Seq<char> {
    "    "@ + name + "\n"@
}

/// An instruction line with one operand.
pub open spec fn unop_line(name: Seq<char>, op: Operand) -> Seq<char> {
    "    "@ + name + " "@ + operand_text(op) + "\n"@
}

/// An instruction line with a condition-suffixed mnemonic and one operand.
pub open spec fn unop_cc_line(name: Seq<char>, cc: Condition, op: Operand) -> Seq<char> {
    "    "@ + name + cc_text(cc) + " "@ + operand_text(op) + "\n"@
}

/// An instruction line with two operands.
pub open spec fn binop_line(name: Seq<char>, rd: Operand, rs: Operand) -> Seq<char> {
    "    "@ + name + " "@ + operand_text(rd) + ", "@ + operand_text(rs) + "\n"@
}

/// An instruction line with a condition-suffixed mnemonic and two operands.
pub open spec fn binop_cc_line(name: Seq<char>, cc: Condition, rd: Operand, rs: Operand) -> Seq<
    char,
> {
    "    "@ + name + cc_text(cc) + " "@ + operand_text(rd) + ", "@ + operand_text(rs) + "\n"@
}

/// An instruction line with three operands.
pub open spec fn triop_line(name: Seq<char>, rd: Operand, rs0: Operand, rs1: Operand) -> Seq<
    char,
> {
    "    "@ + name + " "@ + operand_text(rd) + ", "@ + operand_text(rs0) + ", "@ + operand_text(
        rs1,
    ) + "\n"@
}

/// Whether every byte of a chunk is printable non-quote ASCII, so that the
/// whole chunk may be rendered as a double-quoted string literal.
pub open spec fn chunk_printable(c: Seq<u8>) -> bool {
    forall|i: int| 0 <= i < c.len() ==> 32 <= #[trigger] c[i] <= 127 && c[i] != 34
}

/// The bytes of a chunk as a comma-separated decimal list.
pub open spec fn byte_list_text(c: Seq<u8>) -> Seq<char>
    decreases c.len(),
{
    if c.len() == 0 {
        Seq::<char>::empty()
    } else if c.len() == 1 {
        dec_nat(c[0] as int)
    } else {
        dec_nat(c[0] as int) + ", "@ + byte_list_text(c.drop_first())
    }
}

/// One `db` chunk: a double-quoted string when every byte is printable
/// non-quote ASCII, a decimal byte list otherwise. Classification is per
/// whole chunk, never mixed within one chunk.
pub open spec fn db_chunk_text(c: Seq<u8>) -> Seq<char> {
    if chunk_printable(c) {
        "\""@ + c.map_values(|b: u8| b as char) + "\""@
    } else {
        byte_list_text(c)
    }
}

/// The first `n` chunks of a `db` directive, each followed by `", "` unless
/// it is the last chunk of the whole directive.
pub open spec fn db_chunks_upto(cs: Seq<Seq<u8>>, n: int) -> Seq<char>
    decreases n,
{
    if n <= 0 {
        Seq::<char>::empty()
    } else {
        db_chunks_upto(cs, n - 1) + db_chunk_text(cs[n - 1]) + (if n - 1 == cs.len() - 1 {
            Seq::<char>::empty()
        } else {
            ", "@
        })
    }
}

/// All chunks of a `db` directive, comma-separated in the caller's order.
pub open spec fn db_chunks_text(cs: Seq<Seq<u8>>) -> Seq<char> {
    db_chunks_upto(cs, cs.len() as int)
}

/// The preamble line.
pub open spec fn preamble_line() -> Seq<char> {
    "default rel\n"@
}

/// A label declaration line.
pub open spec fn label_line(l: Seq<char>) -> Seq<char> {
    l + ":\n"@
}

/// A `global` directive line.
pub open spec fn global_line(l: Seq<char>) -> Seq<char> {
    "global "@ + l + "\n"@
}

/// The text section marker line.
pub open spec fn text_line() -> Seq<char> {
    "section .text\n"@
}

/// The read-only data section marker line.
pub open spec fn rodata_line() -> Seq<char> {
    "section .rodata\n"@
}

/// A blank line.
pub open spec fn blank_line() -> Seq<char> {
    "\n"@
}

/// A comment line.
pub open spec fn comment_line(c: Seq<char>) -> Seq<char> {
    "  ; "@ + c + "\n"@
}

/// An `equ` symbolic-constant line.
pub open spec fn equ_line(l: Seq<char>, v: i64) -> Seq<char> {
    l + " equ "@ + dec_int(v as int) + "\n"@
}

/// A `db` byte-string declaration line.
pub open spec fn db_line(l: Seq<char>, cs: Seq<Seq<u8>>) -> Seq<char> {
    l + " db "@ + db_chunks_text(cs) + "\n"@
}

/// The canonical lowercase spelling of a register, as [`reg_text`] states.
pub fn reg_str(r: Reg) -> (s: &'static str)
    ensures
        s@ == reg_text(r),
{
    proof {
        reveal(reg_text);
    }
    match (r.name, r.size) {
        (RName::A, RSize::Byte) => "al",
        (RName::A, RSize::Word) => "ax",
        (RName::A, RSize::DWord) => "eax",
        (RName::A, RSize::QWord) => "rax",
        (RName::B, RSize::Byte) => "bl",
        (RName::B, RSize::Word) => "bx",
        (RName::B, RSize::DWord) => "ebx",
        (RName::B, RSize::QWord) => "rbx",
        (RName::C, RSize::Byte) => "cl",
        (RName::C, RSize::Word) => "cx",
        (RName::C, RSize::DWord) => "ecx",
        (RName::C, RSize::QWord) => "rcx",
        (RName::D, RSize::Byte) => "dl",
        (RName::D, RSize::Word) => "dx",
        (RName::D, RSize::DWord) => "edx",
        (RName::D, RSize::QWord) => "rdx",
        (RName::DI, RSize::Byte) => "dil",
        (RName::DI, RSize::Word) => "di",
        (RName::DI, RSize::DWord) => "edi",
        (RName::DI, RSize::QWord) => "rdi",
        (RName::SI, RSize::Byte) => "sil",
        (RName::SI, RSize::Word) => "si",
        (RName::SI, RSize::DWord) => "esi",
        (RName::SI, RSize::QWord) => "rsi",
        (RName::BP, RSize::Byte) => "bpl",
        (RName::BP, RSize::Word) => "bp",
        (RName::BP, RSize::DWord) => "ebp",
        (RName::BP, RSize::QWord) => "rbp",
        (RName::SP, RSize::Byte) => "spl",
        (RName::SP, RSize::Word) => "sp",
        (RName::SP, RSize::DWord) => "esp",
        (RName::SP, RSize::QWord) => "rsp",
        (RName::R8, RSize::Byte) => "r8b",
        (RName::R8, RSize::Word) => "r8w",
        (RName::R8, RSize::DWord) => "r8d",
        (RName::R8, RSize::QWord) => "r8",
        (RName::R9, RSize::Byte) => "r9b",
        (RName::R9, RSize::Word) => "r9w",
        (RName::R9, RSize::DWord) => "r9d",
        (RName::R9, RSize::QWord) => "r9",
        (RName::R10, RSize::Byte) => "r10b",
        (RName::R10, RSize::Word) => "r10w",
        (RName::R10, RSize::DWord) => "r10d",
        (RName::R10, RSize::QWord) => "r10",
        (RName::R11, RSize::Byte) => "r11b",
        (RName::R11, RSize::Word) => "r11w",
        (RName::R11, RSize::DWord) => "r11d",
        (RName::R11, RSize::QWord) => "r11",
        (RName::R12, RSize::Byte) => "r12b",
        (RName::R12, RSize::Word) => "r12w",
        (RName::R12, RSize::DWord) => "r12d",
        (RName::R12, RSize::QWord) => "r12",
        (RName::R13, RSize::Byte) => "r13b",
        (RName::R13, RSize::Word) => "r13w",
        (RName::R13, RSize::DWord) => "r13d",
        (RName::R13, RSize::QWord) => "r13",
        (RName::R14, RSize::Byte) => "r14b",
        (RName::R14, RSize::Word) => "r14w",
        (RName::R14, RSize::DWord) => "r14d",
        (RName::R14, RSize::QWord) => "r14",
        (RName::R15, RSize::Byte) => "r15b",
        (RName::R15, RSize::Word) => "r15w",
        (RName::R15, RSize::DWord) => "r15d",
        (RName::R15, RSize::QWord) => "r15",
    }
}

/// The lowercase keyword of an operand-size tag, as [`size_text`] states.
pub fn size_str(s: OSize) -> (r: &'static str)
    ensures
        r@ == size_text(s),
{
    proof {
        reveal(size_text);
    }
    match s {
        OSize::Byte => "byte",
        OSize::Word => "word",
        OSize::DWord => "dword",
        OSize::QWord => "qword",
    }
}

/// The lowercase mnemonic suffix of a condition code, as [`cc_text`] states.
pub fn cc_str(c: Condition) -> (s: &'static str)
    ensures
        s@ == cc_text(c),
{
    proof {
        reveal(cc_text);
    }
    match c {
        Condition::A => "a",
        Condition::AE => "ae",
        Condition::B => "b",
        Condition::BE => "be",
        Condition::C => "c",
        Condition::CXZ => "cxz",
        Condition::ECXZ => "ecxz",
        Condition::RCXZ => "rcxz",
        Condition::E => "e",
        Condition::G => "g",
        Condition::GE => "ge",
        Condition::L => "l",
        Condition::LE => "le",
        Condition::NA => "na",
        Condition::NAE => "nae",
        Condition::NB => "nb",
        Condition::NBE => "nbe",
        Condition::NC => "nc",
        Condition::NE => "ne",
        Condition::NG => "ng",
        Condition::NGE => "nge",
        Condition::NL => "nl",
        Condition::NLE => "nle",
        Condition::NO => "no",
        Condition::NP => "np",
        Condition::NS => "ns",
        Condition::NZ => "nz",
        Condition::O => "o",
        Condition::P => "p",
        Condition::PE => "pe",
        Condition::PO => "po",
        Condition::S => "s",
        Condition::Z => "z",
    }
}

/// The decimal digit string of a value below ten, as a string slice.
fn digit_str(d: u64) -> (s: &'static str)
    requires
        d < 10,
    ensures
        s@ == seq![dec_digit(d as int)],
{
    let s: &'static str = if d == 0 {
        "0"
    } else if d == 1 {
        "1"
    } else if d == 2 {
        "2"
    } else if d == 3 {
        "3"
    } else if d == 4 {
        "4"
    } else if d == 5 {
        "5"
    } else if d == 6 {
        "6"
    } else if d == 7 {
        "7"
    } else if d == 8 {
        "8"
    } else {
        "9"
    };
    proof {
        reveal_strlit("0");
        reveal_strlit("1");
        reveal_strlit("2");
        reveal_strlit("3");
        reveal_strlit("4");
        reveal_strlit("5");
        reveal_strlit("6");
        reveal_strlit("7");
        reveal_strlit("8");
        reveal_strlit("9");
        assert(s@ =~= seq![dec_digit(d as int)]);
    }
    s
}

/// Appends the decimal digits of `n` to `out`, as [`dec_nat`] states.
pub fn push_dec_u64(out: &mut String, n: u64)
    ensures
        final(out)@ == old(out)@ + dec_nat(n as int),
    decreases n,
{
    if n >= 10 {
        push_dec_u64(out, n / 10);
    }
    let s = digit_str(n % 10);
    out.append(s);
    proof {
        assert(out@ =~= old(out)@ + dec_nat(n as int));
    }
}

/// Appends the decimal rendering of `v` to `out`, as [`dec_int`] states.
pub fn push_dec_i64(out: &mut String, v: i64)
    ensures
        final(out)@ == old(out)@ + dec_int(v as int),
{
    if v < 0 {
        out.append("-");
        let mag: u64 = if v == i64::MIN {
            9223372036854775808u64
        } else {
            (-v) as u64
        };
        push_dec_u64(out, mag);
        proof {
            assert(out@ =~= old(out)@ + dec_int(v as int));
        }
    } else {
        push_dec_u64(out, v as u64);
    }
}

/// A numeric fingerprint of a short text: its length and its first four
/// characters packed into one integer. Equal texts have equal fingerprints.
spec fn text_fp(s: Seq<char>) -> int {
    s.len() * 0x100_0000_0000 + (if s.len() > 0 {
        (s[0] as int) * 0x100_0000
    } else {
        0
    }) + (if s.len() > 1 {
        (s[1] as int) * 0x1_0000
    } else {
        0
    }) + (if s.len() > 2 {
        (s[2] as int) * 0x100
    } else {
        0
    }) + (if s.len() > 3 {
        s[3] as int
    } else {
        0
    })
}

/// The fingerprint of each register's canonical spelling, written out as a
/// table; the 64 values are pairwise distinct.
spec fn reg_fp(r: Reg) -> int {
    match r.name {
        RName::A => match r.size {
            RSize::Byte => 0x200616c0000,
            RSize::Word => 0x20061780000,
            RSize::DWord => 0x30065617800,
            RSize::QWord => 0x30072617800,
        },
        RName::B => match r.size {
            RSize::Byte => 0x200626c0000,
            RSize::Word => 0x20062780000,
            RSize::DWord => 0x30065627800,
            RSize::QWord => 0x30072627800,
        },
        RName::C => match r.size {
            RSize::Byte => 0x200636c0000,
            RSize::Word => 0x20063780000,
            RSize::DWord => 0x30065637800,
            RSize::QWord => 0x30072637800,
        },
        RName::D => match r.size {
            RSize::Byte => 0x200646c0000,
            RSize::Word => 0x20064780000,
            RSize::DWord => 0x30065647800,
            RSize::QWord => 0x30072647800,
        },
        RName::DI => match r.size {
            RSize::Byte => 0x30064696c00,
            RSize::Word => 0x20064690000,
            RSize::DWord => 0x30065646900,
            RSize::QWord => 0x30072646900,
        },
        RName::SI => match r.size {
            RSize::Byte => 0x30073696c00,
            RSize::Word => 0x20073690000,
            RSize::DWord => 0x30065736900,
            RSize::QWord => 0x30072736900,
        },
        RName::BP => match r.size {
            RSize::Byte => 0x30062706c00,
            RSize::Word => 0x20062700000,
            RSize::DWord => 0x30065627000,
            RSize::QWord => 0x30072627000,
        },
        RName::SP => match r.size {
            RSize::Byte => 0x30073706c00,
            RSize::Word => 0x20073700000,
            RSize::DWord => 0x30065737000,
            RSize::QWord => 0x30072737000,
        },
        RName::R8 => match r.size {
            RSize::Byte => 0x30072386200,
            RSize::Word => 0x30072387700,
            RSize::DWord => 0x30072386400,
            RSize::QWord => 0x20072380000,
        },
        RName::R9 => match r.size {
            RSize::Byte => 0x30072396200,
            RSize::Word => 0x30072397700,
            RSize::DWord => 0x30072396400,
            RSize::QWord => 0x20072390000,
        },
        RName::R10 => match r.size {
            RSize::Byte => 0x40072313062,
            RSize::Word => 0x40072313077,
            RSize::DWord => 0x40072313064,
            RSize::QWord => 0x30072313000,
        },
        RName::R11 => match r.size {
            RSize::Byte => 0x40072313162,
            RSize::Word => 0x40072313177,
            RSize::DWord => 0x40072313164,
            RSize::QWord => 0x30072313100,
        },
        RName::R12 => match r.size {
            RSize::Byte => 0x40072313262,
            RSize::Word => 0x40072313277,
            RSize::DWord => 0x40072313264,
            RSize::QWord => 0x30072313200,
        },
        RName::R13 => match r.size {
            RSize::Byte => 0x40072313362,
            RSize::Word => 0x40072313377,
            RSize::DWord => 0x40072313364,
            RSize::QWord => 0x30072313300,
        },
        RName::R14 => match r.size {
            RSize::Byte => 0x40072313462,
            RSize::Word => 0x40072313477,
            RSize::DWord => 0x40072313464,
            RSize::QWord => 0x30072313400,
        },
        RName::R15 => match r.size {
            RSize::Byte => 0x40072313562,
            RSize::Word => 0x40072313577,
            RSize::DWord => 0x40072313564,
            RSize::QWord => 0x30072313500,
        },
    }
}

/// The rendered spelling of every register fingerprints to the table value.
proof fn lemma_reg_text_fp(r: Reg)
    ensures
        text_fp(reg_text(r)) == reg_fp(r),
{
    reveal(reg_text);
    reveal_strlit("al");
    reveal_strlit("ax");
    reveal_strlit("eax");
    reveal_strlit("rax");
    reveal_strlit("bl");
    reveal_strlit("bx");
    reveal_strlit("ebx");
    reveal_strlit("rbx");
    reveal_strlit("cl");
    reveal_strlit("cx");
    reveal_strlit("ecx");
    reveal_strlit("rcx");
    reveal_strlit("dl");
    reveal_strlit("dx");
    reveal_strlit("edx");
    reveal_strlit("rdx");
    reveal_strlit("dil");
    reveal_strlit("di");
    reveal_strlit("edi");
    reveal_strlit("rdi");
    reveal_strlit("sil");
    reveal_strlit("si");
    reveal_strlit("esi");
    reveal_strlit("rsi");
    reveal_strlit("bpl");
    reveal_strlit("bp");
    reveal_strlit("ebp");
    reveal_strlit("rbp");
    reveal_strlit("spl");
    reveal_strlit("sp");
    reveal_strlit("esp");
    reveal_strlit("rsp");
    reveal_strlit("r8b");
    reveal_strlit("r8w");
    reveal_strlit("r8d");
    reveal_strlit("r8");
    reveal_strlit("r9b");
    reveal_strlit("r9w");
    reveal_strlit("r9d");
    reveal_strlit("r9");
    reveal_strlit("r10b");
    reveal_strlit("r10w");
    reveal_strlit("r10d");
    reveal_strlit("r10");
    reveal_strlit("r11b");
    reveal_strlit("r11w");
    reveal_strlit("r11d");
    reveal_strlit("r11");
    reveal_strlit("r12b");
    reveal_strlit("r12w");
    reveal_strlit("r12d");
    reveal_strlit("r12");
    reveal_strlit("r13b");
    reveal_strlit("r13w");
    reveal_strlit("r13d");
    reveal_strlit("r13");
    reveal_strlit("r14b");
    reveal_strlit("r14w");
    reveal_strlit("r14d");
    reveal_strlit("r14");
    reveal_strlit("r15b");
    reveal_strlit("r15w");
    reveal_strlit("r15d");
    reveal_strlit("r15");
    match r.name {
        RName::A => match r.size {
            RSize::Byte => {
                assert(text_fp(reg_text(r)) == reg_fp(r));
            },
            RSize::Word => {
                assert(text_fp(reg_text(r)) == reg_fp(r));
            },
            RSize::DWord => {
                assert(text_fp(reg_text(r)) == reg_fp(r));
            },
            RSize::QWord => {
                assert(text_fp(reg_text(r)) == reg_fp(r));
            },
        },
        RName::B => match r.size {
            RSize::Byte => {
                assert(text_fp(reg_text(r)) == reg_fp(r));
            },
            RSize::Word => {
                assert(text_fp(reg_text(r)) == reg_fp(r));
            },
            RSize::DWord => {
                assert(text_fp(reg_text(r)) == reg_fp(r));
            },
            RSize::QWord => {
                assert(text_fp(reg_text(r)) == reg_fp(r));
            },
        },
        RName::C => match r.size {
            RSize::Byte => {
                assert(text_fp(reg_text(r)) == reg_fp(r));
            },
            RSize::Word => {
                assert(text_fp(reg_text(r)) == reg_fp(r));
            },
            RSize::DWord => {
                assert(text_fp(reg_text(r)) == reg_fp(r));
            },
            RSize::QWord => {
                assert(text_fp(reg_text(r)) == reg_fp(r));
            },
        },
        RName::D => match r.size {
            RSize::Byte => {
                assert(text_fp(reg_text(r)) == reg_fp(r));
            },
            RSize::Word => {
                assert(text_fp(reg_text(r)) == reg_fp(r));
            },
            RSize::DWord => {
                assert(text_fp(reg_text(r)) == reg_fp(r));
            },
            RSize::QWord => {
                assert(text_fp(reg_text(r)) == reg_fp(r));
            },
        },
        RName::DI => match r.size {
            RSize::Byte => {
                assert(text_fp(reg_text(r)) == reg_fp(r));
            },
            RSize::Word => {
                assert(text_fp(reg_text(r)) == reg_fp(r));
            },
            RSize::DWord => {
                assert(text_fp(reg_text(r)) == reg_fp(r));
            },
            RSize::QWord => {
                assert(text_fp(reg_text(r)) == reg_fp(r));
            },
        },
        RName::SI => match r.size {
            RSize::Byte => {
                assert(text_fp(reg_text(r)) == reg_fp(r));
            },
            RSize::Word => {
                assert(text_fp(reg_text(r)) == reg_fp(r));
            },
            RSize::DWord => {
                assert(text_fp(reg_text(r)) == reg_fp(r));
            },
            RSize::QWord => {
                assert(text_fp(reg_text(r)) == reg_fp(r));
            },
        },
        RName::BP => match r.size {
            RSize::Byte => {
                assert(text_fp(reg_text(r)) == reg_fp(r));
            },
            RSize::Word => {
                assert(text_fp(reg_text(r)) == reg_fp(r));
            },
            RSize::DWord => {
                assert(text_fp(reg_text(r)) == reg_fp(r));
            },
            RSize::QWord => {
                assert(text_fp(reg_text(r)) == reg_fp(r));
            },
        },
        RName::SP => match r.size {
            RSize::Byte => {
                assert(text_fp(reg_text(r)) == reg_fp(r));
            },
            RSize::Word => {
                assert(text_fp(reg_text(r)) == reg_fp(r));
            },
            RSize::DWord => {
                assert(text_fp(reg_text(r)) == reg_fp(r));
            },
            RSize::QWord => {
                assert(text_fp(reg_text(r)) == reg_fp(r));
            },
        },
        RName::R8 => match r.size {
            RSize::Byte => {
                assert(text_fp(reg_text(r)) == reg_fp(r));
            },
            RSize::Word => {
                assert(text_fp(reg_text(r)) == reg_fp(r));
            },
            RSize::DWord => {
                assert(text_fp(reg_text(r)) == reg_fp(r));
            },
            RSize::QWord => {
                assert(text_fp(reg_text(r)) == reg_fp(r));
            },
        },
        RName::R9 => match r.size {
            RSize::Byte => {
                assert(text_fp(reg_text(r)) == reg_fp(r));
            },
            RSize::Word => {
                assert(text_fp(reg_text(r)) == reg_fp(r));
            },
            RSize::DWord => {
                assert(text_fp(reg_text(r)) == reg_fp(r));
            },
            RSize::QWord => {
                assert(text_fp(reg_text(r)) == reg_fp(r));
            },
        },
        RName::R10 => match r.size {
            RSize::Byte => {
                assert(text_fp(reg_text(r)) == reg_fp(r));
            },
            RSize::Word => {
                assert(text_fp(reg_text(r)) == reg_fp(r));
            },
            RSize::DWord => {
                assert(text_fp(reg_text(r)) == reg_fp(r));
            },
            RSize::QWord => {
                assert(text_fp(reg_text(r)) == reg_fp(r));
            },
        },
        RName::R11 => match r.size {
            RSize::Byte => {
                assert(text_fp(reg_text(r)) == reg_fp(r));
            },
            RSize::Word => {
                assert(text_fp(reg_text(r)) == reg_fp(r));
            },
            RSize::DWord => {
                assert(text_fp(reg_text(r)) == reg_fp(r));
            },
            RSize::QWord => {
                assert(text_fp(reg_text(r)) == reg_fp(r));
            },
        },
        RName::R12 => match r.size {
            RSize::Byte => {
                assert(text_fp(reg_text(r)) == reg_fp(r));
            },
            RSize::Word => {
                assert(text_fp(reg_text(r)) == reg_fp(r));
            },
            RSize::DWord => {
                assert(text_fp(reg_text(r)) == reg_fp(r));
            },
            RSize::QWord => {
                assert(text_fp(reg_text(r)) == reg_fp(r));
            },
        },
        RName::R13 => match r.size {
            RSize::Byte => {
                assert(text_fp(reg_text(r)) == reg_fp(r));
            },
            RSize::Word => {
                assert(text_fp(reg_text(r)) == reg_fp(r));
            },
            RSize::DWord => {
                assert(text_fp(reg_text(r)) == reg_fp(r));
            },
            RSize::QWord => {
                assert(text_fp(reg_text(r)) == reg_fp(r));
            },
        },
        RName::R14 => match r.size {
            RSize::Byte => {
                assert(text_fp(reg_text(r)) == reg_fp(r));
            },
            RSize::Word => {
                assert(text_fp(reg_text(r)) == reg_fp(r));
            },
            RSize::DWord => {
                assert(text_fp(reg_text(r)) == reg_fp(r));
            },
            RSize::QWord => {
                assert(text_fp(reg_text(r)) == reg_fp(r));
            },
        },
        RName::R15 => match r.size {
            RSize::Byte => {
                assert(text_fp(reg_text(r)) == reg_fp(r));
            },
            RSize::Word => {
                assert(text_fp(reg_text(r)) == reg_fp(r));
            },
            RSize::DWord => {
                assert(text_fp(reg_text(r)) == reg_fp(r));
            },
            RSize::QWord => {
                assert(text_fp(reg_text(r)) == reg_fp(r));
            },
        },
    }
}

/// Law: register rendering is collision-free. Two registers with distinct
/// (name, width) pairs render to distinct spellings, so each of the 64
/// catalog constants has its canonical lowercase mnemonic to itself, and no
/// two constants share a spelling.
pub proof fn lemma_reg_text_injective(r1: Reg, r2: Reg)
    requires
        r1 != r2,
    ensures
        reg_text(r1) != reg_text(r2),
{
    lemma_reg_text_fp(r1);
    lemma_reg_text_fp(r2);
    assert(reg_fp(r1) != reg_fp(r2));
}

} // verus!
