//! The register model: a named, sized general-purpose register, and the
//! catalog of the 64 well-known register constants.

use vstd::prelude::*;

use crate::mem::Mem;

verus! {

/// A general-purpose register: a name paired with an operand width.
#[derive(Copy, Clone, Debug, PartialEq, Eq, Hash, Structural)]
pub struct Reg {
    pub name: RName,
    pub size: RSize,
}

/// The register value with the given name and width.
pub open spec fn reg(name: RName, size: RSize) -> Reg {
    Reg { name, size }
}

impl Reg {
    /// The same register with its name replaced.
    pub fn with_name(self, name: RName) -> (r: Reg)
        ensures
            r == reg(name, self.size),
    {
        Reg { name, size: self.size }
    }

    /// The same register with its width replaced.
    pub fn with_size(self, size: RSize) -> (r: Reg)
        ensures
            r == reg(self.name, size),
    {
        Reg { name: self.name, size }
    }

    /// A memory operand whose base is this register and whose other fields
    /// are all empty.
    pub fn mem(self) -> (m: Mem<'static>)
        ensures
            m.base == Some(self),
            m.index is None,
            m.offset == 0,
            m.label is None,
            m.size is None,
    {
        Mem::new().based(self)
    }
}

/// The sixteen register names of the x86-64 general-purpose file.
#[derive(Copy, Clone, Debug, PartialEq, Eq, Hash, Structural)]
pub enum RName {
    A,
    B,
    C,
    D,
    DI,
    SI,
    BP,
    SP,
    R8,
    R9,
    R10,
    R11,
    R12,
    R13,
    R14,
    R15,
}

impl RName {
    /// The register with this name at the given width.
    pub fn with_size(self, size: RSize) -> (r: Reg)
        ensures
            r == reg(self, size),
    {
        Reg { name: self, size }
    }
}

/// The four operand widths a general-purpose register can have.
#[derive(Copy, Clone, Debug, PartialEq, Eq, Hash, Structural)]
pub enum RSize {
    Byte,
    Word,
    DWord,
    QWord,
}

impl RSize {
    /// The register with the given name at this width.
    pub fn with_name(self, name: RName) -> (r: Reg)
        ensures
            r == reg(name, self),
    {
        Reg { name, size: self }
    }
}

/// Law: a register is built the same whether the name or the width comes
/// first, the pair determines the value, and registers with distinct
/// (name, width) pairs are distinct values. Together with the contracts of
/// [`RName::with_size`] and [`RSize::with_name`], which both return
/// [`reg`]`(name, size)`, this makes the 64 catalog entries pairwise
/// distinct.
pub proof fn lemma_reg_pairs_distinct(n1: RName, s1: RSize, n2: RName, s2: RSize)
    ensures
        reg(n1, s1).name == n1,
        reg(n1, s1).size == s1,
        reg(n1, s1) == reg(n2, s2) <==> (n1 == n2 && s1 == s2),
{
}

/// The catalog register `al`.
pub fn al() -> (r: Reg)
    ensures
        r == reg(RName::A, RSize::Byte),
{
    Reg { name: RName::A, size: RSize::Byte }
}

/// The catalog register `ax`.
pub fn ax() -> (r: Reg)
    ensures
        r == reg(RName::A, RSize::Word),
{
    Reg { name: RName::A, size: RSize::Word }
}

/// The catalog register `eax`.
pub fn eax() -> (r: Reg)
    ensures
        r == reg(RName::A, RSize::DWord),
{
    Reg { name: RName::A, size: RSize::DWord }
}

/// The catalog register `rax`.
pub fn rax() -> (r: Reg)
    ensures
        r == reg(RName::A, RSize::QWord),
{
    Reg { name: RName::A, size: RSize::QWord }
}

/// The catalog register `bl`.
pub fn bl() -> (r: Reg)
    ensures
        r == reg(RName::B, RSize::Byte),
{
    Reg { name: RName::B, size: RSize::Byte }
}

/// The catalog register `bx`.
pub fn bx() -> (r: Reg)
    ensures
        r == reg(RName::B, RSize::Word),
{
    Reg { name: RName::B, size: RSize::Word }
}

/// The catalog register `ebx`.
pub fn ebx() -> (r: Reg)
    ensures
        r == reg(RName::B, RSize::DWord),
{
    Reg { name: RName::B, size: RSize::DWord }
}

/// The catalog register `rbx`.
pub fn rbx() -> (r: Reg)
    ensures
        r == reg(RName::B, RSize::QWord),
{
    Reg { name: RName::B, size: RSize::QWord }
}

/// The catalog register `cl`.
pub fn cl() -> (r: Reg)
    ensures
        r == reg(RName::C, RSize::Byte),
{
    Reg { name: RName::C, size: RSize::Byte }
}

/// The catalog register `cx`.
pub fn cx() -> (r: Reg)
    ensures
        r == reg(RName::C, RSize::Word),
{
    Reg { name: RName::C, size: RSize::Word }
}

/// The catalog register `ecx`.
pub fn ecx() -> (r: Reg)
    ensures
        r == reg(RName::C, RSize::DWord),
{
    Reg { name: RName::C, size: RSize::DWord }
}

/// The catalog register `rcx`.
pub fn rcx() -> (r: Reg)
    ensures
        r == reg(RName::C, RSize::QWord),
{
    Reg { name: RName::C, size: RSize::QWord }
}

/// The catalog register `dl`.
pub fn dl() -> (r: Reg)
    ensures
        r == reg(RName::D, RSize::Byte),
{
    Reg { name: RName::D, size: RSize::Byte }
}

/// The catalog register `dx`.
pub fn dx() -> (r: Reg)
    ensures
        r == reg(RName::D, RSize::Word),
{
    Reg { name: RName::D, size: RSize::Word }
}

/// The catalog register `edx`.
pub fn edx() -> (r: Reg)
    ensures
        r == reg(RName::D, RSize::DWord),
{
    Reg { name: RName::D, size: RSize::DWord }
}

/// The catalog register `rdx`.
pub fn rdx() -> (r: Reg)
    ensures
        r == reg(RName::D, RSize::QWord),
{
    Reg { name: RName::D, size: RSize::QWord }
}

/// The catalog register `dil`.
pub fn dil() -> (r: Reg)
    ensures
        r == reg(RName::DI, RSize::Byte),
{
    Reg { name: RName::DI, size: RSize::Byte }
}

/// The catalog register `di`.
pub fn di() -> (r: Reg)
    ensures
        r == reg(RName::DI, RSize::Word),
{
    Reg { name: RName::DI, size: RSize::Word }
}

/// The catalog register `edi`.
pub fn edi() -> (r: Reg)
    ensures
        r == reg(RName::DI, RSize::DWord),
{
    Reg { name: RName::DI, size: RSize::DWord }
}

/// The catalog register `rdi`.
pub fn rdi() -> (r: Reg)
    ensures
        r == reg(RName::DI, RSize::QWord),
{
    Reg { name: RName::DI, size: RSize::QWord }
}

/// The catalog register `sil`.
pub fn sil() -> (r: Reg)
    ensures
        r == reg(RName::SI, RSize::Byte),
{
    Reg { name: RName::SI, size: RSize::Byte }
}

/// The catalog register `si`.
pub fn si() -> (r: Reg)
    ensures
        r == reg(RName::SI, RSize::Word),
{
    Reg { name: RName::SI, size: RSize::Word }
}

/// The catalog register `esi`.
pub fn esi() -> (r: Reg)
    ensures
        r == reg(RName::SI, RSize::DWord),
{
    Reg { name: RName::SI, size: RSize::DWord }
}

/// The catalog register `rsi`.
pub fn rsi() -> (r: Reg)
    ensures
        r == reg(RName::SI, RSize::QWord),
{
    Reg { name: RName::SI, size: RSize::QWord }
}

/// The catalog register `bpl`.
pub fn bpl() -> (r: Reg)
    ensures
        r == reg(RName::BP, RSize::Byte),
{
    Reg { name: RName::BP, size: RSize::Byte }
}

/// The catalog register `bp`.
pub fn bp() -> (r: Reg)
    ensures
        r == reg(RName::BP, RSize::Word),
{
    Reg { name: RName::BP, size: RSize::Word }
}

/// The catalog register `ebp`.
pub fn ebp() -> (r: Reg)
    ensures
        r == reg(RName::BP, RSize::DWord),
{
    Reg { name: RName::BP, size: RSize::DWord }
}

/// The catalog register `rbp`.
pub fn rbp() -> (r: Reg)
    ensures
        r == reg(RName::BP, RSize::QWord),
{
    Reg { name: RName::BP, size: RSize::QWord }
}

/// The catalog register `spl`.
pub fn spl() -> (r: Reg)
    ensures
        r == reg(RName::SP, RSize::Byte),
{
    Reg { name: RName::SP, size: RSize::Byte }
}

/// The catalog register `sp`.
pub fn sp() -> (r: Reg)
    ensures
        r == reg(RName::SP, RSize::Word),
{
    Reg { name: RName::SP, size: RSize::Word }
}

/// The catalog register `esp`.
pub fn esp() -> (r: Reg)
    ensures
        r == reg(RName::SP, RSize::DWord),
{
    Reg { name: RName::SP, size: RSize::DWord }
}

/// The catalog register `rsp`.
pub fn rsp() -> (r: Reg)
    ensures
        r == reg(RName::SP, RSize::QWord),
{
    Reg { name: RName::SP, size: RSize::QWord }
}

/// The catalog register `r8b`.
pub fn r8b() -> (r: Reg)
    ensures
        r == reg(RName::R8, RSize::Byte),
{
    Reg { name: RName::R8, size: RSize::Byte }
}

/// The catalog register `r8w`.
pub fn r8w() -> (r: Reg)
    ensures
        r == reg(RName::R8, RSize::Word),
{
    Reg { name: RName::R8, size: RSize::Word }
}

/// The catalog register `r8d`.
pub fn r8d() -> (r: Reg)
    ensures
        r == reg(RName::R8, RSize::DWord),
{
    Reg { name: RName::R8, size: RSize::DWord }
}

/// The catalog register `r8`.
pub fn r8() -> (r: Reg)
    ensures
        r == reg(RName::R8, RSize::QWord),
{
    Reg { name: RName::R8, size: RSize::QWord }
}

/// The catalog register `r9b`.
pub fn r9b() -> (r: Reg)
    ensures
        r == reg(RName::R9, RSize::Byte),
{
    Reg { name: RName::R9, size: RSize::Byte }
}

/// The catalog register `r9w`.
pub fn r9w() -> (r: Reg)
    ensures
        r == reg(RName::R9, RSize::Word),
{
    Reg { name: RName::R9, size: RSize::Word }
}

/// The catalog register `r9d`.
pub fn r9d() -> (r: Reg)
    ensures
        r == reg(RName::R9, RSize::DWord),
{
    Reg { name: RName::R9, size: RSize::DWord }
}

/// The catalog register `r9`.
pub fn r9() -> (r: Reg)
    ensures
        r == reg(RName::R9, RSize::QWord),
{
    Reg { name: RName::R9, size: RSize::QWord }
}

/// The catalog register `r10b`.
pub fn r10b() -> (r: Reg)
    ensures
        r == reg(RName::R10, RSize::Byte),
{
    Reg { name: RName::R10, size: RSize::Byte }
}

/// The catalog register `r10w`.
pub fn r10w() -> (r: Reg)
    ensures
        r == reg(RName::R10, RSize::Word),
{
    Reg { name: RName::R10, size: RSize::Word }
}

/// The catalog register `r10d`.
pub fn r10d() -> (r: Reg)
    ensures
        r == reg(RName::R10, RSize::DWord),
{
    Reg { name: RName::R10, size: RSize::DWord }
}

/// The catalog register `r10`.
pub fn r10() -> (r: Reg)
    ensures
        r == reg(RName::R10, RSize::QWord),
{
    Reg { name: RName::R10, size: RSize::QWord }
}

/// The catalog register `r11b`.
pub fn r11b() -> (r: Reg)
    ensures
        r == reg(RName::R11, RSize::Byte),
{
    Reg { name: RName::R11, size: RSize::Byte }
}

/// The catalog register `r11w`.
pub fn r11w() -> (r: Reg)
    ensures
        r == reg(RName::R11, RSize::Word),
{
    Reg { name: RName::R11, size: RSize::Word }
}

/// The catalog register `r11d`.
pub fn r11d() -> (r: Reg)
    ensures
        r == reg(RName::R11, RSize::DWord),
{
    Reg { name: RName::R11, size: RSize::DWord }
}

/// The catalog register `r11`.
pub fn r11() -> (r: Reg)
    ensures
        r == reg(RName::R11, RSize::QWord),
{
    Reg { name: RName::R11, size: RSize::QWord }
}

/// The catalog register `r12b`.
pub fn r12b() -> (r: Reg)
    ensures
        r == reg(RName::R12, RSize::Byte),
{
    Reg { name: RName::R12, size: RSize::Byte }
}

/// The catalog register `r12w`.
pub fn r12w() -> (r: Reg)
    ensures
        r == reg(RName::R12, RSize::Word),
{
    Reg { name: RName::R12, size: RSize::Word }
}

/// The catalog register `r12d`.
pub fn r12d() -> (r: Reg)
    ensures
        r == reg(RName::R12, RSize::DWord),
{
    Reg { name: RName::R12, size: RSize::DWord }
}

/// The catalog register `r12`.
pub fn r12() -> (r: Reg)
    ensures
        r == reg(RName::R12, RSize::QWord),
{
    Reg { name: RName::R12, size: RSize::QWord }
}

/// The catalog register `r13b`.
pub fn r13b() -> (r: Reg)
    ensures
        r == reg(RName::R13, RSize::Byte),
{
    Reg { name: RName::R13, size: RSize::Byte }
}

/// The catalog register `r13w`.
pub fn r13w() -> (r: Reg)
    ensures
        r == reg(RName::R13, RSize::Word),
{
    Reg { name: RName::R13, size: RSize::Word }
}

/// The catalog register `r13d`.
pub fn r13d() -> (r: Reg)
    ensures
        r == reg(RName::R13, RSize::DWord),
{
    Reg { name: RName::R13, size: RSize::DWord }
}

/// The catalog register `r13`.
pub fn r13() -> (r: Reg)
    ensures
        r == reg(RName::R13, RSize::QWord),
{
    Reg { name: RName::R13, size: RSize::QWord }
}

/// The catalog register `r14b`.
pub fn r14b() -> (r: Reg)
    ensures
        r == reg(RName::R14, RSize::Byte),
{
    Reg { name: RName::R14, size: RSize::Byte }
}

/// The catalog register `r14w`.
pub fn r14w() -> (r: Reg)
    ensures
        r == reg(RName::R14, RSize::Word),
{
    Reg { name: RName::R14, size: RSize::Word }
}

/// The catalog register `r14d`.
pub fn r14d() -> (r: Reg)
    ensures
        r == reg(RName::R14, RSize::DWord),
{
    Reg { name: RName::R14, size: RSize::DWord }
}

/// The catalog register `r14`.
pub fn r14() -> (r: Reg)
    ensures
        r == reg(RName::R14, RSize::QWord),
{
    Reg { name: RName::R14, size: RSize::QWord }
}

/// The catalog register `r15b`.
pub fn r15b() -> (r: Reg)
    ensures
        r == reg(RName::R15, RSize::Byte),
{
    Reg { name: RName::R15, size: RSize::Byte }
}

/// The catalog register `r15w`.
pub fn r15w() -> (r: Reg)
    ensures
        r == reg(RName::R15, RSize::Word),
{
    Reg { name: RName::R15, size: RSize::Word }
}

/// The catalog register `r15d`.
pub fn r15d() -> (r: Reg)
    ensures
        r == reg(RName::R15, RSize::DWord),
{
    Reg { name: RName::R15, size: RSize::DWord }
}

/// The catalog register `r15`.
pub fn r15() -> (r: Reg)
    ensures
        r == reg(RName::R15, RSize::QWord),
{
    Reg { name: RName::R15, size: RSize::QWord }
}

} // verus!
