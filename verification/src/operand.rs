//! The operand abstraction: a tagged union over registers, memory operands,
//! 64-bit immediates and label references, with size inference and widening
//! conversions from every integer width.

use vstd::prelude::*;

use crate::gp_regs::{RSize, Reg};
use crate::mem::Mem;

verus! {

/// A value an instruction-emitting operation consumes.
#[derive(Copy, Clone, Debug, PartialEq, Eq, Hash)]
pub enum Operand<'a> {
    Reg(Reg),
    Mem(Mem<'a>),
    Integer(i64),
    Label(&'a str),
}

/// An explicit operand width tag.
#[derive(Copy, Clone, Debug, PartialEq, Eq, Hash, Structural)]
pub enum OSize {
    Byte,
    Word,
    DWord,
    QWord,
}

/// The operand width that corresponds to a register width.
pub open spec fn osize_of(size: RSize) -> OSize {
    match size {
        RSize::Byte => OSize::Byte,
        RSize::Word => OSize::Word,
        RSize::DWord => OSize::DWord,
        RSize::QWord => OSize::QWord,
    }
}

impl<'a> Operand<'a> {
    /// The width of this operand: the register's width for a register, the
    /// explicit tag (if any) for a memory operand, and no width for an
    /// immediate or a label reference.
    pub open spec fn spec_size(self) -> Option<OSize> {
        match self {
            Operand::Reg(r) => Some(osize_of(r.size)),
            Operand::Mem(m) => m.size,
            Operand::Integer(_) => None,
            Operand::Label(_) => None,
        }
    }

    /// The width of this operand, if it has one.
    pub fn size(&self) -> (r: Option<OSize>)
        ensures
            r == self.spec_size(),
    {
        match self {
            Operand::Reg(reg) => Some(match reg.size {
                RSize::Byte => OSize::Byte,
                RSize::Word => OSize::Word,
                RSize::DWord => OSize::DWord,
                RSize::QWord => OSize::QWord,
            }),
            Operand::Mem(mem) => mem.size,
            Operand::Integer(_) => None,
            Operand::Label(_) => None,
        }
    }
}

impl From<RSize> for OSize {
    fn from(value: RSize) -> (r: Self) {
        match value {
            RSize::Byte => OSize::Byte,
            RSize::Word => OSize::Word,
            RSize::DWord => OSize::DWord,
            RSize::QWord => OSize::QWord,
        }
    }
}

impl vstd::std_specs::convert::FromSpecImpl<RSize> for OSize {
    open spec fn obeys_from_spec() -> bool {
        true
    }

    open spec fn from_spec(value: RSize) -> Self {
        osize_of(value)
    }
}

impl From<Reg> for Operand<'static> {
    fn from(value: Reg) -> (r: Self) {
        Operand::Reg(value)
    }
}

impl vstd::std_specs::convert::FromSpecImpl<Reg> for Operand<'static> {
    open spec fn obeys_from_spec() -> bool {
        true
    }

    open spec fn from_spec(value: Reg) -> Self {
        Operand::Reg(value)
    }
}

impl<'a> From<Mem<'a>> for Operand<'a> {
    fn from(value: Mem<'a>) -> (r: Self) {
        Operand::Mem(value)
    }
}

impl<'a> vstd::std_specs::convert::FromSpecImpl<Mem<'a>> for Operand<'a> {
    open spec fn obeys_from_spec() -> bool {
        true
    }

    open spec fn from_spec(value: Mem<'a>) -> Self {
        Operand::Mem(value)
    }
}

impl From<i64> for Operand<'static> {
    fn from(value: i64) -> (r: Self) {
        Operand::Integer(value)
    }
}

impl vstd::std_specs::convert::FromSpecImpl<i64> for Operand<'static> {
    open spec fn obeys_from_spec() -> bool {
        true
    }

    open spec fn from_spec(value: i64) -> Self {
        Operand::Integer(value)
    }
}

impl From<i32> for Operand<'static> {
    fn from(value: i32) -> (r: Self) {
        Operand::Integer(value as i64)
    }
}

impl vstd::std_specs::convert::FromSpecImpl<i32> for Operand<'static> {
    open spec fn obeys_from_spec() -> bool {
        true
    }

    open spec fn from_spec(value: i32) -> Self {
        Operand::Integer(value as i64)
    }
}

impl From<i16> for Operand<'static> {
    fn from(value: i16) -> (r: Self) {
        Operand::Integer(value as i64)
    }
}

impl vstd::std_specs::convert::FromSpecImpl<i16> for Operand<'static> {
    open spec fn obeys_from_spec() -> bool {
        true
    }

    open spec fn from_spec(value: i16) -> Self {
        Operand::Integer(value as i64)
    }
}

impl From<i8> for Operand<'static> {
    fn from(value: i8) -> (r: Self) {
        Operand::Integer(value as i64)
    }
}

impl vstd::std_specs::convert::FromSpecImpl<i8> for Operand<'static> {
    open spec fn obeys_from_spec() -> bool {
        true
    }

    open spec fn from_spec(value: i8) -> Self {
        Operand::Integer(value as i64)
    }
}

impl From<u64> for Operand<'static> {
    fn from(value: u64) -> (r: Self) {
        Operand::Integer(value as i64)
    }
}

impl vstd::std_specs::convert::FromSpecImpl<u64> for Operand<'static> {
    open spec fn obeys_from_spec() -> bool {
        true
    }

    open spec fn from_spec(value: u64) -> Self {
        Operand::Integer(value as i64)
    }
}

impl From<u32> for Operand<'static> {
    fn from(value: u32) -> (r: Self) {
        Operand::Integer(value as i64)
    }
}

impl vstd::std_specs::convert::FromSpecImpl<u32> for Operand<'static> {
    open spec fn obeys_from_spec() -> bool {
        true
    }

    open spec fn from_spec(value: u32) -> Self {
        Operand::Integer(value as i64)
    }
}

impl From<u16> for Operand<'static> {
    fn from(value: u16) -> (r: Self) {
        Operand::Integer(value as i64)
    }
}

impl vstd::std_specs::convert::FromSpecImpl<u16> for Operand<'static> {
    open spec fn obeys_from_spec() -> bool {
        true
    }

    open spec fn from_spec(value: u16) -> Self {
        Operand::Integer(value as i64)
    }
}

impl From<u8> for Operand<'static> {
    fn from(value: u8) -> (r: Self) {
        Operand::Integer(value as i64)
    }
}

impl vstd::std_specs::convert::FromSpecImpl<u8> for Operand<'static> {
    open spec fn obeys_from_spec() -> bool {
        true
    }

    open spec fn from_spec(value: u8) -> Self {
        Operand::Integer(value as i64)
    }
}

impl<'a> From<&'a str> for Operand<'a> {
    fn from(value: &'a str) -> (r: Self) {
        Operand::Label(value)
    }
}

impl<'a> vstd::std_specs::convert::FromSpecImpl<&'a str> for Operand<'a> {
    open spec fn obeys_from_spec() -> bool {
        true
    }

    open spec fn from_spec(value: &'a str) -> Self {
        Operand::Label(value)
    }
}

} // verus!
