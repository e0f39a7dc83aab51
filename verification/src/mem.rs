//! The memory operand model: a composable addressing mode built from an
//! optional base register, an optional scaled index register, a 64-bit
//! displacement with wrap-around accumulation, an optional label reference
//! and an optional operand-size tag.

use vstd::prelude::*;

use crate::gp_regs::Reg;
use crate::operand::OSize;

verus! {

/// A memory operand. Every field is optional: each builder method overwrites
/// only its own field (last write wins), no combination of fields is
/// rejected, and an entirely empty value is allowed and renders as `[]`.
#[derive(Copy, Clone, Debug, PartialEq, Eq, Hash)]
pub struct Mem<'a> {
    pub base: Option<Reg>,
    pub index: Option<(Reg, Scale)>,
    pub offset: i64,
    pub label: Option<&'a str>,
    pub size: Option<OSize>,
}

/// The multiplier applied to an index register's value.
#[derive(Copy, Clone, Debug, PartialEq, Eq, Hash, Structural)]
pub enum Scale {
    One,
    Two,
    Four,
    Eight,
}

/// The value `v` reduced to the range of `i64` by wrap-around (two's
/// complement) arithmetic: the representative of `v` modulo 2^64.
pub open spec fn wrap_i64(v: int) -> i64 {
    let m = v % 0x1_0000_0000_0000_0000;
    if m >= 0x8000_0000_0000_0000 {
        (m - 0x1_0000_0000_0000_0000) as i64
    } else {
        m as i64
    }
}

impl<'a> Mem<'a> {
    /// This operand with `v` wrap-added to its displacement and every other
    /// field unchanged.
    pub open spec fn spec_displaced(self, v: int) -> Mem<'a> {
        Mem { offset: wrap_i64(self.offset + v), ..self }
    }

    /// The same operand with its base register set.
    pub fn based(self, base: Reg) -> (r: Self)
        ensures
            r == (Mem { base: Some(base), ..self }),
    {
        Mem { base: Some(base), ..self }
    }

    /// The same operand with its index register set at unit scale.
    pub fn indexed(self, index: Reg) -> (r: Self)
        ensures
            r == (Mem { index: Some((index, Scale::One)), ..self }),
    {
        self.indexed_scaled(index, Scale::One)
    }

    /// The same operand with its index register and scale set.
    pub fn indexed_scaled(self, index: Reg, scale: Scale) -> (r: Self)
        ensures
            r == (Mem { index: Some((index, scale)), ..self }),
    {
        Mem { index: Some((index, scale)), ..self }
    }

    /// The same operand with its label reference set.
    pub fn labeled(self, label: &'a str) -> (r: Self)
        ensures
            r == (Mem { label: Some(label), ..self }),
    {
        Mem { label: Some(label), ..self }
    }

    /// The same operand with its explicit operand-size tag set.
    pub fn sized(self, size: OSize) -> (r: Self)
        ensures
            r == (Mem { size: Some(size), ..self }),
    {
        Mem { size: Some(size), ..self }
    }

    /// The same operand with the signed value wrap-added to its displacement.
    pub fn displaced_i64(self, v: i64) -> (r: Self)
        ensures
            r == self.spec_displaced(v as int),
    {
        proof {
            lemma_wrapping_add_is_wrap(self.offset, v);
        }
        Mem { offset: self.offset.wrapping_add(v), ..self }
    }

    /// The same operand with the signed value sign-extended and wrap-added to
    /// its displacement.
    pub fn displaced_i32(self, v: i32) -> (r: Self)
        ensures
            r == self.spec_displaced(v as int),
    {
        self.displaced_i64(v as i64)
    }

    /// The same operand with the signed value sign-extended and wrap-added to
    /// its displacement.
    pub fn displaced_i16(self, v: i16) -> (r: Self)
        ensures
            r == self.spec_displaced(v as int),
    {
        self.displaced_i64(v as i64)
    }

    /// The same operand with the signed value sign-extended and wrap-added to
    /// its displacement.
    pub fn displaced_i8(self, v: i8) -> (r: Self)
        ensures
            r == self.spec_displaced(v as int),
    {
        self.displaced_i64(v as i64)
    }

    /// The same operand with the unsigned value zero-extended and wrap-added
    /// to its displacement.
    pub fn displaced_u64(self, v: u64) -> (r: Self)
        ensures
            r == self.spec_displaced(v as int),
    {
        proof {
            lemma_wrapping_add_unsigned_is_wrap(self.offset, v);
        }
        Mem { offset: self.offset.wrapping_add_unsigned(v), ..self }
    }

    /// The same operand with the unsigned value zero-extended and wrap-added
    /// to its displacement.
    pub fn displaced_u32(self, v: u32) -> (r: Self)
        ensures
            r == self.spec_displaced(v as int),
    {
        self.displaced_u64(v as u64)
    }

    /// The same operand with the unsigned value zero-extended and wrap-added
    /// to its displacement.
    pub fn displaced_u16(self, v: u16) -> (r: Self)
        ensures
            r == self.spec_displaced(v as int),
    {
        self.displaced_u64(v as u64)
    }

    /// The same operand with the unsigned value zero-extended and wrap-added
    /// to its displacement.
    pub fn displaced_u8(self, v: u8) -> (r: Self)
        ensures
            r == self.spec_displaced(v as int),
    {
        self.displaced_u64(v as u64)
    }
}

impl Mem<'static> {
    /// The entirely empty memory operand.
    pub fn new() -> (r: Self)
        ensures
            r.base is None,
            r.index is None,
            r.offset == 0,
            r.label is None,
            r.size is None,
    {
        Mem { base: None, index: None, offset: 0, label: None, size: None }
    }
}

/// `i64::wrapping_add` computes the wrap-around sum.
proof fn lemma_wrapping_add_is_wrap(a: i64, b: i64)
    ensures
        vstd::wrapping::i64_specs::wrapping_add(a, b) == wrap_i64(a as int + b as int),
{
    let s = a as int + b as int;
    lemma_wrap_in_range(s);
}

/// `i64::wrapping_add_unsigned` computes the wrap-around sum.
proof fn lemma_wrapping_add_unsigned_is_wrap(a: i64, b: u64)
    ensures
        vstd::wrapping::i64_specs::wrapping_add_unsigned(a, b) == wrap_i64(a as int + b as int),
{
    let s = a as int + b as int;
    lemma_wrap_in_range(s);
}

/// For sums of two 64-bit values the modulo in [`wrap_i64`] reduces to at
/// most one addition or subtraction of 2^64.
proof fn lemma_wrap_in_range(s: int)
    requires
        -0x1_0000_0000_0000_0000 <= s < 0x2_0000_0000_0000_0000,
    ensures
        0 <= s < 0x1_0000_0000_0000_0000 ==> s % 0x1_0000_0000_0000_0000 == s,
        -0x1_0000_0000_0000_0000 <= s < 0 ==> s % 0x1_0000_0000_0000_0000 == s
            + 0x1_0000_0000_0000_0000,
        0x1_0000_0000_0000_0000 <= s < 0x2_0000_0000_0000_0000 ==> s
            % 0x1_0000_0000_0000_0000 == s - 0x1_0000_0000_0000_0000,
{
    let m = 0x1_0000_0000_0000_0000;
    if 0 <= s < m {
        vstd::arithmetic::div_mod::lemma_small_mod(s as nat, m as nat);
    } else if s < 0 {
        vstd::arithmetic::div_mod::lemma_mod_multiples_vanish(1, s, m);
        vstd::arithmetic::div_mod::lemma_small_mod((s + m) as nat, m as nat);
    } else {
        vstd::arithmetic::div_mod::lemma_mod_multiples_vanish(1, s - m, m);
        vstd::arithmetic::div_mod::lemma_small_mod((s - m) as nat, m as nat);
    }
}

/// Wrap-adding is congruent: once a value has been wrapped, adding more and
/// wrapping again gives the same result as wrapping the full sum once.
proof fn lemma_wrap_add_congruent(v: int, d: int)
    ensures
        wrap_i64(wrap_i64(v) + d) == wrap_i64(v + d),
{
    let m = 0x1_0000_0000_0000_0000;
    let q = v / m;
    vstd::arithmetic::div_mod::lemma_fundamental_div_mod(v, m);
    vstd::arithmetic::div_mod::lemma_mod_bound(v, m);
    if (v % m) >= 0x8000_0000_0000_0000 {
        vstd::arithmetic::div_mod::lemma_mod_multiples_vanish(-q - 1, v + d, m);
        assert(wrap_i64(v) + d == m * (-q - 1) + (v + d));
    } else {
        vstd::arithmetic::div_mod::lemma_mod_multiples_vanish(-q, v + d, m);
        assert(wrap_i64(v) + d == m * (-q) + (v + d));
    }
    assert((wrap_i64(v) + d) % m == (v + d) % m);
}

/// Law: displacement accumulation is associative modulo 2^64. Wrap-adding
/// `x` and then `y` to a memory operand's displacement yields the same value
/// as wrap-adding the wrapped sum of `x` and `y` once; every other field is
/// untouched either way.
pub proof fn lemma_displacement_assoc(m: Mem, x: i64, y: i64)
    ensures
        m.spec_displaced(x as int).spec_displaced(y as int) == m.spec_displaced(
            wrap_i64(x as int + y as int) as int,
        ),
{
    lemma_wrap_add_congruent(m.offset + x, y as int);
    lemma_wrap_add_congruent(x as int + y as int, m.offset as int);
    assert(m.offset + wrap_i64(x as int + y as int) == wrap_i64(x as int + y as int)
        + m.offset as int);
}

} // verus!
