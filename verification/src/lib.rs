//! A typed builder for emitting x86-64 general-purpose instructions as NASM
//! assembly text.
//!
//! The crate models registers ([`gp_regs`]), memory addressing modes
//! ([`mem`]), operands ([`operand`]) and condition codes ([`writer`]) as
//! plain value types, and emits instructions through an abstract contract
//! ([`writer::X86Writer`]) whose concrete implementation
//! ([`nasm::NasmWriter`]) appends exactly one line of NASM syntax per call
//! to an in-memory buffer. The exact text of every line is pinned down,
//! character by character, by the spec functions in [`render`], and each
//! emission operation is verified against them.
//!
//! The builder never validates architectural legality of an operand
//! combination: it is a syntax transducer, and what it is asked to emit is
//! the caller's responsibility.

pub mod gp_regs;
pub mod mem;
pub mod nasm;
pub mod operand;
pub mod render;
pub mod writer;
