//! A miniature just-in-time code generator for element-wise array addition.
//!
//! The pieces, leaf first: a typed intermediate representation of modules,
//! functions, basic blocks and instructions (`ir`); a cursor-based
//! instruction builder (`builder`); an evaluation semantics for that
//! representation together with an interpreter proved against it (`eval`);
//! the code generator that emits an explicitly vectorized lane-wise sum and
//! the proof that the emitted code computes it (`codegen`, `vecsum`); an
//! execution engine that resolves function names to typed callables
//! (`engine`); and the laws the generated code obeys (`laws`). Every lane is
//! modeled as a 64-bit word under wrap-around addition; the native backend
//! that lowers the same shape of code to machine instructions lives outside
//! the library.

use vstd::prelude::*;

pub mod builder;
pub mod codegen;
pub mod engine;
pub mod eval;
pub mod ir;
pub mod laws;
pub mod vecsum;

verus! {

/// Two's-complement wrap-around addition of two 64-bit lane values, the
/// arithmetic that one vector-add instruction applies lane by lane.
pub open spec fn wadd(a: i64, b: i64) -> i64 {
    vstd::wrapping::i64_specs::wrapping_add(a, b)
}

/// Executable wrap-around addition of two 64-bit lane values.
pub fn lane_add(a: i64, b: i64) -> (r: i64)
    ensures
        r == wadd(a, b),
{
    a.wrapping_add(b)
}

} // verus!
