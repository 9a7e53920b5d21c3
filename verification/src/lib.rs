//! Code generation for enum reflection.
//!
//! From the declaration of an enum this library makes the tokens of an impl
//! block whose methods enumerate the fields of a value of the enum as
//! type-erased references, with the names of named fields where asked:
//! `get_fields`, `get_named_fields`, `get_fields_mut` and
//! `get_named_fields_mut`. It works on plain values: the caller parses the
//! declaration and turns the tokens into those of the host.

use vstd::prelude::*;

pub mod arm;
pub mod assemble;
pub mod decl;
pub mod expand;
pub mod laws;
pub mod semantics;
mod seqs;
pub mod token;

use crate::decl::Declaration;
use crate::expand::{expand, expansion, unsupported_shape, Diagnostic, EntryPoint};
use crate::token::Token;

verus! {

/// The derive `EnumReflect`: on an enum, the block that implements
/// `enum_reflect_extetn::EnumReflect` for it with the four accessors; on any
/// other declaration the diagnostic "EnumReflect only works on enums" at the
/// declaration's name.
pub fn enum_reflection(input: &Declaration) -> (outcome: Result<Vec<Token>, Diagnostic>)
    ensures
        match outcome {
            Ok(tokens) => input@.kind is Enum && tokens.deep_view() == expansion(
                EntryPoint::Primary,
                input@,
            ),
            Err(diagnostic) => !(input@.kind is Enum) && diagnostic@ == unsupported_shape(
                EntryPoint::Primary,
                input@,
            ),
        },
{
    expand(EntryPoint::Primary, input)
}

/// The derive `EnumReflectMut`, superseded by `EnumReflect`: on an enum, the
/// block that gives it `get_fields_mut` and `get_named_fields_mut` as methods
/// of its own; on any other declaration the diagnostic "EnumReflectMut only
/// works on enums" at the declaration's name. Each use of this derive draws
/// the advisory that [`EntryPoint::advisory`] gives for it; what is returned
/// here is the same with it.
pub fn enum_reflection_mut(input: &Declaration) -> (outcome: Result<Vec<Token>, Diagnostic>)
    ensures
        match outcome {
            Ok(tokens) => input@.kind is Enum && tokens.deep_view() == expansion(
                EntryPoint::Secondary,
                input@,
            ),
            Err(diagnostic) => !(input@.kind is Enum) && diagnostic@ == unsupported_shape(
                EntryPoint::Secondary,
                input@,
            ),
        },
{
    expand(EntryPoint::Secondary, input)
}

} // verus!
