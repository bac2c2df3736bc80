//! A source-to-source transform for struct definitions with per-field
//! default values.
//!
//! The input is one struct definition, named or positional, in which a field
//! may carry `= _` (use the field type's own `Default`) or `= <expr>` (use
//! that expression). The transform emits the bare definition with the
//! annotations stripped, a `new` constructor taking exactly the fields that
//! have no default, and — when the derive list names `Default` — a
//! hand-written `Default` impl combining the explicit and implicit defaults,
//! with `Default` removed from the derive list.

use vstd::prelude::*;

pub mod emit;
pub mod laws;
pub mod model;
pub mod parser;
pub mod rewrite;
pub mod tokens;

verus! {

use crate::tokens::{Tok, TokV, ParseError};
use crate::model::{StructKind, StructKindV};
use crate::parser::{sp_parse_definition, parse_definition};
use crate::emit::{sp_gen_braced, sp_gen_parenthesized, gen_braced, gen_parenthesized};

/// What one whole expansion produces: the emitted tokens of the definition
/// the input parses to, or the parse error. Each expansion is a pure function
/// of its input tokens: the same input always yields the same output.
pub open spec fn sp_expand(t: Seq<TokV>) -> Result<Seq<TokV>, ParseError> {
    match sp_parse_definition(t) {
        Err(e) => Err(e),
        Ok(StructKindV::Braced(b)) => Ok(sp_gen_braced(b)),
        Ok(StructKindV::Parenthesized(p)) => Ok(sp_gen_parenthesized(p)),
    }
}

/// Expand one annotated definition: parse it and emit the stripped type
/// definition, the constructor, and — when the derive list names the marker —
/// the default-instance operation. A structural parse error is fatal and
/// produces no output.
pub fn default_field_values(input: &Vec<Tok>) -> (r: Result<Vec<Tok>, ParseError>)
    ensures
        ({
            let s = sp_expand(input.deep_view());
            match r {
                Ok(out) => s == Ok::<_, ParseError>(out.deep_view()),
                Err(e) => s == Err::<Seq<TokV>, _>(e),
            }
        }),
{
    match parse_definition(input) {
        Err(e) => Err(e),
        Ok(StructKind::Braced(b)) => Ok(gen_braced(&b)),
        Ok(StructKind::Parenthesized(p)) => Ok(gen_parenthesized(&p)),
    }
}

} // verus!
