//! The flat token model the whole library works on.
//!
//! A definition arrives as a sequence of lexical tokens; bracketed groups
//! appear as matching `Open`/`Close` pairs rather than as nested trees, so
//! every token is a small flat value and a captured fragment is just a
//! subsequence.

use vstd::prelude::*;

verus! {

/// The three bracket kinds a token sequence can contain.
#[derive(Clone, Copy, PartialEq, Eq, Structural, Debug)]
pub enum Delim {
    Paren,
    Bracket,
    Brace,
}

/// One lexical token.
///
/// `Punct` carries the character and whether it is joined to the token that
/// follows it (so that multi-character operators such as `->` or `::` survive
/// a round trip through the model unchanged). A lifetime is one token, its
/// name stored without the leading quote.
#[derive(Debug, PartialEq, Eq)]
pub enum Tok {
    Ident(String),
    Lifetime(String),
    Punct(char, bool),
    Lit(String),
    Open(Delim),
    Close(Delim),
}

/// Mathematical value of a [`Tok`].
pub enum TokV {
    Ident(Seq<char>),
    Lifetime(Seq<char>),
    Punct(char, bool),
    Lit(Seq<char>),
    Open(Delim),
    Close(Delim),
}

impl View for Tok {
    type V = TokV;

    open spec fn view(&self) -> TokV {
        match self {
            Tok::Ident(s) => TokV::Ident(s@),
            Tok::Lifetime(s) => TokV::Lifetime(s@),
            Tok::Punct(c, j) => TokV::Punct(*c, *j),
            Tok::Lit(s) => TokV::Lit(s@),
            Tok::Open(d) => TokV::Open(*d),
            Tok::Close(d) => TokV::Close(*d),
        }
    }
}

impl DeepView for Tok {
    type V = TokV;

    open spec fn deep_view(&self) -> TokV {
        self.view()
    }
}

/// What a parse attempt ran into; `pos` is the index of the offending token
/// (or the input length, when the input ended too early).
#[derive(Clone, Copy, PartialEq, Eq, Structural, Debug)]
pub enum ErrorKind {
    /// something other than `#[...]` after the start of an attribute
    MalformedAttribute,
    /// the `struct` keyword is missing
    ExpectedStruct,
    /// an identifier was required (type name, field name, generic parameter)
    ExpectedIdent,
    /// a `:` between a field name and its type is missing
    ExpectedColon,
    /// a field or element type is empty
    ExpectedType,
    /// the default after `=` is empty
    ExpectedExpr,
    /// neither a brace-delimited nor a parenthesized body follows the header
    ExpectedBody,
    /// the terminator after a positional body is missing
    ExpectedSemicolon,
    /// a closing delimiter does not match its opener
    MismatchedDelim,
    /// the input ended in the middle of a construct
    UnexpectedEnd,
    /// tokens remain after a complete definition
    TrailingTokens,
}

/// A structural parse failure, fatal to the whole expansion.
#[derive(Clone, Copy, PartialEq, Eq, Structural, Debug)]
pub struct ParseError {
    pub kind: ErrorKind,
    pub pos: usize,
}

} // verus!
