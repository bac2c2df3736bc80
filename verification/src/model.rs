//! The definition model: what the parser builds and the generator reads.
//!
//! Field and element order in the model is exactly source order; it fixes the
//! emitted field order, the constructor parameter order and the
//! default-instance field order. The model is built once and only read.

use vstd::prelude::*;
use crate::tokens::{Tok, TokV};

verus! {

/// How a field's value is supplied when the caller of the constructor does
/// not pass it.
#[derive(Debug, PartialEq, Eq)]
pub enum DefaultSpec {
    /// no `= ...` was written: the constructor takes this field as a parameter
    Absent,
    /// `= _`: use the field type's own `Default::default()`
    Implicit,
    /// `= <expr>`: the captured expression fragment, re-emitted verbatim
    Explicit(Vec<Tok>),
}

/// Mathematical value of a [`DefaultSpec`].
pub enum DefaultSpecV {
    Absent,
    Implicit,
    Explicit(Seq<TokV>),
}

impl DeepView for DefaultSpec {
    type V = DefaultSpecV;

    open spec fn deep_view(&self) -> DefaultSpecV {
        match self {
            DefaultSpec::Absent => DefaultSpecV::Absent,
            DefaultSpec::Implicit => DefaultSpecV::Implicit,
            DefaultSpec::Explicit(e) => DefaultSpecV::Explicit(e.deep_view()),
        }
    }
}

/// One outer attribute: its name and the raw tokens that follow the name
/// inside the brackets (for `#[derive(A, B)]`, the name is `derive` and the
/// arguments are `( A , B )` as tokens).
#[derive(Debug, PartialEq, Eq)]
pub struct Attr {
    pub name: String,
    pub args: Vec<Tok>,
}

/// Mathematical value of an [`Attr`].
pub struct AttrV {
    pub name: Seq<char>,
    pub args: Seq<TokV>,
}

impl DeepView for Attr {
    type V = AttrV;

    open spec fn deep_view(&self) -> AttrV {
        AttrV { name: self.name@, args: self.args.deep_view() }
    }
}

/// One named field of a brace-delimited definition.
#[derive(Debug, PartialEq, Eq)]
pub struct Field {
    pub attrs: Vec<Attr>,
    pub vis: Vec<Tok>,
    pub name: String,
    pub ty: Vec<Tok>,
    pub default: DefaultSpec,
}

/// Mathematical value of a [`Field`].
pub struct FieldV {
    pub attrs: Seq<AttrV>,
    pub vis: Seq<TokV>,
    pub name: Seq<char>,
    pub ty: Seq<TokV>,
    pub default: DefaultSpecV,
}

impl DeepView for Field {
    type V = FieldV;

    open spec fn deep_view(&self) -> FieldV {
        FieldV {
            attrs: self.attrs.deep_view(),
            vis: self.vis.deep_view(),
            name: self.name@,
            ty: self.ty.deep_view(),
            default: self.default.deep_view(),
        }
    }
}

/// One element of a positional definition: a field without a name, its
/// position is its identity.
#[derive(Debug, PartialEq, Eq)]
pub struct Element {
    pub attrs: Vec<Attr>,
    pub vis: Vec<Tok>,
    pub ty: Vec<Tok>,
    pub default: DefaultSpec,
}

/// Mathematical value of an [`Element`].
pub struct ElementV {
    pub attrs: Seq<AttrV>,
    pub vis: Seq<TokV>,
    pub ty: Seq<TokV>,
    pub default: DefaultSpecV,
}

impl DeepView for Element {
    type V = ElementV;

    open spec fn deep_view(&self) -> ElementV {
        ElementV {
            attrs: self.attrs.deep_view(),
            vis: self.vis.deep_view(),
            ty: self.ty.deep_view(),
            default: self.default.deep_view(),
        }
    }
}

/// One generic parameter: a lifetime or a type parameter, with the raw
/// tokens of its bounds (empty when it has none).
#[derive(Debug, PartialEq, Eq)]
pub struct GenParam {
    pub is_lifetime: bool,
    pub name: String,
    pub bounds: Vec<Tok>,
}

/// Mathematical value of a [`GenParam`].
pub struct GenParamV {
    pub is_lifetime: bool,
    pub name: Seq<char>,
    pub bounds: Seq<TokV>,
}

impl DeepView for GenParam {
    type V = GenParamV;

    open spec fn deep_view(&self) -> GenParamV {
        GenParamV { is_lifetime: self.is_lifetime, name: self.name@, bounds: self.bounds.deep_view() }
    }
}

/// The common header of both definition shapes.
#[derive(Debug, PartialEq, Eq)]
pub struct Header {
    pub attrs: Vec<Attr>,
    pub vis: Vec<Tok>,
    pub name: String,
    pub params: Vec<GenParam>,
    /// the predicates after the `where` keyword, verbatim; `None` when no
    /// `where` clause was written
    pub where_clause: Option<Vec<Tok>>,
}

/// Mathematical value of a [`Header`].
pub struct HeaderV {
    pub attrs: Seq<AttrV>,
    pub vis: Seq<TokV>,
    pub name: Seq<char>,
    pub params: Seq<GenParamV>,
    pub where_clause: Option<Seq<TokV>>,
}

impl DeepView for Header {
    type V = HeaderV;

    open spec fn deep_view(&self) -> HeaderV {
        HeaderV {
            attrs: self.attrs.deep_view(),
            vis: self.vis.deep_view(),
            name: self.name@,
            params: self.params.deep_view(),
            where_clause: self.where_clause.deep_view(),
        }
    }
}

/// A brace-delimited definition.
#[derive(Debug, PartialEq, Eq)]
pub struct BracedDef {
    pub header: Header,
    pub fields: Vec<Field>,
}

/// Mathematical value of a [`BracedDef`].
pub struct BracedDefV {
    pub header: HeaderV,
    pub fields: Seq<FieldV>,
}

impl DeepView for BracedDef {
    type V = BracedDefV;

    open spec fn deep_view(&self) -> BracedDefV {
        BracedDefV { header: self.header.deep_view(), fields: self.fields.deep_view() }
    }
}

/// A parenthesized (positional) definition.
#[derive(Debug, PartialEq, Eq)]
pub struct ParenthesizedDef {
    pub header: Header,
    pub elements: Vec<Element>,
}

/// Mathematical value of a [`ParenthesizedDef`].
pub struct ParenthesizedDefV {
    pub header: HeaderV,
    pub elements: Seq<ElementV>,
}

impl DeepView for ParenthesizedDef {
    type V = ParenthesizedDefV;

    open spec fn deep_view(&self) -> ParenthesizedDefV {
        ParenthesizedDefV { header: self.header.deep_view(), elements: self.elements.deep_view() }
    }
}

/// The two shapes a definition can take.
#[derive(Debug, PartialEq, Eq)]
pub enum StructKind {
    Braced(BracedDef),
    Parenthesized(ParenthesizedDef),
}

/// Mathematical value of a [`StructKind`].
pub enum StructKindV {
    Braced(BracedDefV),
    Parenthesized(ParenthesizedDefV),
}

impl DeepView for StructKind {
    type V = StructKindV;

    open spec fn deep_view(&self) -> StructKindV {
        match self {
            StructKind::Braced(b) => StructKindV::Braced(b.deep_view()),
            StructKind::Parenthesized(p) => StructKindV::Parenthesized(p.deep_view()),
        }
    }
}

} // verus!
