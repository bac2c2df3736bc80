//! The code generator: from the definition model to emitted tokens.
//!
//! Everything the generator emits is stated first as a spec-level token
//! sequence; each executable function is proved to produce exactly that
//! sequence. Three fragments are emitted: the bare type definition with the
//! default annotations stripped, the `new` constructor taking exactly the
//! fields without a default, and — only when the derive list names the
//! `Default` marker — a hand-written `Default` impl, with the marker removed
//! from the derive list.

use vstd::prelude::*;
use crate::tokens::{Tok, TokV, Delim};
use crate::model::{DefaultSpec, DefaultSpecV, Attr, AttrV, Field, FieldV, Element, ElementV,
    GenParam, GenParamV, BracedDef, BracedDefV, ParenthesizedDef, ParenthesizedDefV};
use crate::parser::{lemma_dv_empty, lemma_dv_push, lemma_dv_concat};
use crate::rewrite::{sp_has_marker, sp_strip_attrs, has_derive_default, strip_default_from_derive,
    toks_dup};

verus! {

/// The decimal digit characters of `n`, most significant first.
pub open spec fn sp_dec_digits(n: nat) -> Seq<char>
    decreases n,
{
    let last = if n % 10 == 0 {
        '0'
    } else if n % 10 == 1 {
        '1'
    } else if n % 10 == 2 {
        '2'
    } else if n % 10 == 3 {
        '3'
    } else if n % 10 == 4 {
        '4'
    } else if n % 10 == 5 {
        '5'
    } else if n % 10 == 6 {
        '6'
    } else if n % 10 == 7 {
        '7'
    } else if n % 10 == 8 {
        '8'
    } else {
        '9'
    };
    if n < 10 {
        seq![last]
    } else {
        sp_dec_digits(n / 10) + seq![last]
    }
}

/// The synthesized identifier of the positional field at index `i`: an
/// underscore followed by the decimal index. It is internal to the generated
/// code and appears in no public signature of the transformed type.
pub open spec fn sp_pos_ident(i: nat) -> Seq<char> {
    seq!['_'] + sp_dec_digits(i)
}

fn digit_str(d: usize) -> (r: &'static str)
    requires
        d < 10,
    ensures
        ({
            let n: nat = d as nat;
            r@ == seq![
                if n % 10 == 0 {
                    '0'
                } else if n % 10 == 1 {
                    '1'
                } else if n % 10 == 2 {
                    '2'
                } else if n % 10 == 3 {
                    '3'
                } else if n % 10 == 4 {
                    '4'
                } else if n % 10 == 5 {
                    '5'
                } else if n % 10 == 6 {
                    '6'
                } else if n % 10 == 7 {
                    '7'
                } else if n % 10 == 8 {
                    '8'
                } else {
                    '9'
                },
            ]
        }),
{
    proof {
        reveal_strlit("0");
        reveal_strlit("1");
        reveal_strlit("2");
        reveal_strlit("3");
        reveal_strlit("4");
        reveal_strlit("5");
        reveal_strlit("6");
        reveal_strlit("7");
        reveal_strlit("8");
        reveal_strlit("9");
    }
    if d == 0 {
        "0"
    } else if d == 1 {
        "1"
    } else if d == 2 {
        "2"
    } else if d == 3 {
        "3"
    } else if d == 4 {
        "4"
    } else if d == 5 {
        "5"
    } else if d == 6 {
        "6"
    } else if d == 7 {
        "7"
    } else if d == 8 {
        "8"
    } else {
        "9"
    }
}

fn dec_digits(n: usize) -> (r: String)
    ensures
        r@ == sp_dec_digits(n as nat),
    decreases n,
{
    let d = n % 10;
    if n < 10 {
        digit_str(d).to_owned()
    } else {
        let mut s = dec_digits(n / 10);
        s.append(digit_str(d));
        s
    }
}

/// The synthesized identifier of positional field `i`.
pub fn pos_ident(i: usize) -> (r: String)
    ensures
        r@ == sp_pos_ident(i as nat),
{
    proof {
        reveal_strlit("_");
    }
    let mut s: String = "_".to_owned();
    let d = dec_digits(i);
    s.append(d.as_str());
    proof {
        assert(s@ =~= sp_pos_ident(i as nat));
    }
    s
}

/// The tokens of a call of the type's own default construction.
pub open spec fn sp_default_call() -> Seq<TokV> {
    seq![
        TokV::Ident("Default"@),
        TokV::Punct(':', true),
        TokV::Punct(':', false),
        TokV::Ident("default"@),
        TokV::Open(Delim::Paren),
        TokV::Close(Delim::Paren),
    ]
}

/// Append an owned fragment.
pub fn append_toks(out: &mut Vec<Tok>, part: Vec<Tok>)
    ensures
        final(out).deep_view() == old(out).deep_view() + part.deep_view(),
{
    let ghost a = *out;
    let ghost b = part;
    let mut p = part;
    out.append(&mut p);
    proof {
        lemma_dv_concat(a, b, *out);
    }
}

/// Append a copy of a stored fragment.
pub fn append_copy(out: &mut Vec<Tok>, part: &Vec<Tok>)
    ensures
        final(out).deep_view() == old(out).deep_view() + part.deep_view(),
{
    let p = toks_dup(part);
    append_toks(out, p);
}

/// Append one token.
pub fn push_tok(out: &mut Vec<Tok>, tk: Tok)
    ensures
        final(out).deep_view() == old(out).deep_view() + seq![tk@],
{
    let ghost a = *out;
    let ghost g = tk;
    out.push(tk);
    proof {
        lemma_dv_push(a, *out, g);
        assert(a.deep_view().push(g.deep_view()) =~= a.deep_view() + seq![g@]);
    }
}

pub fn default_call() -> (r: Vec<Tok>)
    ensures
        r.deep_view() == sp_default_call(),
{
    let mut v: Vec<Tok> = Vec::new();
    v.push(Tok::Ident("Default".to_owned()));
    v.push(Tok::Punct(':', true));
    v.push(Tok::Punct(':', false));
    v.push(Tok::Ident("default".to_owned()));
    v.push(Tok::Open(Delim::Paren));
    v.push(Tok::Close(Delim::Paren));
    proof {
        assert(v.deep_view() =~= sp_default_call());
    }
    v
}

/// One re-emitted attribute: `#`, `[`, its name, its argument tokens, `]`.
pub open spec fn sp_render_attr(a: AttrV) -> Seq<TokV> {
    seq![TokV::Punct('#', false), TokV::Open(Delim::Bracket), TokV::Ident(a.name)] + a.args
        + seq![TokV::Close(Delim::Bracket)]
}

pub open spec fn sp_render_attrs_from(attrs: Seq<AttrV>, i: int) -> Seq<TokV>
    decreases attrs.len() - i,
{
    if !(0 <= i < attrs.len()) {
        Seq::empty()
    } else {
        sp_render_attr(attrs[i]) + sp_render_attrs_from(attrs, i + 1)
    }
}

/// All attributes re-emitted in original order.
pub open spec fn sp_render_attrs(attrs: Seq<AttrV>) -> Seq<TokV> {
    sp_render_attrs_from(attrs, 0)
}

fn render_attr(a: &Attr) -> (r: Vec<Tok>)
    ensures
        r.deep_view() == sp_render_attr(a.deep_view()),
{
    let mut v: Vec<Tok> = Vec::new();
    v.push(Tok::Punct('#', false));
    v.push(Tok::Open(Delim::Bracket));
    v.push(Tok::Ident(a.name.clone()));
    proof {
        assert(v.deep_view() =~= seq![
            TokV::Punct('#', false),
            TokV::Open(Delim::Bracket),
            TokV::Ident(a.name@),
        ]);
    }
    append_copy(&mut v, &a.args);
    push_tok(&mut v, Tok::Close(Delim::Bracket));
    v
}

pub fn render_attrs_from(attrs: &Vec<Attr>, i: usize) -> (r: Vec<Tok>)
    requires
        i <= attrs.len(),
    ensures
        r.deep_view() == sp_render_attrs_from(attrs.deep_view(), i as int),
    decreases attrs.len() - i,
{
    if i >= attrs.len() {
        let v: Vec<Tok> = Vec::new();
        proof {
            lemma_dv_empty(v);
        }
        return v;
    }
    let mut v = render_attr(&attrs[i]);
    let rest = render_attrs_from(attrs, i + 1);
    append_toks(&mut v, rest);
    v
}

/// A generic parameter with its bounds, as it stands in the parameter list
/// of the impl blocks: name, then `:` and the bounds when it has any, then a
/// separating comma.
pub open spec fn sp_render_param_full(p: GenParamV) -> Seq<TokV> {
    let name = if p.is_lifetime {
        seq![TokV::Lifetime(p.name)]
    } else {
        seq![TokV::Ident(p.name)]
    };
    let bounds = if p.bounds.len() > 0 {
        seq![TokV::Punct(':', false)] + p.bounds
    } else {
        Seq::empty()
    };
    name + bounds + seq![TokV::Punct(',', false)]
}

/// A generic parameter as it stands where the type is referred to: its name
/// alone, and a separating comma.
pub open spec fn sp_render_param_short(p: GenParamV) -> Seq<TokV> {
    let name = if p.is_lifetime {
        seq![TokV::Lifetime(p.name)]
    } else {
        seq![TokV::Ident(p.name)]
    };
    name + seq![TokV::Punct(',', false)]
}

pub open spec fn sp_render_params_from(params: Seq<GenParamV>, i: int, full: bool) -> Seq<TokV>
    decreases params.len() - i,
{
    if !(0 <= i < params.len()) {
        Seq::empty()
    } else {
        (if full {
            sp_render_param_full(params[i])
        } else {
            sp_render_param_short(params[i])
        }) + sp_render_params_from(params, i + 1, full)
    }
}

/// A whole generic parameter list, with bounds (`full`) or names only;
/// nothing at all when there are no parameters.
pub open spec fn sp_render_generics(params: Seq<GenParamV>, full: bool) -> Seq<TokV> {
    if params.len() == 0 {
        Seq::empty()
    } else {
        seq![TokV::Punct('<', false)] + sp_render_params_from(params, 0, full) + seq![
            TokV::Punct('>', false),
        ]
    }
}

fn render_param(p: &GenParam, full: bool) -> (r: Vec<Tok>)
    ensures
        r.deep_view() == if full {
            sp_render_param_full(p.deep_view())
        } else {
            sp_render_param_short(p.deep_view())
        },
{
    let mut v: Vec<Tok> = Vec::new();
    if p.is_lifetime {
        v.push(Tok::Lifetime(p.name.clone()));
    } else {
        v.push(Tok::Ident(p.name.clone()));
    }
    if full && p.bounds.len() > 0 {
        push_tok(&mut v, Tok::Punct(':', false));
        append_copy(&mut v, &p.bounds);
    }
    push_tok(&mut v, Tok::Punct(',', false));
    proof {
        if full {
            assert(v.deep_view() =~= sp_render_param_full(p.deep_view()));
        } else {
            assert(v.deep_view() =~= sp_render_param_short(p.deep_view()));
        }
    }
    v
}

fn render_params_from(params: &Vec<GenParam>, i: usize, full: bool) -> (r: Vec<Tok>)
    requires
        i <= params.len(),
    ensures
        r.deep_view() == sp_render_params_from(params.deep_view(), i as int, full),
    decreases params.len() - i,
{
    if i >= params.len() {
        let v: Vec<Tok> = Vec::new();
        proof {
            lemma_dv_empty(v);
        }
        return v;
    }
    let mut v = render_param(&params[i], full);
    let rest = render_params_from(params, i + 1, full);
    append_toks(&mut v, rest);
    v
}

pub fn render_generics(params: &Vec<GenParam>, full: bool) -> (r: Vec<Tok>)
    ensures
        r.deep_view() == sp_render_generics(params.deep_view(), full),
{
    if params.len() == 0 {
        let v: Vec<Tok> = Vec::new();
        proof {
            lemma_dv_empty(v);
        }
        return v;
    }
    let mut v: Vec<Tok> = Vec::new();
    v.push(Tok::Punct('<', false));
    proof {
        assert(v.deep_view() =~= seq![TokV::Punct('<', false)]);
    }
    let inner = render_params_from(params, 0, full);
    append_toks(&mut v, inner);
    push_tok(&mut v, Tok::Punct('>', false));
    v
}

/// The re-emitted `where` clause: the keyword and the captured predicates,
/// or nothing when none was written.
pub open spec fn sp_render_where(wc: Option<Seq<TokV>>) -> Seq<TokV> {
    match wc {
        None => Seq::empty(),
        Some(w) => seq![TokV::Ident("where"@)] + w,
    }
}

pub fn render_where(wc: &Option<Vec<Tok>>) -> (r: Vec<Tok>)
    ensures
        r.deep_view() == sp_render_where(wc.deep_view()),
{
    match wc {
        None => {
            let v: Vec<Tok> = Vec::new();
            proof {
                lemma_dv_empty(v);
            }
            v
        },
        Some(w) => {
            let mut v: Vec<Tok> = Vec::new();
            v.push(Tok::Ident("where".to_owned()));
            proof {
                assert(v.deep_view() =~= seq![TokV::Ident("where"@)]);
            }
            append_copy(&mut v, w);
            v
        },
    }
}

/// A field as it stands in the emitted type: attributes, visibility, name,
/// type — the default annotation is stripped.
pub open spec fn sp_render_field_decl(f: FieldV) -> Seq<TokV> {
    sp_render_attrs(f.attrs) + f.vis + seq![TokV::Ident(f.name), TokV::Punct(':', false)] + f.ty
        + seq![TokV::Punct(',', false)]
}

pub open spec fn sp_render_field_decls_from(fs: Seq<FieldV>, i: int) -> Seq<TokV>
    decreases fs.len() - i,
{
    if !(0 <= i < fs.len()) {
        Seq::empty()
    } else {
        sp_render_field_decl(fs[i]) + sp_render_field_decls_from(fs, i + 1)
    }
}

/// The constructor parameter a field without a default becomes.
pub open spec fn sp_render_ctor_arg(f: FieldV) -> Seq<TokV> {
    seq![TokV::Ident(f.name), TokV::Punct(':', false)] + f.ty + seq![TokV::Punct(',', false)]
}

/// The constructor parameters: exactly the fields whose default is absent,
/// in original order.
pub open spec fn sp_render_ctor_args_from(fs: Seq<FieldV>, i: int) -> Seq<TokV>
    decreases fs.len() - i,
{
    if !(0 <= i < fs.len()) {
        Seq::empty()
    } else {
        (if fs[i].default == DefaultSpecV::Absent {
            sp_render_ctor_arg(fs[i])
        } else {
            Seq::empty()
        }) + sp_render_ctor_args_from(fs, i + 1)
    }
}

/// A field's initializer in the constructor body: the forwarded parameter
/// when the default is absent, the type's own default construction for `_`,
/// and the verbatim expression otherwise, evaluated fresh per call.
pub open spec fn sp_render_ctor_init(f: FieldV) -> Seq<TokV> {
    match f.default {
        DefaultSpecV::Absent => seq![TokV::Ident(f.name), TokV::Punct(',', false)],
        DefaultSpecV::Implicit => seq![TokV::Ident(f.name), TokV::Punct(':', false)]
            + sp_default_call() + seq![TokV::Punct(',', false)],
        DefaultSpecV::Explicit(e) => seq![TokV::Ident(f.name), TokV::Punct(':', false)] + e + seq![
            TokV::Punct(',', false),
        ],
    }
}

pub open spec fn sp_render_ctor_inits_from(fs: Seq<FieldV>, i: int) -> Seq<TokV>
    decreases fs.len() - i,
{
    if !(0 <= i < fs.len()) {
        Seq::empty()
    } else {
        sp_render_ctor_init(fs[i]) + sp_render_ctor_inits_from(fs, i + 1)
    }
}

/// A field's initializer in the default-instance body: every field resolves
/// to a concrete value — a field without a default takes its type's own
/// default construction, never a parameter.
pub open spec fn sp_render_dflt_init(f: FieldV) -> Seq<TokV> {
    match f.default {
        DefaultSpecV::Explicit(e) => seq![TokV::Ident(f.name), TokV::Punct(':', false)] + e + seq![
            TokV::Punct(',', false),
        ],
        _ => seq![TokV::Ident(f.name), TokV::Punct(':', false)] + sp_default_call() + seq![
            TokV::Punct(',', false),
        ],
    }
}

pub open spec fn sp_render_dflt_inits_from(fs: Seq<FieldV>, i: int) -> Seq<TokV>
    decreases fs.len() - i,
{
    if !(0 <= i < fs.len()) {
        Seq::empty()
    } else {
        sp_render_dflt_init(fs[i]) + sp_render_dflt_inits_from(fs, i + 1)
    }
}

fn render_field_decl(f: &Field) -> (r: Vec<Tok>)
    ensures
        r.deep_view() == sp_render_field_decl(f.deep_view()),
{
    let mut v = render_attrs_from(&f.attrs, 0);
    append_copy(&mut v, &f.vis);
    push_tok(&mut v, Tok::Ident(f.name.clone()));
    push_tok(&mut v, Tok::Punct(':', false));
    append_copy(&mut v, &f.ty);
    push_tok(&mut v, Tok::Punct(',', false));
    proof {
        assert(v.deep_view() =~= sp_render_field_decl(f.deep_view()));
    }
    v
}

pub fn render_field_decls_from(fs: &Vec<Field>, i: usize) -> (r: Vec<Tok>)
    requires
        i <= fs.len(),
    ensures
        r.deep_view() == sp_render_field_decls_from(fs.deep_view(), i as int),
    decreases fs.len() - i,
{
    if i >= fs.len() {
        let v: Vec<Tok> = Vec::new();
        proof {
            lemma_dv_empty(v);
        }
        return v;
    }
    let mut v = render_field_decl(&fs[i]);
    let rest = render_field_decls_from(fs, i + 1);
    append_toks(&mut v, rest);
    v
}

pub fn render_ctor_args_from(fs: &Vec<Field>, i: usize) -> (r: Vec<Tok>)
    requires
        i <= fs.len(),
    ensures
        r.deep_view() == sp_render_ctor_args_from(fs.deep_view(), i as int),
    decreases fs.len() - i,
{
    if i >= fs.len() {
        let v: Vec<Tok> = Vec::new();
        proof {
            lemma_dv_empty(v);
        }
        return v;
    }
    let mut v: Vec<Tok> = Vec::new();
    match &fs[i].default {
        DefaultSpec::Absent => {
            v.push(Tok::Ident(fs[i].name.clone()));
            v.push(Tok::Punct(':', false));
            proof {
                assert(v.deep_view() =~= seq![
                    TokV::Ident(fs@[i as int].name@),
                    TokV::Punct(':', false),
                ]);
            }
            append_copy(&mut v, &fs[i].ty);
            push_tok(&mut v, Tok::Punct(',', false));
            proof {
                assert(v.deep_view() =~= sp_render_ctor_arg(fs.deep_view()[i as int]));
            }
        },
        _ => {
            proof {
                lemma_dv_empty(v);
            }
        },
    }
    let rest = render_ctor_args_from(fs, i + 1);
    append_toks(&mut v, rest);
    proof {
        assert(v.deep_view() =~= sp_render_ctor_args_from(fs.deep_view(), i as int));
    }
    v
}

fn render_ctor_init(f: &Field) -> (r: Vec<Tok>)
    ensures
        r.deep_view() == sp_render_ctor_init(f.deep_view()),
{
    let mut v: Vec<Tok> = Vec::new();
    v.push(Tok::Ident(f.name.clone()));
    proof {
        assert(v.deep_view() =~= seq![TokV::Ident(f.name@)]);
    }
    match &f.default {
        DefaultSpec::Absent => {
            push_tok(&mut v, Tok::Punct(',', false));
        },
        DefaultSpec::Implicit => {
            push_tok(&mut v, Tok::Punct(':', false));
            let call = default_call();
            append_toks(&mut v, call);
            push_tok(&mut v, Tok::Punct(',', false));
        },
        DefaultSpec::Explicit(e) => {
            push_tok(&mut v, Tok::Punct(':', false));
            append_copy(&mut v, e);
            push_tok(&mut v, Tok::Punct(',', false));
        },
    }
    proof {
        assert(v.deep_view() =~= sp_render_ctor_init(f.deep_view()));
    }
    v
}

pub fn render_ctor_inits_from(fs: &Vec<Field>, i: usize) -> (r: Vec<Tok>)
    requires
        i <= fs.len(),
    ensures
        r.deep_view() == sp_render_ctor_inits_from(fs.deep_view(), i as int),
    decreases fs.len() - i,
{
    if i >= fs.len() {
        let v: Vec<Tok> = Vec::new();
        proof {
            lemma_dv_empty(v);
        }
        return v;
    }
    let mut v = render_ctor_init(&fs[i]);
    let rest = render_ctor_inits_from(fs, i + 1);
    append_toks(&mut v, rest);
    v
}

fn render_dflt_init(f: &Field) -> (r: Vec<Tok>)
    ensures
        r.deep_view() == sp_render_dflt_init(f.deep_view()),
{
    let mut v: Vec<Tok> = Vec::new();
    v.push(Tok::Ident(f.name.clone()));
    v.push(Tok::Punct(':', false));
    proof {
        assert(v.deep_view() =~= seq![TokV::Ident(f.name@), TokV::Punct(':', false)]);
    }
    match &f.default {
        DefaultSpec::Explicit(e) => {
            append_copy(&mut v, e);
        },
        _ => {
            let call = default_call();
            append_toks(&mut v, call);
        },
    }
    push_tok(&mut v, Tok::Punct(',', false));
    proof {
        assert(v.deep_view() =~= sp_render_dflt_init(f.deep_view()));
    }
    v
}

pub fn render_dflt_inits_from(fs: &Vec<Field>, i: usize) -> (r: Vec<Tok>)
    requires
        i <= fs.len(),
    ensures
        r.deep_view() == sp_render_dflt_inits_from(fs.deep_view(), i as int),
    decreases fs.len() - i,
{
    if i >= fs.len() {
        let v: Vec<Tok> = Vec::new();
        proof {
            lemma_dv_empty(v);
        }
        return v;
    }
    let mut v = render_dflt_init(&fs[i]);
    let rest = render_dflt_inits_from(fs, i + 1);
    append_toks(&mut v, rest);
    v
}

/// An element as it stands in the emitted type: attributes, visibility,
/// type — the default annotation is stripped.
pub open spec fn sp_render_elem_decl(e: ElementV) -> Seq<TokV> {
    sp_render_attrs(e.attrs) + e.vis + e.ty + seq![TokV::Punct(',', false)]
}

pub open spec fn sp_render_elem_decls_from(es: Seq<ElementV>, i: int) -> Seq<TokV>
    decreases es.len() - i,
{
    if !(0 <= i < es.len()) {
        Seq::empty()
    } else {
        sp_render_elem_decl(es[i]) + sp_render_elem_decls_from(es, i + 1)
    }
}

/// The constructor parameter an element without a default becomes, under its
/// synthesized positional identifier.
pub open spec fn sp_render_elem_ctor_arg(e: ElementV, i: int) -> Seq<TokV> {
    seq![TokV::Ident(sp_pos_ident(i as nat)), TokV::Punct(':', false)] + e.ty + seq![
        TokV::Punct(',', false),
    ]
}

pub open spec fn sp_render_elem_ctor_args_from(es: Seq<ElementV>, i: int) -> Seq<TokV>
    decreases es.len() - i,
{
    if !(0 <= i < es.len()) {
        Seq::empty()
    } else {
        (if es[i].default == DefaultSpecV::Absent {
            sp_render_elem_ctor_arg(es[i], i)
        } else {
            Seq::empty()
        }) + sp_render_elem_ctor_args_from(es, i + 1)
    }
}

/// An element's initializer in the constructor body.
pub open spec fn sp_render_elem_ctor_init(e: ElementV, i: int) -> Seq<TokV> {
    match e.default {
        DefaultSpecV::Absent => seq![
            TokV::Ident(sp_pos_ident(i as nat)),
            TokV::Punct(',', false),
        ],
        DefaultSpecV::Implicit => sp_default_call() + seq![TokV::Punct(',', false)],
        DefaultSpecV::Explicit(x) => x + seq![TokV::Punct(',', false)],
    }
}

pub open spec fn sp_render_elem_ctor_inits_from(es: Seq<ElementV>, i: int) -> Seq<TokV>
    decreases es.len() - i,
{
    if !(0 <= i < es.len()) {
        Seq::empty()
    } else {
        sp_render_elem_ctor_init(es[i], i) + sp_render_elem_ctor_inits_from(es, i + 1)
    }
}

/// An element's initializer in the default-instance body.
pub open spec fn sp_render_elem_dflt_init(e: ElementV) -> Seq<TokV> {
    match e.default {
        DefaultSpecV::Explicit(x) => x + seq![TokV::Punct(',', false)],
        _ => sp_default_call() + seq![TokV::Punct(',', false)],
    }
}

pub open spec fn sp_render_elem_dflt_inits_from(es: Seq<ElementV>, i: int) -> Seq<TokV>
    decreases es.len() - i,
{
    if !(0 <= i < es.len()) {
        Seq::empty()
    } else {
        sp_render_elem_dflt_init(es[i]) + sp_render_elem_dflt_inits_from(es, i + 1)
    }
}

fn render_elem_decl(e: &Element) -> (r: Vec<Tok>)
    ensures
        r.deep_view() == sp_render_elem_decl(e.deep_view()),
{
    let mut v = render_attrs_from(&e.attrs, 0);
    append_copy(&mut v, &e.vis);
    append_copy(&mut v, &e.ty);
    push_tok(&mut v, Tok::Punct(',', false));
    proof {
        assert(v.deep_view() =~= sp_render_elem_decl(e.deep_view()));
    }
    v
}

pub fn render_elem_decls_from(es: &Vec<Element>, i: usize) -> (r: Vec<Tok>)
    requires
        i <= es.len(),
    ensures
        r.deep_view() == sp_render_elem_decls_from(es.deep_view(), i as int),
    decreases es.len() - i,
{
    if i >= es.len() {
        let v: Vec<Tok> = Vec::new();
        proof {
            lemma_dv_empty(v);
        }
        return v;
    }
    let mut v = render_elem_decl(&es[i]);
    let rest = render_elem_decls_from(es, i + 1);
    append_toks(&mut v, rest);
    v
}

pub fn render_elem_ctor_args_from(es: &Vec<Element>, i: usize) -> (r: Vec<Tok>)
    requires
        i <= es.len(),
    ensures
        r.deep_view() == sp_render_elem_ctor_args_from(es.deep_view(), i as int),
    decreases es.len() - i,
{
    if i >= es.len() {
        let v: Vec<Tok> = Vec::new();
        proof {
            lemma_dv_empty(v);
        }
        return v;
    }
    let mut v: Vec<Tok> = Vec::new();
    match &es[i].default {
        DefaultSpec::Absent => {
            v.push(Tok::Ident(pos_ident(i)));
            v.push(Tok::Punct(':', false));
            proof {
                assert(v.deep_view() =~= seq![
                    TokV::Ident(sp_pos_ident(i as nat)),
                    TokV::Punct(':', false),
                ]);
            }
            append_copy(&mut v, &es[i].ty);
            push_tok(&mut v, Tok::Punct(',', false));
            proof {
                assert(v.deep_view() =~= sp_render_elem_ctor_arg(
                    es.deep_view()[i as int],
                    i as int,
                ));
            }
        },
        _ => {
            proof {
                lemma_dv_empty(v);
            }
        },
    }
    let rest = render_elem_ctor_args_from(es, i + 1);
    append_toks(&mut v, rest);
    proof {
        assert(v.deep_view() =~= sp_render_elem_ctor_args_from(es.deep_view(), i as int));
    }
    v
}

fn render_elem_ctor_init(e: &Element, i: usize) -> (r: Vec<Tok>)
    ensures
        r.deep_view() == sp_render_elem_ctor_init(e.deep_view(), i as int),
{
    let mut v: Vec<Tok> = Vec::new();
    match &e.default {
        DefaultSpec::Absent => {
            v.push(Tok::Ident(pos_ident(i)));
            v.push(Tok::Punct(',', false));
            proof {
                assert(v.deep_view() =~= sp_render_elem_ctor_init(e.deep_view(), i as int));
            }
        },
        DefaultSpec::Implicit => {
            let call = default_call();
            proof {
                lemma_dv_empty(v);
            }
            append_toks(&mut v, call);
            push_tok(&mut v, Tok::Punct(',', false));
            proof {
                assert(v.deep_view() =~= sp_render_elem_ctor_init(e.deep_view(), i as int));
            }
        },
        DefaultSpec::Explicit(x) => {
            proof {
                lemma_dv_empty(v);
            }
            append_copy(&mut v, x);
            push_tok(&mut v, Tok::Punct(',', false));
            proof {
                assert(v.deep_view() =~= sp_render_elem_ctor_init(e.deep_view(), i as int));
            }
        },
    }
    v
}

pub fn render_elem_ctor_inits_from(es: &Vec<Element>, i: usize) -> (r: Vec<Tok>)
    requires
        i <= es.len(),
    ensures
        r.deep_view() == sp_render_elem_ctor_inits_from(es.deep_view(), i as int),
    decreases es.len() - i,
{
    if i >= es.len() {
        let v: Vec<Tok> = Vec::new();
        proof {
            lemma_dv_empty(v);
        }
        return v;
    }
    let mut v = render_elem_ctor_init(&es[i], i);
    let rest = render_elem_ctor_inits_from(es, i + 1);
    append_toks(&mut v, rest);
    v
}

fn render_elem_dflt_init(e: &Element) -> (r: Vec<Tok>)
    ensures
        r.deep_view() == sp_render_elem_dflt_init(e.deep_view()),
{
    let mut v: Vec<Tok> = Vec::new();
    proof {
        lemma_dv_empty(v);
    }
    match &e.default {
        DefaultSpec::Explicit(x) => {
            append_copy(&mut v, x);
        },
        _ => {
            let call = default_call();
            append_toks(&mut v, call);
        },
    }
    push_tok(&mut v, Tok::Punct(',', false));
    proof {
        assert(v.deep_view() =~= sp_render_elem_dflt_init(e.deep_view()));
    }
    v
}

pub fn render_elem_dflt_inits_from(es: &Vec<Element>, i: usize) -> (r: Vec<Tok>)
    requires
        i <= es.len(),
    ensures
        r.deep_view() == sp_render_elem_dflt_inits_from(es.deep_view(), i as int),
    decreases es.len() - i,
{
    if i >= es.len() {
        let v: Vec<Tok> = Vec::new();
        proof {
            lemma_dv_empty(v);
        }
        return v;
    }
    let mut v = render_elem_dflt_init(&es[i]);
    let rest = render_elem_dflt_inits_from(es, i + 1);
    append_toks(&mut v, rest);
    v
}

/// An owned copy of an attribute list, with the same value.
pub fn attrs_dup(attrs: &Vec<Attr>) -> (r: Vec<Attr>)
    ensures
        r.deep_view() == attrs.deep_view(),
{
    let mut r: Vec<Attr> = Vec::new();
    let mut k: usize = 0;
    proof {
        assert(r.deep_view() =~= attrs.deep_view().take(0));
    }
    while k < attrs.len()
        invariant
            k <= attrs.len(),
            r.deep_view() == attrs.deep_view().take(k as int),
        decreases attrs.len() - k,
    {
        let ghost r0 = r;
        let a = Attr { name: attrs[k].name.clone(), args: toks_dup(&attrs[k].args) };
        let ghost ag = a;
        r.push(a);
        proof {
            lemma_dv_push(r0, r, ag);
            assert(r.deep_view() =~= attrs.deep_view().take(k as int + 1));
        }
        k += 1;
    }
    proof {
        assert(attrs.deep_view().take(attrs@.len() as int) =~= attrs.deep_view());
    }
    r
}

/// The emitted type definition of a brace-delimited shape, under the given
/// (possibly rewritten) attribute list: the field list carries types and
/// visibilities, never the default annotations; the definition itself takes
/// the parameter names and the `where` clause.
pub open spec fn sp_braced_struct_def(d: BracedDefV, attrs2: Seq<AttrV>) -> Seq<TokV> {
    sp_render_attrs(attrs2) + d.header.vis + seq![TokV::Ident("struct"@)] + seq![
        TokV::Ident(d.header.name),
    ] + sp_render_generics(d.header.params, false) + sp_render_where(d.header.where_clause) + seq![
        TokV::Open(Delim::Brace),
    ] + sp_render_field_decls_from(d.fields, 0) + seq![TokV::Close(Delim::Brace)]
}

/// The emitted constructor of a brace-delimited shape: its parameters are
/// exactly the fields without a default, in original order; its body lists
/// every field in original order.
pub open spec fn sp_braced_impl_new(d: BracedDefV) -> Seq<TokV> {
    seq![TokV::Ident("impl"@)] + sp_render_generics(d.header.params, true) + seq![
        TokV::Ident(d.header.name),
    ] + sp_render_generics(d.header.params, false) + sp_render_where(d.header.where_clause) + seq![
        TokV::Open(Delim::Brace),
    ] + seq![TokV::Ident("pub"@)] + seq![TokV::Ident("fn"@)] + seq![TokV::Ident("new"@)] + seq![
        TokV::Open(Delim::Paren),
    ] + sp_render_ctor_args_from(d.fields, 0) + seq![TokV::Close(Delim::Paren)] + seq![
        TokV::Punct('-', true),
    ] + seq![TokV::Punct('>', false)] + seq![TokV::Ident("Self"@)] + seq![
        TokV::Open(Delim::Brace),
    ] + seq![TokV::Ident("Self"@)] + seq![TokV::Open(Delim::Brace)] + sp_render_ctor_inits_from(
        d.fields,
        0,
    ) + seq![TokV::Close(Delim::Brace)] + seq![TokV::Close(Delim::Brace)] + seq![
        TokV::Close(Delim::Brace),
    ]
}

/// The emitted default-instance operation of a brace-delimited shape: no
/// parameters, every field in original order.
pub open spec fn sp_braced_impl_default(d: BracedDefV) -> Seq<TokV> {
    seq![TokV::Ident("impl"@)] + sp_render_generics(d.header.params, true) + seq![
        TokV::Ident("Default"@),
    ] + seq![TokV::Ident("for"@)] + seq![TokV::Ident(d.header.name)] + sp_render_generics(
        d.header.params,
        false,
    ) + sp_render_where(d.header.where_clause) + seq![TokV::Open(Delim::Brace)] + seq![
        TokV::Ident("fn"@),
    ] + seq![TokV::Ident("default"@)] + seq![TokV::Open(Delim::Paren)] + seq![
        TokV::Close(Delim::Paren),
    ] + seq![TokV::Punct('-', true)] + seq![TokV::Punct('>', false)] + seq![TokV::Ident("Self"@)]
        + seq![TokV::Open(Delim::Brace)] + seq![TokV::Ident("Self"@)] + seq![
        TokV::Open(Delim::Brace),
    ] + sp_render_dflt_inits_from(d.fields, 0) + seq![TokV::Close(Delim::Brace)] + seq![
        TokV::Close(Delim::Brace),
    ] + seq![TokV::Close(Delim::Brace)]
}

/// Everything emitted for a brace-delimited definition: the stripped type
/// definition, the constructor, and — exactly when the derive list names the
/// marker — the default-instance operation, under the rewritten attributes.
pub open spec fn sp_gen_braced(d: BracedDefV) -> Seq<TokV> {
    let marker = sp_has_marker(d.header.attrs);
    let attrs2 = if marker {
        sp_strip_attrs(d.header.attrs)
    } else {
        d.header.attrs
    };
    sp_braced_struct_def(d, attrs2) + sp_braced_impl_new(d) + (if marker {
        sp_braced_impl_default(d)
    } else {
        Seq::empty()
    })
}

fn braced_struct_def(d: &BracedDef, attrs2: &Vec<Attr>) -> (r: Vec<Tok>)
    ensures
        r.deep_view() == sp_braced_struct_def(d.deep_view(), attrs2.deep_view()),
{
    let mut v = render_attrs_from(attrs2, 0);
    append_copy(&mut v, &d.header.vis);
    push_tok(&mut v, Tok::Ident("struct".to_owned()));
    push_tok(&mut v, Tok::Ident(d.header.name.clone()));
    let g = render_generics(&d.header.params, false);
    append_toks(&mut v, g);
    let w = render_where(&d.header.where_clause);
    append_toks(&mut v, w);
    push_tok(&mut v, Tok::Open(Delim::Brace));
    let fd = render_field_decls_from(&d.fields, 0);
    append_toks(&mut v, fd);
    push_tok(&mut v, Tok::Close(Delim::Brace));
    v
}

fn braced_impl_new(d: &BracedDef) -> (r: Vec<Tok>)
    ensures
        r.deep_view() == sp_braced_impl_new(d.deep_view()),
{
    let mut v: Vec<Tok> = Vec::new();
    proof {
        lemma_dv_empty(v);
        assert(Seq::<TokV>::empty() + seq![TokV::Ident("impl"@)] =~= seq![TokV::Ident("impl"@)]);
    }
    push_tok(&mut v, Tok::Ident("impl".to_owned()));
    let gf = render_generics(&d.header.params, true);
    append_toks(&mut v, gf);
    push_tok(&mut v, Tok::Ident(d.header.name.clone()));
    let gs = render_generics(&d.header.params, false);
    append_toks(&mut v, gs);
    let w = render_where(&d.header.where_clause);
    append_toks(&mut v, w);
    push_tok(&mut v, Tok::Open(Delim::Brace));
    push_tok(&mut v, Tok::Ident("pub".to_owned()));
    push_tok(&mut v, Tok::Ident("fn".to_owned()));
    push_tok(&mut v, Tok::Ident("new".to_owned()));
    push_tok(&mut v, Tok::Open(Delim::Paren));
    let args = render_ctor_args_from(&d.fields, 0);
    append_toks(&mut v, args);
    push_tok(&mut v, Tok::Close(Delim::Paren));
    push_tok(&mut v, Tok::Punct('-', true));
    push_tok(&mut v, Tok::Punct('>', false));
    push_tok(&mut v, Tok::Ident("Self".to_owned()));
    push_tok(&mut v, Tok::Open(Delim::Brace));
    push_tok(&mut v, Tok::Ident("Self".to_owned()));
    push_tok(&mut v, Tok::Open(Delim::Brace));
    let inits = render_ctor_inits_from(&d.fields, 0);
    append_toks(&mut v, inits);
    push_tok(&mut v, Tok::Close(Delim::Brace));
    push_tok(&mut v, Tok::Close(Delim::Brace));
    push_tok(&mut v, Tok::Close(Delim::Brace));
    v
}

fn braced_impl_default(d: &BracedDef) -> (r: Vec<Tok>)
    ensures
        r.deep_view() == sp_braced_impl_default(d.deep_view()),
{
    let mut v: Vec<Tok> = Vec::new();
    proof {
        lemma_dv_empty(v);
        assert(Seq::<TokV>::empty() + seq![TokV::Ident("impl"@)] =~= seq![TokV::Ident("impl"@)]);
    }
    push_tok(&mut v, Tok::Ident("impl".to_owned()));
    let gf = render_generics(&d.header.params, true);
    append_toks(&mut v, gf);
    push_tok(&mut v, Tok::Ident("Default".to_owned()));
    push_tok(&mut v, Tok::Ident("for".to_owned()));
    push_tok(&mut v, Tok::Ident(d.header.name.clone()));
    let gs = render_generics(&d.header.params, false);
    append_toks(&mut v, gs);
    let w = render_where(&d.header.where_clause);
    append_toks(&mut v, w);
    push_tok(&mut v, Tok::Open(Delim::Brace));
    push_tok(&mut v, Tok::Ident("fn".to_owned()));
    push_tok(&mut v, Tok::Ident("default".to_owned()));
    push_tok(&mut v, Tok::Open(Delim::Paren));
    push_tok(&mut v, Tok::Close(Delim::Paren));
    push_tok(&mut v, Tok::Punct('-', true));
    push_tok(&mut v, Tok::Punct('>', false));
    push_tok(&mut v, Tok::Ident("Self".to_owned()));
    push_tok(&mut v, Tok::Open(Delim::Brace));
    push_tok(&mut v, Tok::Ident("Self".to_owned()));
    push_tok(&mut v, Tok::Open(Delim::Brace));
    let inits = render_dflt_inits_from(&d.fields, 0);
    append_toks(&mut v, inits);
    push_tok(&mut v, Tok::Close(Delim::Brace));
    push_tok(&mut v, Tok::Close(Delim::Brace));
    push_tok(&mut v, Tok::Close(Delim::Brace));
    v
}

/// Everything emitted for a brace-delimited definition.
pub fn gen_braced(d: &BracedDef) -> (r: Vec<Tok>)
    ensures
        r.deep_view() == sp_gen_braced(d.deep_view()),
{
    let marker = has_derive_default(&d.header.attrs);
    let attrs2 = if marker {
        strip_default_from_derive(&d.header.attrs)
    } else {
        attrs_dup(&d.header.attrs)
    };
    let mut v = braced_struct_def(d, &attrs2);
    let n = braced_impl_new(d);
    append_toks(&mut v, n);
    if marker {
        let dft = braced_impl_default(d);
        append_toks(&mut v, dft);
    }
    proof {
        assert(v.deep_view() =~= sp_gen_braced(d.deep_view()));
    }
    v
}

/// The emitted type definition of a positional shape: elements keep types
/// and visibilities, the terminator after the parenthesized list is always
/// re-emitted.
pub open spec fn sp_paren_struct_def(d: ParenthesizedDefV, attrs2: Seq<AttrV>) -> Seq<TokV> {
    sp_render_attrs(attrs2) + d.header.vis + seq![TokV::Ident("struct"@)] + seq![
        TokV::Ident(d.header.name),
    ] + sp_render_generics(d.header.params, false) + seq![TokV::Open(Delim::Paren)]
        + sp_render_elem_decls_from(d.elements, 0) + seq![TokV::Close(Delim::Paren)]
        + sp_render_where(d.header.where_clause) + seq![TokV::Punct(';', false)]
}

/// The emitted constructor of a positional shape: one parameter per element
/// without a default, under synthesized positional names, in original order.
pub open spec fn sp_paren_impl_new(d: ParenthesizedDefV) -> Seq<TokV> {
    seq![TokV::Ident("impl"@)] + sp_render_generics(d.header.params, true) + seq![
        TokV::Ident(d.header.name),
    ] + sp_render_generics(d.header.params, false) + sp_render_where(d.header.where_clause) + seq![
        TokV::Open(Delim::Brace),
    ] + seq![TokV::Ident("pub"@)] + seq![TokV::Ident("fn"@)] + seq![TokV::Ident("new"@)] + seq![
        TokV::Open(Delim::Paren),
    ] + sp_render_elem_ctor_args_from(d.elements, 0) + seq![TokV::Close(Delim::Paren)] + seq![
        TokV::Punct('-', true),
    ] + seq![TokV::Punct('>', false)] + seq![TokV::Ident("Self"@)] + seq![
        TokV::Open(Delim::Brace),
    ] + seq![TokV::Ident("Self"@)] + seq![TokV::Open(Delim::Paren)]
        + sp_render_elem_ctor_inits_from(d.elements, 0) + seq![TokV::Close(Delim::Paren)] + seq![
        TokV::Close(Delim::Brace),
    ] + seq![TokV::Close(Delim::Brace)]
}

/// The emitted default-instance operation of a positional shape.
pub open spec fn sp_paren_impl_default(d: ParenthesizedDefV) -> Seq<TokV> {
    seq![TokV::Ident("impl"@)] + sp_render_generics(d.header.params, true) + seq![
        TokV::Ident("Default"@),
    ] + seq![TokV::Ident("for"@)] + seq![TokV::Ident(d.header.name)] + sp_render_generics(
        d.header.params,
        false,
    ) + sp_render_where(d.header.where_clause) + seq![TokV::Open(Delim::Brace)] + seq![
        TokV::Ident("fn"@),
    ] + seq![TokV::Ident("default"@)] + seq![TokV::Open(Delim::Paren)] + seq![
        TokV::Close(Delim::Paren),
    ] + seq![TokV::Punct('-', true)] + seq![TokV::Punct('>', false)] + seq![TokV::Ident("Self"@)]
        + seq![TokV::Open(Delim::Brace)] + seq![TokV::Ident("Self"@)] + seq![
        TokV::Open(Delim::Paren),
    ] + sp_render_elem_dflt_inits_from(d.elements, 0) + seq![TokV::Close(Delim::Paren)] + seq![
        TokV::Close(Delim::Brace),
    ] + seq![TokV::Close(Delim::Brace)]
}

/// Everything emitted for a positional definition.
pub open spec fn sp_gen_parenthesized(d: ParenthesizedDefV) -> Seq<TokV> {
    let marker = sp_has_marker(d.header.attrs);
    let attrs2 = if marker {
        sp_strip_attrs(d.header.attrs)
    } else {
        d.header.attrs
    };
    sp_paren_struct_def(d, attrs2) + sp_paren_impl_new(d) + (if marker {
        sp_paren_impl_default(d)
    } else {
        Seq::empty()
    })
}

fn paren_struct_def(d: &ParenthesizedDef, attrs2: &Vec<Attr>) -> (r: Vec<Tok>)
    ensures
        r.deep_view() == sp_paren_struct_def(d.deep_view(), attrs2.deep_view()),
{
    let mut v = render_attrs_from(attrs2, 0);
    append_copy(&mut v, &d.header.vis);
    push_tok(&mut v, Tok::Ident("struct".to_owned()));
    push_tok(&mut v, Tok::Ident(d.header.name.clone()));
    let g = render_generics(&d.header.params, false);
    append_toks(&mut v, g);
    push_tok(&mut v, Tok::Open(Delim::Paren));
    let ed = render_elem_decls_from(&d.elements, 0);
    append_toks(&mut v, ed);
    push_tok(&mut v, Tok::Close(Delim::Paren));
    let w = render_where(&d.header.where_clause);
    append_toks(&mut v, w);
    push_tok(&mut v, Tok::Punct(';', false));
    v
}

fn paren_impl_new(d: &ParenthesizedDef) -> (r: Vec<Tok>)
    ensures
        r.deep_view() == sp_paren_impl_new(d.deep_view()),
{
    let mut v: Vec<Tok> = Vec::new();
    proof {
        lemma_dv_empty(v);
        assert(Seq::<TokV>::empty() + seq![TokV::Ident("impl"@)] =~= seq![TokV::Ident("impl"@)]);
    }
    push_tok(&mut v, Tok::Ident("impl".to_owned()));
    let gf = render_generics(&d.header.params, true);
    append_toks(&mut v, gf);
    push_tok(&mut v, Tok::Ident(d.header.name.clone()));
    let gs = render_generics(&d.header.params, false);
    append_toks(&mut v, gs);
    let w = render_where(&d.header.where_clause);
    append_toks(&mut v, w);
    push_tok(&mut v, Tok::Open(Delim::Brace));
    push_tok(&mut v, Tok::Ident("pub".to_owned()));
    push_tok(&mut v, Tok::Ident("fn".to_owned()));
    push_tok(&mut v, Tok::Ident("new".to_owned()));
    push_tok(&mut v, Tok::Open(Delim::Paren));
    let args = render_elem_ctor_args_from(&d.elements, 0);
    append_toks(&mut v, args);
    push_tok(&mut v, Tok::Close(Delim::Paren));
    push_tok(&mut v, Tok::Punct('-', true));
    push_tok(&mut v, Tok::Punct('>', false));
    push_tok(&mut v, Tok::Ident("Self".to_owned()));
    push_tok(&mut v, Tok::Open(Delim::Brace));
    push_tok(&mut v, Tok::Ident("Self".to_owned()));
    push_tok(&mut v, Tok::Open(Delim::Paren));
    let inits = render_elem_ctor_inits_from(&d.elements, 0);
    append_toks(&mut v, inits);
    push_tok(&mut v, Tok::Close(Delim::Paren));
    push_tok(&mut v, Tok::Close(Delim::Brace));
    push_tok(&mut v, Tok::Close(Delim::Brace));
    v
}

fn paren_impl_default(d: &ParenthesizedDef) -> (r: Vec<Tok>)
    ensures
        r.deep_view() == sp_paren_impl_default(d.deep_view()),
{
    let mut v: Vec<Tok> = Vec::new();
    proof {
        lemma_dv_empty(v);
        assert(Seq::<TokV>::empty() + seq![TokV::Ident("impl"@)] =~= seq![TokV::Ident("impl"@)]);
    }
    push_tok(&mut v, Tok::Ident("impl".to_owned()));
    let gf = render_generics(&d.header.params, true);
    append_toks(&mut v, gf);
    push_tok(&mut v, Tok::Ident("Default".to_owned()));
    push_tok(&mut v, Tok::Ident("for".to_owned()));
    push_tok(&mut v, Tok::Ident(d.header.name.clone()));
    let gs = render_generics(&d.header.params, false);
    append_toks(&mut v, gs);
    let w = render_where(&d.header.where_clause);
    append_toks(&mut v, w);
    push_tok(&mut v, Tok::Open(Delim::Brace));
    push_tok(&mut v, Tok::Ident("fn".to_owned()));
    push_tok(&mut v, Tok::Ident("default".to_owned()));
    push_tok(&mut v, Tok::Open(Delim::Paren));
    push_tok(&mut v, Tok::Close(Delim::Paren));
    push_tok(&mut v, Tok::Punct('-', true));
    push_tok(&mut v, Tok::Punct('>', false));
    push_tok(&mut v, Tok::Ident("Self".to_owned()));
    push_tok(&mut v, Tok::Open(Delim::Brace));
    push_tok(&mut v, Tok::Ident("Self".to_owned()));
    push_tok(&mut v, Tok::Open(Delim::Paren));
    let inits = render_elem_dflt_inits_from(&d.elements, 0);
    append_toks(&mut v, inits);
    push_tok(&mut v, Tok::Close(Delim::Paren));
    push_tok(&mut v, Tok::Close(Delim::Brace));
    push_tok(&mut v, Tok::Close(Delim::Brace));
    v
}

/// Everything emitted for a positional definition.
pub fn gen_parenthesized(d: &ParenthesizedDef) -> (r: Vec<Tok>)
    ensures
        r.deep_view() == sp_gen_parenthesized(d.deep_view()),
{
    let marker = has_derive_default(&d.header.attrs);
    let attrs2 = if marker {
        strip_default_from_derive(&d.header.attrs)
    } else {
        attrs_dup(&d.header.attrs)
    };
    let mut v = paren_struct_def(d, &attrs2);
    let n = paren_impl_new(d);
    append_toks(&mut v, n);
    if marker {
        let dft = paren_impl_default(d);
        append_toks(&mut v, dft);
    }
    proof {
        assert(v.deep_view() =~= sp_gen_parenthesized(d.deep_view()));
    }
    v
}

} // verus!
