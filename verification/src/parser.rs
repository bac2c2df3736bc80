//! The definition parser.
//!
//! The grammar is stated as recursive spec functions over `Seq<TokV>`; each
//! executable parse function is proved to return exactly what the
//! corresponding spec function says. Every function takes the token sequence
//! and a start index and returns the parsed value together with the index of
//! the first token it did not consume, or a [`ParseError`] naming the
//! offending position.

use vstd::prelude::*;
use crate::tokens::{Tok, TokV, Delim, ParseError, ErrorKind};
use crate::model::{DefaultSpec, DefaultSpecV, Attr, AttrV, Field, FieldV, Element, ElementV,
    GenParam, GenParamV, Header, HeaderV, BracedDef, BracedDefV, ParenthesizedDef,
    ParenthesizedDefV, StructKind, StructKindV};

verus! {

pub open spec fn perr(k: ErrorKind, i: int) -> ParseError {
    ParseError { kind: k, pos: i as usize }
}

pub open spec fn spec_is_punct(tk: TokV, c: char) -> bool {
    match tk {
        TokV::Punct(c2, _) => c2 == c,
        _ => false,
    }
}

pub open spec fn spec_is_ident(tk: TokV, s: Seq<char>) -> bool {
    match tk {
        TokV::Ident(nm) => nm == s,
        _ => false,
    }
}

pub open spec fn spec_is_open(tk: TokV, d: Delim) -> bool {
    tk == TokV::Open(d)
}

pub open spec fn spec_is_close(tk: TokV, d: Delim) -> bool {
    tk == TokV::Close(d)
}

/// Exact string equality between an identifier string and a keyword.
pub fn str_eq(a: &String, b: &str) -> (r: bool)
    ensures
        r == (a@ == b@),
{
    let bs: String = b.to_owned();
    *a == bs
}

pub fn is_punct(tk: &Tok, c: char) -> (r: bool)
    ensures
        r == spec_is_punct(tk@, c),
{
    match tk {
        Tok::Punct(c2, _) => *c2 == c,
        _ => false,
    }
}

pub fn is_kw(tk: &Tok, kw: &str) -> (r: bool)
    ensures
        r == spec_is_ident(tk@, kw@),
{
    match tk {
        Tok::Ident(s) => str_eq(s, kw),
        _ => false,
    }
}

pub fn is_open(tk: &Tok, d: Delim) -> (r: bool)
    ensures
        r == spec_is_open(tk@, d),
{
    match tk {
        Tok::Open(d2) => *d2 == d,
        _ => false,
    }
}

pub fn is_close(tk: &Tok, d: Delim) -> (r: bool)
    ensures
        r == spec_is_close(tk@, d),
{
    match tk {
        Tok::Close(d2) => *d2 == d,
        _ => false,
    }
}

/// An owned copy of a token, equal to the original.
pub fn tok_dup(tk: &Tok) -> (r: Tok)
    ensures
        r == *tk,
{
    match tk {
        Tok::Ident(s) => Tok::Ident(s.clone()),
        Tok::Lifetime(s) => Tok::Lifetime(s.clone()),
        Tok::Punct(c, j) => Tok::Punct(*c, *j),
        Tok::Lit(s) => Tok::Lit(s.clone()),
        Tok::Open(d) => Tok::Open(*d),
        Tok::Close(d) => Tok::Close(*d),
    }
}

/// Prepending to a vector prepends its element's value to the deep view.
pub proof fn lemma_dv_insert0<T: DeepView>(v: Vec<T>, w: Vec<T>, x: T)
    requires
        w@ == v@.insert(0, x),
    ensures
        w.deep_view() == seq![x.deep_view()] + v.deep_view(),
{
    assert(w.deep_view() =~= seq![x.deep_view()] + v.deep_view());
}

/// An empty vector's deep view is the empty sequence.
pub proof fn lemma_dv_empty<T: DeepView>(v: Vec<T>)
    requires
        v@ == Seq::<T>::empty(),
    ensures
        v.deep_view() == Seq::<T::V>::empty(),
{
    assert(v.deep_view() =~= Seq::<T::V>::empty());
}

/// Capture every token up to the closing delimiter `d` that matches the
/// position just before `i` (at nesting depth `dep`); the close itself is
/// consumed but not part of the captured fragment. Inner delimiters are
/// tracked by depth alone.
pub open spec fn sp_cap_close(t: Seq<TokV>, i: int, d: Delim, dep: int) -> Result<
    (Seq<TokV>, int),
    ParseError,
>
    decreases t.len() - i,
{
    if i < 0 || i >= t.len() {
        Err(perr(ErrorKind::UnexpectedEnd, t.len() as int))
    } else {
        let tk = t[i];
        match tk {
            TokV::Close(d2) => {
                if dep == 0 {
                    if d2 == d {
                        Ok((Seq::empty(), i + 1))
                    } else {
                        Err(perr(ErrorKind::MismatchedDelim, i))
                    }
                } else {
                    match sp_cap_close(t, i + 1, d, dep - 1) {
                        Ok((s, j)) => Ok((seq![tk] + s, j)),
                        Err(e) => Err(e),
                    }
                }
            },
            TokV::Open(_) => match sp_cap_close(t, i + 1, d, dep + 1) {
                Ok((s, j)) => Ok((seq![tk] + s, j)),
                Err(e) => Err(e),
            },
            _ => match sp_cap_close(t, i + 1, d, dep) {
                Ok((s, j)) => Ok((seq![tk] + s, j)),
                Err(e) => Err(e),
            },
        }
    }
}

pub fn cap_close(t: &Vec<Tok>, i: usize, d: Delim, dep: usize) -> (r: Result<
    (Vec<Tok>, usize),
    ParseError,
>)
    requires
        i <= t.len(),
        dep <= i,
    ensures
        ({
            let s = sp_cap_close(t.deep_view(), i as int, d, dep as int);
            match r {
                Ok((v, j)) => s == Ok::<_, ParseError>((v.deep_view(), j as int)) && i < j <= t.len(),
                Err(e) => s == Err::<(Seq<TokV>, int), _>(e),
            }
        }),
    decreases t.len() - i,
{
    if i >= t.len() {
        return Err(ParseError { kind: ErrorKind::UnexpectedEnd, pos: t.len() });
    }
    let tk = &t[i];
    let step = match tk {
        Tok::Close(d2) => {
            if dep == 0 {
                if *d2 == d {
                    let v: Vec<Tok> = Vec::new();
                    proof {
                        lemma_dv_empty(v);
                    }
                    return Ok((v, i + 1));
                } else {
                    return Err(ParseError { kind: ErrorKind::MismatchedDelim, pos: i });
                }
            }
            dep - 1
        },
        Tok::Open(_) => dep + 1,
        _ => dep,
    };
    match cap_close(t, i + 1, d, step) {
        Ok((mut v, j)) => {
            let ghost v0 = v;
            let x = tok_dup(tk);
            v.insert(0, x);
            proof {
                lemma_dv_insert0(v0, v, x);
            }
            Ok((v, j))
        },
        Err(e) => Err(e),
    }
}

/// Appending two vectors concatenates their deep views.
pub proof fn lemma_dv_concat<T: DeepView>(a: Vec<T>, b: Vec<T>, w: Vec<T>)
    requires
        w@ == a@ + b@,
    ensures
        w.deep_view() == a.deep_view() + b.deep_view(),
{
    assert(w.deep_view() =~= a.deep_view() + b.deep_view());
}

/// Pushing onto a vector pushes the element's value onto the deep view.
pub proof fn lemma_dv_push<T: DeepView>(v: Vec<T>, w: Vec<T>, x: T)
    requires
        w@ == v@.push(x),
    ensures
        w.deep_view() == v.deep_view().push(x.deep_view()),
{
    assert(w.deep_view() =~= v.deep_view().push(x.deep_view()));
}

/// Prepend an owned value to a vector.
pub fn push_front_own<T: DeepView>(v: &mut Vec<T>, x: T)
    ensures
        final(v).deep_view() == seq![x.deep_view()] + old(v).deep_view(),
{
    let ghost v0 = *v;
    let ghost xg = x;
    v.insert(0, x);
    proof {
        lemma_dv_insert0(v0, *v, xg);
    }
}

/// Prepend one token to a capture result.
pub open spec fn sp_prepend(r: Result<(Seq<TokV>, int), ParseError>, tk: TokV) -> Result<
    (Seq<TokV>, int),
    ParseError,
> {
    match r {
        Ok((s, j)) => Ok((seq![tk] + s, j)),
        Err(e) => Err(e),
    }
}

/// Prepend to the front of a vector.
pub fn push_front(v: &mut Vec<Tok>, tk: &Tok)
    ensures
        final(v).deep_view() == seq![tk@] + old(v).deep_view(),
        final(v)@.len() == old(v)@.len() + 1,
{
    let ghost v0 = *v;
    let x = tok_dup(tk);
    v.insert(0, x);
    proof {
        lemma_dv_insert0(v0, *v, x);
    }
}

/// Capture the tokens of a generic parameter's bounds: everything up to the
/// `,` before the next parameter or the `>` that ends the parameter list,
/// neither consumed. `<`/`>` pairs nest (`ang`); bracketed groups nest
/// (`dep`); the `>` of a `->` arrow does not count.
pub open spec fn sp_cap_bounds(t: Seq<TokV>, i: int, dep: int, ang: int) -> Result<
    (Seq<TokV>, int),
    ParseError,
>
    decreases t.len() - i,
{
    if i < 0 || i >= t.len() {
        Err(perr(ErrorKind::UnexpectedEnd, t.len() as int))
    } else {
        let tk = t[i];
        if dep > 0 {
            match tk {
                TokV::Open(_) => sp_prepend(sp_cap_bounds(t, i + 1, dep + 1, ang), tk),
                TokV::Close(_) => sp_prepend(sp_cap_bounds(t, i + 1, dep - 1, ang), tk),
                _ => sp_prepend(sp_cap_bounds(t, i + 1, dep, ang), tk),
            }
        } else if spec_is_punct(tk, '-') && i + 1 < t.len() && spec_is_punct(t[i + 1], '>') {
            sp_prepend(sp_prepend(sp_cap_bounds(t, i + 2, dep, ang), t[i + 1]), tk)
        } else if spec_is_punct(tk, '<') {
            sp_prepend(sp_cap_bounds(t, i + 1, dep, ang + 1), tk)
        } else if spec_is_punct(tk, '>') {
            if ang > 0 {
                sp_prepend(sp_cap_bounds(t, i + 1, dep, ang - 1), tk)
            } else {
                Ok((Seq::empty(), i))
            }
        } else if spec_is_punct(tk, ',') && ang == 0 {
            Ok((Seq::empty(), i))
        } else {
            match tk {
                TokV::Open(_) => sp_prepend(sp_cap_bounds(t, i + 1, 1, ang), tk),
                TokV::Close(_) => Err(perr(ErrorKind::MismatchedDelim, i)),
                _ => sp_prepend(sp_cap_bounds(t, i + 1, dep, ang), tk),
            }
        }
    }
}

pub fn cap_bounds(t: &Vec<Tok>, i: usize, dep: usize, ang: usize) -> (r: Result<
    (Vec<Tok>, usize),
    ParseError,
>)
    requires
        i <= t.len(),
        dep <= i,
        ang <= i,
    ensures
        ({
            let s = sp_cap_bounds(t.deep_view(), i as int, dep as int, ang as int);
            match r {
                Ok((v, j)) => s == Ok::<_, ParseError>((v.deep_view(), j as int)) && i <= j
                    <= t.len() && j - i == v@.len(),
                Err(e) => s == Err::<(Seq<TokV>, int), _>(e),
            }
        }),
    decreases t.len() - i,
{
    if i >= t.len() {
        return Err(ParseError { kind: ErrorKind::UnexpectedEnd, pos: t.len() });
    }
    let tk = &t[i];
    if dep > 0 {
        let step = match tk {
            Tok::Open(_) => dep + 1,
            Tok::Close(_) => dep - 1,
            _ => dep,
        };
        match cap_bounds(t, i + 1, step, ang) {
            Ok((mut v, j)) => {
                push_front(&mut v, tk);
                Ok((v, j))
            },
            Err(e) => Err(e),
        }
    } else if is_punct(tk, '-') && i + 1 < t.len() && is_punct(&t[i + 1], '>') {
        match cap_bounds(t, i + 2, dep, ang) {
            Ok((mut v, j)) => {
                push_front(&mut v, &t[i + 1]);
                push_front(&mut v, tk);
                Ok((v, j))
            },
            Err(e) => Err(e),
        }
    } else if is_punct(tk, '<') {
        match cap_bounds(t, i + 1, dep, ang + 1) {
            Ok((mut v, j)) => {
                push_front(&mut v, tk);
                Ok((v, j))
            },
            Err(e) => Err(e),
        }
    } else if is_punct(tk, '>') {
        if ang > 0 {
            match cap_bounds(t, i + 1, dep, ang - 1) {
                Ok((mut v, j)) => {
                    push_front(&mut v, tk);
                    Ok((v, j))
                },
                Err(e) => Err(e),
            }
        } else {
            let v: Vec<Tok> = Vec::new();
            proof {
                lemma_dv_empty(v);
            }
            Ok((v, i))
        }
    } else if is_punct(tk, ',') && ang == 0 {
        let v: Vec<Tok> = Vec::new();
        proof {
            lemma_dv_empty(v);
        }
        Ok((v, i))
    } else {
        match tk {
            Tok::Close(_) => {
                return Err(ParseError { kind: ErrorKind::MismatchedDelim, pos: i });
            },
            _ => {},
        }
        let step: usize = match tk {
            Tok::Open(_) => 1,
            _ => dep,
        };
        match cap_bounds(t, i + 1, step, ang) {
            Ok((mut v, j)) => {
                push_front(&mut v, tk);
                Ok((v, j))
            },
            Err(e) => Err(e),
        }
    }
}

/// Capture the tokens of a declared field or element type: everything up to
/// a `,`, a `=` or the body's closing delimiter, none consumed.
pub open spec fn sp_cap_ty(t: Seq<TokV>, i: int, dep: int, ang: int) -> Result<
    (Seq<TokV>, int),
    ParseError,
>
    decreases t.len() - i,
{
    if i < 0 || i >= t.len() {
        Err(perr(ErrorKind::UnexpectedEnd, t.len() as int))
    } else {
        let tk = t[i];
        if dep > 0 {
            match tk {
                TokV::Open(_) => sp_prepend(sp_cap_ty(t, i + 1, dep + 1, ang), tk),
                TokV::Close(_) => sp_prepend(sp_cap_ty(t, i + 1, dep - 1, ang), tk),
                _ => sp_prepend(sp_cap_ty(t, i + 1, dep, ang), tk),
            }
        } else if spec_is_punct(tk, '-') && i + 1 < t.len() && spec_is_punct(t[i + 1], '>') {
            sp_prepend(sp_prepend(sp_cap_ty(t, i + 2, dep, ang), t[i + 1]), tk)
        } else if spec_is_punct(tk, '<') {
            sp_prepend(sp_cap_ty(t, i + 1, dep, ang + 1), tk)
        } else if spec_is_punct(tk, '>') && ang > 0 {
            sp_prepend(sp_cap_ty(t, i + 1, dep, ang - 1), tk)
        } else if (spec_is_punct(tk, ',') || spec_is_punct(tk, '=')) && ang == 0 {
            Ok((Seq::empty(), i))
        } else {
            match tk {
                TokV::Open(_) => sp_prepend(sp_cap_ty(t, i + 1, 1, ang), tk),
                TokV::Close(_) => Ok((Seq::empty(), i)),
                _ => sp_prepend(sp_cap_ty(t, i + 1, dep, ang), tk),
            }
        }
    }
}

pub fn cap_ty(t: &Vec<Tok>, i: usize, dep: usize, ang: usize) -> (r: Result<
    (Vec<Tok>, usize),
    ParseError,
>)
    requires
        i <= t.len(),
        dep <= i,
        ang <= i,
    ensures
        ({
            let s = sp_cap_ty(t.deep_view(), i as int, dep as int, ang as int);
            match r {
                Ok((v, j)) => s == Ok::<_, ParseError>((v.deep_view(), j as int)) && i <= j
                    <= t.len() && j - i == v@.len(),
                Err(e) => s == Err::<(Seq<TokV>, int), _>(e),
            }
        }),
    decreases t.len() - i,
{
    if i >= t.len() {
        return Err(ParseError { kind: ErrorKind::UnexpectedEnd, pos: t.len() });
    }
    let tk = &t[i];
    if dep > 0 {
        let step = match tk {
            Tok::Open(_) => dep + 1,
            Tok::Close(_) => dep - 1,
            _ => dep,
        };
        match cap_ty(t, i + 1, step, ang) {
            Ok((mut v, j)) => {
                push_front(&mut v, tk);
                Ok((v, j))
            },
            Err(e) => Err(e),
        }
    } else if is_punct(tk, '-') && i + 1 < t.len() && is_punct(&t[i + 1], '>') {
        match cap_ty(t, i + 2, dep, ang) {
            Ok((mut v, j)) => {
                push_front(&mut v, &t[i + 1]);
                push_front(&mut v, tk);
                Ok((v, j))
            },
            Err(e) => Err(e),
        }
    } else if is_punct(tk, '<') {
        match cap_ty(t, i + 1, dep, ang + 1) {
            Ok((mut v, j)) => {
                push_front(&mut v, tk);
                Ok((v, j))
            },
            Err(e) => Err(e),
        }
    } else if is_punct(tk, '>') && ang > 0 {
        match cap_ty(t, i + 1, dep, ang - 1) {
            Ok((mut v, j)) => {
                push_front(&mut v, tk);
                Ok((v, j))
            },
            Err(e) => Err(e),
        }
    } else if (is_punct(tk, ',') || is_punct(tk, '=')) && ang == 0 {
        let v: Vec<Tok> = Vec::new();
        proof {
            lemma_dv_empty(v);
        }
        Ok((v, i))
    } else {
        match tk {
            Tok::Close(_) => {
                let v: Vec<Tok> = Vec::new();
                proof {
                    lemma_dv_empty(v);
                }
                return Ok((v, i));
            },
            _ => {},
        }
        let step: usize = match tk {
            Tok::Open(_) => 1,
            _ => dep,
        };
        match cap_ty(t, i + 1, step, ang) {
            Ok((mut v, j)) => {
                push_front(&mut v, tk);
                Ok((v, j))
            },
            Err(e) => Err(e),
        }
    }
}

/// Capture an opaque default-value expression: everything up to a `,` or
/// the body's closing delimiter, none consumed. The fragment is stored and
/// re-emitted verbatim; no attempt is made to understand it.
pub open spec fn sp_cap_expr(t: Seq<TokV>, i: int, dep: int) -> Result<
    (Seq<TokV>, int),
    ParseError,
>
    decreases t.len() - i,
{
    if i < 0 || i >= t.len() {
        Err(perr(ErrorKind::UnexpectedEnd, t.len() as int))
    } else {
        let tk = t[i];
        if dep > 0 {
            match tk {
                TokV::Open(_) => sp_prepend(sp_cap_expr(t, i + 1, dep + 1), tk),
                TokV::Close(_) => sp_prepend(sp_cap_expr(t, i + 1, dep - 1), tk),
                _ => sp_prepend(sp_cap_expr(t, i + 1, dep), tk),
            }
        } else if spec_is_punct(tk, ',') {
            Ok((Seq::empty(), i))
        } else {
            match tk {
                TokV::Open(_) => sp_prepend(sp_cap_expr(t, i + 1, 1), tk),
                TokV::Close(_) => Ok((Seq::empty(), i)),
                _ => sp_prepend(sp_cap_expr(t, i + 1, dep), tk),
            }
        }
    }
}

pub fn cap_expr(t: &Vec<Tok>, i: usize, dep: usize) -> (r: Result<(Vec<Tok>, usize), ParseError>)
    requires
        i <= t.len(),
        dep <= i,
    ensures
        ({
            let s = sp_cap_expr(t.deep_view(), i as int, dep as int);
            match r {
                Ok((v, j)) => s == Ok::<_, ParseError>((v.deep_view(), j as int)) && i <= j
                    <= t.len() && j - i == v@.len(),
                Err(e) => s == Err::<(Seq<TokV>, int), _>(e),
            }
        }),
    decreases t.len() - i,
{
    if i >= t.len() {
        return Err(ParseError { kind: ErrorKind::UnexpectedEnd, pos: t.len() });
    }
    let tk = &t[i];
    if dep > 0 {
        let step = match tk {
            Tok::Open(_) => dep + 1,
            Tok::Close(_) => dep - 1,
            _ => dep,
        };
        match cap_expr(t, i + 1, step) {
            Ok((mut v, j)) => {
                push_front(&mut v, tk);
                Ok((v, j))
            },
            Err(e) => Err(e),
        }
    } else if is_punct(tk, ',') {
        let v: Vec<Tok> = Vec::new();
        proof {
            lemma_dv_empty(v);
        }
        Ok((v, i))
    } else {
        match tk {
            Tok::Close(_) => {
                let v: Vec<Tok> = Vec::new();
                proof {
                    lemma_dv_empty(v);
                }
                return Ok((v, i));
            },
            _ => {},
        }
        let step: usize = match tk {
            Tok::Open(_) => 1,
            _ => dep,
        };
        match cap_expr(t, i + 1, step) {
            Ok((mut v, j)) => {
                push_front(&mut v, tk);
                Ok((v, j))
            },
            Err(e) => Err(e),
        }
    }
}

/// Capture the predicates of a `where` clause: everything up to the brace or
/// parenthesis that opens the body, not consumed.
pub open spec fn sp_cap_where(t: Seq<TokV>, i: int, dep: int, ang: int) -> Result<
    (Seq<TokV>, int),
    ParseError,
>
    decreases t.len() - i,
{
    if i < 0 || i >= t.len() {
        Err(perr(ErrorKind::UnexpectedEnd, t.len() as int))
    } else {
        let tk = t[i];
        if dep > 0 {
            match tk {
                TokV::Open(_) => sp_prepend(sp_cap_where(t, i + 1, dep + 1, ang), tk),
                TokV::Close(_) => sp_prepend(sp_cap_where(t, i + 1, dep - 1, ang), tk),
                _ => sp_prepend(sp_cap_where(t, i + 1, dep, ang), tk),
            }
        } else if spec_is_punct(tk, '-') && i + 1 < t.len() && spec_is_punct(t[i + 1], '>') {
            sp_prepend(sp_prepend(sp_cap_where(t, i + 2, dep, ang), t[i + 1]), tk)
        } else if spec_is_punct(tk, '<') {
            sp_prepend(sp_cap_where(t, i + 1, dep, ang + 1), tk)
        } else if spec_is_punct(tk, '>') && ang > 0 {
            sp_prepend(sp_cap_where(t, i + 1, dep, ang - 1), tk)
        } else if (spec_is_open(tk, Delim::Brace) || spec_is_open(tk, Delim::Paren)) && ang == 0 {
            Ok((Seq::empty(), i))
        } else {
            match tk {
                TokV::Open(_) => sp_prepend(sp_cap_where(t, i + 1, 1, ang), tk),
                TokV::Close(_) => Err(perr(ErrorKind::MismatchedDelim, i)),
                _ => sp_prepend(sp_cap_where(t, i + 1, dep, ang), tk),
            }
        }
    }
}

pub fn cap_where(t: &Vec<Tok>, i: usize, dep: usize, ang: usize) -> (r: Result<
    (Vec<Tok>, usize),
    ParseError,
>)
    requires
        i <= t.len(),
        dep <= i,
        ang <= i,
    ensures
        ({
            let s = sp_cap_where(t.deep_view(), i as int, dep as int, ang as int);
            match r {
                Ok((v, j)) => s == Ok::<_, ParseError>((v.deep_view(), j as int)) && i <= j
                    <= t.len(),
                Err(e) => s == Err::<(Seq<TokV>, int), _>(e),
            }
        }),
    decreases t.len() - i,
{
    if i >= t.len() {
        return Err(ParseError { kind: ErrorKind::UnexpectedEnd, pos: t.len() });
    }
    let tk = &t[i];
    if dep > 0 {
        let step = match tk {
            Tok::Open(_) => dep + 1,
            Tok::Close(_) => dep - 1,
            _ => dep,
        };
        match cap_where(t, i + 1, step, ang) {
            Ok((mut v, j)) => {
                push_front(&mut v, tk);
                Ok((v, j))
            },
            Err(e) => Err(e),
        }
    } else if is_punct(tk, '-') && i + 1 < t.len() && is_punct(&t[i + 1], '>') {
        match cap_where(t, i + 2, dep, ang) {
            Ok((mut v, j)) => {
                push_front(&mut v, &t[i + 1]);
                push_front(&mut v, tk);
                Ok((v, j))
            },
            Err(e) => Err(e),
        }
    } else if is_punct(tk, '<') {
        match cap_where(t, i + 1, dep, ang + 1) {
            Ok((mut v, j)) => {
                push_front(&mut v, tk);
                Ok((v, j))
            },
            Err(e) => Err(e),
        }
    } else if is_punct(tk, '>') && ang > 0 {
        match cap_where(t, i + 1, dep, ang - 1) {
            Ok((mut v, j)) => {
                push_front(&mut v, tk);
                Ok((v, j))
            },
            Err(e) => Err(e),
        }
    } else if (is_open(tk, Delim::Brace) || is_open(tk, Delim::Paren)) && ang == 0 {
        let v: Vec<Tok> = Vec::new();
        proof {
            lemma_dv_empty(v);
        }
        Ok((v, i))
    } else {
        match tk {
            Tok::Close(_) => {
                return Err(ParseError { kind: ErrorKind::MismatchedDelim, pos: i });
            },
            _ => {},
        }
        let step: usize = match tk {
            Tok::Open(_) => 1,
            _ => dep,
        };
        match cap_where(t, i + 1, step, ang) {
            Ok((mut v, j)) => {
                push_front(&mut v, tk);
                Ok((v, j))
            },
            Err(e) => Err(e),
        }
    }
}

/// Zero or more outer attributes `#[name ...]`.
pub open spec fn sp_attrs(t: Seq<TokV>, i: int) -> Result<(Seq<AttrV>, int), ParseError>
    decreases t.len() - i,
{
    if i < 0 || i >= t.len() || !spec_is_punct(t[i], '#') {
        Ok((Seq::empty(), i))
    } else if !(i + 1 < t.len() && spec_is_open(t[i + 1], Delim::Bracket)) {
        Err(perr(ErrorKind::MalformedAttribute, i + 1))
    } else if i + 2 >= t.len() {
        Err(perr(ErrorKind::UnexpectedEnd, t.len() as int))
    } else {
        match t[i + 2] {
            TokV::Ident(nm) => match sp_cap_close(t, i + 3, Delim::Bracket, 0) {
                Ok((args, j)) => if j <= i || j > t.len() {
                    Err(perr(ErrorKind::UnexpectedEnd, t.len() as int))
                } else {
                    match sp_attrs(t, j) {
                        Ok((rest, k)) => Ok((seq![AttrV { name: nm, args }] + rest, k)),
                        Err(e) => Err(e),
                    }
                },
                Err(e) => Err(e),
            },
            _ => Err(perr(ErrorKind::MalformedAttribute, i + 2)),
        }
    }
}

pub fn parse_attrs(t: &Vec<Tok>, i: usize) -> (r: Result<(Vec<Attr>, usize), ParseError>)
    requires
        i <= t.len(),
    ensures
        ({
            let s = sp_attrs(t.deep_view(), i as int);
            match r {
                Ok((v, j)) => s == Ok::<_, ParseError>((v.deep_view(), j as int)) && i <= j
                    <= t.len(),
                Err(e) => s == Err::<(Seq<AttrV>, int), _>(e),
            }
        }),
    decreases t.len() - i,
{
    if i >= t.len() || !is_punct(&t[i], '#') {
        let v: Vec<Attr> = Vec::new();
        proof {
            lemma_dv_empty(v);
        }
        return Ok((v, i));
    }
    if !(i + 1 < t.len() && is_open(&t[i + 1], Delim::Bracket)) {
        return Err(ParseError { kind: ErrorKind::MalformedAttribute, pos: i + 1 });
    }
    if i + 2 >= t.len() {
        return Err(ParseError { kind: ErrorKind::UnexpectedEnd, pos: t.len() });
    }
    let nm = match &t[i + 2] {
        Tok::Ident(nm) => nm.clone(),
        _ => {
            return Err(ParseError { kind: ErrorKind::MalformedAttribute, pos: i + 2 });
        },
    };
    match cap_close(t, i + 3, Delim::Bracket, 0) {
        Ok((args, j)) => match parse_attrs(t, j) {
            Ok((mut rest, k)) => {
                let a = Attr { name: nm, args };
                push_front_own(&mut rest, a);
                Ok((rest, k))
            },
            Err(e) => Err(e),
        },
        Err(e) => Err(e),
    }
}

/// An optional visibility marker: `pub`, alone or with its parenthesized
/// restriction, captured verbatim.
pub open spec fn sp_vis(t: Seq<TokV>, i: int) -> Result<(Seq<TokV>, int), ParseError> {
    if i < 0 || i >= t.len() || !spec_is_ident(t[i], "pub"@) {
        Ok((Seq::empty(), i))
    } else if i + 1 < t.len() && spec_is_open(t[i + 1], Delim::Paren) {
        match sp_cap_close(t, i + 2, Delim::Paren, 0) {
            Ok((inner, j)) => Ok(
                (seq![t[i], t[i + 1]] + inner + seq![TokV::Close(Delim::Paren)], j),
            ),
            Err(e) => Err(e),
        }
    } else {
        Ok((seq![t[i]], i + 1))
    }
}

pub fn parse_vis(t: &Vec<Tok>, i: usize) -> (r: Result<(Vec<Tok>, usize), ParseError>)
    requires
        i <= t.len(),
    ensures
        ({
            let s = sp_vis(t.deep_view(), i as int);
            match r {
                Ok((v, j)) => s == Ok::<_, ParseError>((v.deep_view(), j as int)) && i <= j
                    <= t.len(),
                Err(e) => s == Err::<(Seq<TokV>, int), _>(e),
            }
        }),
{
    if i >= t.len() || !is_kw(&t[i], "pub") {
        let v: Vec<Tok> = Vec::new();
        proof {
            lemma_dv_empty(v);
        }
        return Ok((v, i));
    }
    if i + 1 < t.len() && is_open(&t[i + 1], Delim::Paren) {
        match cap_close(t, i + 2, Delim::Paren, 0) {
            Ok((mut inner, j)) => {
                let ghost inner0 = inner;
                let mut v: Vec<Tok> = Vec::new();
                v.push(tok_dup(&t[i]));
                v.push(tok_dup(&t[i + 1]));
                let ghost pre = v;
                v.append(&mut inner);
                proof {
                    lemma_dv_concat(pre, inner0, v);
                    assert(pre.deep_view() =~= seq![t.deep_view()[i as int], t.deep_view()[i as int + 1]]);
                }
                let ghost mid = v;
                v.push(Tok::Close(Delim::Paren));
                proof {
                    lemma_dv_push(mid, v, Tok::Close(Delim::Paren));
                    assert(v.deep_view() =~= seq![t.deep_view()[i as int], t.deep_view()[i as int + 1]]
                        + inner0.deep_view() + seq![TokV::Close(Delim::Paren)]);
                }
                Ok((v, j))
            },
            Err(e) => Err(e),
        }
    } else {
        let mut v: Vec<Tok> = Vec::new();
        v.push(tok_dup(&t[i]));
        proof {
            assert(v.deep_view() =~= seq![t.deep_view()[i as int]]);
        }
        Ok((v, i + 1))
    }
}

/// The parameters of a generic parameter list, after the opening `<`:
/// lifetimes and type parameters, each with optional `:`-introduced bounds,
/// comma-separated, ended by the matching `>` (consumed).
pub open spec fn sp_gen_params(t: Seq<TokV>, i: int) -> Result<(Seq<GenParamV>, int), ParseError>
    decreases t.len() - i,
{
    if i < 0 || i >= t.len() {
        Err(perr(ErrorKind::UnexpectedEnd, t.len() as int))
    } else if spec_is_punct(t[i], '>') {
        Ok((Seq::empty(), i + 1))
    } else {
        let parsed = match t[i] {
            TokV::Lifetime(nm) => Ok((true, nm)),
            TokV::Ident(nm) => Ok((false, nm)),
            _ => Err(perr(ErrorKind::ExpectedIdent, i)),
        };
        match parsed {
            Err(e) => Err(e),
            Ok((is_lt, nm)) => {
                let bres = if i + 1 < t.len() && spec_is_punct(t[i + 1], ':') {
                    sp_cap_bounds(t, i + 2, 0, 0)
                } else {
                    Ok((Seq::empty(), i + 1))
                };
                match bres {
                    Err(e) => Err(e),
                    Ok((bounds, k)) => {
                        let k2: int = if k < t.len() && spec_is_punct(t[k], ',') {
                            k + 1
                        } else {
                            k
                        };
                        if k2 <= i || k2 > t.len() {
                            Err(perr(ErrorKind::UnexpectedEnd, t.len() as int))
                        } else {
                            match sp_gen_params(t, k2) {
                                Err(e) => Err(e),
                                Ok(
                                    (rest, m),
                                ) => Ok(
                                    (
                                        seq![GenParamV { is_lifetime: is_lt, name: nm, bounds }]
                                            + rest,
                                        m,
                                    ),
                                ),
                            }
                        }
                    },
                }
            },
        }
    }
}

pub fn parse_gen_params(t: &Vec<Tok>, i: usize) -> (r: Result<(Vec<GenParam>, usize), ParseError>)
    requires
        i <= t.len(),
    ensures
        ({
            let s = sp_gen_params(t.deep_view(), i as int);
            match r {
                Ok((v, j)) => s == Ok::<_, ParseError>((v.deep_view(), j as int)) && i < j
                    <= t.len(),
                Err(e) => s == Err::<(Seq<GenParamV>, int), _>(e),
            }
        }),
    decreases t.len() - i,
{
    if i >= t.len() {
        return Err(ParseError { kind: ErrorKind::UnexpectedEnd, pos: t.len() });
    }
    if is_punct(&t[i], '>') {
        let v: Vec<GenParam> = Vec::new();
        proof {
            lemma_dv_empty(v);
        }
        return Ok((v, i + 1));
    }
    let (is_lt, nm) = match &t[i] {
        Tok::Lifetime(nm) => (true, nm.clone()),
        Tok::Ident(nm) => (false, nm.clone()),
        _ => {
            return Err(ParseError { kind: ErrorKind::ExpectedIdent, pos: i });
        },
    };
    let bres = if i + 1 < t.len() && is_punct(&t[i + 1], ':') {
        cap_bounds(t, i + 2, 0, 0)
    } else {
        let v: Vec<Tok> = Vec::new();
        proof {
            lemma_dv_empty(v);
        }
        Ok((v, i + 1))
    };
    match bres {
        Err(e) => Err(e),
        Ok((bounds, k)) => {
            let k2: usize = if k < t.len() && is_punct(&t[k], ',') {
                k + 1
            } else {
                k
            };
            match parse_gen_params(t, k2) {
                Err(e) => Err(e),
                Ok((mut rest, m)) => {
                    let p = GenParam { is_lifetime: is_lt, name: nm, bounds };
                    push_front_own(&mut rest, p);
                    Ok((rest, m))
                },
            }
        },
    }
}

/// An optional generic parameter list.
pub open spec fn sp_generics(t: Seq<TokV>, i: int) -> Result<(Seq<GenParamV>, int), ParseError> {
    if i < 0 || i >= t.len() || !spec_is_punct(t[i], '<') {
        Ok((Seq::empty(), i))
    } else {
        sp_gen_params(t, i + 1)
    }
}

pub fn parse_generics(t: &Vec<Tok>, i: usize) -> (r: Result<(Vec<GenParam>, usize), ParseError>)
    requires
        i <= t.len(),
    ensures
        ({
            let s = sp_generics(t.deep_view(), i as int);
            match r {
                Ok((v, j)) => s == Ok::<_, ParseError>((v.deep_view(), j as int)) && i <= j
                    <= t.len(),
                Err(e) => s == Err::<(Seq<GenParamV>, int), _>(e),
            }
        }),
{
    if i >= t.len() || !is_punct(&t[i], '<') {
        let v: Vec<GenParam> = Vec::new();
        proof {
            lemma_dv_empty(v);
        }
        return Ok((v, i));
    }
    parse_gen_params(t, i + 1)
}

/// An optional `where` clause: the predicates after the keyword, verbatim.
pub open spec fn sp_where_clause(t: Seq<TokV>, i: int) -> Result<
    (Option<Seq<TokV>>, int),
    ParseError,
> {
    if i < 0 || i >= t.len() || !spec_is_ident(t[i], "where"@) {
        Ok((None, i))
    } else {
        match sp_cap_where(t, i + 1, 0, 0) {
            Ok((w, j)) => Ok((Some(w), j)),
            Err(e) => Err(e),
        }
    }
}

pub fn parse_where_clause(t: &Vec<Tok>, i: usize) -> (r: Result<
    (Option<Vec<Tok>>, usize),
    ParseError,
>)
    requires
        i <= t.len(),
    ensures
        ({
            let s = sp_where_clause(t.deep_view(), i as int);
            match r {
                Ok((v, j)) => s == Ok::<_, ParseError>((v.deep_view(), j as int)) && i <= j
                    <= t.len(),
                Err(e) => s == Err::<(Option<Seq<TokV>>, int), _>(e),
            }
        }),
{
    if i >= t.len() || !is_kw(&t[i], "where") {
        return Ok((None, i));
    }
    match cap_where(t, i + 1, 0, 0) {
        Ok((w, j)) => Ok((Some(w), j)),
        Err(e) => Err(e),
    }
}

/// What follows the `=` of a field or element: the single reserved token `_`
/// means the implicit type default; anything else, however it begins, is an
/// opaque explicit expression, which must not be empty.
pub open spec fn sp_default(t: Seq<TokV>, i: int) -> Result<(DefaultSpecV, int), ParseError> {
    if i < 0 || i >= t.len() {
        Err(perr(ErrorKind::UnexpectedEnd, t.len() as int))
    } else if spec_is_ident(t[i], "_"@) {
        Ok((DefaultSpecV::Implicit, i + 1))
    } else {
        match sp_cap_expr(t, i, 0) {
            Ok((e, j)) => if e.len() == 0 {
                Err(perr(ErrorKind::ExpectedExpr, i))
            } else {
                Ok((DefaultSpecV::Explicit(e), j))
            },
            Err(err) => Err(err),
        }
    }
}

impl DefaultSpec {
    /// Parse the default written after `=`.
    pub fn parse(t: &Vec<Tok>, i: usize) -> (r: Result<(DefaultSpec, usize), ParseError>)
        requires
            i <= t.len(),
        ensures
            ({
                let s = sp_default(t.deep_view(), i as int);
                match r {
                    Ok((v, j)) => s == Ok::<_, ParseError>((v.deep_view(), j as int)) && i <= j
                        <= t.len(),
                    Err(e) => s == Err::<(DefaultSpecV, int), _>(e),
                }
            }),
    {
        if i >= t.len() {
            return Err(ParseError { kind: ErrorKind::UnexpectedEnd, pos: t.len() });
        }
        if is_kw(&t[i], "_") {
            return Ok((DefaultSpec::Implicit, i + 1));
        }
        match cap_expr(t, i, 0) {
            Ok((e, j)) => if e.len() == 0 {
                Err(ParseError { kind: ErrorKind::ExpectedExpr, pos: i })
            } else {
                Ok((DefaultSpec::Explicit(e), j))
            },
            Err(err) => Err(err),
        }
    }
}

/// One named field: attributes, visibility, name, `:`, type, optional
/// `= default`, optional trailing `,` (a missing separator before the closing
/// delimiter is not an error).
pub open spec fn sp_field(t: Seq<TokV>, i: int) -> Result<(FieldV, int), ParseError> {
    match sp_attrs(t, i) {
        Err(e) => Err(e),
        Ok((attrs, j1)) => match sp_vis(t, j1) {
            Err(e) => Err(e),
            Ok((vis, j2)) => if j2 < 0 || j2 >= t.len() {
                Err(perr(ErrorKind::UnexpectedEnd, t.len() as int))
            } else {
                match t[j2] {
                    TokV::Ident(nm) => if !(j2 + 1 < t.len() && spec_is_punct(t[j2 + 1], ':')) {
                        Err(perr(ErrorKind::ExpectedColon, j2 + 1))
                    } else {
                        match sp_cap_ty(t, j2 + 2, 0, 0) {
                            Err(e) => Err(e),
                            Ok((ty, j4)) => if ty.len() == 0 {
                                Err(perr(ErrorKind::ExpectedType, j2 + 2))
                            } else {
                                let dres = if j4 < t.len() && spec_is_punct(t[j4], '=') {
                                    sp_default(t, j4 + 1)
                                } else {
                                    Ok((DefaultSpecV::Absent, j4))
                                };
                                match dres {
                                    Err(e) => Err(e),
                                    Ok((d, j5)) => {
                                        let j6: int = if j5 < t.len() && spec_is_punct(
                                            t[j5],
                                            ',',
                                        ) {
                                            j5 + 1
                                        } else {
                                            j5
                                        };
                                        Ok(
                                            (
                                                FieldV {
                                                    attrs,
                                                    vis,
                                                    name: nm,
                                                    ty,
                                                    default: d,
                                                },
                                                j6,
                                            ),
                                        )
                                    },
                                }
                            },
                        }
                    },
                    _ => Err(perr(ErrorKind::ExpectedIdent, j2)),
                }
            },
        },
    }
}

impl Field {
    /// Parse one named field.
    pub fn parse(t: &Vec<Tok>, i: usize) -> (r: Result<(Field, usize), ParseError>)
        requires
            i <= t.len(),
        ensures
            ({
                let s = sp_field(t.deep_view(), i as int);
                match r {
                    Ok((f, j)) => s == Ok::<_, ParseError>((f.deep_view(), j as int)) && i < j
                        <= t.len(),
                    Err(e) => s == Err::<(FieldV, int), _>(e),
                }
            }),
    {
        let (attrs, j1) = match parse_attrs(t, i) {
            Ok(x) => x,
            Err(e) => {
                return Err(e);
            },
        };
        let (vis, j2) = match parse_vis(t, j1) {
            Ok(x) => x,
            Err(e) => {
                return Err(e);
            },
        };
        if j2 >= t.len() {
            return Err(ParseError { kind: ErrorKind::UnexpectedEnd, pos: t.len() });
        }
        let nm = match &t[j2] {
            Tok::Ident(nm) => nm.clone(),
            _ => {
                return Err(ParseError { kind: ErrorKind::ExpectedIdent, pos: j2 });
            },
        };
        if !(j2 + 1 < t.len() && is_punct(&t[j2 + 1], ':')) {
            return Err(ParseError { kind: ErrorKind::ExpectedColon, pos: j2 + 1 });
        }
        let (ty, j4) = match cap_ty(t, j2 + 2, 0, 0) {
            Ok(x) => x,
            Err(e) => {
                return Err(e);
            },
        };
        if ty.len() == 0 {
            return Err(ParseError { kind: ErrorKind::ExpectedType, pos: j2 + 2 });
        }
        let (d, j5) = if j4 < t.len() && is_punct(&t[j4], '=') {
            match DefaultSpec::parse(t, j4 + 1) {
                Ok(x) => x,
                Err(e) => {
                    return Err(e);
                },
            }
        } else {
            (DefaultSpec::Absent, j4)
        };
        let j6: usize = if j5 < t.len() && is_punct(&t[j5], ',') {
            j5 + 1
        } else {
            j5
        };
        Ok((Field { attrs, vis, name: nm, ty, default: d }, j6))
    }
}

/// The fields of a brace-delimited body, ended by the closing brace
/// (consumed).
pub open spec fn sp_fields(t: Seq<TokV>, i: int) -> Result<(Seq<FieldV>, int), ParseError>
    decreases t.len() - i,
{
    if i < 0 || i >= t.len() {
        Err(perr(ErrorKind::UnexpectedEnd, t.len() as int))
    } else if spec_is_close(t[i], Delim::Brace) {
        Ok((Seq::empty(), i + 1))
    } else {
        match sp_field(t, i) {
            Err(e) => Err(e),
            Ok((f, j)) => if j <= i || j > t.len() {
                Err(perr(ErrorKind::UnexpectedEnd, t.len() as int))
            } else {
                match sp_fields(t, j) {
                    Err(e) => Err(e),
                    Ok((rest, k)) => Ok((seq![f] + rest, k)),
                }
            },
        }
    }
}

pub fn parse_fields(t: &Vec<Tok>, i: usize) -> (r: Result<(Vec<Field>, usize), ParseError>)
    requires
        i <= t.len(),
    ensures
        ({
            let s = sp_fields(t.deep_view(), i as int);
            match r {
                Ok((v, j)) => s == Ok::<_, ParseError>((v.deep_view(), j as int)) && i < j
                    <= t.len(),
                Err(e) => s == Err::<(Seq<FieldV>, int), _>(e),
            }
        }),
    decreases t.len() - i,
{
    if i >= t.len() {
        return Err(ParseError { kind: ErrorKind::UnexpectedEnd, pos: t.len() });
    }
    if is_close(&t[i], Delim::Brace) {
        let v: Vec<Field> = Vec::new();
        proof {
            lemma_dv_empty(v);
        }
        return Ok((v, i + 1));
    }
    match Field::parse(t, i) {
        Err(e) => Err(e),
        Ok((f, j)) => match parse_fields(t, j) {
            Err(e) => Err(e),
            Ok((mut rest, k)) => {
                push_front_own(&mut rest, f);
                Ok((rest, k))
            },
        },
    }
}

/// One positional element: attributes, visibility, type, optional
/// `= default`, optional trailing `,`.
pub open spec fn sp_element(t: Seq<TokV>, i: int) -> Result<(ElementV, int), ParseError> {
    match sp_attrs(t, i) {
        Err(e) => Err(e),
        Ok((attrs, j1)) => match sp_vis(t, j1) {
            Err(e) => Err(e),
            Ok((vis, j2)) => match sp_cap_ty(t, j2, 0, 0) {
                Err(e) => Err(e),
                Ok((ty, j4)) => if ty.len() == 0 {
                    Err(perr(ErrorKind::ExpectedType, j2))
                } else {
                    let dres = if j4 < t.len() && spec_is_punct(t[j4], '=') {
                        sp_default(t, j4 + 1)
                    } else {
                        Ok((DefaultSpecV::Absent, j4))
                    };
                    match dres {
                        Err(e) => Err(e),
                        Ok((d, j5)) => {
                            let j6: int = if j5 < t.len() && spec_is_punct(t[j5], ',') {
                                j5 + 1
                            } else {
                                j5
                            };
                            Ok((ElementV { attrs, vis, ty, default: d }, j6))
                        },
                    }
                },
            },
        },
    }
}

impl Element {
    /// Parse one positional element.
    pub fn parse(t: &Vec<Tok>, i: usize) -> (r: Result<(Element, usize), ParseError>)
        requires
            i <= t.len(),
        ensures
            ({
                let s = sp_element(t.deep_view(), i as int);
                match r {
                    Ok((el, j)) => s == Ok::<_, ParseError>((el.deep_view(), j as int)) && i < j
                        <= t.len(),
                    Err(e) => s == Err::<(ElementV, int), _>(e),
                }
            }),
    {
        let (attrs, j1) = match parse_attrs(t, i) {
            Ok(x) => x,
            Err(e) => {
                return Err(e);
            },
        };
        let (vis, j2) = match parse_vis(t, j1) {
            Ok(x) => x,
            Err(e) => {
                return Err(e);
            },
        };
        let (ty, j4) = match cap_ty(t, j2, 0, 0) {
            Ok(x) => x,
            Err(e) => {
                return Err(e);
            },
        };
        if ty.len() == 0 {
            return Err(ParseError { kind: ErrorKind::ExpectedType, pos: j2 });
        }
        let (d, j5) = if j4 < t.len() && is_punct(&t[j4], '=') {
            match DefaultSpec::parse(t, j4 + 1) {
                Ok(x) => x,
                Err(e) => {
                    return Err(e);
                },
            }
        } else {
            (DefaultSpec::Absent, j4)
        };
        let j6: usize = if j5 < t.len() && is_punct(&t[j5], ',') {
            j5 + 1
        } else {
            j5
        };
        Ok((Element { attrs, vis, ty, default: d }, j6))
    }
}

/// The elements of a parenthesized body, ended by the closing parenthesis
/// (consumed).
pub open spec fn sp_elements(t: Seq<TokV>, i: int) -> Result<(Seq<ElementV>, int), ParseError>
    decreases t.len() - i,
{
    if i < 0 || i >= t.len() {
        Err(perr(ErrorKind::UnexpectedEnd, t.len() as int))
    } else if spec_is_close(t[i], Delim::Paren) {
        Ok((Seq::empty(), i + 1))
    } else {
        match sp_element(t, i) {
            Err(e) => Err(e),
            Ok((el, j)) => if j <= i || j > t.len() {
                Err(perr(ErrorKind::UnexpectedEnd, t.len() as int))
            } else {
                match sp_elements(t, j) {
                    Err(e) => Err(e),
                    Ok((rest, k)) => Ok((seq![el] + rest, k)),
                }
            },
        }
    }
}

pub fn parse_elements(t: &Vec<Tok>, i: usize) -> (r: Result<(Vec<Element>, usize), ParseError>)
    requires
        i <= t.len(),
    ensures
        ({
            let s = sp_elements(t.deep_view(), i as int);
            match r {
                Ok((v, j)) => s == Ok::<_, ParseError>((v.deep_view(), j as int)) && i < j
                    <= t.len(),
                Err(e) => s == Err::<(Seq<ElementV>, int), _>(e),
            }
        }),
    decreases t.len() - i,
{
    if i >= t.len() {
        return Err(ParseError { kind: ErrorKind::UnexpectedEnd, pos: t.len() });
    }
    if is_close(&t[i], Delim::Paren) {
        let v: Vec<Element> = Vec::new();
        proof {
            lemma_dv_empty(v);
        }
        return Ok((v, i + 1));
    }
    match Element::parse(t, i) {
        Err(e) => Err(e),
        Ok((el, j)) => match parse_elements(t, j) {
            Err(e) => Err(e),
            Ok((mut rest, k)) => {
                push_front_own(&mut rest, el);
                Ok((rest, k))
            },
        },
    }
}

/// A whole annotated definition: header, then a brace-delimited body, or a
/// parenthesized body whose terminating `;` is mandatory.
pub open spec fn sp_struct_kind(t: Seq<TokV>, i: int) -> Result<(StructKindV, int), ParseError> {
    match sp_attrs(t, i) {
        Err(e) => Err(e),
        Ok((attrs, j1)) => match sp_vis(t, j1) {
            Err(e) => Err(e),
            Ok((vis, j2)) => if !(0 <= j2 < t.len() && spec_is_ident(t[j2], "struct"@)) {
                Err(perr(ErrorKind::ExpectedStruct, j2))
            } else if j2 + 1 >= t.len() {
                Err(perr(ErrorKind::UnexpectedEnd, t.len() as int))
            } else {
                match t[j2 + 1] {
                    TokV::Ident(nm) => match sp_generics(t, j2 + 2) {
                        Err(e) => Err(e),
                        Ok((params, j3)) => match sp_where_clause(t, j3) {
                            Err(e) => Err(e),
                            Ok((wc, j4)) => if j4 < 0 || j4 >= t.len() {
                                Err(perr(ErrorKind::ExpectedBody, t.len() as int))
                            } else if spec_is_open(t[j4], Delim::Brace) {
                                match sp_fields(t, j4 + 1) {
                                    Err(e) => Err(e),
                                    Ok((fs, j5)) => Ok(
                                        (
                                            StructKindV::Braced(
                                                BracedDefV {
                                                    header: HeaderV {
                                                        attrs,
                                                        vis,
                                                        name: nm,
                                                        params,
                                                        where_clause: wc,
                                                    },
                                                    fields: fs,
                                                },
                                            ),
                                            j5,
                                        ),
                                    ),
                                }
                            } else if spec_is_open(t[j4], Delim::Paren) {
                                match sp_elements(t, j4 + 1) {
                                    Err(e) => Err(e),
                                    Ok((es, j5)) => if j5 < t.len() && spec_is_punct(t[j5], ';') {
                                        Ok(
                                            (
                                                StructKindV::Parenthesized(
                                                    ParenthesizedDefV {
                                                        header: HeaderV {
                                                            attrs,
                                                            vis,
                                                            name: nm,
                                                            params,
                                                            where_clause: wc,
                                                        },
                                                        elements: es,
                                                    },
                                                ),
                                                j5 + 1,
                                            ),
                                        )
                                    } else {
                                        Err(perr(ErrorKind::ExpectedSemicolon, j5))
                                    },
                                }
                            } else {
                                Err(perr(ErrorKind::ExpectedBody, j4))
                            },
                        },
                    },
                    _ => Err(perr(ErrorKind::ExpectedIdent, j2 + 1)),
                }
            },
        },
    }
}

impl StructKind {
    /// Parse a whole annotated definition starting at `i`.
    pub fn parse(t: &Vec<Tok>, i: usize) -> (r: Result<(StructKind, usize), ParseError>)
        requires
            i <= t.len(),
        ensures
            ({
                let s = sp_struct_kind(t.deep_view(), i as int);
                match r {
                    Ok((sk, j)) => s == Ok::<_, ParseError>((sk.deep_view(), j as int)) && i < j
                        <= t.len(),
                    Err(e) => s == Err::<(StructKindV, int), _>(e),
                }
            }),
    {
        let (attrs, j1) = match parse_attrs(t, i) {
            Ok(x) => x,
            Err(e) => {
                return Err(e);
            },
        };
        let (vis, j2) = match parse_vis(t, j1) {
            Ok(x) => x,
            Err(e) => {
                return Err(e);
            },
        };
        if !(j2 < t.len() && is_kw(&t[j2], "struct")) {
            return Err(ParseError { kind: ErrorKind::ExpectedStruct, pos: j2 });
        }
        if j2 + 1 >= t.len() {
            return Err(ParseError { kind: ErrorKind::UnexpectedEnd, pos: t.len() });
        }
        let nm = match &t[j2 + 1] {
            Tok::Ident(nm) => nm.clone(),
            _ => {
                return Err(ParseError { kind: ErrorKind::ExpectedIdent, pos: j2 + 1 });
            },
        };
        let (params, j3) = match parse_generics(t, j2 + 2) {
            Ok(x) => x,
            Err(e) => {
                return Err(e);
            },
        };
        let (wc, j4) = match parse_where_clause(t, j3) {
            Ok(x) => x,
            Err(e) => {
                return Err(e);
            },
        };
        if j4 >= t.len() {
            return Err(ParseError { kind: ErrorKind::ExpectedBody, pos: t.len() });
        }
        if is_open(&t[j4], Delim::Brace) {
            match parse_fields(t, j4 + 1) {
                Err(e) => Err(e),
                Ok((fs, j5)) => Ok(
                    (
                        StructKind::Braced(
                            BracedDef {
                                header: Header { attrs, vis, name: nm, params, where_clause: wc },
                                fields: fs,
                            },
                        ),
                        j5,
                    ),
                ),
            }
        } else if is_open(&t[j4], Delim::Paren) {
            match parse_elements(t, j4 + 1) {
                Err(e) => Err(e),
                Ok((es, j5)) => if j5 < t.len() && is_punct(&t[j5], ';') {
                    Ok(
                        (
                            StructKind::Parenthesized(
                                ParenthesizedDef {
                                    header: Header {
                                        attrs,
                                        vis,
                                        name: nm,
                                        params,
                                        where_clause: wc,
                                    },
                                    elements: es,
                                },
                            ),
                            j5 + 1,
                        ),
                    )
                } else {
                    Err(ParseError { kind: ErrorKind::ExpectedSemicolon, pos: j5 })
                },
            }
        } else {
            Err(ParseError { kind: ErrorKind::ExpectedBody, pos: j4 })
        }
    }
}

/// One whole definition and nothing else: trailing tokens are an error.
pub open spec fn sp_parse_definition(t: Seq<TokV>) -> Result<StructKindV, ParseError> {
    match sp_struct_kind(t, 0) {
        Err(e) => Err(e),
        Ok((sk, j)) => if j == t.len() {
            Ok(sk)
        } else {
            Err(perr(ErrorKind::TrailingTokens, j))
        },
    }
}

/// Parse the whole input as one annotated definition.
pub fn parse_definition(t: &Vec<Tok>) -> (r: Result<StructKind, ParseError>)
    ensures
        ({
            let s = sp_parse_definition(t.deep_view());
            match r {
                Ok(sk) => s == Ok::<_, ParseError>(sk.deep_view()),
                Err(e) => s == Err::<StructKindV, _>(e),
            }
        }),
{
    match StructKind::parse(t, 0) {
        Err(e) => Err(e),
        Ok((sk, j)) => if j == t.len() {
            Ok(sk)
        } else {
            Err(ParseError { kind: ErrorKind::TrailingTokens, pos: j })
        },
    }
}

} // verus!
