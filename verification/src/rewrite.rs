//! The derive-list rewriter.
//!
//! A derive attribute whose arguments are a parenthesized, comma-separated
//! identifier list is recognized; any other argument shape is left untouched.
//! Rewriting removes the `Default` marker from every recognized derive list,
//! drops a derive attribute that would be left without arguments, and keeps
//! every other attribute unchanged and in original order.
//!
//! The rewritten list is rebuilt from the kept identifiers alone, so it is
//! well formed by construction: [`lemma_strip_leaves_no_marker`] proves that
//! re-reading the result never finds the marker again. The fallback of
//! re-emitting an attribute it could not rebuild is therefore unreachable and
//! this library does not carry one; an attribute whose arguments never parsed
//! as an identifier list is simply kept verbatim.

use vstd::prelude::*;
use crate::tokens::{Tok, TokV, Delim};
use crate::model::{Attr, AttrV};
use crate::parser::{spec_is_punct, spec_is_open, spec_is_close, is_punct, is_open, is_close,
    str_eq, tok_dup, push_front_own, lemma_dv_empty, lemma_dv_push};

verus! {

/// A comma-separated identifier list, trailing comma allowed; `None` when
/// the tokens are anything else.
pub open spec fn sp_idents(s: Seq<TokV>) -> Option<Seq<Seq<char>>>
    decreases s.len(),
{
    if s.len() == 0 {
        Some(Seq::empty())
    } else {
        match s[0] {
            TokV::Ident(nm) => if s.len() == 1 {
                Some(seq![nm])
            } else if spec_is_punct(s[1], ',') {
                match sp_idents(s.skip(2)) {
                    Some(r) => Some(seq![nm] + r),
                    None => None,
                }
            } else {
                None
            },
            _ => None,
        }
    }
}

/// The identifiers of a recognized derive attribute: name `derive` and one
/// parenthesized identifier list as arguments; `None` otherwise.
pub open spec fn sp_attr_idents(a: AttrV) -> Option<Seq<Seq<char>>> {
    if a.name == "derive"@ && a.args.len() >= 2 && spec_is_open(a.args[0], Delim::Paren)
        && spec_is_close(a.args[a.args.len() - 1], Delim::Paren) {
        sp_idents(a.args.subrange(1, a.args.len() - 1))
    } else {
        None
    }
}

pub open spec fn sp_list_has_from(l: Seq<Seq<char>>, x: Seq<char>, i: int) -> bool
    decreases l.len() - i,
{
    if !(0 <= i < l.len()) {
        false
    } else {
        l[i] == x || sp_list_has_from(l, x, i + 1)
    }
}

pub open spec fn sp_list_has(l: Seq<Seq<char>>, x: Seq<char>) -> bool {
    sp_list_has_from(l, x, 0)
}

/// Whether one attribute is a recognized derive list naming the marker.
pub open spec fn sp_attr_has_marker(a: AttrV) -> bool {
    match sp_attr_idents(a) {
        Some(l) => sp_list_has(l, "Default"@),
        None => false,
    }
}

pub open spec fn sp_has_marker_from(attrs: Seq<AttrV>, i: int) -> bool
    decreases attrs.len() - i,
{
    if !(0 <= i < attrs.len()) {
        false
    } else {
        sp_attr_has_marker(attrs[i]) || sp_has_marker_from(attrs, i + 1)
    }
}

/// Whether any attribute of the list is a recognized derive list naming the
/// `Default` marker: exactly when the default-instance operation is emitted.
pub open spec fn sp_has_marker(attrs: Seq<AttrV>) -> bool {
    sp_has_marker_from(attrs, 0)
}

/// The identifiers kept after removing the marker.
pub open spec fn sp_kept(l: Seq<Seq<char>>) -> Seq<Seq<char>> {
    l.filter(|x: Seq<char>| x != "Default"@)
}

/// The kept identifiers joined with commas, from position `k` on.
pub open spec fn sp_join_from(l: Seq<Seq<char>>, k: int) -> Seq<TokV>
    decreases l.len() - k,
{
    if !(0 <= k < l.len()) {
        Seq::empty()
    } else if k + 1 == l.len() {
        seq![TokV::Ident(l[k])]
    } else {
        seq![TokV::Ident(l[k]), TokV::Punct(',', false)] + sp_join_from(l, k + 1)
    }
}

/// The argument tokens of a rebuilt derive attribute.
pub open spec fn sp_rebuild_args(kept: Seq<Seq<char>>) -> Seq<TokV> {
    seq![TokV::Open(Delim::Paren)] + sp_join_from(kept, 0) + seq![TokV::Close(Delim::Paren)]
}

/// What one attribute becomes under rewriting: unrecognized attributes stay,
/// a derive list is rebuilt without the marker, and an emptied derive
/// attribute disappears entirely.
pub open spec fn sp_strip_attr(a: AttrV) -> Seq<AttrV> {
    match sp_attr_idents(a) {
        None => seq![a],
        Some(l) => {
            let kept = sp_kept(l);
            if kept.len() == 0 {
                Seq::empty()
            } else {
                seq![AttrV { name: "derive"@, args: sp_rebuild_args(kept) }]
            }
        },
    }
}

pub open spec fn sp_strip_from(attrs: Seq<AttrV>, i: int) -> Seq<AttrV>
    decreases attrs.len() - i,
{
    if !(0 <= i < attrs.len()) {
        Seq::empty()
    } else {
        sp_strip_attr(attrs[i]) + sp_strip_from(attrs, i + 1)
    }
}

/// The whole attribute list after removing the marker everywhere.
pub open spec fn sp_strip_attrs(attrs: Seq<AttrV>) -> Seq<AttrV> {
    sp_strip_from(attrs, 0)
}

/// An owned copy of a token fragment, with the same value.
pub fn toks_dup(v: &Vec<Tok>) -> (r: Vec<Tok>)
    ensures
        r@ == v@,
        r.deep_view() == v.deep_view(),
{
    let mut r: Vec<Tok> = Vec::new();
    let mut k: usize = 0;
    while k < v.len()
        invariant
            k <= v.len(),
            r@ == v@.take(k as int),
        decreases v.len() - k,
    {
        r.push(tok_dup(&v[k]));
        proof {
            assert(r@ =~= v@.take(k as int + 1));
        }
        k += 1;
    }
    proof {
        assert(r@ =~= v@);
        assert(r.deep_view() =~= v.deep_view());
    }
    r
}

/// The identifiers of `t[i .. end)` as strings, exactly when the range is a
/// comma-separated identifier list.
fn idents_in(t: &Vec<Tok>, i: usize, end: usize) -> (r: Option<Vec<String>>)
    requires
        i <= end <= t.len(),
    ensures
        ({
            let s = sp_idents(t.deep_view().subrange(i as int, end as int));
            match r {
                Some(v) => s == Some(v.deep_view()),
                None => s is None,
            }
        }),
    decreases end - i,
{
    let ghost sub = t.deep_view().subrange(i as int, end as int);
    if i == end {
        let v: Vec<String> = Vec::new();
        proof {
            lemma_dv_empty(v);
        }
        return Some(v);
    }
    let nm = match &t[i] {
        Tok::Ident(nm) => nm.clone(),
        _ => {
            return None;
        },
    };
    if i + 1 == end {
        let mut v: Vec<String> = Vec::new();
        v.push(nm);
        proof {
            assert(v.deep_view() =~= seq![nm@]);
        }
        return Some(v);
    }
    if is_punct(&t[i + 1], ',') {
        proof {
            assert(sub.skip(2) =~= t.deep_view().subrange(i as int + 2, end as int));
        }
        match idents_in(t, i + 2, end) {
            Some(mut rest) => {
                push_front_own(&mut rest, nm);
                Some(rest)
            },
            None => None,
        }
    } else {
        None
    }
}

/// The identifier list of a recognized derive attribute.
pub fn attr_idents(a: &Attr) -> (r: Option<Vec<String>>)
    ensures
        ({
            let s = sp_attr_idents(a.deep_view());
            match r {
                Some(v) => s == Some(v.deep_view()),
                None => s is None,
            }
        }),
{
    if !str_eq(&a.name, "derive") {
        return None;
    }
    let n = a.args.len();
    if n < 2 {
        return None;
    }
    if !is_open(&a.args[0], Delim::Paren) || !is_close(&a.args[n - 1], Delim::Paren) {
        return None;
    }
    idents_in(&a.args, 1, n - 1)
}

fn list_has_from(l: &Vec<String>, x: &str, i: usize) -> (r: bool)
    requires
        i <= l.len(),
    ensures
        r == sp_list_has_from(l.deep_view(), x@, i as int),
    decreases l.len() - i,
{
    if i >= l.len() {
        false
    } else if str_eq(&l[i], x) {
        true
    } else {
        list_has_from(l, x, i + 1)
    }
}

/// Whether any attribute of the list is a derive list naming `Default`.
pub fn has_derive_default(attrs: &Vec<Attr>) -> (r: bool)
    ensures
        r == sp_has_marker(attrs.deep_view()),
{
    has_marker_from(attrs, 0)
}

fn has_marker_from(attrs: &Vec<Attr>, i: usize) -> (r: bool)
    requires
        i <= attrs.len(),
    ensures
        r == sp_has_marker_from(attrs.deep_view(), i as int),
    decreases attrs.len() - i,
{
    if i >= attrs.len() {
        return false;
    }
    let here = match attr_idents(&attrs[i]) {
        Some(l) => list_has_from(&l, "Default", 0),
        None => false,
    };
    if here {
        true
    } else {
        has_marker_from(attrs, i + 1)
    }
}

/// The kept identifiers: everything but the marker.
fn kept_idents(l: &Vec<String>) -> (r: Vec<String>)
    ensures
        r.deep_view() == sp_kept(l.deep_view()),
{
    let mut r: Vec<String> = Vec::new();
    let mut k: usize = 0;
    proof {
        assert(l.deep_view().take(0) =~= Seq::<Seq<char>>::empty());
        assert(Seq::<Seq<char>>::empty().filter(|x: Seq<char>| x != "Default"@)
            =~= Seq::<Seq<char>>::empty());
        lemma_dv_empty(r);
    }
    while k < l.len()
        invariant
            k <= l.len(),
            r.deep_view() == l.deep_view().take(k as int).filter(|x: Seq<char>| x != "Default"@),
        decreases l.len() - k,
    {
        let ghost pre = r.deep_view();
        let ghost taken = l.deep_view().take(k as int);
        if !str_eq(&l[k], "Default") {
            let ghost r0 = r;
            let x = l[k].clone();
            r.push(x);
            proof {
                lemma_dv_push(r0, r, x);
            }
        }
        proof {
            reveal_with_fuel(Seq::filter, 2);
            assert(l.deep_view().take(k as int + 1).drop_last() =~= taken);
            assert(l.deep_view().take(k as int + 1).last() == l.deep_view()[k as int]);
            assert(l.deep_view().take(k as int + 1).filter(|x: Seq<char>| x != "Default"@)
                == if l.deep_view()[k as int] != "Default"@ {
                    taken.filter(|x: Seq<char>| x != "Default"@).push(l.deep_view()[k as int])
                } else {
                    taken.filter(|x: Seq<char>| x != "Default"@)
                });
        }
        k += 1;
    }
    proof {
        assert(l.deep_view().take(l@.len() as int) =~= l.deep_view());
    }
    r
}

fn join_from(l: &Vec<String>, k: usize) -> (r: Vec<Tok>)
    requires
        k <= l.len(),
    ensures
        r.deep_view() == sp_join_from(l.deep_view(), k as int),
    decreases l.len() - k,
{
    if k >= l.len() {
        let v: Vec<Tok> = Vec::new();
        proof {
            lemma_dv_empty(v);
        }
        return v;
    }
    if k + 1 == l.len() {
        let mut v: Vec<Tok> = Vec::new();
        v.push(Tok::Ident(l[k].clone()));
        proof {
            assert(v.deep_view() =~= seq![TokV::Ident(l.deep_view()[k as int])]);
        }
        return v;
    }
    let mut rest = join_from(l, k + 1);
    push_front_own(&mut rest, Tok::Punct(',', false));
    push_front_own(&mut rest, Tok::Ident(l[k].clone()));
    proof {
        assert(rest.deep_view() =~= sp_join_from(l.deep_view(), k as int));
    }
    rest
}

/// Rebuild the argument tokens of a derive attribute from kept identifiers.
fn rebuild_args(kept: &Vec<String>) -> (r: Vec<Tok>)
    ensures
        r.deep_view() == sp_rebuild_args(kept.deep_view()),
{
    let mut inner = join_from(kept, 0);
    let ghost mid = inner;
    inner.push(Tok::Close(Delim::Paren));
    proof {
        lemma_dv_push(mid, inner, Tok::Close(Delim::Paren));
    }
    push_front_own(&mut inner, Tok::Open(Delim::Paren));
    proof {
        assert(inner.deep_view() =~= sp_rebuild_args(kept.deep_view()));
    }
    inner
}

fn strip_from(attrs: &Vec<Attr>, i: usize) -> (r: Vec<Attr>)
    requires
        i <= attrs.len(),
    ensures
        r.deep_view() == sp_strip_from(attrs.deep_view(), i as int),
    decreases attrs.len() - i,
{
    if i >= attrs.len() {
        let v: Vec<Attr> = Vec::new();
        proof {
            lemma_dv_empty(v);
        }
        return v;
    }
    let mut rest = strip_from(attrs, i + 1);
    match attr_idents(&attrs[i]) {
        None => {
            let a = Attr { name: attrs[i].name.clone(), args: toks_dup(&attrs[i].args) };
            push_front_own(&mut rest, a);
            proof {
                assert(rest.deep_view() =~= sp_strip_from(attrs.deep_view(), i as int));
            }
            rest
        },
        Some(l) => {
            let kept = kept_idents(&l);
            if kept.len() == 0 {
                proof {
                    assert(rest.deep_view() =~= sp_strip_from(attrs.deep_view(), i as int));
                }
                rest
            } else {
                let args = rebuild_args(&kept);
                let a = Attr { name: "derive".to_owned(), args };
                push_front_own(&mut rest, a);
                proof {
                    assert(rest.deep_view() =~= sp_strip_from(attrs.deep_view(), i as int));
                }
                rest
            }
        },
    }
}

/// The attribute list with the `Default` marker removed from every derive
/// list, emptied derive attributes dropped, and everything else kept
/// verbatim, in original order.
pub fn strip_default_from_derive(attrs: &Vec<Attr>) -> (r: Vec<Attr>)
    ensures
        r.deep_view() == sp_strip_attrs(attrs.deep_view()),
{
    strip_from(attrs, 0)
}

/// Rejoining kept identifiers parses back to exactly those identifiers.
pub proof fn lemma_join_reparses(l: Seq<Seq<char>>, k: int)
    requires
        0 <= k <= l.len(),
    ensures
        sp_idents(sp_join_from(l, k)) == Some(l.skip(k)),
    decreases l.len() - k,
{
    if k == l.len() {
        assert(l.skip(k) =~= Seq::<Seq<char>>::empty());
    } else if k + 1 == l.len() {
        assert(l.skip(k) =~= seq![l[k]]);
    } else {
        lemma_join_reparses(l, k + 1);
        let s = sp_join_from(l, k);
        assert(s.skip(2) =~= sp_join_from(l, k + 1));
        assert(seq![l[k]] + l.skip(k + 1) =~= l.skip(k));
    }
}

/// A rebuilt derive attribute is recognized again, with exactly the kept
/// identifiers: the rewriter's output never needs the fall-back of emitting
/// the original attribute, because rebuilding cannot fail to re-parse.
pub proof fn lemma_rebuild_reparses(kept: Seq<Seq<char>>)
    ensures
        sp_attr_idents(AttrV { name: "derive"@, args: sp_rebuild_args(kept) }) == Some(kept),
{
    let args = sp_rebuild_args(kept);
    assert(args.subrange(1, args.len() - 1) =~= sp_join_from(kept, 0));
    lemma_join_reparses(kept, 0);
    assert(kept.skip(0) =~= kept);
}

/// No identifier kept by the rewriter is the marker.
pub proof fn lemma_kept_no_marker(l: Seq<Seq<char>>, i: int)
    requires
        0 <= i <= sp_kept(l).len(),
    ensures
        !sp_list_has_from(sp_kept(l), "Default"@, i),
    decreases sp_kept(l).len() - i,
{
    if i < sp_kept(l).len() {
        l.lemma_filter_pred(|x: Seq<char>| x != "Default"@, i);
        lemma_kept_no_marker(l, i + 1);
    }
}

/// What one attribute becomes under rewriting never names the marker.
pub proof fn lemma_strip_attr_no_marker(a: AttrV)
    ensures
        !sp_has_marker(sp_strip_attr(a)),
{
    match sp_attr_idents(a) {
        None => {
            let s = sp_strip_attr(a);
            assert(s == seq![a]);
            assert(!sp_attr_has_marker(a));
            assert(!sp_has_marker_from(s, 1));
            assert(sp_has_marker_from(s, 0) == (sp_attr_has_marker(s[0]) || sp_has_marker_from(
                s,
                1,
            )));
        },
        Some(l) => {
            let kept = sp_kept(l);
            if kept.len() > 0 {
                lemma_rebuild_reparses(kept);
                lemma_kept_no_marker(l, 0);
                let b = AttrV { name: "derive"@, args: sp_rebuild_args(kept) };
                let s = sp_strip_attr(a);
                assert(s == seq![b]);
                assert(!sp_attr_has_marker(b));
                assert(!sp_has_marker_from(s, 1));
                assert(sp_has_marker_from(s, 0) == (sp_attr_has_marker(s[0])
                    || sp_has_marker_from(s, 1)));
            }
        },
    }
}

pub proof fn lemma_has_marker_shift(a: Seq<AttrV>, b: Seq<AttrV>, j: int)
    requires
        0 <= j <= b.len(),
    ensures
        sp_has_marker_from(a + b, a.len() + j) == sp_has_marker_from(b, j),
    decreases b.len() - j,
{
    if j < b.len() {
        assert((a + b)[a.len() + j] == b[j]);
        lemma_has_marker_shift(a, b, j + 1);
    }
}

/// The marker is in a concatenation exactly when it is in one of the parts.
pub proof fn lemma_has_marker_concat(a: Seq<AttrV>, b: Seq<AttrV>, i: int)
    requires
        0 <= i <= a.len(),
    ensures
        sp_has_marker_from(a + b, i) == (sp_has_marker_from(a, i) || sp_has_marker(b)),
    decreases a.len() - i,
{
    if i == a.len() {
        lemma_has_marker_shift(a, b, 0);
    } else {
        assert((a + b)[i] == a[i]);
        lemma_has_marker_concat(a, b, i + 1);
    }
}

pub proof fn lemma_strip_from_no_marker(attrs: Seq<AttrV>, i: int)
    requires
        0 <= i <= attrs.len(),
    ensures
        !sp_has_marker(sp_strip_from(attrs, i)),
    decreases attrs.len() - i,
{
    if i < attrs.len() {
        lemma_strip_attr_no_marker(attrs[i]);
        lemma_strip_from_no_marker(attrs, i + 1);
        lemma_has_marker_concat(sp_strip_attr(attrs[i]), sp_strip_from(attrs, i + 1), 0);
    }
}

/// After rewriting, no attribute of the list names the marker any more: the
/// emitted definition cannot carry a second, derived default-instance
/// generator beside the hand-written one.
pub proof fn lemma_strip_leaves_no_marker(attrs: Seq<AttrV>)
    ensures
        !sp_has_marker(sp_strip_attrs(attrs)),
{
    lemma_strip_from_no_marker(attrs, 0);
}

} // verus!
