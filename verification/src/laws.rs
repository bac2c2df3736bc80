//! The general laws of the transform, proved once for every definition.
//!
//! Each law is stated over the same spec functions the generator's contracts
//! use, so what the library emits is held to these statements for every
//! input, not for chosen examples.

use vstd::prelude::*;
use crate::tokens::TokV;
use crate::model::{DefaultSpecV, FieldV, ElementV, BracedDefV, ParenthesizedDefV};
use crate::emit::{sp_render_field_decl, sp_render_field_decls_from, sp_render_ctor_arg,
    sp_render_ctor_args_from, sp_render_ctor_init, sp_render_ctor_inits_from,
    sp_render_dflt_init, sp_render_dflt_inits_from, sp_render_elem_ctor_args_from,
    sp_render_elem_decl, sp_render_elem_decls_from, sp_render_elem_dflt_init,
    sp_render_elem_dflt_inits_from, sp_default_call, sp_braced_struct_def, sp_braced_impl_new,
    sp_braced_impl_default, sp_paren_struct_def, sp_paren_impl_new, sp_paren_impl_default,
    sp_gen_braced, sp_gen_parenthesized};
use crate::rewrite::{sp_has_marker, sp_strip_attrs};

verus! {

/// The fields the constructor takes: those whose default is absent, kept in
/// original order.
pub open spec fn sp_absent_fields(fs: Seq<FieldV>, i: int) -> Seq<FieldV>
    decreases fs.len() - i,
{
    if !(0 <= i < fs.len()) {
        Seq::empty()
    } else if fs[i].default == DefaultSpecV::Absent {
        seq![fs[i]] + sp_absent_fields(fs, i + 1)
    } else {
        sp_absent_fields(fs, i + 1)
    }
}

/// The constructor parameter tokens of a given field list, one parameter per
/// listed field, first to last.
pub open spec fn sp_args_of(gs: Seq<FieldV>) -> Seq<TokV>
    decreases gs.len(),
{
    if gs.len() == 0 {
        Seq::empty()
    } else {
        sp_render_ctor_arg(gs[0]) + sp_args_of(gs.drop_first())
    }
}

/// The declaration tokens of a field list, one declaration per field, first
/// to last.
pub open spec fn sp_decls_of(gs: Seq<FieldV>) -> Seq<TokV>
    decreases gs.len(),
{
    if gs.len() == 0 {
        Seq::empty()
    } else {
        sp_render_field_decl(gs[0]) + sp_decls_of(gs.drop_first())
    }
}

/// The constructor initializer tokens of a field list, first to last.
pub open spec fn sp_ctor_inits_of(gs: Seq<FieldV>) -> Seq<TokV>
    decreases gs.len(),
{
    if gs.len() == 0 {
        Seq::empty()
    } else {
        sp_render_ctor_init(gs[0]) + sp_ctor_inits_of(gs.drop_first())
    }
}

/// The default-instance initializer tokens of a field list, first to last.
pub open spec fn sp_dflt_inits_of(gs: Seq<FieldV>) -> Seq<TokV>
    decreases gs.len(),
{
    if gs.len() == 0 {
        Seq::empty()
    } else {
        sp_render_dflt_init(gs[0]) + sp_dflt_inits_of(gs.drop_first())
    }
}

/// The constructor's parameters are exactly the fields whose default is
/// absent, one parameter each, in original field order.
pub proof fn lemma_ctor_args_are_absent_fields(fs: Seq<FieldV>, i: int)
    requires
        0 <= i <= fs.len(),
    ensures
        sp_render_ctor_args_from(fs, i) == sp_args_of(sp_absent_fields(fs, i)),
    decreases fs.len() - i,
{
    if i < fs.len() {
        lemma_ctor_args_are_absent_fields(fs, i + 1);
        if fs[i].default == DefaultSpecV::Absent {
            let cons = seq![fs[i]] + sp_absent_fields(fs, i + 1);
            assert(cons[0] == fs[i]);
            assert(cons.drop_first() =~= sp_absent_fields(fs, i + 1));
        }
    }
}

/// Every constructor parameter comes from a field whose default is absent.
pub proof fn lemma_absent_fields_absent(fs: Seq<FieldV>, i: int)
    requires
        0 <= i <= fs.len(),
    ensures
        forall|j: int|
            0 <= j < sp_absent_fields(fs, i).len() ==> sp_absent_fields(fs, i)[j].default
                == DefaultSpecV::Absent,
    decreases fs.len() - i,
{
    if i < fs.len() {
        lemma_absent_fields_absent(fs, i + 1);
        if fs[i].default == DefaultSpecV::Absent {
            let cons = seq![fs[i]] + sp_absent_fields(fs, i + 1);
            assert forall|j: int| 0 <= j < cons.len() implies cons[j].default
                == DefaultSpecV::Absent by {
                if j > 0 {
                    assert(cons[j] == sp_absent_fields(fs, i + 1)[j - 1]);
                }
            }
        }
    }
}

/// A definition in which every field carries a default has a constructor
/// that takes no parameters at all; its body still lists every field, so the
/// call always succeeds with a fully populated value.
pub proof fn lemma_all_defaulted_no_params(fs: Seq<FieldV>)
    requires
        forall|k: int| 0 <= k < fs.len() ==> fs[k].default != DefaultSpecV::Absent,
    ensures
        sp_render_ctor_args_from(fs, 0) == Seq::<TokV>::empty(),
{
    lemma_ctor_args_are_absent_fields(fs, 0);
    lemma_absent_empty(fs, 0);
}

proof fn lemma_absent_empty(fs: Seq<FieldV>, i: int)
    requires
        0 <= i <= fs.len(),
        forall|k: int| 0 <= k < fs.len() ==> fs[k].default != DefaultSpecV::Absent,
    ensures
        sp_absent_fields(fs, i) == Seq::<FieldV>::empty(),
    decreases fs.len() - i,
{
    if i < fs.len() {
        lemma_absent_empty(fs, i + 1);
    }
}

/// A definition in which no field carries a default has a constructor whose
/// parameter list is isomorphic to the field list itself: every field
/// required, under its own name and type, in original order.
pub proof fn lemma_all_absent_round_trip(fs: Seq<FieldV>)
    requires
        forall|k: int| 0 <= k < fs.len() ==> fs[k].default == DefaultSpecV::Absent,
    ensures
        sp_absent_fields(fs, 0) == fs,
        sp_render_ctor_args_from(fs, 0) == sp_args_of(fs),
{
    lemma_absent_all(fs, 0);
    assert(fs.skip(0) =~= fs);
    lemma_ctor_args_are_absent_fields(fs, 0);
}

proof fn lemma_absent_all(fs: Seq<FieldV>, i: int)
    requires
        0 <= i <= fs.len(),
        forall|k: int| 0 <= k < fs.len() ==> fs[k].default == DefaultSpecV::Absent,
    ensures
        sp_absent_fields(fs, i) == fs.skip(i),
    decreases fs.len() - i,
{
    if i < fs.len() {
        lemma_absent_all(fs, i + 1);
        assert(seq![fs[i]] + fs.skip(i + 1) =~= fs.skip(i));
    } else {
        assert(fs.skip(i) =~= Seq::<FieldV>::empty());
    }
}

/// Original field order is preserved everywhere: the emitted type layout
/// lists every field's declaration first to last, the constructor's
/// parameters are the absent fields first to last, the constructor body and
/// the default-instance body list every field's initializer first to last.
pub proof fn lemma_field_order_preserved(fs: Seq<FieldV>)
    ensures
        sp_render_field_decls_from(fs, 0) == sp_decls_of(fs),
        sp_render_ctor_args_from(fs, 0) == sp_args_of(sp_absent_fields(fs, 0)),
        sp_render_ctor_inits_from(fs, 0) == sp_ctor_inits_of(fs),
        sp_render_dflt_inits_from(fs, 0) == sp_dflt_inits_of(fs),
{
    lemma_decls_of(fs, 0);
    assert(fs.skip(0) =~= fs);
    lemma_ctor_args_are_absent_fields(fs, 0);
    lemma_ctor_inits_of(fs, 0);
    lemma_dflt_inits_of(fs, 0);
}

proof fn lemma_decls_of(fs: Seq<FieldV>, i: int)
    requires
        0 <= i <= fs.len(),
    ensures
        sp_render_field_decls_from(fs, i) == sp_decls_of(fs.skip(i)),
    decreases fs.len() - i,
{
    if i < fs.len() {
        lemma_decls_of(fs, i + 1);
        assert(fs.skip(i)[0] == fs[i]);
        assert(fs.skip(i).drop_first() =~= fs.skip(i + 1));
    } else {
        assert(fs.skip(i) =~= Seq::<FieldV>::empty());
    }
}

proof fn lemma_ctor_inits_of(fs: Seq<FieldV>, i: int)
    requires
        0 <= i <= fs.len(),
    ensures
        sp_render_ctor_inits_from(fs, i) == sp_ctor_inits_of(fs.skip(i)),
    decreases fs.len() - i,
{
    if i < fs.len() {
        lemma_ctor_inits_of(fs, i + 1);
        assert(fs.skip(i)[0] == fs[i]);
        assert(fs.skip(i).drop_first() =~= fs.skip(i + 1));
    } else {
        assert(fs.skip(i) =~= Seq::<FieldV>::empty());
    }
}

proof fn lemma_dflt_inits_of(fs: Seq<FieldV>, i: int)
    requires
        0 <= i <= fs.len(),
    ensures
        sp_render_dflt_inits_from(fs, i) == sp_dflt_inits_of(fs.skip(i)),
    decreases fs.len() - i,
{
    if i < fs.len() {
        lemma_dflt_inits_of(fs, i + 1);
        assert(fs.skip(i)[0] == fs[i]);
        assert(fs.skip(i).drop_first() =~= fs.skip(i + 1));
    } else {
        assert(fs.skip(i) =~= Seq::<FieldV>::empty());
    }
}

/// A field with the implicit-default shorthand never becomes a constructor
/// parameter, and its value — in the constructor body and in the
/// default-instance body alike — is the field type's own default
/// construction.
pub proof fn lemma_implicit_default(fs: Seq<FieldV>, k: int)
    requires
        0 <= k < fs.len(),
        fs[k].default == DefaultSpecV::Implicit,
    ensures
        forall|j: int|
            0 <= j < sp_absent_fields(fs, 0).len() ==> sp_absent_fields(fs, 0)[j] != fs[k],
        sp_render_ctor_init(fs[k]) == seq![TokV::Ident(fs[k].name), TokV::Punct(':', false)]
            + sp_default_call() + seq![TokV::Punct(',', false)],
        sp_render_dflt_init(fs[k]) == seq![TokV::Ident(fs[k].name), TokV::Punct(':', false)]
            + sp_default_call() + seq![TokV::Punct(',', false)],
{
    lemma_absent_fields_absent(fs, 0);
}

/// How every field resolves in the constructor body: a field without a
/// default forwards its parameter unchanged; `_` takes the type's own
/// default construction; an explicit default re-emits its expression, so it
/// is evaluated fresh at each call.
pub proof fn lemma_ctor_resolution(f: FieldV)
    ensures
        f.default == DefaultSpecV::Absent ==> sp_render_ctor_init(f) == seq![
            TokV::Ident(f.name),
            TokV::Punct(',', false),
        ],
        f.default == DefaultSpecV::Implicit ==> sp_render_ctor_init(f) == seq![
            TokV::Ident(f.name),
            TokV::Punct(':', false),
        ] + sp_default_call() + seq![TokV::Punct(',', false)],
        forall|e: Seq<TokV>|
            f.default == DefaultSpecV::Explicit(e) ==> sp_render_ctor_init(f) == seq![
                TokV::Ident(f.name),
                TokV::Punct(':', false),
            ] + e + seq![TokV::Punct(',', false)],
{
}

/// How every field resolves in the default-instance body: a field without a
/// default takes its type's own default construction — never a parameter —
/// `_` likewise, and an explicit default re-emits its expression.
pub proof fn lemma_default_instance_resolution(f: FieldV)
    ensures
        f.default == DefaultSpecV::Absent || f.default == DefaultSpecV::Implicit
            ==> sp_render_dflt_init(f) == seq![TokV::Ident(f.name), TokV::Punct(':', false)]
            + sp_default_call() + seq![TokV::Punct(',', false)],
        forall|e: Seq<TokV>|
            f.default == DefaultSpecV::Explicit(e) ==> sp_render_dflt_init(f) == seq![
                TokV::Ident(f.name),
                TokV::Punct(':', false),
            ] + e + seq![TokV::Punct(',', false)],
{
}

/// The derive-list marker alone decides the default-instance operation: with
/// the marker, the emission is the stripped type definition, the constructor
/// and the default-instance operation, under the rewritten attributes; without
/// it, the emission is the type definition and the constructor alone, under
/// the original attributes, and no default-instance operation exists in the
/// output.
pub proof fn lemma_marker_controls_default_instance(d: BracedDefV)
    ensures
        sp_has_marker(d.header.attrs) ==> sp_gen_braced(d) == sp_braced_struct_def(
            d,
            sp_strip_attrs(d.header.attrs),
        ) + sp_braced_impl_new(d) + sp_braced_impl_default(d),
        !sp_has_marker(d.header.attrs) ==> sp_gen_braced(d) == sp_braced_struct_def(
            d,
            d.header.attrs,
        ) + sp_braced_impl_new(d),
{
    if !sp_has_marker(d.header.attrs) {
        let base = sp_braced_struct_def(d, d.header.attrs) + sp_braced_impl_new(d);
        assert(base + Seq::<TokV>::empty() =~= base);
    }
}

/// The same, for a positional definition.
pub proof fn lemma_marker_controls_default_instance_positional(d: ParenthesizedDefV)
    ensures
        sp_has_marker(d.header.attrs) ==> sp_gen_parenthesized(d) == sp_paren_struct_def(
            d,
            sp_strip_attrs(d.header.attrs),
        ) + sp_paren_impl_new(d) + sp_paren_impl_default(d),
        !sp_has_marker(d.header.attrs) ==> sp_gen_parenthesized(d) == sp_paren_struct_def(
            d,
            d.header.attrs,
        ) + sp_paren_impl_new(d),
{
    if !sp_has_marker(d.header.attrs) {
        let base = sp_paren_struct_def(d, d.header.attrs) + sp_paren_impl_new(d);
        assert(base + Seq::<TokV>::empty() =~= base);
    }
}

/// A positional definition in which every element carries a default has a
/// constructor that takes no parameters at all.
pub proof fn lemma_all_defaulted_no_params_positional(es: Seq<ElementV>)
    requires
        forall|k: int| 0 <= k < es.len() ==> es[k].default != DefaultSpecV::Absent,
    ensures
        sp_render_elem_ctor_args_from(es, 0) == Seq::<TokV>::empty(),
{
    lemma_elem_args_empty(es, 0);
}

proof fn lemma_elem_args_empty(es: Seq<ElementV>, i: int)
    requires
        0 <= i <= es.len(),
        forall|k: int| 0 <= k < es.len() ==> es[k].default != DefaultSpecV::Absent,
    ensures
        sp_render_elem_ctor_args_from(es, i) == Seq::<TokV>::empty(),
    decreases es.len() - i,
{
    if i < es.len() {
        lemma_elem_args_empty(es, i + 1);
        assert(Seq::<TokV>::empty() + Seq::<TokV>::empty() =~= Seq::<TokV>::empty());
    }
}

/// The declaration tokens of an element list, one declaration per element,
/// first to last.
pub open spec fn sp_elem_decls_of(gs: Seq<ElementV>) -> Seq<TokV>
    decreases gs.len(),
{
    if gs.len() == 0 {
        Seq::empty()
    } else {
        sp_render_elem_decl(gs[0]) + sp_elem_decls_of(gs.drop_first())
    }
}

/// The default-instance initializer tokens of an element list, first to last.
pub open spec fn sp_elem_dflt_inits_of(gs: Seq<ElementV>) -> Seq<TokV>
    decreases gs.len(),
{
    if gs.len() == 0 {
        Seq::empty()
    } else {
        sp_render_elem_dflt_init(gs[0]) + sp_elem_dflt_inits_of(gs.drop_first())
    }
}

/// Original element order is preserved in a positional definition too: the
/// emitted type layout lists every element's declaration first to last, and
/// the default-instance body lists every element's initializer first to last.
pub proof fn lemma_element_order_preserved(es: Seq<ElementV>)
    ensures
        sp_render_elem_decls_from(es, 0) == sp_elem_decls_of(es),
        sp_render_elem_dflt_inits_from(es, 0) == sp_elem_dflt_inits_of(es),
{
    lemma_elem_decls_of(es, 0);
    lemma_elem_dflt_inits_of(es, 0);
    assert(es.skip(0) =~= es);
}

proof fn lemma_elem_decls_of(es: Seq<ElementV>, i: int)
    requires
        0 <= i <= es.len(),
    ensures
        sp_render_elem_decls_from(es, i) == sp_elem_decls_of(es.skip(i)),
    decreases es.len() - i,
{
    if i < es.len() {
        lemma_elem_decls_of(es, i + 1);
        assert(es.skip(i)[0] == es[i]);
        assert(es.skip(i).drop_first() =~= es.skip(i + 1));
    } else {
        assert(es.skip(i) =~= Seq::<ElementV>::empty());
    }
}

proof fn lemma_elem_dflt_inits_of(es: Seq<ElementV>, i: int)
    requires
        0 <= i <= es.len(),
    ensures
        sp_render_elem_dflt_inits_from(es, i) == sp_elem_dflt_inits_of(es.skip(i)),
    decreases es.len() - i,
{
    if i < es.len() {
        lemma_elem_dflt_inits_of(es, i + 1);
        assert(es.skip(i)[0] == es[i]);
        assert(es.skip(i).drop_first() =~= es.skip(i + 1));
    } else {
        assert(es.skip(i) =~= Seq::<ElementV>::empty());
    }
}

} // verus!
