//! Properties that relate the resolvers, the synthesized bodies and the
//! bound sets, proved over the specifications the handlers are verified
//! against.
use vstd::prelude::*;

use crate::bounds::{bound_set, predicate};
use crate::clone_struct::{
    clone_body, clone_expr, clone_from_body, clone_from_items, clone_from_stmt, clone_item,
    clone_items, clone_options_spec, clone_plan_spec, clone_synthesis, copy_path,
    clone_capability, lemma_clone_plan_len, resolve_clone_field_spec, CloneOptionsView, CloneStrategyView,
};
use crate::default_struct::{
    default_init, default_options_spec, default_plan_spec, default_synthesis, literal_text,
    resolve_default_field_spec, DefaultOptionsView,
};
use crate::model::{
    derives_copy, member, resolve_type_spec, Aggregate, BoundPolicyView, Field, FieldAttr,
    SynthesisError, Trait, TypeAttr,
};

verus! {

proof fn lemma_clone_options_untouched(attrs: Seq<FieldAttr>, field: usize)
    requires
        forall|k: int|
            0 <= k < attrs.len() ==> !(#[trigger] attrs[k] is CloneMethod) && !(attrs[k] is CloneTrait),
    ensures
        clone_options_spec(attrs, field) == Ok::<CloneOptionsView, SynthesisError>((None, None)),
    decreases attrs.len(),
{
    if attrs.len() > 0 {
        let d = attrs.drop_last();
        assert forall|k: int| 0 <= k < d.len() implies !(#[trigger] d[k] is CloneMethod) && !(
        d[k] is CloneTrait) by {
            assert(d[k] == attrs[k]);
        }
        lemma_clone_options_untouched(d, field);
        assert(attrs.last() == attrs[attrs.len() - 1]);
    }
}

/// A unit struct is cloned into the unit value (by copy, or by naming it),
/// and its `clone_from` does nothing.
pub proof fn law_unit_clone(ast: Aggregate, traits: Seq<Trait>, meta: Seq<TypeAttr>)
    requires
        ast.fields@.len() == 0,
        resolve_type_spec(meta, false, false) is Ok,
    ensures
        clone_plan_spec(ast.fields@) == Ok::<Seq<CloneStrategyView>, SynthesisError>(Seq::empty()),
        clone_synthesis(ast, traits, meta) is Ok,
        clone_from_body(ast, Seq::empty()) == Seq::<char>::empty(),
        clone_body(ast, Seq::empty(), copy_path(Seq::empty(), traits)) == if derives_copy(traits) {
            "*self"@
        } else {
            ast.ident@
        },
{
}

/// A field without clone options is cloned by the canonical `Clone` call, in
/// `clone` and in `clone_from` alike.
pub proof fn law_clone_canonical_without_override(attrs: Seq<FieldAttr>, field: usize, m: Seq<char>)
    requires
        forall|k: int|
            0 <= k < attrs.len() ==> !(#[trigger] attrs[k] is CloneMethod) && !(attrs[k] is CloneTrait),
    ensures
        resolve_clone_field_spec(attrs, field) == Ok::<CloneStrategyView, SynthesisError>(
            CloneStrategyView::Canonical,
        ),
        clone_expr(CloneStrategyView::Canonical, m) == "core::clone::Clone::clone(&self."@ + m
            + ")"@,
        clone_from_stmt(CloneStrategyView::Canonical, m)
            == "core::clone::Clone::clone_from(&mut self."@ + m + ", &_source."@ + m + ");"@,
{
    lemma_clone_options_untouched(attrs, field);
}

proof fn lemma_default_options_untouched(attrs: Seq<FieldAttr>, field: usize, enabled: bool)
    requires
        forall|k: int|
            0 <= k < attrs.len() ==> !(#[trigger] attrs[k] is DefaultValue) && !(
            attrs[k] is DefaultExpression),
    ensures
        default_options_spec(attrs, field, enabled) == Ok::<DefaultOptionsView, SynthesisError>(
            (None, None),
        ),
    decreases attrs.len(),
{
    if attrs.len() > 0 {
        let d = attrs.drop_last();
        assert forall|k: int| 0 <= k < d.len() implies !(#[trigger] d[k] is DefaultValue) && !(
        d[k] is DefaultExpression) by {
            assert(d[k] == attrs[k]);
        }
        lemma_default_options_untouched(d, field, enabled);
        assert(attrs.last() == attrs[attrs.len() - 1]);
    }
}

/// A field without default options is initialized by its type's own
/// `Default`.
pub proof fn law_default_canonical_without_override(f: Field, field: usize, enabled: bool)
    requires
        forall|k: int|
            0 <= k < f.attrs@.len() ==> !(#[trigger] f.attrs@[k] is DefaultValue) && !(
            f.attrs@[k] is DefaultExpression),
    ensures
        resolve_default_field_spec(f.attrs@, field, enabled) == Ok::<
            Option<Seq<char>>,
            SynthesisError,
        >(None),
        default_init(f, None) == "<"@ + f.ty@ + " as core::default::Default>::default()"@,
{
    lemma_default_options_untouched(f.attrs@, field, enabled);
}

/// Each field's strategy is resolved once, from its own options, and that
/// one strategy makes both its initializer in `clone` and its statement in
/// `clone_from`.
pub proof fn law_clone_methods_agree(fields: Seq<Field>, i: int, named: bool)
    requires
        clone_plan_spec(fields) is Ok,
        0 <= i < fields.len(),
    ensures
        ({
            let plan = clone_plan_spec(fields)->Ok_0;
            &&& resolve_clone_field_spec(fields[i].attrs@, i as usize) == Ok::<
                CloneStrategyView,
                SynthesisError,
            >(plan[i])
            &&& clone_items(fields, plan, (i + 1) as nat, named) == clone_items(
                fields,
                plan,
                i as nat,
                named,
            ) + clone_item(fields, plan, i, named)
            &&& clone_item(fields, plan, i, named) == (if named {
                member(fields, i) + ": "@
            } else {
                Seq::empty()
            }) + clone_expr(plan[i], member(fields, i)) + ","@
            &&& clone_from_items(fields, plan, (i + 1) as nat) == clone_from_items(
                fields,
                plan,
                i as nat,
            ) + clone_from_stmt(plan[i], member(fields, i))
        }),
    decreases fields.len(),
{
    let plan = clone_plan_spec(fields)->Ok_0;
    let d = fields.drop_last();
    lemma_clone_plan_len(fields);
    if i < fields.len() - 1 {
        law_clone_methods_agree(d, i, named);
        assert(d[i] == fields[i]);
    }
    if !named {
        assert(Seq::<char>::empty() + clone_expr(plan[i], member(fields, i)) =~= clone_expr(
            plan[i],
            member(fields, i),
        ));
    }
}

/// On the `Copy` fast path, the automatic bounds ask each type parameter for
/// `Copy`, one predicate per parameter, and never for `Clone`.
pub proof fn law_copy_path_bounds(
    plan: Seq<CloneStrategyView>,
    traits: Seq<Trait>,
    params: Seq<String>,
)
    requires
        copy_path(plan, traits),
    ensures
        ({
            let b = bound_set(BoundPolicyView::Auto, params, clone_capability(copy_path(plan, traits)));
            &&& b.len() == params.len()
            &&& forall|i: int|
                0 <= i < params.len() ==> #[trigger] b[i] == predicate(
                    params[i]@,
                    "core::marker::Copy"@,
                )
        }),
{
}

proof fn lemma_default_options_seen(attrs: Seq<FieldAttr>, field: usize, enabled: bool)
    ensures
        default_options_spec(attrs, field, enabled) is Ok ==> {
            let o = default_options_spec(attrs, field, enabled)->Ok_0;
            &&& (exists|k: int| 0 <= k < attrs.len() && #[trigger] attrs[k] is DefaultValue)
                ==> o.0 is Some
            &&& (exists|k: int| 0 <= k < attrs.len() && #[trigger] attrs[k] is DefaultExpression)
                ==> o.1 is Some
        },
    decreases attrs.len(),
{
    if attrs.len() > 0 {
        let d = attrs.drop_last();
        lemma_default_options_seen(d, field, enabled);
        assert(attrs.last() == attrs[attrs.len() - 1]);
        if default_options_spec(attrs, field, enabled) is Ok {
            if exists|k: int| 0 <= k < attrs.len() && #[trigger] attrs[k] is DefaultValue {
                let k = choose|k: int| 0 <= k < attrs.len() && #[trigger] attrs[k] is DefaultValue;
                if k < attrs.len() - 1 {
                    assert(d[k] == attrs[k]);
                }
            }
            if exists|k: int| 0 <= k < attrs.len() && #[trigger] attrs[k] is DefaultExpression {
                let k = choose|k: int|
                    0 <= k < attrs.len() && #[trigger] attrs[k] is DefaultExpression;
                if k < attrs.len() - 1 {
                    assert(d[k] == attrs[k]);
                }
            }
        }
    }
}

/// A field that is given both a literal default and a default expression is
/// refused, never resolved to one of them.
pub proof fn law_default_options_exclusive(
    attrs: Seq<FieldAttr>,
    field: usize,
    enabled: bool,
    j: int,
    k: int,
)
    requires
        0 <= j < attrs.len(),
        0 <= k < attrs.len(),
        attrs[j] is DefaultValue,
        attrs[k] is DefaultExpression,
    ensures
        resolve_default_field_spec(attrs, field, enabled) is Err,
{
    lemma_default_options_seen(attrs, field, enabled);
}

/// Where one field is given both a literal default and a default
/// expression, the whole `Default` synthesis is refused.
pub proof fn law_default_synthesis_exclusive(
    ast: Aggregate,
    meta: Seq<TypeAttr>,
    i: int,
    j: int,
    k: int,
)
    requires
        0 <= i < ast.fields@.len(),
        0 <= j < ast.fields@[i].attrs@.len(),
        0 <= k < ast.fields@[i].attrs@.len(),
        ast.fields@[i].attrs@[j] is DefaultValue,
        ast.fields@[i].attrs@[k] is DefaultExpression,
    ensures
        default_synthesis(ast, meta) is Err,
{
    if resolve_type_spec(meta, true, true) is Ok {
        let enabled = resolve_type_spec(meta, true, true)->Ok_0.body_override is None;
        lemma_default_plan_refused(ast.fields@, enabled, i, j, k);
    }
}

proof fn lemma_default_plan_refused(fields: Seq<Field>, enabled: bool, i: int, j: int, k: int)
    requires
        0 <= i < fields.len(),
        0 <= j < fields[i].attrs@.len(),
        0 <= k < fields[i].attrs@.len(),
        fields[i].attrs@[j] is DefaultValue,
        fields[i].attrs@[k] is DefaultExpression,
    ensures
        default_plan_spec(fields, enabled) is Err,
    decreases fields.len(),
{
    let d = fields.drop_last();
    if i < fields.len() - 1 {
        assert(d[i] == fields[i]);
        lemma_default_plan_refused(d, enabled, i, j, k);
    } else {
        law_default_options_exclusive(
            fields.last().attrs@,
            (fields.len() - 1) as usize,
            enabled,
            j,
            k,
        );
    }
}

/// A field whose one default option is a literal is initialized by the
/// literal's text: a quoted string converted with `Into`, any other literal
/// as written.
pub proof fn law_literal_default(attrs: Seq<FieldAttr>, field: usize, j: int)
    requires
        0 <= j < attrs.len(),
        attrs[j] is DefaultValue,
        forall|k: int|
            0 <= k < attrs.len() && k != j ==> !(#[trigger] attrs[k] is DefaultValue) && !(
            attrs[k] is DefaultExpression),
    ensures
        resolve_default_field_spec(attrs, field, true) == Ok::<Option<Seq<char>>, SynthesisError>(
            Some(literal_text(attrs[j]->DefaultValue_0)),
        ),
    decreases attrs.len(),
{
    let d = attrs.drop_last();
    assert(attrs.last() == attrs[attrs.len() - 1]);
    if j == attrs.len() - 1 {
        assert forall|k: int| 0 <= k < d.len() implies !(#[trigger] d[k] is DefaultValue) && !(
        d[k] is DefaultExpression) by {
            assert(d[k] == attrs[k]);
        }
        lemma_default_options_untouched(d, field, true);
    } else {
        assert(d[j] == attrs[j]);
        assert forall|k: int| 0 <= k < d.len() && k != j implies !(
        #[trigger] d[k] is DefaultValue) && !(d[k] is DefaultExpression) by {
            assert(d[k] == attrs[k]);
        }
        law_literal_default(d, field, j);
        lemma_default_options_seen(d, field, true);
        assert(d[j] is DefaultValue);
    }
}

} // verus!
