//! Synthesis of `Clone` (`clone` and `clone_from`) for a struct.
use vstd::prelude::*;

use crate::bounds::{bound_set, compose_bounds, generics_text, push_generics, push_where, where_text};
use crate::model::{
    classify, derives_copy, opt_text, has_copy, member, member_text, resolve_type_options,
    resolve_type_spec, shape_of, Aggregate, Field, FieldAttr, Shape, SynthesisError, Trait,
    TypeAttr,
};

verus! {

/// How one field is cloned.
#[derive(Debug)]
pub enum CloneStrategy {
    /// `core::clone::Clone` on the field's type.
    Canonical,
    /// A free function taking a reference to the field.
    Function(String),
    /// A trait and the method of it to call.
    TraitMethod(String, String),
}

/// A clone strategy with its names as character sequences.
pub enum CloneStrategyView {
    Canonical,
    Function(Seq<char>),
    TraitMethod(Seq<char>, Seq<char>),
}

impl View for CloneStrategy {
    type V = CloneStrategyView;

    open spec fn view(&self) -> CloneStrategyView {
        match self {
            CloneStrategy::Canonical => CloneStrategyView::Canonical,
            CloneStrategy::Function(f) => CloneStrategyView::Function(f@),
            CloneStrategy::TraitMethod(t, m) => CloneStrategyView::TraitMethod(t@, m@),
        }
    }
}

/// The strategies of a plan as views.
pub open spec fn plan_view(plan: Seq<CloneStrategy>) -> Seq<CloneStrategyView> {
    plan.map_values(|s: CloneStrategy| s@)
}

/// The clone options of a field read so far: its trait, then its method.
pub type CloneOptionsView = (Option<Seq<char>>, Option<Seq<char>>);

/// One step of reading a field's clone options.
pub open spec fn clone_option_step(
    acc: Result<CloneOptionsView, SynthesisError>,
    a: FieldAttr,
    field: usize,
) -> Result<CloneOptionsView, SynthesisError> {
    match acc {
        Err(e) => Err(e),
        Ok(o) => match a {
            FieldAttr::CloneMethod(m) => if o.1 is Some {
                Err(SynthesisError::DuplicateFieldOption { field })
            } else {
                Ok((o.0, Some(m@)))
            },
            FieldAttr::CloneTrait(t) => if o.0 is Some {
                Err(SynthesisError::DuplicateFieldOption { field })
            } else {
                Ok((Some(t@), o.1))
            },
            _ => Ok(o),
        },
    }
}

/// The clone options that a field's attributes give: the trait and the
/// method each at most once. Options of other traits are left to their own
/// handlers.
pub open spec fn clone_options_spec(attrs: Seq<FieldAttr>, field: usize) -> Result<
    CloneOptionsView,
    SynthesisError,
>
    decreases attrs.len(),
{
    if attrs.len() == 0 {
        Ok((None, None))
    } else {
        clone_option_step(clone_options_spec(attrs.drop_last(), field), attrs.last(), field)
    }
}

/// The precedence among the clone options: a trait (with `clone` as its
/// method unless one is named), then a function, then the canonical call.
pub open spec fn strategy_of(o: CloneOptionsView) -> CloneStrategyView {
    match o.0 {
        Some(t) => CloneStrategyView::TraitMethod(
            t,
            match o.1 {
                Some(m) => m,
                None => "clone"@,
            },
        ),
        None => match o.1 {
            Some(f) => CloneStrategyView::Function(f),
            None => CloneStrategyView::Canonical,
        },
    }
}

/// How a field is cloned, or why its options are refused.
pub open spec fn resolve_clone_field_spec(attrs: Seq<FieldAttr>, field: usize) -> Result<
    CloneStrategyView,
    SynthesisError,
> {
    match clone_options_spec(attrs, field) {
        Ok(o) => Ok(strategy_of(o)),
        Err(e) => Err(e),
    }
}

/// Resolves how field number `field` is cloned from its attributes.
pub fn resolve_clone_field(attrs: &Vec<FieldAttr>, field: usize) -> (r: Result<
    CloneStrategy,
    SynthesisError,
>)
    ensures
        match resolve_clone_field_spec(attrs@, field) {
            Ok(s) => r is Ok && r->Ok_0@ == s,
            Err(e) => r == Err::<CloneStrategy, SynthesisError>(e),
        },
{
    let mut clone_trait: Option<String> = None;
    let mut clone_method: Option<String> = None;
    let mut err: Option<SynthesisError> = None;
    let mut i: usize = 0;
    while i < attrs.len()
        invariant
            i <= attrs@.len(),
            match clone_options_spec(attrs@.take(i as int), field) {
                Ok(o) => err is None && o.0 == opt_text(clone_trait) && o.1 == opt_text(clone_method),
                Err(e) => err == Some(e),
            },
        decreases attrs@.len() - i,
    {
        proof {
            assert(attrs@.take(i + 1).drop_last() =~= attrs@.take(i as int));
        }
        if err.is_none() {
            match &attrs[i] {
                FieldAttr::CloneMethod(m) => {
                    if clone_method.is_some() {
                        err = Some(SynthesisError::DuplicateFieldOption { field });
                    } else {
                        clone_method = Some(m.clone());
                    }
                },
                FieldAttr::CloneTrait(t) => {
                    if clone_trait.is_some() {
                        err = Some(SynthesisError::DuplicateFieldOption { field });
                    } else {
                        clone_trait = Some(t.clone());
                    }
                },
                _ => {},
            }
        }
        i = i + 1;
    }
    proof {
        assert(attrs@.take(attrs@.len() as int) =~= attrs@);
    }
    match err {
        Some(e) => Err(e),
        None => match clone_trait {
            Some(t) => match clone_method {
                Some(m) => Ok(CloneStrategy::TraitMethod(t, m)),
                None => Ok(CloneStrategy::TraitMethod(t, String::from_str("clone"))),
            },
            None => match clone_method {
                Some(f) => Ok(CloneStrategy::Function(f)),
                None => Ok(CloneStrategy::Canonical),
            },
        },
    }
}

/// The strategy of every field, in declaration order; the first field in
/// error decides the error.
pub open spec fn clone_plan_spec(fields: Seq<Field>) -> Result<
    Seq<CloneStrategyView>,
    SynthesisError,
>
    decreases fields.len(),
{
    if fields.len() == 0 {
        Ok(Seq::empty())
    } else {
        match clone_plan_spec(fields.drop_last()) {
            Err(e) => Err(e),
            Ok(p) => match resolve_clone_field_spec(
                fields.last().attrs@,
                (fields.len() - 1) as usize,
            ) {
                Err(e) => Err(e),
                Ok(s) => Ok(p.push(s)),
            },
        }
    }
}

/// A resolved plan has one strategy per field.
pub proof fn lemma_clone_plan_len(fields: Seq<Field>)
    ensures
        clone_plan_spec(fields) is Ok ==> clone_plan_spec(fields)->Ok_0.len() == fields.len(),
    decreases fields.len(),
{
    if fields.len() > 0 {
        lemma_clone_plan_len(fields.drop_last());
    }
}

/// Resolves the strategy of every field once; both methods are then
/// synthesized from this one plan.
pub fn resolve_clone_plan(fields: &Vec<Field>) -> (r: Result<Vec<CloneStrategy>, SynthesisError>)
    ensures
        match clone_plan_spec(fields@) {
            Ok(p) => r is Ok && plan_view(r->Ok_0@) == p,
            Err(e) => r == Err::<Vec<CloneStrategy>, SynthesisError>(e),
        },
{
    let mut plan: Vec<CloneStrategy> = Vec::new();
    let mut err: Option<SynthesisError> = None;
    let mut i: usize = 0;
    while i < fields.len()
        invariant
            i <= fields@.len(),
            match clone_plan_spec(fields@.take(i as int)) {
                Ok(p) => err is None && plan_view(plan@) == p,
                Err(e) => err == Some(e),
            },
        decreases fields@.len() - i,
    {
        proof {
            assert(fields@.take(i + 1).drop_last() =~= fields@.take(i as int));
        }
        if err.is_none() {
            match resolve_clone_field(&fields[i].attrs, i) {
                Ok(s) => {
                    proof {
                        let old_plan = plan@;
                        assert(plan_view(old_plan.push(s)) =~= plan_view(old_plan).push(s@));
                    }
                    plan.push(s);
                },
                Err(e) => {
                    err = Some(e);
                },
            }
        }
        i = i + 1;
    }
    proof {
        assert(fields@.take(fields@.len() as int) =~= fields@);
    }
    match err {
        Some(e) => Err(e),
        None => Ok(plan),
    }
}

/// The expression that clones the field written `m` after `self.`.
pub open spec fn clone_expr(s: CloneStrategyView, m: Seq<char>) -> Seq<char> {
    match s {
        CloneStrategyView::TraitMethod(t, f) => t + "::"@ + f + "(&self."@ + m + ")"@,
        CloneStrategyView::Function(f) => f + "(&self."@ + m + ")"@,
        CloneStrategyView::Canonical => "core::clone::Clone::clone(&self."@ + m + ")"@,
    }
}

/// The statement that overwrites the field written `m` from `_source`.
pub open spec fn clone_from_stmt(s: CloneStrategyView, m: Seq<char>) -> Seq<char> {
    match s {
        CloneStrategyView::TraitMethod(t, f) => "self."@ + m + " = "@ + t + "::"@ + f
            + "(&_source."@ + m + ");"@,
        CloneStrategyView::Function(f) => "self."@ + m + " = "@ + f + "(&_source."@ + m + ");"@,
        CloneStrategyView::Canonical => "core::clone::Clone::clone_from(&mut self."@ + m
            + ", &_source."@ + m + ");"@,
    }
}

/// The initializer of field `i` in the constructor that `clone` returns.
pub open spec fn clone_item(
    fields: Seq<Field>,
    plan: Seq<CloneStrategyView>,
    i: int,
    named: bool,
) -> Seq<char> {
    if named {
        member(fields, i) + ": "@ + clone_expr(plan[i], member(fields, i)) + ","@
    } else {
        clone_expr(plan[i], member(fields, i)) + ","@
    }
}

/// The initializers of the first `n` fields.
pub open spec fn clone_items(
    fields: Seq<Field>,
    plan: Seq<CloneStrategyView>,
    n: nat,
    named: bool,
) -> Seq<char>
    decreases n,
{
    if n == 0 {
        Seq::empty()
    } else {
        clone_items(fields, plan, (n - 1) as nat, named) + clone_item(fields, plan, n - 1, named)
    }
}

/// The statements of `clone_from` for the first `n` fields.
pub open spec fn clone_from_items(fields: Seq<Field>, plan: Seq<CloneStrategyView>, n: nat) -> Seq<
    char,
>
    decreases n,
{
    if n == 0 {
        Seq::empty()
    } else {
        clone_from_items(fields, plan, (n - 1) as nat) + clone_from_stmt(
            plan[n - 1],
            member(fields, n - 1),
        )
    }
}

/// Whether the `Copy` fast path is taken: `Copy` is derived too and no field
/// has a custom strategy.
pub open spec fn copy_path(plan: Seq<CloneStrategyView>, traits: Seq<Trait>) -> bool {
    derives_copy(traits) && forall|i: int| 0 <= i < plan.len() ==> #[trigger] plan[i] is Canonical
}

/// The body of `clone`.
pub open spec fn clone_body(ast: Aggregate, plan: Seq<CloneStrategyView>, copy: bool) -> Seq<
    char,
> {
    let fields = ast.fields@;
    if copy {
        "*self"@
    } else {
        match shape_of(fields) {
            Shape::Unit => ast.ident@,
            Shape::Tuple => ast.ident@ + "("@ + clone_items(fields, plan, fields.len(), false)
                + ")"@,
            Shape::Record => ast.ident@ + "{"@ + clone_items(fields, plan, fields.len(), true)
                + "}"@,
        }
    }
}

/// The body of `clone_from`: one statement per field, whichever path is
/// taken (none for a unit struct).
pub open spec fn clone_from_body(ast: Aggregate, plan: Seq<CloneStrategyView>) -> Seq<char> {
    clone_from_items(ast.fields@, plan, ast.fields@.len())
}

/// What each type parameter must implement.
pub open spec fn clone_capability(copy: bool) -> Seq<char> {
    if copy {
        "core::marker::Copy"@
    } else {
        "core::clone::Clone"@
    }
}

/// The whole `Clone` implementation.
pub open spec fn clone_impl_text(
    ast: Aggregate,
    plan: Seq<CloneStrategyView>,
    bounds: Seq<Seq<char>>,
    copy: bool,
) -> Seq<char> {
    "impl"@ + generics_text(ast.generics@) + " core::clone::Clone for "@ + ast.ident@
        + generics_text(ast.generics@) + where_text(bounds)
        + " { #[inline] fn clone(&self) -> Self { "@ + clone_body(ast, plan, copy)
        + " } #[inline] fn clone_from(&mut self, _source: &Self) { "@ + clone_from_body(ast, plan)
        + " } }"@
}

/// What the `Clone` handler appends for `ast`, or why it refuses.
pub open spec fn clone_synthesis(ast: Aggregate, traits: Seq<Trait>, meta: Seq<TypeAttr>) -> Result<
    Seq<char>,
    SynthesisError,
> {
    match resolve_type_spec(meta, false, false) {
        Err(e) => Err(e),
        Ok(o) => match clone_plan_spec(ast.fields@) {
            Err(e) => Err(e),
            Ok(plan) => {
                let copy = copy_path(plan, traits);
                Ok(
                    clone_impl_text(
                        ast,
                        plan,
                        bound_set(o.bound, ast.generics@, clone_capability(copy)),
                        copy,
                    ),
                )
            },
        },
    }
}

fn push_clone_expr(out: &mut String, s: &CloneStrategy, m: &String)
    ensures
        final(out)@ == old(out)@ + clone_expr(s@, m@),
{
    let mut e = match s {
        CloneStrategy::TraitMethod(t, f) => {
            let mut e = t.clone();
            e.append("::");
            e.append(f.as_str());
            e
        },
        CloneStrategy::Function(f) => f.clone(),
        CloneStrategy::Canonical => String::from_str("core::clone::Clone::clone"),
    };
    e.append("(&self.");
    e.append(m.as_str());
    e.append(")");
    proof {
        match s {
            CloneStrategy::Canonical => {
                assert("core::clone::Clone::clone"@ + "(&self."@ =~= "core::clone::Clone::clone(&self."@)
                    by {
                    reveal_strlit("core::clone::Clone::clone");
                    reveal_strlit("(&self.");
                    reveal_strlit("core::clone::Clone::clone(&self.");
                }
            },
            _ => {},
        }
    }
    out.append(e.as_str());
}

fn push_clone_from_stmt(out: &mut String, s: &CloneStrategy, m: &String)
    ensures
        final(out)@ == old(out)@ + clone_from_stmt(s@, m@),
{
    let mut e = match s {
        CloneStrategy::TraitMethod(t, f) => {
            let mut e = String::from_str("self.");
            e.append(m.as_str());
            e.append(" = ");
            e.append(t.as_str());
            e.append("::");
            e.append(f.as_str());
            e.append("(&_source.");
            e.append(m.as_str());
            e.append(");");
            e
        },
        CloneStrategy::Function(f) => {
            let mut e = String::from_str("self.");
            e.append(m.as_str());
            e.append(" = ");
            e.append(f.as_str());
            e.append("(&_source.");
            e.append(m.as_str());
            e.append(");");
            e
        },
        CloneStrategy::Canonical => {
            let mut e = String::from_str("core::clone::Clone::clone_from(&mut self.");
            e.append(m.as_str());
            e.append(", &_source.");
            e.append(m.as_str());
            e.append(");");
            e
        },
    };
    out.append(e.as_str());
}

fn push_clone_items(out: &mut String, fields: &Vec<Field>, plan: &Vec<CloneStrategy>, named: bool)
    requires
        plan@.len() == fields@.len(),
    ensures
        final(out)@ == old(out)@ + clone_items(fields@, plan_view(plan@), fields@.len() as nat, named),
{
    let mut i: usize = 0;
    while i < fields.len()
        invariant
            i <= fields@.len(),
            plan@.len() == fields@.len(),
            out@ == old(out)@ + clone_items(fields@, plan_view(plan@), i as nat, named),
        decreases fields@.len() - i,
    {
        let m = member_text(fields, i);
        let mut item = String::new();
        if named {
            item.append(m.as_str());
            item.append(": ");
        }
        push_clone_expr(&mut item, &plan[i], &m);
        item.append(",");
        proof {
            assert(plan_view(plan@)[i as int] == plan@[i as int]@);
            assert(item@ =~= clone_item(fields@, plan_view(plan@), i as int, named));
            assert(out@ + item@ =~= old(out)@ + clone_items(fields@, plan_view(plan@), (i + 1) as nat, named));
        }
        out.append(item.as_str());
        i = i + 1;
    }
}

fn push_clone_from_items(out: &mut String, fields: &Vec<Field>, plan: &Vec<CloneStrategy>)
    requires
        plan@.len() == fields@.len(),
    ensures
        final(out)@ == old(out)@ + clone_from_items(fields@, plan_view(plan@), fields@.len() as nat),
{
    let mut i: usize = 0;
    while i < fields.len()
        invariant
            i <= fields@.len(),
            plan@.len() == fields@.len(),
            out@ == old(out)@ + clone_from_items(fields@, plan_view(plan@), i as nat),
        decreases fields@.len() - i,
    {
        let m = member_text(fields, i);
        let mut item = String::new();
        push_clone_from_stmt(&mut item, &plan[i], &m);
        proof {
            assert(plan_view(plan@)[i as int] == plan@[i as int]@);
            assert(item@ =~= clone_from_stmt(plan_view(plan@)[i as int], member(fields@, i as int)));
            assert(out@ + item@ =~= old(out)@ + clone_from_items(fields@, plan_view(plan@), (i + 1) as nat));
        }
        out.append(item.as_str());
        i = i + 1;
    }
}

fn is_copy_path(plan: &Vec<CloneStrategy>, traits: &[Trait]) -> (r: bool)
    ensures
        r == copy_path(plan_view(plan@), traits@),
{
    let mut i: usize = 0;
    while i < plan.len()
        invariant
            i <= plan@.len(),
            forall|k: int| 0 <= k < i ==> #[trigger] plan_view(plan@)[k] is Canonical,
        decreases plan@.len() - i,
    {
        match &plan[i] {
            CloneStrategy::Canonical => {},
            _ => {
                assert(!(plan_view(plan@)[i as int] is Canonical));
                return false;
            },
        }
        i = i + 1;
    }
    has_copy(traits)
}

fn push_clone_body(out: &mut String, ast: &Aggregate, plan: &Vec<CloneStrategy>, copy: bool)
    requires
        plan@.len() == ast.fields@.len(),
    ensures
        final(out)@ == old(out)@ + clone_body(*ast, plan_view(plan@), copy),
{
    let mut b = String::new();
    if copy {
        b.append("*self");
    } else {
        match classify(&ast.fields) {
            Shape::Unit => {
                b.append(ast.ident.as_str());
            },
            Shape::Tuple => {
                b.append(ast.ident.as_str());
                b.append("(");
                push_clone_items(&mut b, &ast.fields, plan, false);
                b.append(")");
            },
            Shape::Record => {
                b.append(ast.ident.as_str());
                b.append("{");
                push_clone_items(&mut b, &ast.fields, plan, true);
                b.append("}");
            },
        }
    }
    assert(b@ =~= clone_body(*ast, plan_view(plan@), copy));
    out.append(b.as_str());
}

/// Synthesizes `Clone` for struct declarations.
pub struct CloneStructHandler;

impl CloneStructHandler {
    /// Appends the `Clone` implementation of `ast` to `tokens`: `clone` and
    /// `clone_from` built from one strategy per field, or through the `Copy`
    /// fast path where `traits` holds `Copy` and no field overrides cloning.
    /// On malformed options nothing is appended.
    pub fn trait_meta_handler(
        ast: &Aggregate,
        tokens: &mut String,
        traits: &[Trait],
        meta: &Vec<TypeAttr>,
    ) -> (r: Result<(), SynthesisError>)
        ensures
            match clone_synthesis(*ast, traits@, meta@) {
                Ok(t) => r is Ok && final(tokens)@ == old(tokens)@ + t,
                Err(e) => r == Err::<(), SynthesisError>(e) && final(tokens)@ == old(tokens)@,
            },
    {
        let options = match resolve_type_options(meta, false, false) {
            Ok(o) => o,
            Err(e) => return Err(e),
        };
        let plan = match resolve_clone_plan(&ast.fields) {
            Ok(p) => p,
            Err(e) => return Err(e),
        };
        proof {
            lemma_clone_plan_len(ast.fields@);
            assert(plan_view(plan@).len() == plan@.len());
        }
        let copy = is_copy_path(&plan, traits);
        let capability = if copy {
            "core::marker::Copy"
        } else {
            "core::clone::Clone"
        };
        let bounds = compose_bounds(&options.bound, &ast.generics, capability);
        let mut out = String::from_str("impl");
        push_generics(&mut out, &ast.generics);
        out.append(" core::clone::Clone for ");
        out.append(ast.ident.as_str());
        push_generics(&mut out, &ast.generics);
        push_where(&mut out, &bounds);
        out.append(" { #[inline] fn clone(&self) -> Self { ");
        push_clone_body(&mut out, ast, &plan, copy);
        out.append(" } #[inline] fn clone_from(&mut self, _source: &Self) { ");
        push_clone_from_items(&mut out, &ast.fields, &plan);
        out.append(" } }");
        tokens.append(out.as_str());
        Ok(())
    }
}

} // verus!
