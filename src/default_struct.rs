//! Synthesis of `Default` (and optionally an inherent `new`) for a struct.
use vstd::prelude::*;

use crate::bounds::{bound_set, compose_bounds, generics_text, push_generics, push_where, where_text};
use crate::model::{
    classify, member, member_text, opt_text, resolve_type_options, resolve_type_spec, shape_of,
    texts, Aggregate, Field, FieldAttr, Literal, Shape, SynthesisError, Trait, TypeAttr,
    TypeOptions, TypeOptionsView,
};

verus! {

/// The initializer text of a literal default: a quoted string is converted
/// with `Into`, any other literal stands as written.
pub open spec fn literal_text(l: Literal) -> Seq<char> {
    match l {
        Literal::Str(s) => "core::convert::Into::into("@ + s@ + ")"@,
        Literal::Other(s) => s@,
    }
}

/// Renders a literal default as the expression that initializes its field.
pub fn literal_initializer(l: &Literal) -> (r: String)
    ensures
        r@ == literal_text(*l),
{
    match l {
        Literal::Str(s) => {
            let mut r = String::from_str("core::convert::Into::into(");
            r.append(s.as_str());
            r.append(")");
            r
        },
        Literal::Other(s) => s.clone(),
    }
}

/// The default options of a field read so far: its literal (as initializer
/// text), then its expression.
pub type DefaultOptionsView = (Option<Seq<char>>, Option<Seq<char>>);

/// One step of reading a field's default options.
pub open spec fn default_option_step(
    acc: Result<DefaultOptionsView, SynthesisError>,
    a: FieldAttr,
    field: usize,
    enabled: bool,
) -> Result<DefaultOptionsView, SynthesisError> {
    match acc {
        Err(e) => Err(e),
        Ok(o) => match a {
            FieldAttr::DefaultValue(l) => if !enabled {
                Err(SynthesisError::UnsupportedFieldOption { field })
            } else if o.0 is Some {
                Err(SynthesisError::DuplicateFieldOption { field })
            } else {
                Ok((Some(literal_text(l)), o.1))
            },
            FieldAttr::DefaultExpression(x) => if !enabled {
                Err(SynthesisError::UnsupportedFieldOption { field })
            } else if o.1 is Some {
                Err(SynthesisError::DuplicateFieldOption { field })
            } else {
                Ok((o.0, Some(x@)))
            },
            _ => Ok(o),
        },
    }
}

/// The default options that a field's attributes give: each at most once,
/// none at all unless `enabled`. Options of other traits are left to their
/// own handlers.
pub open spec fn default_options_spec(attrs: Seq<FieldAttr>, field: usize, enabled: bool) -> Result<
    DefaultOptionsView,
    SynthesisError,
>
    decreases attrs.len(),
{
    if attrs.len() == 0 {
        Ok((None, None))
    } else {
        default_option_step(
            default_options_spec(attrs.drop_last(), field, enabled),
            attrs.last(),
            field,
            enabled,
        )
    }
}

/// The initializer that overrides the field's own default, if any: a literal
/// and an expression exclude each other, and a literal would outrank it.
pub open spec fn resolve_default_field_spec(attrs: Seq<FieldAttr>, field: usize, enabled: bool) -> Result<
    Option<Seq<char>>,
    SynthesisError,
> {
    match default_options_spec(attrs, field, enabled) {
        Err(e) => Err(e),
        Ok(o) => if o.0 is Some && o.1 is Some {
            Err(SynthesisError::ExclusiveFieldOptions { field })
        } else if o.0 is Some {
            Ok(o.0)
        } else {
            Ok(o.1)
        },
    }
}

/// Resolves the default initializer override of field number `field`.
pub fn resolve_default_field(attrs: &Vec<FieldAttr>, field: usize, enabled: bool) -> (r: Result<
    Option<String>,
    SynthesisError,
>)
    ensures
        match resolve_default_field_spec(attrs@, field, enabled) {
            Ok(o) => r is Ok && opt_text(r->Ok_0) == o,
            Err(e) => r == Err::<Option<String>, SynthesisError>(e),
        },
{
    let mut value: Option<String> = None;
    let mut expression: Option<String> = None;
    let mut err: Option<SynthesisError> = None;
    let mut i: usize = 0;
    while i < attrs.len()
        invariant
            i <= attrs@.len(),
            match default_options_spec(attrs@.take(i as int), field, enabled) {
                Ok(o) => err is None && o.0 == opt_text(value) && o.1 == opt_text(expression),
                Err(e) => err == Some(e),
            },
        decreases attrs@.len() - i,
    {
        proof {
            assert(attrs@.take(i + 1).drop_last() =~= attrs@.take(i as int));
        }
        if err.is_none() {
            match &attrs[i] {
                FieldAttr::DefaultValue(l) => {
                    if !enabled {
                        err = Some(SynthesisError::UnsupportedFieldOption { field });
                    } else if value.is_some() {
                        err = Some(SynthesisError::DuplicateFieldOption { field });
                    } else {
                        value = Some(literal_initializer(l));
                    }
                },
                FieldAttr::DefaultExpression(x) => {
                    if !enabled {
                        err = Some(SynthesisError::UnsupportedFieldOption { field });
                    } else if expression.is_some() {
                        err = Some(SynthesisError::DuplicateFieldOption { field });
                    } else {
                        expression = Some(x.clone());
                    }
                },
                _ => {},
            }
        }
        i = i + 1;
    }
    proof {
        assert(attrs@.take(attrs@.len() as int) =~= attrs@);
    }
    match err {
        Some(e) => Err(e),
        None => {
            if value.is_some() && expression.is_some() {
                Err(SynthesisError::ExclusiveFieldOptions { field })
            } else if value.is_some() {
                Ok(value)
            } else {
                Ok(expression)
            }
        },
    }
}

/// The initializer overrides of a plan as views.
pub open spec fn overrides_view(plan: Seq<Option<String>>) -> Seq<Option<Seq<char>>> {
    plan.map_values(|o: Option<String>| opt_text(o))
}

/// The override of every field, in declaration order; the first field in
/// error decides the error.
pub open spec fn default_plan_spec(fields: Seq<Field>, enabled: bool) -> Result<
    Seq<Option<Seq<char>>>,
    SynthesisError,
>
    decreases fields.len(),
{
    if fields.len() == 0 {
        Ok(Seq::empty())
    } else {
        match default_plan_spec(fields.drop_last(), enabled) {
            Err(e) => Err(e),
            Ok(p) => match resolve_default_field_spec(
                fields.last().attrs@,
                (fields.len() - 1) as usize,
                enabled,
            ) {
                Err(e) => Err(e),
                Ok(s) => Ok(p.push(s)),
            },
        }
    }
}

proof fn lemma_default_plan_len(fields: Seq<Field>, enabled: bool)
    ensures
        default_plan_spec(fields, enabled) is Ok ==> default_plan_spec(fields, enabled)->Ok_0.len()
            == fields.len(),
    decreases fields.len(),
{
    if fields.len() > 0 {
        lemma_default_plan_len(fields.drop_last(), enabled);
    }
}

/// Resolves the initializer override of every field.
pub fn resolve_default_plan(fields: &Vec<Field>, enabled: bool) -> (r: Result<
    Vec<Option<String>>,
    SynthesisError,
>)
    ensures
        match default_plan_spec(fields@, enabled) {
            Ok(p) => r is Ok && overrides_view(r->Ok_0@) == p && p.len() == fields@.len(),
            Err(e) => r == Err::<Vec<Option<String>>, SynthesisError>(e),
        },
{
    let mut plan: Vec<Option<String>> = Vec::new();
    let mut err: Option<SynthesisError> = None;
    let mut i: usize = 0;
    while i < fields.len()
        invariant
            i <= fields@.len(),
            match default_plan_spec(fields@.take(i as int), enabled) {
                Ok(p) => err is None && overrides_view(plan@) == p,
                Err(e) => err == Some(e),
            },
        decreases fields@.len() - i,
    {
        proof {
            assert(fields@.take(i + 1).drop_last() =~= fields@.take(i as int));
        }
        if err.is_none() {
            match resolve_default_field(&fields[i].attrs, i, enabled) {
                Ok(s) => {
                    proof {
                        let old_plan = plan@;
                        assert(overrides_view(old_plan.push(s)) =~= overrides_view(old_plan).push(
                            opt_text(s),
                        ));
                    }
                    plan.push(s);
                },
                Err(e) => {
                    err = Some(e);
                },
            }
        }
        i = i + 1;
    }
    proof {
        assert(fields@.take(fields@.len() as int) =~= fields@);
        lemma_default_plan_len(fields@, enabled);
    }
    match err {
        Some(e) => Err(e),
        None => Ok(plan),
    }
}

/// The initializer of a field: its override, else its type's own default.
pub open spec fn default_init(f: Field, o: Option<Seq<char>>) -> Seq<char> {
    match o {
        Some(t) => t,
        None => "<"@ + f.ty@ + " as core::default::Default>::default()"@,
    }
}

/// The initializer of field `i` in the constructor that `default` returns.
pub open spec fn default_item(
    fields: Seq<Field>,
    plan: Seq<Option<Seq<char>>>,
    i: int,
    named: bool,
) -> Seq<char> {
    if named {
        member(fields, i) + ": "@ + default_init(fields[i], plan[i]) + ", "@
    } else {
        default_init(fields[i], plan[i]) + ", "@
    }
}

/// The initializers of the first `n` fields.
pub open spec fn default_items(
    fields: Seq<Field>,
    plan: Seq<Option<Seq<char>>>,
    n: nat,
    named: bool,
) -> Seq<char>
    decreases n,
{
    if n == 0 {
        Seq::empty()
    } else {
        default_items(fields, plan, (n - 1) as nat, named) + default_item(
            fields,
            plan,
            n - 1,
            named,
        )
    }
}

/// The body of `default`: the type's override expression as written, or a
/// constructor of the struct.
pub open spec fn default_body(ast: Aggregate, options: TypeOptionsView, plan: Seq<Option<Seq<char>>>) -> Seq<
    char,
> {
    let fields = ast.fields@;
    match options.body_override {
        Some(e) => e,
        None => match shape_of(fields) {
            Shape::Unit => ast.ident@,
            Shape::Tuple => ast.ident@ + "("@ + default_items(fields, plan, fields.len(), false)
                + ")"@,
            Shape::Record => ast.ident@ + " { "@ + default_items(fields, plan, fields.len(), true)
                + "}"@,
        },
    }
}

/// The inherent `new` that delegates to `default`, where it is asked for.
pub open spec fn new_impl_text(ast: Aggregate, bounds: Seq<Seq<char>>, emit: bool) -> Seq<char> {
    if emit {
        " impl"@ + generics_text(ast.generics@) + " "@ + ast.ident@ + generics_text(ast.generics@)
            + where_text(bounds)
            + " { #[inline] fn new() -> Self { <Self as core::default::Default>::default() } }"@
    } else {
        Seq::empty()
    }
}

/// The whole `Default` implementation, and `new` after it where asked for.
pub open spec fn default_impl_text(
    ast: Aggregate,
    options: TypeOptionsView,
    plan: Seq<Option<Seq<char>>>,
    bounds: Seq<Seq<char>>,
) -> Seq<char> {
    "impl"@ + generics_text(ast.generics@) + " core::default::Default for "@ + ast.ident@
        + generics_text(ast.generics@) + where_text(bounds) + " { fn default() -> Self { "@
        + default_body(ast, options, plan) + " } }"@ + new_impl_text(
        ast,
        bounds,
        options.emit_constructor,
    )
}

/// What the `Default` handler appends for `ast`, or why it refuses. Field
/// options are still checked where the body is overridden, and then none is
/// accepted.
pub open spec fn default_synthesis(ast: Aggregate, meta: Seq<TypeAttr>) -> Result<
    Seq<char>,
    SynthesisError,
> {
    match resolve_type_spec(meta, true, true) {
        Err(e) => Err(e),
        Ok(o) => match default_plan_spec(ast.fields@, o.body_override is None) {
            Err(e) => Err(e),
            Ok(plan) => Ok(
                default_impl_text(
                    ast,
                    o,
                    plan,
                    bound_set(o.bound, ast.generics@, "core::default::Default"@),
                ),
            ),
        },
    }
}

fn push_default_items(
    out: &mut String,
    fields: &Vec<Field>,
    plan: &Vec<Option<String>>,
    named: bool,
)
    requires
        plan@.len() == fields@.len(),
    ensures
        final(out)@ == old(out)@ + default_items(
            fields@,
            overrides_view(plan@),
            fields@.len() as nat,
            named,
        ),
{
    let mut i: usize = 0;
    while i < fields.len()
        invariant
            i <= fields@.len(),
            plan@.len() == fields@.len(),
            out@ == old(out)@ + default_items(fields@, overrides_view(plan@), i as nat, named),
        decreases fields@.len() - i,
    {
        let mut item = String::new();
        if named {
            let m = member_text(fields, i);
            item.append(m.as_str());
            item.append(": ");
        }
        match &plan[i] {
            Some(t) => {
                item.append(t.as_str());
            },
            None => {
                item.append("<");
                item.append(fields[i].ty.as_str());
                item.append(" as core::default::Default>::default()");
            },
        }
        item.append(", ");
        proof {
            assert(overrides_view(plan@)[i as int] == opt_text(plan@[i as int]));
            assert(item@ =~= default_item(fields@, overrides_view(plan@), i as int, named));
            assert(out@ + item@ =~= old(out)@ + default_items(
                fields@,
                overrides_view(plan@),
                (i + 1) as nat,
                named,
            ));
        }
        out.append(item.as_str());
        i = i + 1;
    }
}

fn push_default_body(
    out: &mut String,
    ast: &Aggregate,
    options: &TypeOptions,
    plan: &Vec<Option<String>>,
)
    requires
        plan@.len() == ast.fields@.len(),
    ensures
        final(out)@ == old(out)@ + default_body(*ast, options@, overrides_view(plan@)),
{
    let mut b = String::new();
    match &options.body_override {
        Some(e) => {
            b.append(e.as_str());
        },
        None => match classify(&ast.fields) {
            Shape::Unit => {
                b.append(ast.ident.as_str());
            },
            Shape::Tuple => {
                b.append(ast.ident.as_str());
                b.append("(");
                push_default_items(&mut b, &ast.fields, plan, false);
                b.append(")");
            },
            Shape::Record => {
                b.append(ast.ident.as_str());
                b.append(" { ");
                push_default_items(&mut b, &ast.fields, plan, true);
                b.append("}");
            },
        },
    }
    assert(b@ =~= default_body(*ast, options@, overrides_view(plan@)));
    out.append(b.as_str());
}

/// Synthesizes `Default` for struct declarations.
pub struct DefaultStructHandler;

impl DefaultStructHandler {
    /// Appends the `Default` implementation of `ast` to `tokens`, and an
    /// inherent `new` where `meta` asks for it. `traits` lists the traits
    /// derived alongside; this synthesis does not depend on them. On malformed
    /// options nothing is appended.
    pub fn trait_meta_handler(
        ast: &Aggregate,
        tokens: &mut String,
        traits: &[Trait],
        meta: &Vec<TypeAttr>,
    ) -> (r: Result<(), SynthesisError>)
        ensures
            match default_synthesis(*ast, meta@) {
                Ok(t) => r is Ok && final(tokens)@ == old(tokens)@ + t,
                Err(e) => r == Err::<(), SynthesisError>(e) && final(tokens)@ == old(tokens)@,
            },
    {
        let options = match resolve_type_options(meta, true, true) {
            Ok(o) => o,
            Err(e) => return Err(e),
        };
        let bounds = compose_bounds(&options.bound, &ast.generics, "core::default::Default");
        let plan = match resolve_default_plan(&ast.fields, options.body_override.is_none()) {
            Ok(p) => p,
            Err(e) => return Err(e),
        };
        proof {
            assert(overrides_view(plan@).len() == plan@.len());
        }
        let mut out = String::from_str("impl");
        push_generics(&mut out, &ast.generics);
        out.append(" core::default::Default for ");
        out.append(ast.ident.as_str());
        push_generics(&mut out, &ast.generics);
        push_where(&mut out, &bounds);
        out.append(" { fn default() -> Self { ");
        push_default_body(&mut out, ast, &options, &plan);
        out.append(" } }");
        let mut tail = String::new();
        if options.emit_constructor {
            tail.append(" impl");
            push_generics(&mut tail, &ast.generics);
            tail.append(" ");
            tail.append(ast.ident.as_str());
            push_generics(&mut tail, &ast.generics);
            push_where(&mut tail, &bounds);
            tail.append(
                " { #[inline] fn new() -> Self { <Self as core::default::Default>::default() } }",
            );
        }
        assert(tail@ =~= new_impl_text(*ast, texts(bounds@), options.emit_constructor));
        out.append(tail.as_str());
        tokens.append(out.as_str());
        Ok(())
    }
}

} // verus!
