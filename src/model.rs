//! The aggregate under transformation, the options attached to it, and the
//! resolvers that turn those options into typed configuration.
use vstd::prelude::*;

use crate::text::{decimal, index_text};

verus! {

/// The traits that a derive request may name.
#[derive(Clone, Copy, Debug, PartialEq, Eq, Structural)]
pub enum Trait {
    Debug,
    PartialEq,
    Eq,
    PartialOrd,
    Ord,
    Hash,
    Default,
    Clone,
    Copy,
    Deref,
    DerefMut,
}

/// The structural classification of an aggregate's fields.
#[derive(Clone, Copy, Debug, PartialEq, Eq, Structural)]
pub enum Shape {
    Unit,
    Tuple,
    Record,
}

/// A literal given as a field's default value, as its source text.
#[derive(Debug)]
pub enum Literal {
    /// A quoted string literal, quotes included (`"abc"`).
    Str(String),
    /// Any other literal (`5`, `'c'`, `true`).
    Other(String),
}

/// One option attached to a field, already normalised from whichever surface
/// syntax it was written in.
#[derive(Debug)]
pub enum FieldAttr {
    /// A function that clones the field (`clone = "f"`, `clone(method = "f")`).
    CloneMethod(String),
    /// A trait whose method clones the field (`clone(trait = "A")`).
    CloneTrait(String),
    /// A literal default value.
    DefaultValue(Literal),
    /// An expression that produces the default value.
    DefaultExpression(String),
}

/// One field of an aggregate.
#[derive(Debug)]
pub struct Field {
    /// The field's name; `None` for a positional field.
    pub name: Option<String>,
    /// The field's declared type, as source text.
    pub ty: String,
    /// The options attached to the field, in the order they were written.
    pub attrs: Vec<FieldAttr>,
}

/// A struct-like declaration whose implementations are synthesized.
#[derive(Debug)]
pub struct Aggregate {
    pub ident: String,
    /// The names of the declared type parameters, in order.
    pub generics: Vec<String>,
    /// The fields, in declaration order.
    pub fields: Vec<Field>,
}

/// One option attached to the type itself.
#[derive(Debug)]
pub enum TypeAttr {
    /// `bound`: one predicate per type parameter.
    BoundAuto,
    /// `bound = "..."`: the predicates written out as one text.
    BoundText(String),
    /// `bound("...", "...")`: the predicates one by one.
    BoundPredicates(Vec<String>),
    /// `new`: also emit an inherent zero-argument constructor.
    New,
    /// An expression that replaces the whole synthesized body.
    Expression(String),
}

/// How the generic bounds of the emitted implementation are obtained.
#[derive(Debug)]
pub enum BoundPolicy {
    /// No bound was asked for: no predicate is added.
    Omitted,
    /// One predicate per type parameter.
    Auto,
    /// Explicit predicate text, used as written.
    Text(String),
    /// Explicit predicates, used as written.
    Predicates(Vec<String>),
}

/// A bound policy with its texts as character sequences.
pub enum BoundPolicyView {
    Omitted,
    Auto,
    Text(Seq<char>),
    Predicates(Seq<Seq<char>>),
}

/// The character sequences of a list of texts.
pub open spec fn texts(v: Seq<String>) -> Seq<Seq<char>> {
    v.map_values(|s: String| s@)
}

impl View for BoundPolicy {
    type V = BoundPolicyView;

    open spec fn view(&self) -> BoundPolicyView {
        match self {
            BoundPolicy::Omitted => BoundPolicyView::Omitted,
            BoundPolicy::Auto => BoundPolicyView::Auto,
            BoundPolicy::Text(t) => BoundPolicyView::Text(t@),
            BoundPolicy::Predicates(ps) => BoundPolicyView::Predicates(texts(ps@)),
        }
    }
}

/// The resolved type-level configuration.
#[derive(Debug)]
pub struct TypeOptions {
    pub emit_constructor: bool,
    pub body_override: Option<String>,
    pub bound: BoundPolicy,
}

/// Type-level options with their texts as character sequences.
pub struct TypeOptionsView {
    pub emit_constructor: bool,
    pub body_override: Option<Seq<char>>,
    pub bound: BoundPolicyView,
}

/// The character sequence of an optional text.
pub open spec fn opt_text(o: Option<String>) -> Option<Seq<char>> {
    match o {
        Some(s) => Some(s@),
        None => None,
    }
}

impl View for TypeOptions {
    type V = TypeOptionsView;

    open spec fn view(&self) -> TypeOptionsView {
        TypeOptionsView {
            emit_constructor: self.emit_constructor,
            body_override: opt_text(self.body_override),
            bound: self.bound@,
        }
    }
}

/// Why a synthesis was refused. Field errors carry the field's position.
#[derive(Clone, Copy, Debug, PartialEq, Eq, Structural)]
pub enum SynthesisError {
    /// A type-level option that this trait does not accept.
    UnsupportedTypeOption,
    /// A type-level option given twice.
    DuplicateTypeOption,
    /// A field option that this trait does not accept here.
    UnsupportedFieldOption { field: usize },
    /// A field option given twice.
    DuplicateFieldOption { field: usize },
    /// Two field options that exclude each other were both given.
    ExclusiveFieldOptions { field: usize },
}

/// Unit without fields; otherwise named or positional by the first field.
pub open spec fn shape_of(fields: Seq<Field>) -> Shape {
    if fields.len() == 0 {
        Shape::Unit
    } else if fields[0].name is Some {
        Shape::Record
    } else {
        Shape::Tuple
    }
}

/// Classifies an aggregate by its fields: none, positional, or named
/// (decided by the first field).
pub fn classify(fields: &Vec<Field>) -> (r: Shape)
    ensures
        r == shape_of(fields@),
{
    if fields.len() == 0 {
        Shape::Unit
    } else if fields[0].name.is_some() {
        Shape::Record
    } else {
        Shape::Tuple
    }
}

/// Whether `Copy` is among the derived traits.
pub open spec fn derives_copy(traits: Seq<Trait>) -> bool {
    exists|i: int| 0 <= i < traits.len() && traits[i] is Copy
}

/// Looks for `Copy` among the derived traits.
pub fn has_copy(traits: &[Trait]) -> (r: bool)
    ensures
        r == derives_copy(traits@),
{
    let mut i: usize = 0;
    while i < traits.len()
        invariant
            i <= traits@.len(),
            forall|k: int| 0 <= k < i ==> !(traits@[k] is Copy),
        decreases traits@.len() - i,
    {
        if let Trait::Copy = traits[i] {
            return true;
        }
        i = i + 1;
    }
    false
}

/// How field `i` is written after `self.`: its name, or its position.
pub open spec fn member(fields: Seq<Field>, i: int) -> Seq<char> {
    match fields[i].name {
        Some(n) => n@,
        None => decimal(i as nat),
    }
}

/// Renders how field `i` is written after `self.`.
pub fn member_text(fields: &Vec<Field>, i: usize) -> (r: String)
    requires
        i < fields@.len(),
    ensures
        r@ == member(fields@, i as int),
{
    match &fields[i].name {
        Some(n) => n.clone(),
        None => index_text(i),
    }
}

/// One step of reading the type-level options, given which keys are accepted.
pub open spec fn type_option_step(
    acc: Result<TypeOptionsView, SynthesisError>,
    a: TypeAttr,
    enable_new: bool,
    enable_expression: bool,
) -> Result<TypeOptionsView, SynthesisError> {
    match acc {
        Err(e) => Err(e),
        Ok(o) => match a {
            TypeAttr::New => if !enable_new {
                Err(SynthesisError::UnsupportedTypeOption)
            } else if o.emit_constructor {
                Err(SynthesisError::DuplicateTypeOption)
            } else {
                Ok(TypeOptionsView { emit_constructor: true, ..o })
            },
            TypeAttr::Expression(x) => if !enable_expression {
                Err(SynthesisError::UnsupportedTypeOption)
            } else if o.body_override is Some {
                Err(SynthesisError::DuplicateTypeOption)
            } else {
                Ok(TypeOptionsView { body_override: Some(x@), ..o })
            },
            _ => if !(o.bound is Omitted) {
                Err(SynthesisError::DuplicateTypeOption)
            } else {
                Ok(TypeOptionsView {
                    bound: match a {
                        TypeAttr::BoundText(t) => BoundPolicyView::Text(t@),
                        TypeAttr::BoundPredicates(ps) => BoundPolicyView::Predicates(texts(ps@)),
                        _ => BoundPolicyView::Auto,
                    },
                    ..o
                })
            },
        },
    }
}

/// The type-level options that `items` resolve to: each key at most once, and
/// only the accepted keys; the first offending item decides the error.
pub open spec fn resolve_type_spec(
    items: Seq<TypeAttr>,
    enable_new: bool,
    enable_expression: bool,
) -> Result<TypeOptionsView, SynthesisError>
    decreases items.len(),
{
    if items.len() == 0 {
        Ok(
            TypeOptionsView {
                emit_constructor: false,
                body_override: None,
                bound: BoundPolicyView::Omitted,
            },
        )
    } else {
        type_option_step(
            resolve_type_spec(items.drop_last(), enable_new, enable_expression),
            items.last(),
            enable_new,
            enable_expression,
        )
    }
}

fn copy_texts(v: &Vec<String>) -> (r: Vec<String>)
    ensures
        texts(r@) == texts(v@),
{
    let mut r: Vec<String> = Vec::new();
    let mut i: usize = 0;
    while i < v.len()
        invariant
            i <= v@.len(),
            texts(r@) =~= texts(v@.take(i as int)),
        decreases v@.len() - i,
    {
        let s = v[i].clone();
        proof {
            let old_r = r@;
            assert(texts(old_r.push(s)) =~= texts(old_r).push(s@));
            assert(texts(v@.take(i + 1)) =~= texts(v@.take(i as int)).push(v@[i as int]@));
        }
        r.push(s);
        i = i + 1;
    }
    assert(v@.take(v@.len() as int) =~= v@);
    r
}

/// Reads the type-level options; `bound` is always accepted, `new` and the
/// body expression only where enabled.
pub fn resolve_type_options(items: &Vec<TypeAttr>, enable_new: bool, enable_expression: bool) -> (r:
    Result<TypeOptions, SynthesisError>)
    ensures
        match resolve_type_spec(items@, enable_new, enable_expression) {
            Ok(o) => r is Ok && r->Ok_0@ == o,
            Err(e) => r == Err::<TypeOptions, SynthesisError>(e),
        },
{
    let mut acc: Result<TypeOptions, SynthesisError> = Ok(
        TypeOptions { emit_constructor: false, body_override: None, bound: BoundPolicy::Omitted },
    );
    let mut i: usize = 0;
    while i < items.len()
        invariant
            i <= items@.len(),
            match resolve_type_spec(items@.take(i as int), enable_new, enable_expression) {
                Ok(o) => acc is Ok && acc->Ok_0@ == o,
                Err(e) => acc == Err::<TypeOptions, SynthesisError>(e),
            },
        decreases items@.len() - i,
    {
        proof {
            assert(items@.take(i + 1).drop_last() =~= items@.take(i as int));
        }
        let next = match acc {
            Err(e) => Err(e),
            Ok(o) => match &items[i] {
                TypeAttr::New => if !enable_new {
                    Err(SynthesisError::UnsupportedTypeOption)
                } else if o.emit_constructor {
                    Err(SynthesisError::DuplicateTypeOption)
                } else {
                    Ok(TypeOptions { emit_constructor: true, ..o })
                },
                TypeAttr::Expression(x) => if !enable_expression {
                    Err(SynthesisError::UnsupportedTypeOption)
                } else if o.body_override.is_some() {
                    Err(SynthesisError::DuplicateTypeOption)
                } else {
                    Ok(TypeOptions { body_override: Some(x.clone()), ..o })
                },
                TypeAttr::BoundAuto => if !matches!(o.bound, BoundPolicy::Omitted) {
                    Err(SynthesisError::DuplicateTypeOption)
                } else {
                    Ok(TypeOptions { bound: BoundPolicy::Auto, ..o })
                },
                TypeAttr::BoundText(t) => if !matches!(o.bound, BoundPolicy::Omitted) {
                    Err(SynthesisError::DuplicateTypeOption)
                } else {
                    Ok(TypeOptions { bound: BoundPolicy::Text(t.clone()), ..o })
                },
                TypeAttr::BoundPredicates(ps) => if !matches!(o.bound, BoundPolicy::Omitted) {
                    Err(SynthesisError::DuplicateTypeOption)
                } else {
                    Ok(TypeOptions { bound: BoundPolicy::Predicates(copy_texts(ps)), ..o })
                },
            },
        };
        acc = next;
        i = i + 1;
    }
    proof {
        assert(items@.take(items@.len() as int) =~= items@);
    }
    acc
}

} // verus!
