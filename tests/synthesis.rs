use educe::bounds::compose_bounds;
use educe::clone_struct::{resolve_clone_field, CloneStrategy, CloneStructHandler};
use educe::default_struct::{literal_initializer, resolve_default_field, DefaultStructHandler};
use educe::model::{
    classify, has_copy, BoundPolicy, Aggregate, Field, FieldAttr, Literal, Shape, SynthesisError,
    Trait, TypeAttr,
};
use educe::text::index_text;

fn named(name: &str, ty: &str, attrs: Vec<FieldAttr>) -> Field {
    Field { name: Some(name.to_string()), ty: ty.to_string(), attrs }
}

fn positional(ty: &str, attrs: Vec<FieldAttr>) -> Field {
    Field { name: None, ty: ty.to_string(), attrs }
}

fn aggregate(ident: &str, generics: &[&str], fields: Vec<Field>) -> Aggregate {
    Aggregate {
        ident: ident.to_string(),
        generics: generics.iter().map(|g| g.to_string()).collect(),
        fields,
    }
}

fn clone_of(ast: &Aggregate, traits: &[Trait], meta: &Vec<TypeAttr>) -> Result<String, SynthesisError> {
    let mut tokens = String::new();
    CloneStructHandler::trait_meta_handler(ast, &mut tokens, traits, meta).map(|_| tokens)
}

fn default_of(ast: &Aggregate, meta: &Vec<TypeAttr>) -> Result<String, SynthesisError> {
    let mut tokens = String::new();
    DefaultStructHandler::trait_meta_handler(ast, &mut tokens, &[Trait::Default], meta).map(|_| tokens)
}

#[test]
fn unit_struct_clone_is_the_unit_value() {
    let ast = aggregate("Unit", &[], vec![]);
    let plain = clone_of(&ast, &[Trait::Clone], &vec![]).unwrap();
    assert_eq!(
        plain,
        "impl core::clone::Clone for Unit { #[inline] fn clone(&self) -> Self { Unit } #[inline] fn clone_from(&mut self, _source: &Self) {  } }"
    );
    let copied = clone_of(&ast, &[Trait::Clone, Trait::Copy], &vec![]).unwrap();
    assert_eq!(
        copied,
        "impl core::clone::Clone for Unit { #[inline] fn clone(&self) -> Self { *self } #[inline] fn clone_from(&mut self, _source: &Self) {  } }"
    );
}

#[test]
fn fields_without_options_use_canonical_calls() {
    let ast = aggregate("P", &[], vec![named("x", "u8", vec![]), named("y", "Vec<u8>", vec![])]);
    let c = clone_of(&ast, &[Trait::Clone], &vec![]).unwrap();
    assert!(c.contains("P{x: core::clone::Clone::clone(&self.x),y: core::clone::Clone::clone(&self.y),}"));
    assert!(c.contains(
        "core::clone::Clone::clone_from(&mut self.x, &_source.x);core::clone::Clone::clone_from(&mut self.y, &_source.y);"
    ));
    let d = default_of(&ast, &vec![]).unwrap();
    assert_eq!(
        d,
        "impl core::default::Default for P { fn default() -> Self { P { x: <u8 as core::default::Default>::default(), y: <Vec<u8> as core::default::Default>::default(), } } }"
    );
}

#[test]
fn three_named_fields_round_trip() {
    let ast = aggregate(
        "R",
        &[],
        vec![
            named("field1", "u8", vec![]),
            named("field2", "u8", vec![FieldAttr::CloneMethod("f".to_string())]),
            named(
                "field3",
                "u8",
                vec![FieldAttr::CloneTrait("Trait".to_string()), FieldAttr::CloneMethod("method".to_string())],
            ),
        ],
    );
    let c = clone_of(&ast, &[Trait::Clone, Trait::Copy], &vec![]).unwrap();
    assert_eq!(
        c,
        "impl core::clone::Clone for R { #[inline] fn clone(&self) -> Self { R{field1: core::clone::Clone::clone(&self.field1),field2: f(&self.field2),field3: Trait::method(&self.field3),} } #[inline] fn clone_from(&mut self, _source: &Self) { core::clone::Clone::clone_from(&mut self.field1, &_source.field1);self.field2 = f(&_source.field2);self.field3 = Trait::method(&_source.field3); } }"
    );
}

#[test]
fn copy_fast_path_asks_for_copy_only() {
    let ast = aggregate("W", &["T", "U"], vec![positional("T", vec![]), positional("U", vec![])]);
    let c = clone_of(&ast, &[Trait::Copy, Trait::Clone], &vec![TypeAttr::BoundAuto]).unwrap();
    assert_eq!(
        c,
        "impl<T, U> core::clone::Clone for W<T, U> where T: core::marker::Copy, U: core::marker::Copy, { #[inline] fn clone(&self) -> Self { *self } #[inline] fn clone_from(&mut self, _source: &Self) { core::clone::Clone::clone_from(&mut self.0, &_source.0);core::clone::Clone::clone_from(&mut self.1, &_source.1); } }"
    );
}

#[test]
fn custom_strategy_leaves_the_copy_path() {
    let ast = aggregate("W", &["T"], vec![positional("T", vec![FieldAttr::CloneMethod("g".to_string())])]);
    let c = clone_of(&ast, &[Trait::Copy, Trait::Clone], &vec![TypeAttr::BoundAuto]).unwrap();
    assert_eq!(
        c,
        "impl<T> core::clone::Clone for W<T> where T: core::clone::Clone, { #[inline] fn clone(&self) -> Self { W(g(&self.0),) } #[inline] fn clone_from(&mut self, _source: &Self) { self.0 = g(&_source.0); } }"
    );
}

#[test]
fn auto_and_explicit_bounds() {
    let params = vec!["A".to_string(), "B".to_string()];
    let auto = compose_bounds(&BoundPolicy::Auto, &params, "core::clone::Clone");
    assert_eq!(auto, vec!["A: core::clone::Clone".to_string(), "B: core::clone::Clone".to_string()]);
    let text = compose_bounds(&BoundPolicy::Text("A: Send".to_string()), &params, "core::clone::Clone");
    assert_eq!(text, vec!["A: Send".to_string()]);
    let list = compose_bounds(
        &BoundPolicy::Predicates(vec!["A: Send".to_string(), "B: Sync".to_string()]),
        &params,
        "core::clone::Clone",
    );
    assert_eq!(list, vec!["A: Send".to_string(), "B: Sync".to_string()]);
    let none = compose_bounds(&BoundPolicy::Omitted, &params, "core::clone::Clone");
    assert!(none.is_empty());
}

#[test]
fn default_generic_bound_asks_for_default() {
    let ast = aggregate("G", &["T"], vec![named("v", "T", vec![])]);
    let d = default_of(&ast, &vec![TypeAttr::BoundAuto]).unwrap();
    assert_eq!(
        d,
        "impl<T> core::default::Default for G<T> where T: core::default::Default, { fn default() -> Self { G { v: <T as core::default::Default>::default(), } } }"
    );
}

#[test]
fn literal_and_expression_exclude_each_other() {
    let ast = aggregate(
        "D",
        &[],
        vec![
            named("a", "u8", vec![]),
            named(
                "b",
                "u8",
                vec![FieldAttr::DefaultValue(Literal::Other("5".to_string())), FieldAttr::DefaultExpression("f()".to_string())],
            ),
        ],
    );
    let mut tokens = String::from("before");
    let r = DefaultStructHandler::trait_meta_handler(&ast, &mut tokens, &[Trait::Default], &vec![]);
    assert_eq!(r, Err(SynthesisError::ExclusiveFieldOptions { field: 1 }));
    assert_eq!(tokens, "before");
}

#[test]
fn string_literal_is_converted_other_literals_are_not() {
    assert_eq!(literal_initializer(&Literal::Str("\"abc\"".to_string())), "core::convert::Into::into(\"abc\")");
    assert_eq!(literal_initializer(&Literal::Other("5".to_string())), "5");
    let ast = aggregate(
        "S",
        &[],
        vec![
            positional("String", vec![FieldAttr::DefaultValue(Literal::Str("\"abc\"".to_string()))]),
            positional("u8", vec![FieldAttr::DefaultValue(Literal::Other("5".to_string()))]),
            positional("u8", vec![FieldAttr::DefaultExpression("1 + 1".to_string())]),
        ],
    );
    let d = default_of(&ast, &vec![]).unwrap();
    assert_eq!(
        d,
        "impl core::default::Default for S { fn default() -> Self { S(core::convert::Into::into(\"abc\"), 5, 1 + 1, ) } }"
    );
}

#[test]
fn default_unit_override_and_new() {
    let unit = aggregate("U", &[], vec![]);
    assert_eq!(
        default_of(&unit, &vec![TypeAttr::New]).unwrap(),
        "impl core::default::Default for U { fn default() -> Self { U } } impl U { #[inline] fn new() -> Self { <Self as core::default::Default>::default() } }"
    );
    let ast = aggregate("V", &["T"], vec![named("v", "T", vec![])]);
    assert_eq!(
        default_of(&ast, &vec![TypeAttr::Expression("V { v: make() }".to_string()), TypeAttr::New, TypeAttr::BoundText("T: Default".to_string())]).unwrap(),
        "impl<T> core::default::Default for V<T> where T: Default, { fn default() -> Self { V { v: make() } } } impl<T> V<T> where T: Default, { #[inline] fn new() -> Self { <Self as core::default::Default>::default() } }"
    );
}

#[test]
fn field_options_refused_under_body_override() {
    let ast = aggregate("V", &[], vec![named("v", "u8", vec![FieldAttr::DefaultExpression("1".to_string())])]);
    assert_eq!(
        default_of(&ast, &vec![TypeAttr::Expression("V { v: 2 }".to_string())]),
        Err(SynthesisError::UnsupportedFieldOption { field: 0 })
    );
}

#[test]
fn type_option_errors() {
    let ast = aggregate("U", &[], vec![]);
    assert_eq!(clone_of(&ast, &[Trait::Clone], &vec![TypeAttr::New]), Err(SynthesisError::UnsupportedTypeOption));
    assert_eq!(
        clone_of(&ast, &[Trait::Clone], &vec![TypeAttr::Expression("U".to_string())]),
        Err(SynthesisError::UnsupportedTypeOption)
    );
    assert_eq!(
        clone_of(&ast, &[Trait::Clone], &vec![TypeAttr::BoundAuto, TypeAttr::BoundText("T: A".to_string())]),
        Err(SynthesisError::DuplicateTypeOption)
    );
    assert_eq!(default_of(&ast, &vec![TypeAttr::New, TypeAttr::New]), Err(SynthesisError::DuplicateTypeOption));
}

#[test]
fn duplicate_field_options() {
    let ast = aggregate(
        "T",
        &[],
        vec![
            positional("u8", vec![]),
            positional("u8", vec![]),
            positional("u8", vec![FieldAttr::CloneMethod("a".to_string()), FieldAttr::CloneMethod("b".to_string())]),
        ],
    );
    assert_eq!(clone_of(&ast, &[Trait::Clone], &vec![]), Err(SynthesisError::DuplicateFieldOption { field: 2 }));
    let attrs = vec![FieldAttr::DefaultExpression("1".to_string()), FieldAttr::DefaultExpression("2".to_string())];
    assert_eq!(resolve_default_field(&attrs, 4, true), Err(SynthesisError::DuplicateFieldOption { field: 4 }));
}

#[test]
fn options_of_other_traits_are_left_alone() {
    let attrs = vec![FieldAttr::DefaultExpression("1".to_string()), FieldAttr::CloneMethod("c".to_string())];
    match resolve_clone_field(&attrs, 0) {
        Ok(CloneStrategy::Function(f)) => assert_eq!(f, "c"),
        other => panic!("unexpected {:?}", other),
    }
    assert_eq!(resolve_default_field(&attrs, 0, true), Ok(Some("1".to_string())));
}

#[test]
fn trait_without_method_calls_clone() {
    let attrs = vec![FieldAttr::CloneTrait("A".to_string())];
    match resolve_clone_field(&attrs, 0) {
        Ok(CloneStrategy::TraitMethod(t, m)) => {
            assert_eq!(t, "A");
            assert_eq!(m, "clone");
        }
        other => panic!("unexpected {:?}", other),
    }
}

#[test]
fn output_is_appended() {
    let ast = aggregate("U", &[], vec![]);
    let mut tokens = String::from("existing;");
    CloneStructHandler::trait_meta_handler(&ast, &mut tokens, &[Trait::Clone], &vec![]).unwrap();
    assert!(tokens.starts_with("existing;impl core::clone::Clone for U"));
}

#[test]
fn shapes_and_positions() {
    assert_eq!(classify(&vec![]), Shape::Unit);
    assert_eq!(classify(&vec![positional("u8", vec![])]), Shape::Tuple);
    assert_eq!(classify(&vec![named("a", "u8", vec![])]), Shape::Record);
    assert_eq!(index_text(0), "0");
    assert_eq!(index_text(7), "7");
    assert_eq!(index_text(12), "12");
    assert_eq!(index_text(305), "305");
    assert!(has_copy(&[Trait::Debug, Trait::Copy]));
    assert!(!has_copy(&[Trait::Clone]));
}

#[test]
fn many_positional_fields() {
    let fields: Vec<Field> = (0..11).map(|_| positional("u8", vec![])).collect();
    let c = clone_of(&aggregate("Big", &[], fields), &[Trait::Clone], &vec![]).unwrap();
    assert!(c.contains("core::clone::Clone::clone(&self.10),)"));
    assert!(c.contains("core::clone::Clone::clone_from(&mut self.10, &_source.10);"));
}
