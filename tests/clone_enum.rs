use educe::clone_struct::CloneStructHandler;
use educe::model::{Aggregate, Field, FieldAttr, Trait, TypeAttr};

fn named(name: &str, ty: &str, attrs: Vec<FieldAttr>) -> Field {
    Field { name: Some(name.to_string()), ty: ty.to_string(), attrs }
}

fn positional(ty: &str, attrs: Vec<FieldAttr>) -> Field {
    Field { name: None, ty: ty.to_string(), attrs }
}

fn aggregate(ident: &str, generics: &[&str], fields: Vec<Field>) -> Aggregate {
    Aggregate {
        ident: ident.to_string(),
        generics: generics.iter().map(|g| g.to_string()).collect(),
        fields,
    }
}

fn synthesize(ast: &Aggregate, meta: &Vec<TypeAttr>) -> String {
    let mut tokens = String::new();
    let r = CloneStructHandler::trait_meta_handler(ast, &mut tokens, &[Trait::Clone], meta);
    assert_eq!(r, Ok(()));
    tokens
}

fn clone_impl(head: &str, ident: &str, clone: &str, clone_from: &str) -> String {
    format!(
        "impl{head} core::clone::Clone for {ident} {{ #[inline] fn clone(&self) -> Self {{ {clone} }} #[inline] fn clone_from(&mut self, _source: &Self) {{ {clone_from} }} }}"
    )
}

fn with_method(method: &str) -> Vec<FieldAttr> {
    vec![FieldAttr::CloneMethod(method.to_string())]
}

fn with_trait(tr: &str, method: Option<&str>) -> Vec<FieldAttr> {
    let mut attrs = vec![FieldAttr::CloneTrait(tr.to_string())];
    if let Some(m) = method {
        attrs.push(FieldAttr::CloneMethod(m.to_string()));
    }
    attrs
}

fn check_custom_function(attrs: fn() -> Vec<FieldAttr>) {
    fn clone(v: &u8) -> u8 {
        v + 100
    }

    let s = synthesize(&aggregate("Struct", &[], vec![named("f1", "u8", attrs())]), &vec![]);
    let t = synthesize(&aggregate("Tuple", &[], vec![positional("u8", attrs())]), &vec![]);

    assert_eq!(
        s,
        clone_impl("", "Struct", "Struct{f1: clone(&self.f1),}", "self.f1 = clone(&_source.f1);")
    );
    assert_eq!(t, clone_impl("", "Tuple", "Tuple(clone(&self.0),)", "self.0 = clone(&_source.0);"));

    // what the emitted call yields on a field holding 1
    let f1: u8 = 1;
    assert_eq!(101, clone(&f1));
}

#[test]
fn basic() {
    let u = synthesize(&aggregate("Unit", &[], vec![]), &vec![]);
    let s = synthesize(&aggregate("Struct", &[], vec![named("f1", "u8", vec![])]), &vec![]);
    let t = synthesize(&aggregate("Tuple", &[], vec![positional("u8", vec![])]), &vec![]);

    assert_eq!(u, clone_impl("", "Unit", "Unit", ""));
    assert_eq!(
        s,
        clone_impl(
            "",
            "Struct",
            "Struct{f1: core::clone::Clone::clone(&self.f1),}",
            "core::clone::Clone::clone_from(&mut self.f1, &_source.f1);"
        )
    );
    assert_eq!(
        t,
        clone_impl(
            "",
            "Tuple",
            "Tuple(core::clone::Clone::clone(&self.0),)",
            "core::clone::Clone::clone_from(&mut self.0, &_source.0);"
        )
    );
}

// `clone = "clone"`
#[test]
fn clone_without_trait_1() {
    check_custom_function(|| with_method("clone"));
}

// `clone("clone")`
#[test]
fn clone_without_trait_2() {
    check_custom_function(|| with_method("clone"));
}

// `clone(method = "clone")`
#[test]
fn clone_without_trait_3() {
    check_custom_function(|| with_method("clone"));
}

// `clone(method("clone"))`
#[test]
fn clone_without_trait_4() {
    check_custom_function(|| with_method("clone"));
}

trait A {
    fn clone(&self) -> Self;
}

impl A for u8 {
    fn clone(&self) -> u8 {
        self + 100
    }
}

trait B {
    fn cloner(&self) -> Self;
}

impl B for u8 {
    fn cloner(&self) -> u8 {
        self + 100
    }
}

fn check_trait_method(tr: &str, method: Option<&str>, called: &str) {
    let s = synthesize(
        &aggregate("Struct", &[], vec![named("f1", "u8", with_trait(tr, method))]),
        &vec![],
    );
    let t = synthesize(&aggregate("Tuple", &[], vec![positional("u8", with_trait(tr, method))]), &vec![]);

    assert_eq!(
        s,
        clone_impl(
            "",
            "Struct",
            &format!("Struct{{f1: {tr}::{called}(&self.f1),}}"),
            &format!("self.f1 = {tr}::{called}(&_source.f1);")
        )
    );
    assert_eq!(
        t,
        clone_impl(
            "",
            "Tuple",
            &format!("Tuple({tr}::{called}(&self.0),)"),
            &format!("self.0 = {tr}::{called}(&_source.0);")
        )
    );
}

// `clone(trait = "A")`
#[test]
fn clone_with_trait_1() {
    check_trait_method("A", None, "clone");
    let f1: u8 = 1;
    assert_eq!(101, A::clone(&f1));
}

// `clone(trait("A"))`
#[test]
fn clone_with_trait_2() {
    check_trait_method("A", None, "clone");
    let f1: u8 = 1;
    assert_eq!(101, A::clone(&f1));
}

// `clone(trait = "B", method = "cloner")`
#[test]
fn clone_with_trait_3() {
    check_trait_method("B", Some("cloner"), "cloner");
    let f1: u8 = 1;
    assert_eq!(101, B::cloner(&f1));
}

// `clone(trait("B"), method("cloner"))`
#[test]
fn clone_with_trait_4() {
    check_trait_method("B", Some("cloner"), "cloner");
    let f1: u8 = 1;
    assert_eq!(101, B::cloner(&f1));
}

fn check_generic(meta: Vec<TypeAttr>) {
    let s = synthesize(&aggregate("Struct", &["T"], vec![named("f1", "T", vec![])]), &meta);
    let t = synthesize(&aggregate("Tuple", &["T"], vec![positional("T", vec![])]), &meta);

    assert_eq!(
        s,
        clone_impl(
            "<T>",
            "Struct<T> where T: core::clone::Clone,",
            "Struct{f1: core::clone::Clone::clone(&self.f1),}",
            "core::clone::Clone::clone_from(&mut self.f1, &_source.f1);"
        )
    );
    assert_eq!(
        t,
        clone_impl(
            "<T>",
            "Tuple<T> where T: core::clone::Clone,",
            "Tuple(core::clone::Clone::clone(&self.0),)",
            "core::clone::Clone::clone_from(&mut self.0, &_source.0);"
        )
    );
}

// `bound`
#[test]
fn bound_1() {
    check_generic(vec![TypeAttr::BoundAuto]);
}

// `bound = "T: core::clone::Clone"`
#[test]
fn bound_2() {
    check_generic(vec![TypeAttr::BoundText("T: core::clone::Clone".to_string())]);
}

// `bound("T: core::clone::Clone")`
#[test]
fn bound_3() {
    check_generic(vec![TypeAttr::BoundPredicates(vec!["T: core::clone::Clone".to_string()])]);
}
