#![allow(dead_code)]

use std::fmt::Debug;
use std::marker::PhantomData;

use debug_stub_derive::annotation::{Attribute, Lit, Meta, Nested};
use debug_stub_derive::emit::expand_derive_serialize;
use debug_stub_derive::plan::Implementation;
use debug_stub_derive::render::render;
use debug_stub_derive::shape::{
    Data, Fields, GenericParam, NamedField, ParamKind, TypeDescription, UnnamedField,
};
use debug_stub_derive::value::{Content, Instance, Rendering, Slot, Value};

struct StructWithoutDebug;

fn word(text: &str) -> Option<String> {
    Some(text.to_string())
}

/// `#[allow(dead_code)]`
fn allow_dead_code() -> Attribute {
    Attribute::Meta(Meta::List(word("allow"), vec![Nested::Path(word("dead_code"))]))
}

/// `#[debug_stub = "text"]`
fn stub(text: &str) -> Attribute {
    Attribute::Meta(Meta::NameValue(word("debug_stub"), Lit::Str(text.to_string())))
}

/// `#[debug_stub(key = "text", ...)]`
fn stub_keys(keys: &[(&str, &str)]) -> Attribute {
    let mut nested = Vec::new();
    for (key, text) in keys {
        nested.push(Nested::NameValue(word(key), Lit::Str(text.to_string())));
    }
    Attribute::Meta(Meta::List(word("debug_stub"), nested))
}

/// `#[debug_stub(ignore_generics)]`
fn ignore_generics() -> Attribute {
    Attribute::Meta(Meta::List(word("debug_stub"), vec![Nested::Path(word("ignore_generics"))]))
}

fn named(name: &str, attrs: Vec<Attribute>) -> NamedField {
    NamedField { name: name.to_string(), attrs }
}

fn unnamed(attrs: Vec<Attribute>) -> UnnamedField {
    UnnamedField { attrs }
}

fn type_param(name: &str) -> GenericParam {
    GenericParam { kind: ParamKind::Type, name: name.to_string() }
}

fn lifetime(name: &str) -> GenericParam {
    GenericParam { kind: ParamKind::Lifetime, name: name.to_string() }
}

fn describe(
    name: &str,
    attrs: Vec<Attribute>,
    generics: Vec<GenericParam>,
    fields: Fields,
) -> TypeDescription {
    TypeDescription { name: name.to_string(), attrs, generics, data: Data::Struct(fields) }
}

fn generate(description: &TypeDescription) -> Implementation {
    expand_derive_serialize(description).unwrap()
}

fn rendering<T: Debug>(value: &T) -> Rendering {
    Rendering { compact: format!("{:?}", value), expanded: format!("{:#?}", value) }
}

/// A value that can be represented and is neither optional nor a result.
fn shown<T: Debug>(value: &T) -> Value {
    Value { own: Some(rendering(value)), content: Content::Plain }
}

/// A value whose representation is the same text in both modes.
fn labelled(text: &str) -> Value {
    Value {
        own: Some(Rendering { compact: text.to_string(), expanded: text.to_string() }),
        content: Content::Plain,
    }
}

/// A value that cannot be represented.
fn opaque() -> Value {
    Value { own: None, content: Content::Plain }
}

/// An optional value whose type cannot be represented.
fn opaque_option<T>(value: &Option<T>) -> Value {
    Value { own: None, content: presence(value) }
}

/// An optional value whose type can be represented.
fn shown_option<T: Debug>(value: &Option<T>) -> Value {
    Value { own: Some(rendering(value)), content: presence(value) }
}

fn presence<T>(value: &Option<T>) -> Content {
    match value {
        Some(_) => Content::Present,
        None => Content::Absent,
    }
}

/// A result of which neither side can be represented.
fn opaque_result<T, E>(value: &Result<T, E>) -> Value {
    let content = match value {
        Ok(_) => Content::Success(None),
        Err(_) => Content::Failure(None),
    };
    Value { own: None, content }
}

/// A result of which only the failure can be represented.
fn result_with_shown_failure<T, E: Debug>(value: &Result<T, E>) -> Value {
    let content = match value {
        Ok(_) => Content::Success(None),
        Err(held) => Content::Failure(Some(rendering(held))),
    };
    Value { own: None, content }
}

/// A result of which only the success can be represented.
fn result_with_shown_success<T: Debug, E>(value: &Result<T, E>) -> Value {
    let content = match value {
        Ok(held) => Content::Success(Some(rendering(held))),
        Err(_) => Content::Failure(None),
    };
    Value { own: None, content }
}

/// A result of which both sides can be represented.
fn shown_result<T: Debug, E: Debug>(value: &Result<T, E>) -> Value {
    let content = match value {
        Ok(held) => Content::Success(Some(rendering(held))),
        Err(held) => Content::Failure(Some(rendering(held))),
    };
    Value { own: Some(rendering(value)), content }
}

/// A marker, which shows as its fixed label whatever it is a marker of.
fn marker<T>(_: PhantomData<T>) -> Value {
    labelled("PhantomData")
}

fn record_value(fields: Vec<(&str, Value)>) -> Instance {
    let mut slots = Vec::new();
    for (name, value) in fields {
        slots.push(Slot { name: word(name), value });
    }
    Instance { variant: None, slots }
}

fn tuple_value(fields: Vec<Value>) -> Instance {
    let mut slots = Vec::new();
    for value in fields {
        slots.push(Slot { name: None, value });
    }
    Instance { variant: None, slots }
}

fn compact(implementation: &Implementation, instance: &Instance) -> String {
    render(implementation, instance, false).unwrap()
}

fn expanded(implementation: &Implementation, instance: &Instance) -> String {
    render(implementation, instance, true).unwrap()
}

#[derive(Debug)]
struct StructWithDebug {
    number: u64,
}

#[derive(Debug)]
struct TraitImpl;

#[test]
fn test_struct_empty() {
    let generated = generate(&describe("TestStruct", vec![], vec![], Fields::Unit));
    let s = record_value(vec![]);

    assert_eq!(compact(&generated, &s), "TestStruct");
    assert_eq!(expanded(&generated, &s), "TestStruct");
}

#[derive(Debug)]
struct TestStruct;

#[test]
fn test_struct_compare_std_empty() {
    let generated = generate(&describe("TestStruct", vec![], vec![], Fields::Unit));
    let s = record_value(vec![]);

    assert_eq!(compact(&generated, &s), format!("{:?}", TestStruct));

    assert_eq!(expanded(&generated, &s), format!("{:#?}", TestStruct));
}

#[test]
fn test_struct() {
    let generated = generate(&describe(
        "TestStruct",
        vec![],
        vec![],
        Fields::Named(vec![
            named("value", vec![]),
            named("a", vec![]),
            named("b", vec![allow_dead_code(), stub("StructWithoutDebugReplaceValue")]),
        ]),
    ));

    let _ = StructWithoutDebug;
    let s = record_value(vec![
        ("value", shown(&true)),
        ("a", shown(&StructWithDebug { number: 42 })),
        ("b", opaque()),
    ]);

    assert_eq!(compact(&generated, &s), "TestStruct { value: true, a: StructWithDebug { number: 42 }, b: StructWithoutDebugReplaceValue }");
    assert_eq!(
        expanded(&generated, &s),
        r#"TestStruct {
    value: true,
    a: StructWithDebug {
        number: 42,
    },
    b: StructWithoutDebugReplaceValue,
}"#
    );
}

#[test]
fn test_struct_dyn_fields() {
    let generated = generate(&describe(
        "Struct",
        vec![],
        vec![lifetime("'a")],
        Fields::Named(vec![
            named("a", vec![]),
            named("b", vec![allow_dead_code(), stub("_")]),
            named("c", vec![]),
            named("d", vec![allow_dead_code(), stub("_")]),
        ]),
    ));

    let trait_impl = TraitImpl;
    assert_eq!(
        compact(
            &generated,
            &record_value(vec![
                ("a", shown(&Box::new(TraitImpl))),
                ("b", opaque()),
                ("c", shown(&&trait_impl)),
                ("d", opaque()),
            ]),
        ),
        "Struct { a: TraitImpl, b: _, c: TraitImpl, d: _ }",
    );
}

#[derive(Debug)]
struct InternalStruct {
    a: bool,
}

#[derive(Debug)]
struct StdStruct {
    a: InternalStruct,
    b: u64,
}

#[test]
fn test_struct_compare_std() {
    let generated = generate(&describe(
        "StdStruct",
        vec![],
        vec![],
        Fields::Named(vec![named("a", vec![]), named("b", vec![])]),
    ));

    let struct_a = record_value(vec![("a", shown(&InternalStruct { a: true })), ("b", shown(&42u64))]);

    let struct_b = StdStruct { a: InternalStruct { a: true }, b: 42 };

    assert_eq!(compact(&generated, &struct_a), format!("{:?}", struct_b));

    assert_eq!(expanded(&generated, &struct_a), format!("{:#?}", struct_b));
}

#[test]
fn test_struct_with_type_parameters() {
    let generated = generate(&describe(
        "TestStruct",
        vec![],
        vec![type_param("T")],
        Fields::Named(vec![named("t", vec![])]),
    ));
    assert_eq!(generated.requirements, vec![true]);

    let s = record_value(vec![("t", shown(&42))]);

    assert_eq!(compact(&generated, &s), "TestStruct { t: 42 }");

    assert_eq!(
        expanded(&generated, &s),
        r#"TestStruct {
    t: 42,
}"#
    );
}

#[test]
fn test_struct_with_type_where_clause() {
    let generated = generate(&describe(
        "TestStruct",
        vec![],
        vec![type_param("T")],
        Fields::Named(vec![named("t", vec![])]),
    ));
    assert_eq!(generated.requirements, vec![true]);

    let s = record_value(vec![("t", shown(&42))]);

    assert_eq!(compact(&generated, &s), "TestStruct { t: 42 }");

    assert_eq!(
        expanded(&generated, &s),
        r#"TestStruct {
    t: 42,
}"#
    );
}

#[test]
fn test_struct_optional() {
    let generated = generate(&describe(
        "TestStruct",
        vec![],
        vec![],
        Fields::Named(vec![named(
            "s",
            vec![stub_keys(&[("some", "StructWithoutDebugReplaceValue")])],
        )]),
    ));

    let absent = record_value(vec![("s", opaque_option::<StructWithoutDebug>(&None))]);
    let present = record_value(vec![("s", opaque_option(&Some(StructWithoutDebug)))]);

    assert_eq!(compact(&generated, &absent), "TestStruct { s: None }");

    assert_eq!(
        expanded(&generated, &absent),
        r#"TestStruct {
    s: None,
}"#
    );

    assert_eq!(
        compact(&generated, &present),
        "TestStruct { s: Some(StructWithoutDebugReplaceValue) }"
    );

    assert_eq!(
        expanded(&generated, &present),
        r#"TestStruct {
    s: Some(
        StructWithoutDebugReplaceValue,
    ),
}"#
    );
}

#[test]
fn test_struct_result_both() {
    let generated = generate(&describe(
        "TestStruct",
        vec![],
        vec![],
        Fields::Named(vec![named(
            "s",
            vec![stub_keys(&[
                ("ok", "StructWithoutDebugReplaceValue"),
                ("err", "ErrorWithoutDebugReplaceValue"),
            ])],
        )]),
    ));

    let failure = record_value(vec![(
        "s",
        opaque_result::<StructWithoutDebug, StructWithoutDebug>(&Err(StructWithoutDebug)),
    )]);
    let success = record_value(vec![(
        "s",
        opaque_result::<StructWithoutDebug, StructWithoutDebug>(&Ok(StructWithoutDebug)),
    )]);

    assert_eq!(
        compact(&generated, &failure),
        "TestStruct { s: Err(ErrorWithoutDebugReplaceValue) }"
    );

    assert_eq!(
        expanded(&generated, &failure),
        r#"TestStruct {
    s: Err(
        ErrorWithoutDebugReplaceValue,
    ),
}"#
    );

    assert_eq!(
        compact(&generated, &success),
        "TestStruct { s: Ok(StructWithoutDebugReplaceValue) }"
    );

    assert_eq!(
        expanded(&generated, &success),
        r#"TestStruct {
    s: Ok(
        StructWithoutDebugReplaceValue,
    ),
}"#
    );
}

#[test]
fn test_struct_result_ok() {
    let generated = generate(&describe(
        "TestStruct",
        vec![],
        vec![],
        Fields::Named(vec![named(
            "s",
            vec![stub_keys(&[("ok", "StructWithoutDebugReplaceValue")])],
        )]),
    ));

    let s = record_value(vec![(
        "s",
        result_with_shown_failure::<StructWithoutDebug, ()>(&Ok(StructWithoutDebug)),
    )]);

    assert_eq!(compact(&generated, &s), "TestStruct { s: Ok(StructWithoutDebugReplaceValue) }");

    assert_eq!(
        expanded(&generated, &s),
        r#"TestStruct {
    s: Ok(
        StructWithoutDebugReplaceValue,
    ),
}"#
    );
}

struct ErrorWithoutDebug;

#[test]
fn test_struct_result_err() {
    let generated = generate(&describe(
        "TestStruct",
        vec![],
        vec![],
        Fields::Named(vec![named(
            "s",
            vec![stub_keys(&[("err", "ErrorWithoutDebugReplaceValue")])],
        )]),
    ));

    let s = record_value(vec![(
        "s",
        result_with_shown_success::<(), ErrorWithoutDebug>(&Err(ErrorWithoutDebug)),
    )]);

    assert_eq!(compact(&generated, &s), "TestStruct { s: Err(ErrorWithoutDebugReplaceValue) }");

    assert_eq!(
        expanded(&generated, &s),
        r#"TestStruct {
    s: Err(
        ErrorWithoutDebugReplaceValue,
    ),
}"#
    );
}

#[derive(Debug)]
struct Internal;

#[derive(Debug)]
struct StdOptional {
    a: Option<String>,
    b: Option<u64>,
    c: Option<Internal>,
}

#[test]
fn test_struct_optional_compare_std() {
    let generated = generate(&describe(
        "StdOptional",
        vec![],
        vec![],
        Fields::Named(vec![
            named("a", vec![]),
            named("b", vec![]),
            named("c", vec![stub_keys(&[("some", "Internal")])]),
        ]),
    ));

    let struct_a = record_value(vec![
        ("a", shown_option(&Some("Foo".to_string()))),
        ("b", shown_option::<u64>(&None)),
        ("c", opaque_option(&Some(StructWithoutDebug))),
    ]);

    let struct_b = StdOptional { a: Some("Foo".to_string()), b: None, c: Some(Internal) };

    assert_eq!(compact(&generated, &struct_a), format!("{:?}", struct_b));

    assert_eq!(expanded(&generated, &struct_a), format!("{:#?}", struct_b));
}

#[derive(Debug)]
struct StdResult {
    a: Result<String, bool>,
    b: Result<u64, ()>,
    c: Result<Internal, ()>,
    d: Result<(), Internal>,
}

#[test]
fn test_struct_result_compare_std() {
    let generated = generate(&describe(
        "StdResult",
        vec![],
        vec![],
        Fields::Named(vec![
            named("a", vec![]),
            named("b", vec![]),
            named("c", vec![stub_keys(&[("ok", "Internal")])]),
            named("d", vec![stub_keys(&[("err", "Internal")])]),
        ]),
    ));

    let struct_a = record_value(vec![
        ("a", shown_result::<String, bool>(&Ok("Foo".to_string()))),
        ("b", shown_result::<u64, ()>(&Err(()))),
        ("c", result_with_shown_failure::<StructWithoutDebug, ()>(&Ok(StructWithoutDebug))),
        ("d", result_with_shown_success::<(), StructWithoutDebug>(&Err(StructWithoutDebug))),
    ]);

    let struct_b = StdResult { a: Ok("Foo".to_string()), b: Err(()), c: Ok(Internal), d: Err(Internal) };

    assert_eq!(compact(&generated, &struct_a), format!("{:?}", struct_b));

    assert_eq!(expanded(&generated, &struct_a), format!("{:#?}", struct_b));
}

#[test]
fn test_struct_tuple() {
    let a = generate(&describe("A", vec![], vec![], Fields::Unnamed(vec![])));

    let b = generate(&describe(
        "B",
        vec![],
        vec![],
        Fields::Unnamed(vec![unnamed(vec![]), unnamed(vec![]), unnamed(vec![stub("replacement")])]),
    ));

    let c = generate(&describe(
        "C",
        vec![],
        vec![],
        Fields::Unnamed(vec![
            unnamed(vec![stub_keys(&[("some", "replacement")])]),
            unnamed(vec![stub_keys(&[("ok", "MyOk"), ("err", "MyErr")])]),
        ]),
    ));

    assert_eq!(compact(&a, &tuple_value(vec![])), "A");
    assert_eq!(
        compact(&b, &tuple_value(vec![shown(&()), shown(&5u32), opaque()])),
        "B((), 5, replacement)"
    );
    assert_eq!(
        compact(
            &c,
            &tuple_value(vec![
                opaque_option(&Some(StructWithoutDebug)),
                opaque_result::<StructWithoutDebug, StructWithoutDebug>(&Err(StructWithoutDebug)),
            ]),
        ),
        "C(Some(replacement), Err(MyErr))"
    );
    assert_eq!(
        compact(
            &c,
            &tuple_value(vec![
                opaque_option::<StructWithoutDebug>(&None),
                opaque_result::<StructWithoutDebug, StructWithoutDebug>(&Ok(StructWithoutDebug)),
            ]),
        ),
        "C(None, Ok(MyOk))"
    );
}

#[test]
fn test_struct_generic() {
    let a = generate(&describe(
        "A",
        vec![],
        vec![type_param("T")],
        Fields::Unnamed(vec![unnamed(vec![])]),
    ));
    assert_eq!(a.requirements, vec![true]);

    let b = generate(&describe(
        "B",
        vec![ignore_generics()],
        vec![type_param("T")],
        Fields::Unnamed(vec![unnamed(vec![])]),
    ));
    assert_eq!(b.requirements, vec![false]);

    assert_eq!(compact(&a, &tuple_value(vec![shown(&5)])), "A(5)");
    assert_eq!(
        compact(&b, &tuple_value(vec![marker(PhantomData::<StructWithoutDebug>)])),
        "B(PhantomData)"
    );
}
