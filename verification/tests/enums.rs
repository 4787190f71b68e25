#![allow(dead_code)]

use std::fmt::Debug;
use std::marker::PhantomData;

use debug_stub_derive::annotation::{Attribute, Lit, Meta, Nested};
use debug_stub_derive::emit::expand_derive_serialize;
use debug_stub_derive::plan::Implementation;
use debug_stub_derive::render::render;
use debug_stub_derive::shape::{
    Data, Fields, GenericParam, NamedField, ParamKind, TypeDescription, UnnamedField,
    VariantDescription,
};
use debug_stub_derive::value::{Content, Instance, Rendering, Slot, Value};

struct StructWithoutDebug;

fn word(text: &str) -> Option<String> {
    Some(text.to_string())
}

/// `#[allow(dead_code)]`
fn allow_dead_code() -> Attribute {
    Attribute::Meta(Meta::List(word("allow"), vec![Nested::Path(word("dead_code"))]))
}

/// `#[debug_stub = "text"]`
fn stub(text: &str) -> Attribute {
    Attribute::Meta(Meta::NameValue(word("debug_stub"), Lit::Str(text.to_string())))
}

/// `#[debug_stub(key = "text", ...)]`
fn stub_keys(keys: &[(&str, &str)]) -> Attribute {
    let mut nested = Vec::new();
    for (key, text) in keys {
        nested.push(Nested::NameValue(word(key), Lit::Str(text.to_string())));
    }
    Attribute::Meta(Meta::List(word("debug_stub"), nested))
}

/// `#[debug_stub(ignore_generics)]`
fn ignore_generics() -> Attribute {
    Attribute::Meta(Meta::List(word("debug_stub"), vec![Nested::Path(word("ignore_generics"))]))
}

fn named(name: &str, attrs: Vec<Attribute>) -> NamedField {
    NamedField { name: name.to_string(), attrs }
}

fn unnamed(attrs: Vec<Attribute>) -> UnnamedField {
    UnnamedField { attrs }
}

fn type_param(name: &str) -> GenericParam {
    GenericParam { kind: ParamKind::Type, name: name.to_string() }
}

fn lifetime(name: &str) -> GenericParam {
    GenericParam { kind: ParamKind::Lifetime, name: name.to_string() }
}

fn describe(
    name: &str,
    attrs: Vec<Attribute>,
    generics: Vec<GenericParam>,
    fields: Fields,
) -> TypeDescription {
    TypeDescription { name: name.to_string(), attrs, generics, data: Data::Struct(fields) }
}

fn variant(name: &str, fields: Fields) -> VariantDescription {
    VariantDescription { name: name.to_string(), fields }
}

fn describe_enum(
    name: &str,
    generics: Vec<GenericParam>,
    variants: Vec<VariantDescription>,
) -> TypeDescription {
    TypeDescription { name: name.to_string(), attrs: vec![], generics, data: Data::Enum(variants) }
}

fn generate(description: &TypeDescription) -> Implementation {
    expand_derive_serialize(description).unwrap()
}

fn rendering<T: Debug>(value: &T) -> Rendering {
    Rendering { compact: format!("{:?}", value), expanded: format!("{:#?}", value) }
}

/// A value that can be represented and is neither optional nor a result.
fn shown<T: Debug>(value: &T) -> Value {
    Value { own: Some(rendering(value)), content: Content::Plain }
}

/// A value whose representation is the same text in both modes.
fn labelled(text: &str) -> Value {
    Value {
        own: Some(Rendering { compact: text.to_string(), expanded: text.to_string() }),
        content: Content::Plain,
    }
}

/// A value that cannot be represented.
fn opaque() -> Value {
    Value { own: None, content: Content::Plain }
}

/// An optional value whose type cannot be represented.
fn opaque_option<T>(value: &Option<T>) -> Value {
    Value { own: None, content: presence(value) }
}

/// An optional value whose type can be represented.
fn shown_option<T: Debug>(value: &Option<T>) -> Value {
    Value { own: Some(rendering(value)), content: presence(value) }
}

fn presence<T>(value: &Option<T>) -> Content {
    match value {
        Some(_) => Content::Present,
        None => Content::Absent,
    }
}

/// A result of which neither side can be represented.
fn opaque_result<T, E>(value: &Result<T, E>) -> Value {
    let content = match value {
        Ok(_) => Content::Success(None),
        Err(_) => Content::Failure(None),
    };
    Value { own: None, content }
}

/// A result of which only the failure can be represented.
fn result_with_shown_failure<T, E: Debug>(value: &Result<T, E>) -> Value {
    let content = match value {
        Ok(_) => Content::Success(None),
        Err(held) => Content::Failure(Some(rendering(held))),
    };
    Value { own: None, content }
}

/// A result of which only the success can be represented.
fn result_with_shown_success<T: Debug, E>(value: &Result<T, E>) -> Value {
    let content = match value {
        Ok(held) => Content::Success(Some(rendering(held))),
        Err(_) => Content::Failure(None),
    };
    Value { own: None, content }
}

/// A result of which both sides can be represented.
fn shown_result<T: Debug, E: Debug>(value: &Result<T, E>) -> Value {
    let content = match value {
        Ok(held) => Content::Success(Some(rendering(held))),
        Err(held) => Content::Failure(Some(rendering(held))),
    };
    Value { own: Some(rendering(value)), content }
}

/// A marker, which shows as its fixed label whatever it is a marker of.
fn marker<T>(_: PhantomData<T>) -> Value {
    labelled("PhantomData")
}

fn record_variant(variant: &str, fields: Vec<(&str, Value)>) -> Instance {
    let mut slots = Vec::new();
    for (name, value) in fields {
        slots.push(Slot { name: word(name), value });
    }
    Instance { variant: word(variant), slots }
}

fn tuple_variant(variant: &str, fields: Vec<Value>) -> Instance {
    let mut slots = Vec::new();
    for value in fields {
        slots.push(Slot { name: None, value });
    }
    Instance { variant: word(variant), slots }
}

fn record_value(fields: Vec<(&str, Value)>) -> Instance {
    let mut slots = Vec::new();
    for (name, value) in fields {
        slots.push(Slot { name: word(name), value });
    }
    Instance { variant: None, slots }
}

fn tuple_value(fields: Vec<Value>) -> Instance {
    let mut slots = Vec::new();
    for value in fields {
        slots.push(Slot { name: None, value });
    }
    Instance { variant: None, slots }
}

fn compact(implementation: &Implementation, instance: &Instance) -> String {
    render(implementation, instance, false).unwrap()
}

fn expanded(implementation: &Implementation, instance: &Instance) -> String {
    render(implementation, instance, true).unwrap()
}

#[derive(Debug)]
struct StructWithDebug {
    number: u64,
}

#[derive(Debug)]
struct TraitImpl;

#[test]
fn test_enum_empty() {
    let generated = generate(&describe_enum(
        "TestEnum",
        vec![],
        vec![variant("VariantC", Fields::Named(vec![])), variant("VariantD", Fields::Unit)],
    ));

    let c = record_variant("VariantC", vec![]);
    let d = tuple_variant("VariantD", vec![]);

    assert_eq!(compact(&generated, &c), "VariantC");

    assert_eq!(compact(&generated, &c), "VariantC");

    assert_eq!(expanded(&generated, &d), "VariantD");

    assert_eq!(expanded(&generated, &d), "VariantD");
}

#[derive(Debug)]
enum StdEmpty {
    VariantA,
    VariantB {},
}

#[test]
fn test_enum_compare_std_empty() {
    let generated = generate(&describe_enum(
        "StdEmpty",
        vec![],
        vec![variant("VariantA", Fields::Unit), variant("VariantB", Fields::Named(vec![]))],
    ));

    let a = tuple_variant("VariantA", vec![]);
    let b = record_variant("VariantB", vec![]);

    assert_eq!(compact(&generated, &a), format!("{:?}", StdEmpty::VariantA));

    assert_eq!(expanded(&generated, &a), format!("{:#?}", StdEmpty::VariantA));

    assert_eq!(compact(&generated, &b), format!("{:?}", StdEmpty::VariantB {}));

    assert_eq!(expanded(&generated, &b), format!("{:#?}", StdEmpty::VariantB {}));
}

#[test]
fn test_enum() {
    let generated = generate(&describe_enum(
        "TestEnum",
        vec![],
        vec![
            variant(
                "VariantA",
                Fields::Unnamed(vec![
                    unnamed(vec![]),
                    unnamed(vec![stub("StructWithoutDebugReplaceValue")]),
                    unnamed(vec![]),
                ]),
            ),
            variant(
                "VariantB",
                Fields::Named(vec![
                    named("a", vec![]),
                    named("b", vec![allow_dead_code(), stub("StructWithoutDebugReplaceValue")]),
                    named("c", vec![]),
                ]),
            ),
        ],
    ));

    let _ = StructWithoutDebug;
    assert_eq!(
        compact(
            &generated,
            &tuple_variant(
                "VariantA",
                vec![shown(&StructWithDebug { number: 42 }), opaque(), shown(&true)],
            ),
        ),
        "VariantA(StructWithDebug { number: 42 }, StructWithoutDebugReplaceValue, true)"
    );

    assert_eq!(
        compact(
            &generated,
            &record_variant(
                "VariantB",
                vec![
                    ("a", shown(&StructWithDebug { number: 42 })),
                    ("b", opaque()),
                    ("c", shown(&true)),
                ],
            ),
        ),
        "VariantB { a: StructWithDebug { number: 42 }, b: StructWithoutDebugReplaceValue, c: true }"
    );
}

#[test]
fn test_enum_dyn_fields() {
    let generated = generate(&describe_enum(
        "Enum",
        vec![lifetime("'a")],
        vec![
            variant(
                "A",
                Fields::Unnamed(vec![
                    unnamed(vec![]),
                    unnamed(vec![allow_dead_code(), stub("_")]),
                    unnamed(vec![]),
                    unnamed(vec![allow_dead_code(), stub("_")]),
                ]),
            ),
            variant(
                "B",
                Fields::Named(vec![
                    named("a", vec![]),
                    named("b", vec![allow_dead_code(), stub("_")]),
                    named("c", vec![]),
                    named("d", vec![allow_dead_code(), stub("_")]),
                ]),
            ),
        ],
    ));

    let trait_impl = TraitImpl;

    assert_eq!(
        compact(
            &generated,
            &tuple_variant(
                "A",
                vec![shown(&Box::new(TraitImpl)), opaque(), shown(&&trait_impl), opaque()],
            ),
        ),
        "A(TraitImpl, _, TraitImpl, _)",
    );

    assert_eq!(
        compact(
            &generated,
            &record_variant(
                "B",
                vec![
                    ("a", shown(&Box::new(TraitImpl))),
                    ("b", opaque()),
                    ("c", shown(&&trait_impl)),
                    ("d", opaque()),
                ],
            ),
        ),
        "B { a: TraitImpl, b: _, c: TraitImpl, d: _ }",
    );
}

#[derive(Debug)]
struct InternalStruct {
    a: bool,
}

#[derive(Debug)]
enum StdEnum {
    VariantA(InternalStruct, bool, u64),
    VariantB { a: InternalStruct, b: bool, c: u64 },
}

#[test]
fn test_enum_compare_std() {
    let generated = generate(&describe_enum(
        "StdEnum",
        vec![],
        vec![
            variant(
                "VariantA",
                Fields::Unnamed(vec![unnamed(vec![]), unnamed(vec![]), unnamed(vec![])]),
            ),
            variant(
                "VariantB",
                Fields::Named(vec![named("a", vec![]), named("b", vec![]), named("c", vec![])]),
            ),
        ],
    ));

    let enum_a_a = tuple_variant(
        "VariantA",
        vec![shown(&InternalStruct { a: true }), shown(&false), shown(&42u64)],
    );

    let enum_a_b = record_variant(
        "VariantB",
        vec![("a", shown(&InternalStruct { a: true })), ("b", shown(&false)), ("c", shown(&42u64))],
    );

    let enum_b_a = StdEnum::VariantA(InternalStruct { a: true }, false, 42);

    let enum_b_b = StdEnum::VariantB { a: InternalStruct { a: true }, b: false, c: 42 };

    assert_eq!(compact(&generated, &enum_a_a), format!("{:?}", enum_b_a));

    assert_eq!(expanded(&generated, &enum_a_a), format!("{:#?}", enum_b_a));

    assert_eq!(compact(&generated, &enum_a_b), format!("{:?}", enum_b_b));

    assert_eq!(expanded(&generated, &enum_a_b), format!("{:#?}", enum_b_b));
}

#[test]
fn test_enum_with_type_parameters() {
    let generated = generate(&describe_enum(
        "TestEnum",
        vec![type_param("T")],
        vec![variant("VariantA", Fields::Unnamed(vec![unnamed(vec![])]))],
    ));
    assert_eq!(generated.requirements, vec![true]);

    let a = tuple_variant("VariantA", vec![shown(&true)]);

    assert_eq!(compact(&generated, &a), "VariantA(true)");

    assert_eq!(
        expanded(&generated, &a),
        r#"VariantA(
    true,
)"#
    );
}

#[test]
fn test_enum_with_type_where_clause() {
    let generated = generate(&describe_enum(
        "TestEnum",
        vec![type_param("T")],
        vec![variant("VariantA", Fields::Unnamed(vec![unnamed(vec![])]))],
    ));
    assert_eq!(generated.requirements, vec![true]);

    let a = tuple_variant("VariantA", vec![shown(&true)]);

    assert_eq!(compact(&generated, &a), "VariantA(true)");

    assert_eq!(
        expanded(&generated, &a),
        r#"VariantA(
    true,
)"#
    );
}

#[test]
fn test_enum_optional() {
    let generated = generate(&describe_enum(
        "TestEnum",
        vec![],
        vec![variant(
            "VariantA",
            Fields::Unnamed(vec![unnamed(vec![stub_keys(&[(
                "some",
                "StructWithoutDebugReplaceValue",
            )])])]),
        )],
    ));

    let absent = tuple_variant("VariantA", vec![opaque_option::<StructWithoutDebug>(&None)]);
    let present = tuple_variant("VariantA", vec![opaque_option(&Some(StructWithoutDebug))]);

    assert_eq!(compact(&generated, &absent), "VariantA(None)");

    assert_eq!(
        expanded(&generated, &absent),
        r#"VariantA(
    None,
)"#
    );

    assert_eq!(compact(&generated, &present), "VariantA(Some(StructWithoutDebugReplaceValue))");

    assert_eq!(
        expanded(&generated, &present),
        r#"VariantA(
    Some(
        StructWithoutDebugReplaceValue,
    ),
)"#
    );
}

#[test]
fn test_enum_result_both() {
    let generated = generate(&describe_enum(
        "TestEnum",
        vec![],
        vec![variant(
            "VariantA",
            Fields::Unnamed(vec![unnamed(vec![stub_keys(&[
                ("ok", "StructWithoutDebugReplaceValue"),
                ("err", "ErrorWithoutDebugReplaceValue"),
            ])])]),
        )],
    ));

    let failure = tuple_variant(
        "VariantA",
        vec![opaque_result::<StructWithoutDebug, StructWithoutDebug>(&Err(StructWithoutDebug))],
    );
    let success = tuple_variant(
        "VariantA",
        vec![opaque_result::<StructWithoutDebug, StructWithoutDebug>(&Ok(StructWithoutDebug))],
    );

    assert_eq!(compact(&generated, &failure), "VariantA(Err(ErrorWithoutDebugReplaceValue))");

    assert_eq!(
        expanded(&generated, &failure),
        r#"VariantA(
    Err(
        ErrorWithoutDebugReplaceValue,
    ),
)"#
    );

    assert_eq!(compact(&generated, &success), "VariantA(Ok(StructWithoutDebugReplaceValue))");

    assert_eq!(
        expanded(&generated, &success),
        r#"VariantA(
    Ok(
        StructWithoutDebugReplaceValue,
    ),
)"#
    );
}

#[test]
fn test_enum_result_ok() {
    let generated = generate(&describe_enum(
        "TestEnum",
        vec![],
        vec![variant(
            "VariantA",
            Fields::Unnamed(vec![unnamed(vec![stub_keys(&[(
                "ok",
                "StructWithoutDebugReplaceValue",
            )])])]),
        )],
    ));

    let success = tuple_variant(
        "VariantA",
        vec![result_with_shown_failure::<StructWithoutDebug, String>(&Ok(StructWithoutDebug))],
    );
    let failure = tuple_variant(
        "VariantA",
        vec![result_with_shown_failure::<StructWithoutDebug, String>(&Err("Foo".to_string()))],
    );

    assert_eq!(compact(&generated, &success), "VariantA(Ok(StructWithoutDebugReplaceValue))");

    assert_eq!(
        expanded(&generated, &success),
        r#"VariantA(
    Ok(
        StructWithoutDebugReplaceValue,
    ),
)"#
    );

    assert_eq!(compact(&generated, &failure), "VariantA(Err(\"Foo\"))");

    assert_eq!(
        expanded(&generated, &failure),
        r#"VariantA(
    Err(
        "Foo",
    ),
)"#
    );
}

struct ErrorWithoutDebug;

#[test]
fn test_enum_result_err() {
    let generated = generate(&describe_enum(
        "TestEnum",
        vec![],
        vec![variant(
            "VariantA",
            Fields::Unnamed(vec![unnamed(vec![stub_keys(&[(
                "err",
                "ErrorWithoutDebugReplaceValue",
            )])])]),
        )],
    ));

    let failure = tuple_variant(
        "VariantA",
        vec![result_with_shown_success::<String, ErrorWithoutDebug>(&Err(ErrorWithoutDebug))],
    );
    let success = tuple_variant(
        "VariantA",
        vec![result_with_shown_success::<String, ErrorWithoutDebug>(&Ok("Foo".to_string()))],
    );

    assert_eq!(compact(&generated, &failure), "VariantA(Err(ErrorWithoutDebugReplaceValue))");

    assert_eq!(
        expanded(&generated, &failure),
        r#"VariantA(
    Err(
        ErrorWithoutDebugReplaceValue,
    ),
)"#
    );

    assert_eq!(compact(&generated, &success), "VariantA(Ok(\"Foo\"))");

    assert_eq!(
        expanded(&generated, &success),
        r#"VariantA(
    Ok(
        "Foo",
    ),
)"#
    );
}

#[derive(Debug)]
enum StdOptionalEnum {
    VariantA(Option<String>, Option<String>),
    VariantB { a: Option<String>, b: Option<String> },
}

#[test]
fn test_enum_optional_compare_std() {
    let generated = generate(&describe_enum(
        "StdOptionalEnum",
        vec![],
        vec![
            variant("VariantA", Fields::Unnamed(vec![unnamed(vec![]), unnamed(vec![])])),
            variant("VariantB", Fields::Named(vec![named("a", vec![]), named("b", vec![])])),
        ],
    ));

    let enum_a_a = tuple_variant(
        "VariantA",
        vec![shown_option::<String>(&None), shown_option(&Some("Foo".to_string()))],
    );
    let enum_a_b = record_variant(
        "VariantB",
        vec![("a", shown_option(&Some("Foo".to_string()))), ("b", shown_option::<String>(&None))],
    );

    let enum_b_a = StdOptionalEnum::VariantA(None, Some("Foo".to_string()));
    let enum_b_b = StdOptionalEnum::VariantB { a: Some("Foo".to_string()), b: None };

    assert_eq!(compact(&generated, &enum_a_a), format!("{:?}", enum_b_a));

    assert_eq!(expanded(&generated, &enum_a_a), format!("{:#?}", enum_b_a));

    assert_eq!(compact(&generated, &enum_a_b), format!("{:?}", enum_b_b));

    assert_eq!(expanded(&generated, &enum_a_b), format!("{:#?}", enum_b_b));
}

#[derive(Debug)]
enum StdResultEnum {
    VariantA(Result<String, bool>, Result<String, bool>),
    VariantB { a: Result<String, bool>, b: Result<String, bool> },
}

#[test]
fn test_enum_result_compare_std() {
    let generated = generate(&describe_enum(
        "StdResultEnum",
        vec![],
        vec![
            variant("VariantA", Fields::Unnamed(vec![unnamed(vec![]), unnamed(vec![])])),
            variant("VariantB", Fields::Named(vec![named("a", vec![]), named("b", vec![])])),
        ],
    ));

    let enum_a_a = tuple_variant(
        "VariantA",
        vec![
            shown_result::<String, bool>(&Err(true)),
            shown_result::<String, bool>(&Ok("Foo".to_string())),
        ],
    );
    let enum_a_b = record_variant(
        "VariantB",
        vec![
            ("a", shown_result::<String, bool>(&Ok("Foo".to_string()))),
            ("b", shown_result::<String, bool>(&Err(true))),
        ],
    );

    let enum_b_a = StdResultEnum::VariantA(Err(true), Ok("Foo".to_string()));
    let enum_b_b = StdResultEnum::VariantB { a: Ok("Foo".to_string()), b: Err(true) };

    assert_eq!(compact(&generated, &enum_a_a), format!("{:?}", enum_b_a));

    assert_eq!(expanded(&generated, &enum_a_a), format!("{:#?}", enum_b_a));

    assert_eq!(compact(&generated, &enum_a_b), format!("{:?}", enum_b_b));

    assert_eq!(expanded(&generated, &enum_a_b), format!("{:#?}", enum_b_b));
}

#[test]
fn test_enum_generic() {
    let generated = generate(&describe_enum(
        "Enum",
        vec![type_param("T")],
        vec![variant("A", Fields::Unnamed(vec![unnamed(vec![])]))],
    ));
    assert_eq!(generated.requirements, vec![true]);

    let b = generate(&describe(
        "B",
        vec![ignore_generics()],
        vec![type_param("T")],
        Fields::Unnamed(vec![unnamed(vec![])]),
    ));
    assert_eq!(b.requirements, vec![false]);

    assert_eq!(compact(&generated, &tuple_variant("A", vec![shown(&5)])), "A(5)");
    assert_eq!(
        compact(&b, &tuple_value(vec![marker(PhantomData::<StructWithoutDebug>)])),
        "B(PhantomData)"
    );
}
