//! From a field's or a type's annotations to the override that they declare.

use vstd::prelude::*;

use crate::annotation::{Attribute, AttributeModel, Lit, LitModel, Meta, MetaModel, Nested,
    NestedModel};
use crate::error::{outcome, ConfigurationError, ErrorKind, Location, Site};
use crate::text::{copy_text, is_word, same_text};

verus! {

/// The replacement texts of a field that holds a success or a failure.
#[derive(Debug, Clone, PartialEq, Eq)]
pub enum ResultTexts {
    /// A text for the success and one for the failure.
    Both(String, String),
    /// A text for the success; a failure shows itself.
    OkOnly(String),
    /// A text for the failure; a success shows itself.
    ErrOnly(String),
}

/// [`ResultTexts`] as a mathematical value, with its texts as sequences of characters.
pub enum ResultTextsModel {
    Both(Seq<char>, Seq<char>),
    OkOnly(Seq<char>),
    ErrOnly(Seq<char>),
}

impl DeepView for ResultTexts {
    type V = ResultTextsModel;

    open spec fn deep_view(&self) -> ResultTextsModel {
        match self {
            ResultTexts::Both(ok, err) => ResultTextsModel::Both(ok@, err@),
            ResultTexts::OkOnly(ok) => ResultTextsModel::OkOnly(ok@),
            ResultTexts::ErrOnly(err) => ResultTextsModel::ErrOnly(err@),
        }
    }
}

/// How a field contributes to the representation of its type.
#[derive(Debug, Clone, PartialEq, Eq)]
pub enum OverrideSpec {
    /// With its own representation.
    Own,
    /// With a fixed text, whatever the field holds.
    Literal(String),
    /// The field is optional: a present value shows as the text, wrapped;
    /// an absent one as `None`.
    OptionalWrap(String),
    /// The field holds a success or a failure.
    ResultWrap(ResultTexts),
}

/// [`OverrideSpec`] as a mathematical value, with its texts as sequences of characters.
pub enum OverrideSpecModel {
    Own,
    Literal(Seq<char>),
    OptionalWrap(Seq<char>),
    ResultWrap(ResultTextsModel),
}

impl DeepView for OverrideSpec {
    type V = OverrideSpecModel;

    open spec fn deep_view(&self) -> OverrideSpecModel {
        match self {
            OverrideSpec::Own => OverrideSpecModel::Own,
            OverrideSpec::Literal(text) => OverrideSpecModel::Literal(text@),
            OverrideSpec::OptionalWrap(text) => OverrideSpecModel::OptionalWrap(text@),
            OverrideSpec::ResultWrap(texts) => OverrideSpecModel::ResultWrap(texts.deep_view()),
        }
    }
}

/// The text that the entries assign to `key`: that of the last entry which
/// assigns a string to it.
pub open spec fn keyed_value(nested: Seq<NestedModel>, key: Seq<char>) -> Option<Seq<char>>
    decreases nested.len(),
{
    if nested.len() == 0 {
        None
    } else {
        match nested.last().assigned(key) {
            Some(text) => Some(text),
            None => keyed_value(nested.drop_last(), key),
        }
    }
}

/// The override that a list declares: `some` alone, `ok` alone, `err` alone,
/// or `ok` together with `err`. Any other combination declares none.
pub open spec fn keyed_override(
    ok: Option<Seq<char>>,
    err: Option<Seq<char>>,
    some: Option<Seq<char>>,
) -> Option<OverrideSpecModel> {
    match (ok, err, some) {
        (None, None, Some(some)) => Some(OverrideSpecModel::OptionalWrap(some)),
        (Some(ok), Some(err), None) => Some(
            OverrideSpecModel::ResultWrap(ResultTextsModel::Both(ok, err)),
        ),
        (Some(ok), None, None) => Some(OverrideSpecModel::ResultWrap(ResultTextsModel::OkOnly(ok))),
        (None, Some(err), None) => Some(
            OverrideSpecModel::ResultWrap(ResultTextsModel::ErrOnly(err)),
        ),
        _ => None,
    }
}

/// What one recognized annotation on a field declares.
pub open spec fn meta_override(meta: MetaModel, location: Location) -> Result<
    OverrideSpecModel,
    ConfigurationError,
> {
    match meta {
        MetaModel::Path(_) => Err(
            ConfigurationError { kind: ErrorKind::ExpectedListOrNameValue, location },
        ),
        MetaModel::List(_, nested) => match keyed_override(
            keyed_value(nested, "ok"@),
            keyed_value(nested, "err"@),
            keyed_value(nested, "some"@),
        ) {
            Some(declared) => Ok(declared),
            None => Err(ConfigurationError { kind: ErrorKind::ExpectedKeyedValues, location }),
        },
        MetaModel::NameValue(_, LitModel::Str(text)) => Ok(OverrideSpecModel::Literal(text)),
        MetaModel::NameValue(_, LitModel::Other) => Err(
            ConfigurationError { kind: ErrorKind::ExpectedStringLiteral, location },
        ),
    }
}

/// The position of the first recognized annotation at or after `from`.
pub open spec fn first_recognized(attrs: Seq<AttributeModel>, from: int) -> Option<int>
    decreases attrs.len() - from,
{
    if from < 0 || from >= attrs.len() {
        None
    } else if attrs[from].recognized() {
        Some(from)
    } else {
        first_recognized(attrs, from + 1)
    }
}

/// The override that a field's annotations declare. Only the first
/// recognized annotation is consulted; without one the field shows itself.
pub open spec fn field_override(attrs: Seq<AttributeModel>, site: Site) -> Result<
    OverrideSpecModel,
    ConfigurationError,
> {
    match first_recognized(attrs, 0) {
        None => Ok(OverrideSpecModel::Own),
        Some(index) => meta_override(
            attrs[index]->Meta_0,
            Location::Attribute { site, index: index as usize },
        ),
    }
}

/// The position of the first annotation at or after `from` that is out of
/// place on a type.
pub open spec fn first_misplaced(attrs: Seq<AttributeModel>, from: int) -> Option<int>
    decreases attrs.len() - from,
{
    if from < 0 || from >= attrs.len() {
        None
    } else if attrs[from].misplaced() {
        Some(from)
    } else {
        first_misplaced(attrs, from + 1)
    }
}

/// Whether a type's annotations ask for no requirement on its parameters.
/// Every recognized annotation is consulted, and the first one out of place
/// is an error.
pub open spec fn suppress_generic_bound(attrs: Seq<AttributeModel>) -> Result<
    bool,
    ConfigurationError,
> {
    match first_misplaced(attrs, 0) {
        Some(index) => Err(
            ConfigurationError {
                kind: ErrorKind::ExpectedIgnoreGenerics,
                location: Location::Attribute { site: Site::Type, index: index as usize },
            },
        ),
        None => Ok(exists|i: int| 0 <= i < attrs.len() && (#[trigger] attrs[i]).sets_flag()),
    }
}

/// Extracts the texts assigned to `ok`, `err` and `some`, in this order.
pub fn extract_named_value_attrs(nested: &Vec<Nested>) -> (found: (
    Option<String>,
    Option<String>,
    Option<String>,
))
    ensures
        found.0.deep_view() == keyed_value(nested.deep_view(), "ok"@),
        found.1.deep_view() == keyed_value(nested.deep_view(), "err"@),
        found.2.deep_view() == keyed_value(nested.deep_view(), "some"@),
{
    let mut ok: Option<String> = None;
    let mut err: Option<String> = None;
    let mut some: Option<String> = None;
    let ghost entries = nested.deep_view();
    for i in 0..nested.len()
        invariant
            entries == nested.deep_view(),
            ok.deep_view() == keyed_value(entries.take(i as int), "ok"@),
            err.deep_view() == keyed_value(entries.take(i as int), "err"@),
            some.deep_view() == keyed_value(entries.take(i as int), "some"@),
    {
        proof {
            reveal_strlit("ok");
            reveal_strlit("err");
            reveal_strlit("some");
            let upto = entries.take(i + 1);
            assert(upto.drop_last() == entries.take(i as int));
            assert("ok"@.len() == 2 && "err"@.len() == 3 && "some"@.len() == 4);
        }
        match &nested[i] {
            Nested::NameValue(Some(path), Lit::Str(text)) => {
                if same_text(path.as_str(), "some") {
                    some = Some(copy_text(text));
                } else if same_text(path.as_str(), "ok") {
                    ok = Some(copy_text(text));
                } else if same_text(path.as_str(), "err") {
                    err = Some(copy_text(text));
                }
            },
            _ => {},
        }
    }
    proof {
        assert(entries.take(nested.len() as int) == entries);
    }
    (ok, err, some)
}

/// The override that the texts assigned in a list declare, if they are an
/// allowed combination.
pub fn override_from_keys(ok: Option<String>, err: Option<String>, some: Option<String>) -> (declared:
    Option<OverrideSpec>)
    ensures
        declared.deep_view() == keyed_override(
            ok.deep_view(),
            err.deep_view(),
            some.deep_view(),
        ),
{
    match (ok, err, some) {
        (None, None, Some(some)) => Some(OverrideSpec::OptionalWrap(some)),
        (Some(ok), Some(err), None) => Some(OverrideSpec::ResultWrap(ResultTexts::Both(ok, err))),
        (Some(ok), None, None) => Some(OverrideSpec::ResultWrap(ResultTexts::OkOnly(ok))),
        (None, Some(err), None) => Some(OverrideSpec::ResultWrap(ResultTexts::ErrOnly(err))),
        _ => None,
    }
}

/// Whether the annotation is structured and stands under the path
/// `debug_stub`.
pub fn is_recognized(attr: &Attribute) -> (recognized: bool)
    ensures
        recognized == attr.deep_view().recognized(),
{
    match attr {
        Attribute::Unstructured => false,
        Attribute::Meta(Meta::Path(path)) => is_word(path, "debug_stub"),
        Attribute::Meta(Meta::List(path, _)) => is_word(path, "debug_stub"),
        Attribute::Meta(Meta::NameValue(path, _)) => is_word(path, "debug_stub"),
    }
}

/// Reads the override that the annotations of one field declare.
pub fn parse_override(attrs: &Vec<Attribute>, site: Site) -> (declared: Result<
    OverrideSpec,
    ConfigurationError,
>)
    ensures
        outcome(declared) == field_override(attrs.deep_view(), site),
{
    let ghost all = attrs.deep_view();
    for i in 0..attrs.len()
        invariant
            all == attrs.deep_view(),
            first_recognized(all, 0) == first_recognized(all, i as int),
    {
        if is_recognized(&attrs[i]) {
            let location = Location::Attribute { site, index: i };
            return match &attrs[i] {
                Attribute::Meta(Meta::List(_, nested)) => {
                    let (ok, err, some) = extract_named_value_attrs(nested);
                    match override_from_keys(ok, err, some) {
                        Some(declared) => Ok(declared),
                        None => Err(
                            ConfigurationError { kind: ErrorKind::ExpectedKeyedValues, location },
                        ),
                    }
                },
                Attribute::Meta(Meta::NameValue(_, Lit::Str(text))) => Ok(
                    OverrideSpec::Literal(copy_text(text)),
                ),
                Attribute::Meta(Meta::NameValue(_, Lit::Other)) => Err(
                    ConfigurationError { kind: ErrorKind::ExpectedStringLiteral, location },
                ),
                _ => Err(
                    ConfigurationError { kind: ErrorKind::ExpectedListOrNameValue, location },
                ),
            };
        }
    }
    Ok(OverrideSpec::Own)
}

/// Whether the entry is a path, a list or an assignment under the
/// identifier `word`.
pub fn is_meta_named(entry: &Nested, word: &str) -> (named: bool)
    ensures
        named == entry.deep_view().is_meta_named(word@),
{
    match entry {
        Nested::Lit(_) => false,
        Nested::Path(path) => is_word(path, word),
        Nested::List(path) => is_word(path, word),
        Nested::NameValue(path, _) => is_word(path, word),
    }
}

/// Whether every entry is `ignore_generics`.
fn all_ignore_generics(nested: &Vec<Nested>) -> (all: bool)
    ensures
        all == (forall|k: int|
            0 <= k < nested.len() ==> (#[trigger] nested.deep_view()[k]).is_meta_named(
                "ignore_generics"@,
            )),
{
    for k in 0..nested.len()
        invariant
            forall|j: int|
                0 <= j < k ==> (#[trigger] nested.deep_view()[j]).is_meta_named(
                    "ignore_generics"@,
                ),
    {
        if !is_meta_named(&nested[k], "ignore_generics") {
            assert(!nested.deep_view()[k as int].is_meta_named("ignore_generics"@));
            return false;
        }
    }
    true
}

/// Reads from a type's annotations whether its parameters go without a
/// requirement.
pub fn parse_ignore_generics(attrs: &Vec<Attribute>) -> (flag: Result<bool, ConfigurationError>)
    ensures
        flag == suppress_generic_bound(attrs.deep_view()),
{
    let ghost all = attrs.deep_view();
    let mut ignore_generics = false;
    for i in 0..attrs.len()
        invariant
            all == attrs.deep_view(),
            first_misplaced(all, 0) == first_misplaced(all, i as int),
            ignore_generics == (exists|j: int| 0 <= j < i && (#[trigger] all[j]).sets_flag()),
    {
        if is_recognized(&attrs[i]) {
            let fits = match &attrs[i] {
                Attribute::Meta(Meta::List(_, nested)) => {
                    if all_ignore_generics(nested) {
                        if nested.len() > 0 {
                            ignore_generics = true;
                        }
                        true
                    } else {
                        false
                    }
                },
                _ => false,
            };
            if !fits {
                return Err(
                    ConfigurationError {
                        kind: ErrorKind::ExpectedIgnoreGenerics,
                        location: Location::Attribute { site: Site::Type, index: i },
                    },
                );
            }
        }
    }
    Ok(ignore_generics)
}

} // verus!
