//! The statement that one field contributes, from where its value is found,
//! its label and its override.

use vstd::prelude::*;
use vstd::string::*;

use crate::annotation::{Attribute, AttributeModel};
use crate::error::{ConfigurationError, Site};
use crate::overrides::{field_override, parse_override, OverrideSpec, OverrideSpecModel,
    ResultTexts, ResultTextsModel};
use crate::plan::{Argument, ArgumentModel, Place, PlaceModel, Statement, StatementModel, Test};
use crate::text::copy_text;

verus! {

/// A copy of `place`.
pub fn copy_place(place: &Place) -> (out: Place)
    ensures
        out.deep_view() == place.deep_view(),
{
    match place {
        Place::Member(name) => Place::Member(copy_text(name)),
        Place::Position(index) => Place::Position(*index),
        Place::Bound(name) => Place::Bound(copy_text(name)),
        Place::BoundPosition(index) => Place::BoundPosition(*index),
    }
}

/// The statement for a field that shows itself.
pub open spec fn own_statement(label: Option<Seq<char>>, place: PlaceModel) -> StatementModel {
    StatementModel::Field { label, argument: ArgumentModel::Value(place) }
}

/// The statement for a field replaced by a fixed text.
pub open spec fn replace_statement(label: Option<Seq<char>>, text: Seq<char>) -> StatementModel {
    StatementModel::Field { label, argument: ArgumentModel::Text(text) }
}

/// The statement for an optional field: the text inside `Some` where a
/// value is present, the word `None` where it is absent.
pub open spec fn some_statement(
    some: Seq<char>,
    label: Option<Seq<char>>,
    place: PlaceModel,
) -> StatementModel {
    StatementModel::Branch {
        label,
        test: Test::IsSome,
        place,
        when_true: ArgumentModel::SomeText(some),
        when_false: ArgumentModel::NoneWord,
    }
}

/// The statement for a field with a text for the success and one for the
/// failure.
pub open spec fn result_statement(
    ok: Seq<char>,
    err: Seq<char>,
    label: Option<Seq<char>>,
    place: PlaceModel,
) -> StatementModel {
    StatementModel::Branch {
        label,
        test: Test::IsOk,
        place,
        when_true: ArgumentModel::OkText(ok),
        when_false: ArgumentModel::ErrText(err),
    }
}

/// The statement for a field with a text for the success only: a failure
/// shows itself inside `Err`.
pub open spec fn ok_statement(
    ok: Seq<char>,
    label: Option<Seq<char>>,
    place: PlaceModel,
) -> StatementModel {
    StatementModel::Branch {
        label,
        test: Test::IsErr,
        place,
        when_true: ArgumentModel::ErrValue(place),
        when_false: ArgumentModel::OkText(ok),
    }
}

/// The statement for a field with a text for the failure only: a success
/// shows itself inside `Ok`.
pub open spec fn err_statement(
    err: Seq<char>,
    label: Option<Seq<char>>,
    place: PlaceModel,
) -> StatementModel {
    StatementModel::Branch {
        label,
        test: Test::IsOk,
        place,
        when_true: ArgumentModel::OkValue(place),
        when_false: ArgumentModel::ErrText(err),
    }
}

/// The statement that a field contributes under its override.
pub open spec fn statement_for(
    declared: OverrideSpecModel,
    label: Option<Seq<char>>,
    place: PlaceModel,
) -> StatementModel {
    match declared {
        OverrideSpecModel::Own => own_statement(label, place),
        OverrideSpecModel::Literal(text) => replace_statement(label, text),
        OverrideSpecModel::OptionalWrap(some) => some_statement(some, label, place),
        OverrideSpecModel::ResultWrap(ResultTextsModel::Both(ok, err)) => result_statement(
            ok,
            err,
            label,
            place,
        ),
        OverrideSpecModel::ResultWrap(ResultTextsModel::OkOnly(ok)) => ok_statement(
            ok,
            label,
            place,
        ),
        OverrideSpecModel::ResultWrap(ResultTextsModel::ErrOnly(err)) => err_statement(
            err,
            label,
            place,
        ),
    }
}

/// Whether the statement under this override looks at the field's value.
/// Only a fixed text does not.
pub open spec fn inspects_value(declared: OverrideSpecModel) -> bool {
    !(declared is Literal)
}

/// What a field's annotations make it contribute: whether its value is
/// looked at, and the statement.
pub open spec fn field_contribution(
    place: PlaceModel,
    attrs: Seq<AttributeModel>,
    label: Option<Seq<char>>,
    site: Site,
) -> Result<(bool, StatementModel), ConfigurationError> {
    match field_override(attrs, site) {
        Ok(declared) => Ok((inspects_value(declared), statement_for(declared, label, place))),
        Err(error) => Err(error),
    }
}

/// Generates the statement for a field replaced by a fixed text.
pub fn implement_replace_attr(name: Option<String>, value: &str) -> (statement: Statement)
    ensures
        statement.deep_view() == replace_statement(name.deep_view(), value@),
{
    Statement::Field { label: name, argument: Argument::Text(String::from_str(value)) }
}

/// Generates the statement for an optional field with a text for the
/// present value.
pub fn implement_some_attr(some: &str, name: Option<String>, expr: &Place) -> (statement:
    Statement)
    ensures
        statement.deep_view() == some_statement(some@, name.deep_view(), expr.deep_view()),
{
    Statement::Branch {
        label: name,
        test: Test::IsSome,
        place: copy_place(expr),
        when_true: Argument::SomeText(String::from_str(some)),
        when_false: Argument::NoneWord,
    }
}

/// Generates the statement for a field with a text for the success and one
/// for the failure.
pub fn implement_result_attr(ok: &str, err: &str, name: Option<String>, expr: &Place) -> (statement:
    Statement)
    ensures
        statement.deep_view() == result_statement(
            ok@,
            err@,
            name.deep_view(),
            expr.deep_view(),
        ),
{
    Statement::Branch {
        label: name,
        test: Test::IsOk,
        place: copy_place(expr),
        when_true: Argument::OkText(String::from_str(ok)),
        when_false: Argument::ErrText(String::from_str(err)),
    }
}

/// Generates the statement for a field with a text for the success only.
pub fn implement_ok_attr(ok: &str, name: Option<String>, expr: &Place) -> (statement: Statement)
    ensures
        statement.deep_view() == ok_statement(ok@, name.deep_view(), expr.deep_view()),
{
    Statement::Branch {
        label: name,
        test: Test::IsErr,
        place: copy_place(expr),
        when_true: Argument::ErrValue(copy_place(expr)),
        when_false: Argument::OkText(String::from_str(ok)),
    }
}

/// Generates the statement for a field with a text for the failure only.
pub fn implement_err_attr(err: &str, name: Option<String>, expr: &Place) -> (statement: Statement)
    ensures
        statement.deep_view() == err_statement(err@, name.deep_view(), expr.deep_view()),
{
    Statement::Branch {
        label: name,
        test: Test::IsOk,
        place: copy_place(expr),
        when_true: Argument::OkValue(copy_place(expr)),
        when_false: Argument::ErrText(String::from_str(err)),
    }
}

/// Generates the statement that a field contributes under its override,
/// and says whether the statement looks at the field's value.
pub fn field_statement(expr: &Place, declared: &OverrideSpec, name: Option<String>) -> (generated:
    (bool, Statement))
    ensures
        generated.0 == inspects_value(declared.deep_view()),
        generated.0 == generated.1.deep_view().reads(expr.deep_view()),
        generated.1.deep_view() == statement_for(
            declared.deep_view(),
            name.deep_view(),
            expr.deep_view(),
        ),
{
    match declared {
        OverrideSpec::Own => (
            true,
            Statement::Field { label: name, argument: Argument::Value(copy_place(expr)) },
        ),
        OverrideSpec::Literal(text) => (false, implement_replace_attr(name, text.as_str())),
        OverrideSpec::OptionalWrap(some) => (true, implement_some_attr(some.as_str(), name, expr)),
        OverrideSpec::ResultWrap(ResultTexts::Both(ok, err)) => (
            true,
            implement_result_attr(ok.as_str(), err.as_str(), name, expr),
        ),
        OverrideSpec::ResultWrap(ResultTexts::OkOnly(ok)) => (
            true,
            implement_ok_attr(ok.as_str(), name, expr),
        ),
        OverrideSpec::ResultWrap(ResultTexts::ErrOnly(err)) => (
            true,
            implement_err_attr(err.as_str(), name, expr),
        ),
    }
}

/// Generates the statement for one field from its annotations, and says
/// whether the statement looks at the field's value.
pub fn extract_value_attr(
    expr: &Place,
    attrs: &Vec<Attribute>,
    name: Option<String>,
    site: Site,
) -> (generated: Result<(bool, Statement), ConfigurationError>)
    ensures
        match field_contribution(expr.deep_view(), attrs.deep_view(), name.deep_view(), site) {
            Ok((used, statement)) => generated is Ok && generated->Ok_0.0 == used
                && generated->Ok_0.1.deep_view() == statement,
            Err(error) => generated == Err::<(bool, Statement), _>(error),
        },
{
    match parse_override(attrs, site) {
        Ok(declared) => Ok(field_statement(expr, &declared, name)),
        Err(error) => Err(error),
    }
}

} // verus!
