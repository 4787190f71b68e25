//! The generated function written out as Rust source text.

use vstd::prelude::*;
use vstd::string::*;

use crate::plan::{Arm, ArmModel, Argument, ArgumentModel, Binder, BinderModel, Body, BodyModel,
    Function, FunctionModel, Implementation, ImplementationModel, PatternForm, Place, PlaceModel,
    Statement, StatementModel, Test};

verus! {

/// The character for a decimal digit.
pub open spec fn digit(d: nat) -> char {
    if d == 0 {
        '0'
    } else if d == 1 {
        '1'
    } else if d == 2 {
        '2'
    } else if d == 3 {
        '3'
    } else if d == 4 {
        '4'
    } else if d == 5 {
        '5'
    } else if d == 6 {
        '6'
    } else if d == 7 {
        '7'
    } else if d == 8 {
        '8'
    } else {
        '9'
    }
}

/// A number in decimal, without leading zeros.
pub open spec fn decimal(n: nat) -> Seq<char>
    decreases n,
{
    if n < 10 {
        seq![digit(n)]
    } else {
        decimal(n / 10).push(digit(n % 10))
    }
}

/// How a character stands inside a string literal: the quote, the
/// backslash and the control characters that have a short escape are
/// escaped, every other character stands for itself.
pub open spec fn escaped_char(c: char) -> Seq<char> {
    if c == '"' {
        "\\\""@
    } else if c == '\\' {
        "\\\\"@
    } else if c == '\n' {
        "\\n"@
    } else if c == '\r' {
        "\\r"@
    } else if c == '\t' {
        "\\t"@
    } else if c == '\0' {
        "\\0"@
    } else {
        seq![c]
    }
}

/// The characters of a text as they stand inside a string literal.
pub open spec fn escaped(text: Seq<char>) -> Seq<char>
    decreases text.len(),
{
    if text.len() == 0 {
        text
    } else {
        escaped(text.drop_last()) + escaped_char(text.last())
    }
}

/// A text as a string literal.
pub open spec fn quoted(text: Seq<char>) -> Seq<char> {
    "\""@ + escaped(text) + "\""@
}

/// The expression for a place.
pub open spec fn place_source(place: PlaceModel) -> Seq<char> {
    match place {
        PlaceModel::Member(name) => "self."@ + name,
        PlaceModel::Position(index) => "self."@ + decimal(index),
        PlaceModel::Bound(name) => name,
        PlaceModel::BoundPosition(index) => "tuple_"@ + decimal(index),
    }
}

/// The expression that shows a fixed text as it is.
pub open spec fn text_source(text: Seq<char>) -> Seq<char> {
    "format_args!(\"{}\", "@ + quoted(text) + ")"@
}

/// The expression for what a contribution hands to the builder.
pub open spec fn argument_source(argument: ArgumentModel) -> Seq<char> {
    match argument {
        ArgumentModel::Value(place) => "&"@ + place_source(place),
        ArgumentModel::Text(text) => "&"@ + text_source(text),
        ArgumentModel::NoneWord => "&format_args!(\"None\")"@,
        ArgumentModel::SomeText(text) => "&Some::<_>("@ + text_source(text) + ")"@,
        ArgumentModel::OkText(text) => "&Ok::<_, ()>("@ + text_source(text) + ")"@,
        ArgumentModel::ErrText(text) => "&Err::<(), _>("@ + text_source(text) + ")"@,
        ArgumentModel::OkValue(place) => "&Ok::<_, ()>("@ + place_source(place)
            + ".as_ref().ok().unwrap())"@,
        ArgumentModel::ErrValue(place) => "&Err::<(), _>("@ + place_source(place)
            + ".as_ref().err().unwrap())"@,
    }
}

/// The statement that makes one contribution.
pub open spec fn contribution_source(label: Option<Seq<char>>, argument: ArgumentModel) -> Seq<
    char,
> {
    match label {
        Some(label) => "f.field("@ + quoted(label) + ", "@ + argument_source(argument) + ");"@,
        None => "f.field("@ + argument_source(argument) + ");"@,
    }
}

/// The method that asks a test.
pub open spec fn test_source(test: Test) -> Seq<char> {
    match test {
        Test::IsSome => ".is_some()"@,
        Test::IsOk => ".is_ok()"@,
        Test::IsErr => ".is_err()"@,
    }
}

/// The source text of a statement.
pub open spec fn statement_source(statement: StatementModel) -> Seq<char> {
    match statement {
        StatementModel::Field { label, argument } => contribution_source(label, argument),
        StatementModel::Branch { label, test, place, when_true, when_false } => "if "@
            + place_source(place) + test_source(test) + " { "@ + contribution_source(
            label,
            when_true,
        ) + " } else { "@ + contribution_source(label, when_false) + " }"@,
    }
}

/// The source text of the first `upto` statements, each followed by a
/// space.
pub open spec fn statements_source(statements: Seq<StatementModel>, upto: int) -> Seq<char>
    decreases upto,
{
    if upto <= 0 {
        Seq::empty()
    } else {
        statements_source(statements, upto - 1) + statement_source(statements[upto - 1]) + " "@
    }
}

/// The source text of a body under `name`.
pub open spec fn body_source(name: Seq<char>, body: BodyModel) -> Seq<char> {
    match body {
        BodyModel::Record(statements) => "let mut f = f.debug_struct("@ + quoted(name) + "); "@
            + statements_source(statements, statements.len() as int) + "f.finish()"@,
        BodyModel::Tuple(statements) => "let mut f = f.debug_tuple("@ + quoted(name) + "); "@
            + statements_source(statements, statements.len() as int) + "f.finish()"@,
        BodyModel::Unit => "f.write_str("@ + quoted(name) + ")"@,
    }
}

/// The source text of a binder.
pub open spec fn binder_source(binder: BinderModel) -> Seq<char> {
    match binder {
        BinderModel::Variable(name) => name,
        BinderModel::PositionVariable(index) => "tuple_"@ + decimal(index),
        BinderModel::Wildcard => "_"@,
        BinderModel::Rest => ".."@,
    }
}

/// The source text of the first `upto` binders, with a comma and a space
/// between them.
pub open spec fn binders_source(binders: Seq<BinderModel>, upto: int) -> Seq<char>
    decreases upto,
{
    if upto <= 0 {
        Seq::empty()
    } else if upto == 1 {
        binder_source(binders[0])
    } else {
        binders_source(binders, upto - 1) + ", "@ + binder_source(binders[upto - 1])
    }
}

/// The source text of an arm's pattern, for a variant of the type `name`.
pub open spec fn pattern_source(name: Seq<char>, arm: ArmModel) -> Seq<char> {
    let path = name + "::"@ + arm.variant;
    let inside = binders_source(arm.binders, arm.binders.len() as int);
    match arm.form {
        PatternForm::Braces => path + " { "@ + inside + " }"@,
        PatternForm::Parentheses => path + "("@ + inside + ")"@,
        PatternForm::Bare => path,
    }
}

/// The source text of an arm of the dispatch for the type `name`.
pub open spec fn arm_source(name: Seq<char>, arm: ArmModel) -> Seq<char> {
    pattern_source(name, arm) + " => { "@ + body_source(arm.variant, arm.body) + " }"@
}

/// The source text of the first `upto` arms, each followed by a space.
pub open spec fn arms_source(name: Seq<char>, arms: Seq<ArmModel>, upto: int) -> Seq<char>
    decreases upto,
{
    if upto <= 0 {
        Seq::empty()
    } else {
        arms_source(name, arms, upto - 1) + arm_source(name, arms[upto - 1]) + " "@
    }
}

/// The source text of what the generated function does.
pub open spec fn function_source(name: Seq<char>, function: FunctionModel) -> Seq<char> {
    match function {
        FunctionModel::Direct(body) => body_source(name, body),
        FunctionModel::Dispatch(arms) => "match self { "@ + arms_source(
            name,
            arms,
            arms.len() as int,
        ) + "}"@,
    }
}

/// The source text of the generated function: its header, which is always
/// the same, and what it does between braces.
pub open spec fn method_source(implementation: ImplementationModel) -> Seq<char> {
    "fn fmt(&self, f: &mut ::core::fmt::Formatter) -> ::core::fmt::Result { "@ + function_source(
        implementation.name,
        implementation.function,
    ) + " }"@
}

/// The character for a decimal digit.
fn digit_char(d: usize) -> (c: char)
    requires
        d < 10,
    ensures
        c == digit(d as nat),
{
    if d == 0 {
        '0'
    } else if d == 1 {
        '1'
    } else if d == 2 {
        '2'
    } else if d == 3 {
        '3'
    } else if d == 4 {
        '4'
    } else if d == 5 {
        '5'
    } else if d == 6 {
        '6'
    } else if d == 7 {
        '7'
    } else if d == 8 {
        '8'
    } else {
        '9'
    }
}

/// Writes a number in decimal.
pub fn write_decimal(n: usize) -> (out: String)
    ensures
        out@ == decimal(n as nat),
    decreases n,
{
    if n < 10 {
        let mut out = String::new();
        out.push(digit_char(n));
        out
    } else {
        let mut out = write_decimal(n / 10);
        out.push(digit_char(n % 10));
        out
    }
}

/// Writes a text as a string literal.
pub fn write_quoted(text: &str) -> (out: String)
    ensures
        out@ == quoted(text@),
{
    let mut inside = String::new();
    for c in it: text.chars()
        invariant
            it.seq() == text@,
            inside@ == escaped(text@.take(it.index() as int)),
    {
        if c == '"' {
            inside.append("\\\"");
        } else if c == '\\' {
            inside.append("\\\\");
        } else if c == '\n' {
            inside.append("\\n");
        } else if c == '\r' {
            inside.append("\\r");
        } else if c == '\t' {
            inside.append("\\t");
        } else if c == '\0' {
            inside.append("\\0");
        } else {
            inside.push(c);
        }
        proof {
            let upto = text@.take(it.index() + 1);
            assert(upto.drop_last() == text@.take(it.index() as int));
            assert(escaped(text@.take(it.index() as int)).push(c) == escaped(
                text@.take(it.index() as int),
            ) + seq![c]);
        }
    }
    proof {
        assert(text@.take(text@.len() as int) == text@);
    }
    let mut out = String::from_str("\"");
    out.append(inside.as_str());
    out.append("\"");
    out
}

/// Writes the expression for a place.
pub fn write_place(place: &Place) -> (out: String)
    ensures
        out@ == place_source(place.deep_view()),
{
    match place {
        Place::Member(name) => {
            let mut out = String::from_str("self.");
            out.append(name.as_str());
            out
        },
        Place::Position(index) => {
            let mut out = String::from_str("self.");
            out.append(write_decimal(*index).as_str());
            out
        },
        Place::Bound(name) => String::from_str(name.as_str()),
        Place::BoundPosition(index) => {
            let mut out = String::from_str("tuple_");
            out.append(write_decimal(*index).as_str());
            out
        },
    }
}

/// Writes the expression that shows a fixed text as it is.
fn write_text(text: &str) -> (out: String)
    ensures
        out@ == text_source(text@),
{
    let mut out = String::from_str("format_args!(\"{}\", ");
    out.append(write_quoted(text).as_str());
    out.append(")");
    out
}

/// Writes `before`, then `inside`, then `after`.
fn write_around(before: &str, inside: &str, after: &str) -> (out: String)
    ensures
        out@ == before@ + inside@ + after@,
{
    let mut out = String::from_str(before);
    out.append(inside);
    out.append(after);
    out
}

/// Writes the expression for what a contribution hands to the builder.
pub fn write_argument(argument: &Argument) -> (out: String)
    ensures
        out@ == argument_source(argument.deep_view()),
{
    match argument {
        Argument::Value(place) => {
            let mut out = String::from_str("&");
            out.append(write_place(place).as_str());
            out
        },
        Argument::Text(text) => {
            let mut out = String::from_str("&");
            out.append(write_text(text.as_str()).as_str());
            out
        },
        Argument::NoneWord => String::from_str("&format_args!(\"None\")"),
        Argument::SomeText(text) => write_around(
            "&Some::<_>(",
            write_text(text.as_str()).as_str(),
            ")",
        ),
        Argument::OkText(text) => write_around(
            "&Ok::<_, ()>(",
            write_text(text.as_str()).as_str(),
            ")",
        ),
        Argument::ErrText(text) => write_around(
            "&Err::<(), _>(",
            write_text(text.as_str()).as_str(),
            ")",
        ),
        Argument::OkValue(place) => write_around(
            "&Ok::<_, ()>(",
            write_place(place).as_str(),
            ".as_ref().ok().unwrap())",
        ),
        Argument::ErrValue(place) => write_around(
            "&Err::<(), _>(",
            write_place(place).as_str(),
            ".as_ref().err().unwrap())",
        ),
    }
}

/// Writes the statement that makes one contribution.
fn write_contribution(label: &Option<String>, argument: &Argument) -> (out: String)
    ensures
        out@ == contribution_source(label.deep_view(), argument.deep_view()),
{
    let mut out = String::from_str("f.field(");
    match label {
        Some(label) => {
            out.append(write_quoted(label.as_str()).as_str());
            out.append(", ");
        },
        None => {},
    }
    out.append(write_argument(argument).as_str());
    out.append(");");
    out
}

/// Writes a statement.
pub fn write_statement(statement: &Statement) -> (out: String)
    ensures
        out@ == statement_source(statement.deep_view()),
{
    match statement {
        Statement::Field { label, argument } => write_contribution(label, argument),
        Statement::Branch { label, test, place, when_true, when_false } => {
            let mut out = String::from_str("if ");
            out.append(write_place(place).as_str());
            match test {
                Test::IsSome => out.append(".is_some()"),
                Test::IsOk => out.append(".is_ok()"),
                Test::IsErr => out.append(".is_err()"),
            }
            out.append(" { ");
            out.append(write_contribution(label, when_true).as_str());
            out.append(" } else { ");
            out.append(write_contribution(label, when_false).as_str());
            out.append(" }");
            out
        },
    }
}

/// Writes the statements, each followed by a space.
fn write_statements(statements: &Vec<Statement>) -> (out: String)
    ensures
        out@ == statements_source(statements.deep_view(), statements.len() as int),
{
    let mut out = String::new();
    for i in 0..statements.len()
        invariant
            out@ == statements_source(statements.deep_view(), i as int),
    {
        out.append(write_statement(&statements[i]).as_str());
        out.append(" ");
    }
    out
}

/// Writes a body under `name`.
pub fn write_body(name: &str, body: &Body) -> (out: String)
    ensures
        out@ == body_source(name@, body.deep_view()),
{
    match body {
        Body::Record(statements) => {
            let mut out = String::from_str("let mut f = f.debug_struct(");
            out.append(write_quoted(name).as_str());
            out.append("); ");
            out.append(write_statements(statements).as_str());
            out.append("f.finish()");
            out
        },
        Body::Tuple(statements) => {
            let mut out = String::from_str("let mut f = f.debug_tuple(");
            out.append(write_quoted(name).as_str());
            out.append("); ");
            out.append(write_statements(statements).as_str());
            out.append("f.finish()");
            out
        },
        Body::Unit => write_around("f.write_str(", write_quoted(name).as_str(), ")"),
    }
}

/// Writes a binder.
fn write_binder(binder: &Binder) -> (out: String)
    ensures
        out@ == binder_source(binder.deep_view()),
{
    match binder {
        Binder::Variable(name) => String::from_str(name.as_str()),
        Binder::PositionVariable(index) => {
            let mut out = String::from_str("tuple_");
            out.append(write_decimal(*index).as_str());
            out
        },
        Binder::Wildcard => String::from_str("_"),
        Binder::Rest => String::from_str(".."),
    }
}

/// Writes the binders, with a comma and a space between them.
fn write_binders(binders: &Vec<Binder>) -> (out: String)
    ensures
        out@ == binders_source(binders.deep_view(), binders.len() as int),
{
    let mut out = String::new();
    for i in 0..binders.len()
        invariant
            out@ == binders_source(binders.deep_view(), i as int),
    {
        if i > 0 {
            out.append(", ");
        }
        out.append(write_binder(&binders[i]).as_str());
    }
    out
}

/// Writes an arm's pattern, for a variant of the type `name`.
pub fn write_pattern(name: &str, arm: &Arm) -> (out: String)
    ensures
        out@ == pattern_source(name@, arm.deep_view()),
{
    let mut out = String::from_str(name);
    out.append("::");
    out.append(arm.variant.as_str());
    match arm.form {
        PatternForm::Braces => {
            out.append(" { ");
            out.append(write_binders(&arm.binders).as_str());
            out.append(" }");
        },
        PatternForm::Parentheses => {
            out.append("(");
            out.append(write_binders(&arm.binders).as_str());
            out.append(")");
        },
        PatternForm::Bare => {},
    }
    out
}

/// Writes an arm of the dispatch for the type `name`.
pub fn write_arm(name: &str, arm: &Arm) -> (out: String)
    ensures
        out@ == arm_source(name@, arm.deep_view()),
{
    let mut out = write_pattern(name, arm);
    out.append(" => { ");
    out.append(write_body(arm.variant.as_str(), &arm.body).as_str());
    out.append(" }");
    out
}

/// Writes the arms, each followed by a space.
fn write_arms(name: &str, arms: &Vec<Arm>) -> (out: String)
    ensures
        out@ == arms_source(name@, arms.deep_view(), arms.len() as int),
{
    let mut out = String::new();
    for i in 0..arms.len()
        invariant
            out@ == arms_source(name@, arms.deep_view(), i as int),
    {
        out.append(write_arm(name, &arms[i]).as_str());
        out.append(" ");
    }
    out
}

/// Writes what the generated function does.
pub fn write_function(name: &str, function: &Function) -> (out: String)
    ensures
        out@ == function_source(name@, function.deep_view()),
{
    match function {
        Function::Direct(body) => write_body(name, body),
        Function::Dispatch(arms) => write_around(
            "match self { ",
            write_arms(name, arms).as_str(),
            "}",
        ),
    }
}

/// Writes the generated function as Rust source text.
pub fn write_method(implementation: &Implementation) -> (out: String)
    ensures
        out@ == method_source(implementation.deep_view()),
{
    write_around(
        "fn fmt(&self, f: &mut ::core::fmt::Formatter) -> ::core::fmt::Result { ",
        write_function(implementation.name.as_str(), &implementation.function).as_str(),
        " }",
    )
}

} // verus!
