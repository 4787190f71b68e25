//! What the generated function writes for a value: the plan run against the
//! value's fields, through the output builder.

use vstd::prelude::*;
use vstd::string::*;

use crate::builder::{record_progress, record_text, tuple_progress, tuple_text, wrap,
    write_literal, Fill, RecordBuilder, TupleBuilder};
use crate::plan::{Arm, ArmModel, Argument, ArgumentModel, Binder, BinderModel, Body, BodyModel,
    Function, FunctionModel, Implementation, ImplementationModel, PatternForm, Place, PlaceModel,
    Statement, StatementModel, Test};
use crate::text::{copy_text, same_text};
use crate::value::{Content, ContentModel, Instance, InstanceModel, Rendering, Slot, SlotModel,
    Value, ValueModel};

verus! {

/// What a statement can reach: the fields of the value and, inside an arm,
/// the binders of the arm's pattern. Without binders the fields are reached
/// through `self`.
pub struct ScopeModel {
    pub slots: Seq<SlotModel>,
    pub binders: Option<Seq<BinderModel>>,
}

/// The position of the first field at or after `from` that has this name.
pub open spec fn find_named(slots: Seq<SlotModel>, name: Seq<char>, from: int) -> Option<int>
    decreases slots.len() - from,
{
    if from < 0 || from >= slots.len() {
        None
    } else if slots[from].name == Some(name) {
        Some(from)
    } else {
        find_named(slots, name, from + 1)
    }
}

/// Whether the pattern binds a variable to the field of this name.
pub open spec fn binds_name(binders: Seq<BinderModel>, name: Seq<char>) -> bool {
    exists|k: int| 0 <= k < binders.len() && (#[trigger] binders[k]) == BinderModel::Variable(name)
}

/// The field of this name.
pub open spec fn named_value(slots: Seq<SlotModel>, name: Seq<char>) -> Option<ValueModel> {
    match find_named(slots, name, 0) {
        Some(k) => Some(slots[k].value),
        None => None,
    }
}

/// The field at this position, among fields without names.
pub open spec fn positioned_value(slots: Seq<SlotModel>, index: nat) -> Option<ValueModel> {
    if index < slots.len() && slots[index as int].name is None {
        Some(slots[index as int].value)
    } else {
        None
    }
}

/// The value found at a place, if the place can be reached.
pub open spec fn resolve(place: PlaceModel, scope: ScopeModel) -> Option<ValueModel> {
    match place {
        PlaceModel::Member(name) => if scope.binders is None {
            named_value(scope.slots, name)
        } else {
            None
        },
        PlaceModel::Position(index) => if scope.binders is None {
            positioned_value(scope.slots, index)
        } else {
            None
        },
        PlaceModel::Bound(name) => if scope.binders is Some && binds_name(
            scope.binders->0,
            name,
        ) {
            named_value(scope.slots, name)
        } else {
            None
        },
        PlaceModel::BoundPosition(index) => if scope.binders is Some && index
            < scope.binders->0.len() && scope.binders->0[index as int]
            == BinderModel::PositionVariable(index) {
            positioned_value(scope.slots, index)
        } else {
            None
        },
    }
}

/// A text inside `Some`, `Ok` or `Err`: a tuple under that word with the
/// text as its only member.
pub open spec fn wrapped(word: Seq<char>, inner: Seq<char>, expanded: bool) -> Seq<char> {
    tuple_text(word, seq![inner], expanded)
}

/// The answer to a test, where the value is of a kind that the test can be
/// asked of.
pub open spec fn test_outcome(test: Test, content: ContentModel) -> Option<bool> {
    match test {
        Test::IsSome => match content {
            ContentModel::Present => Some(true),
            ContentModel::Absent => Some(false),
            _ => None,
        },
        Test::IsOk => match content {
            ContentModel::Success(_) => Some(true),
            ContentModel::Failure(_) => Some(false),
            _ => None,
        },
        Test::IsErr => match content {
            ContentModel::Failure(_) => Some(true),
            ContentModel::Success(_) => Some(false),
            _ => None,
        },
    }
}

/// The text that an argument contributes. There is none where the argument
/// reads a place that cannot be reached, or shows a value that has no
/// representation.
pub open spec fn argument_text(argument: ArgumentModel, scope: ScopeModel, expanded: bool) -> Option<
    Seq<char>,
> {
    match argument {
        ArgumentModel::Value(place) => match resolve(place, scope) {
            Some(ValueModel { own: Some(own), .. }) => Some(own.shown(expanded)),
            _ => None,
        },
        ArgumentModel::Text(text) => Some(text),
        ArgumentModel::NoneWord => Some("None"@),
        ArgumentModel::SomeText(text) => Some(wrapped("Some"@, text, expanded)),
        ArgumentModel::OkText(text) => Some(wrapped("Ok"@, text, expanded)),
        ArgumentModel::ErrText(text) => Some(wrapped("Err"@, text, expanded)),
        ArgumentModel::OkValue(place) => match resolve(place, scope) {
            Some(ValueModel { content: ContentModel::Success(Some(held)), .. }) => Some(
                wrapped("Ok"@, held.shown(expanded), expanded),
            ),
            _ => None,
        },
        ArgumentModel::ErrValue(place) => match resolve(place, scope) {
            Some(ValueModel { content: ContentModel::Failure(Some(held)), .. }) => Some(
                wrapped("Err"@, held.shown(expanded), expanded),
            ),
            _ => None,
        },
    }
}

/// The text that a statement contributes: exactly one of the two arguments
/// of a branch is taken, by the answer to its test.
pub open spec fn statement_text(statement: StatementModel, scope: ScopeModel, expanded: bool) -> Option<
    Seq<char>,
> {
    match statement {
        StatementModel::Field { argument, .. } => argument_text(argument, scope, expanded),
        StatementModel::Branch { test, place, when_true, when_false, .. } => match resolve(
            place,
            scope,
        ) {
            Some(value) => match test_outcome(test, value.content) {
                Some(true) => argument_text(when_true, scope, expanded),
                Some(false) => argument_text(when_false, scope, expanded),
                None => None,
            },
            None => None,
        },
    }
}

/// Whether every statement contributes, with a label if `labelled` and
/// without one if not.
pub open spec fn all_contribute(
    statements: Seq<StatementModel>,
    labelled: bool,
    scope: ScopeModel,
    expanded: bool,
) -> bool {
    forall|i: int|
        0 <= i < statements.len() ==> ((#[trigger] statements[i]).label() is Some) == labelled
            && statement_text(statements[i], scope, expanded) is Some
}

/// The labelled contributions of the statements.
pub open spec fn entries_of(statements: Seq<StatementModel>, scope: ScopeModel, expanded: bool) -> Seq<
    (Seq<char>, Seq<char>),
> {
    Seq::new(
        statements.len(),
        |i: int| (statements[i].label()->0, statement_text(statements[i], scope, expanded)->0),
    )
}

/// The contributions of the statements, without labels.
pub open spec fn values_of(statements: Seq<StatementModel>, scope: ScopeModel, expanded: bool) -> Seq<
    Seq<char>,
> {
    Seq::new(statements.len(), |i: int| statement_text(statements[i], scope, expanded)->0)
}

/// The text that a body writes under `name`.
pub open spec fn body_text(name: Seq<char>, body: BodyModel, scope: ScopeModel, expanded: bool) -> Option<
    Seq<char>,
> {
    match body {
        BodyModel::Record(statements) => if all_contribute(statements, true, scope, expanded) {
            Some(record_text(name, entries_of(statements, scope, expanded), expanded))
        } else {
            None
        },
        BodyModel::Tuple(statements) => if all_contribute(statements, false, scope, expanded) {
            Some(tuple_text(name, values_of(statements, scope, expanded), expanded))
        } else {
            None
        },
        BodyModel::Unit => Some(name),
    }
}

/// Whether a pattern between parentheses fits the fields: one binder for
/// each field, a wildcard or the variable of its own position, and no field
/// has a name.
pub open spec fn parentheses_fit(binders: Seq<BinderModel>, slots: Seq<SlotModel>) -> bool {
    &&& binders.len() == slots.len()
    &&& forall|k: int|
        0 <= k < slots.len() ==> (#[trigger] slots[k]).name is None && (binders[k]
            == BinderModel::Wildcard || binders[k] == BinderModel::PositionVariable(k as nat))
}

/// Whether a pattern between braces fits the fields: every field has a
/// name, every binder is the name of a field or, in the last place, `..`,
/// and without `..` every field is bound.
pub open spec fn braces_fit(binders: Seq<BinderModel>, slots: Seq<SlotModel>) -> bool {
    &&& forall|k: int| 0 <= k < slots.len() ==> (#[trigger] slots[k]).name is Some
    &&& forall|j: int|
        0 <= j < binders.len() ==> match #[trigger] binders[j] {
            BinderModel::Variable(name) => find_named(slots, name, 0) is Some,
            BinderModel::Rest => j == binders.len() - 1,
            _ => false,
        }
    &&& ((binders.len() > 0 && binders.last() == BinderModel::Rest) || forall|k: int|
        0 <= k < slots.len() ==> binds_name(binders, (#[trigger] slots[k]).name->0))
}

/// Whether an arm's pattern fits the fields of a value.
pub open spec fn pattern_fits(
    form: PatternForm,
    binders: Seq<BinderModel>,
    slots: Seq<SlotModel>,
) -> bool {
    match form {
        PatternForm::Bare => binders.len() == 0 && slots.len() == 0,
        PatternForm::Parentheses => parentheses_fit(binders, slots),
        PatternForm::Braces => braces_fit(binders, slots),
    }
}

/// The text that an arm writes for the fields of a value of its variant.
pub open spec fn arm_text(arm: ArmModel, slots: Seq<SlotModel>, expanded: bool) -> Option<
    Seq<char>,
> {
    if pattern_fits(arm.form, arm.binders, slots) {
        body_text(arm.variant, arm.body, ScopeModel { slots, binders: Some(arm.binders) }, expanded)
    } else {
        None
    }
}

/// The position of the first arm at or after `from` that handles this
/// variant.
pub open spec fn selected_arm(arms: Seq<ArmModel>, variant: Seq<char>, from: int) -> Option<int>
    decreases arms.len() - from,
{
    if from < 0 || from >= arms.len() {
        None
    } else if arms[from].variant == variant {
        Some(from)
    } else {
        selected_arm(arms, variant, from + 1)
    }
}

/// The text that the generated function writes for a value, or nothing
/// where the function could not be applied to it: the value is of no
/// variant that the function handles, a pattern does not fit its fields, a
/// statement reads a place that is not there, asks a test of a value of
/// another kind, or shows a value that has no representation.
pub open spec fn rendered(
    implementation: ImplementationModel,
    instance: InstanceModel,
    expanded: bool,
) -> Option<Seq<char>> {
    match implementation.function {
        FunctionModel::Direct(body) => if instance.variant is None {
            body_text(
                implementation.name,
                body,
                ScopeModel { slots: instance.slots, binders: None },
                expanded,
            )
        } else {
            None
        },
        FunctionModel::Dispatch(arms) => match instance.variant {
            Some(variant) => match selected_arm(arms, variant, 0) {
                Some(k) => arm_text(arms[k], instance.slots, expanded),
                None => None,
            },
            None => None,
        },
    }
}

/// Finds the first field of this name.
pub fn find_slot(slots: &Vec<Slot>, name: &str) -> (found: Option<usize>)
    ensures
        match found {
            Some(k) => k < slots.len() && find_named(slots.deep_view(), name@, 0) == Some(k as int),
            None => find_named(slots.deep_view(), name@, 0) is None,
        },
{
    let ghost all = slots.deep_view();
    for k in 0..slots.len()
        invariant
            all == slots.deep_view(),
            find_named(all, name@, 0) == find_named(all, name@, k as int),
    {
        let same = match &slots[k].name {
            Some(own) => same_text(own.as_str(), name),
            None => false,
        };
        if same {
            return Some(k);
        }
    }
    None
}

/// Whether the pattern binds a variable to the field of this name.
pub fn binds(binders: &Vec<Binder>, name: &str) -> (bound: bool)
    ensures
        bound == binds_name(binders.deep_view(), name@),
{
    let ghost all = binders.deep_view();
    for k in 0..binders.len()
        invariant
            all == binders.deep_view(),
            forall|j: int| 0 <= j < k ==> (#[trigger] all[j]) != BinderModel::Variable(name@),
    {
        let same = match &binders[k] {
            Binder::Variable(own) => same_text(own.as_str(), name),
            _ => false,
        };
        if same {
            assert(all[k as int] == BinderModel::Variable(name@));
            return true;
        }
    }
    false
}

/// The field of this name.
fn named_slot<'a>(slots: &'a Vec<Slot>, name: &str) -> (found: Option<&'a Value>)
    ensures
        found.deep_view() == named_value(slots.deep_view(), name@),
{
    match find_slot(slots, name) {
        Some(k) => Some(&slots[k].value),
        None => None,
    }
}

/// The field at this position, among fields without names.
fn positioned_slot<'a>(slots: &'a Vec<Slot>, index: usize) -> (found: Option<&'a Value>)
    ensures
        found.deep_view() == positioned_value(slots.deep_view(), index as nat),
{
    if index < slots.len() {
        match &slots[index].name {
            None => Some(&slots[index].value),
            Some(_) => None,
        }
    } else {
        None
    }
}

/// Finds the value at a place.
pub fn value_at<'a>(place: &Place, slots: &'a Vec<Slot>, binders: Option<&Vec<Binder>>) -> (found:
    Option<&'a Value>)
    ensures
        found.deep_view() == resolve(
            place.deep_view(),
            ScopeModel { slots: slots.deep_view(), binders: binders.deep_view() },
        ),
{
    match place {
        Place::Member(name) => match binders {
            None => named_slot(slots, name.as_str()),
            Some(_) => None,
        },
        Place::Position(index) => match binders {
            None => positioned_slot(slots, *index),
            Some(_) => None,
        },
        Place::Bound(name) => match binders {
            Some(pattern) => if binds(pattern, name.as_str()) {
                named_slot(slots, name.as_str())
            } else {
                None
            },
            None => None,
        },
        Place::BoundPosition(index) => match binders {
            Some(pattern) => {
                let bound = if *index < pattern.len() {
                    match &pattern[*index] {
                        Binder::PositionVariable(own) => *own == *index,
                        _ => false,
                    }
                } else {
                    false
                };
                if bound {
                    positioned_slot(slots, *index)
                } else {
                    None
                }
            },
            None => None,
        },
    }
}

/// The text of a representation in the mode asked for.
fn shown_text(rendering: &Rendering, expanded: bool) -> (out: &String)
    ensures
        out@ == rendering.deep_view().shown(expanded),
{
    if expanded {
        &rendering.expanded
    } else {
        &rendering.compact
    }
}

/// Computes the text that an argument contributes.
pub fn contribute(
    argument: &Argument,
    slots: &Vec<Slot>,
    binders: Option<&Vec<Binder>>,
    expanded: bool,
) -> (out: Option<String>)
    ensures
        out.deep_view() == argument_text(
            argument.deep_view(),
            ScopeModel { slots: slots.deep_view(), binders: binders.deep_view() },
            expanded,
        ),
{
    match argument {
        Argument::Value(place) => match value_at(place, slots, binders) {
            Some(value) => match &value.own {
                Some(own) => Some(copy_text(shown_text(own, expanded))),
                None => None,
            },
            None => None,
        },
        Argument::Text(text) => Some(copy_text(text)),
        Argument::NoneWord => Some(String::from_str("None")),
        Argument::SomeText(text) => Some(wrap("Some", text.as_str(), expanded)),
        Argument::OkText(text) => Some(wrap("Ok", text.as_str(), expanded)),
        Argument::ErrText(text) => Some(wrap("Err", text.as_str(), expanded)),
        Argument::OkValue(place) => match value_at(place, slots, binders) {
            Some(value) => match &value.content {
                Content::Success(Some(held)) => Some(
                    wrap("Ok", shown_text(held, expanded).as_str(), expanded),
                ),
                _ => None,
            },
            None => None,
        },
        Argument::ErrValue(place) => match value_at(place, slots, binders) {
            Some(value) => match &value.content {
                Content::Failure(Some(held)) => Some(
                    wrap("Err", shown_text(held, expanded).as_str(), expanded),
                ),
                _ => None,
            },
            None => None,
        },
    }
}

/// Asks a test of what a value holds.
pub fn ask(test: Test, content: &Content) -> (answer: Option<bool>)
    ensures
        answer == test_outcome(test, content.deep_view()),
{
    match test {
        Test::IsSome => match content {
            Content::Present => Some(true),
            Content::Absent => Some(false),
            _ => None,
        },
        Test::IsOk => match content {
            Content::Success(_) => Some(true),
            Content::Failure(_) => Some(false),
            _ => None,
        },
        Test::IsErr => match content {
            Content::Failure(_) => Some(true),
            Content::Success(_) => Some(false),
            _ => None,
        },
    }
}

/// Computes the text that a statement contributes.
pub fn run_statement(
    statement: &Statement,
    slots: &Vec<Slot>,
    binders: Option<&Vec<Binder>>,
    expanded: bool,
) -> (out: Option<String>)
    ensures
        out.deep_view() == statement_text(
            statement.deep_view(),
            ScopeModel { slots: slots.deep_view(), binders: binders.deep_view() },
            expanded,
        ),
{
    match statement {
        Statement::Field { argument, .. } => contribute(argument, slots, binders, expanded),
        Statement::Branch { test, place, when_true, when_false, .. } => match value_at(
            place,
            slots,
            binders,
        ) {
            Some(value) => match ask(*test, &value.content) {
                Some(true) => contribute(when_true, slots, binders, expanded),
                Some(false) => contribute(when_false, slots, binders, expanded),
                None => None,
            },
            None => None,
        },
    }
}

/// The label of a statement.
fn label_of(statement: &Statement) -> (label: &Option<String>)
    ensures
        label.deep_view() == statement.deep_view().label(),
{
    match statement {
        Statement::Field { label, .. } => label,
        Statement::Branch { label, .. } => label,
    }
}

/// Computes the text that a body writes under `name`.
pub fn run_body(
    name: &str,
    body: &Body,
    slots: &Vec<Slot>,
    binders: Option<&Vec<Binder>>,
    expanded: bool,
) -> (out: Option<String>)
    ensures
        out.deep_view() == body_text(
            name@,
            body.deep_view(),
            ScopeModel { slots: slots.deep_view(), binders: binders.deep_view() },
            expanded,
        ),
{
    let ghost scope = ScopeModel { slots: slots.deep_view(), binders: binders.deep_view() };
    match body {
        Body::Record(statements) => {
            let ghost all = statements.deep_view();
            let ghost entries = entries_of(all, scope, expanded);
            let mut builder = RecordBuilder::begin_record(name, expanded);
            for i in 0..statements.len()
                invariant
                    all == statements.deep_view(),
                    body.deep_view() == BodyModel::Record(all),
                    scope == (ScopeModel { slots: slots.deep_view(), binders: binders.deep_view() }),
                    entries == entries_of(all, scope, expanded),
                    forall|j: int|
                        0 <= j < i ==> (#[trigger] all[j]).label() is Some && statement_text(
                            all[j],
                            scope,
                            expanded,
                        ) is Some,
                    builder.text@ == record_progress(name@, entries, i as int, expanded),
                    builder.expanded == expanded,
                    builder.has_fields == (i > 0),
            {
                let statement = &statements[i];
                assert(all[i as int] == statement.deep_view());
                let label = match label_of(statement) {
                    Some(label) => label,
                    None => {
                        return None;
                    },
                };
                let text = match run_statement(statement, slots, binders, expanded) {
                    Some(text) => text,
                    None => {
                        return None;
                    },
                };
                builder.field(label.as_str(), text.as_str());
            }
            Some(builder.finish())
        },
        Body::Tuple(statements) => {
            let ghost all = statements.deep_view();
            let ghost values = values_of(all, scope, expanded);
            let mut builder = TupleBuilder::begin_tuple(name, expanded);
            for i in 0..statements.len()
                invariant
                    all == statements.deep_view(),
                    body.deep_view() == BodyModel::Tuple(all),
                    scope == (ScopeModel { slots: slots.deep_view(), binders: binders.deep_view() }),
                    values == values_of(all, scope, expanded),
                    forall|j: int|
                        0 <= j < i ==> (#[trigger] all[j]).label() is None && statement_text(
                            all[j],
                            scope,
                            expanded,
                        ) is Some,
                    builder.text@ == tuple_progress(name@, values, i as int, expanded),
                    builder.expanded == expanded,
                    builder.unnamed == (name@.len() == 0),
                    builder.fill == Fill::of(i as nat),
            {
                let statement = &statements[i];
                assert(all[i as int] == statement.deep_view());
                match label_of(statement) {
                    Some(_) => {
                        return None;
                    },
                    None => {},
                }
                let text = match run_statement(statement, slots, binders, expanded) {
                    Some(text) => text,
                    None => {
                        return None;
                    },
                };
                builder.field(text.as_str());
            }
            Some(builder.finish())
        },
        Body::Unit => Some(write_literal(name)),
    }
}

/// Whether a pattern between parentheses fits the fields.
fn fits_parentheses(binders: &Vec<Binder>, slots: &Vec<Slot>) -> (fit: bool)
    ensures
        fit == parentheses_fit(binders.deep_view(), slots.deep_view()),
{
    if binders.len() != slots.len() {
        return false;
    }
    let ghost pattern = binders.deep_view();
    let ghost all = slots.deep_view();
    for k in 0..slots.len()
        invariant
            pattern == binders.deep_view(),
            all == slots.deep_view(),
            binders.len() == slots.len(),
            forall|j: int|
                0 <= j < k ==> (#[trigger] all[j]).name is None && (pattern[j]
                    == BinderModel::Wildcard || pattern[j] == BinderModel::PositionVariable(
                    j as nat,
                )),
    {
        let unnamed = match &slots[k].name {
            None => true,
            Some(_) => false,
        };
        let placed = match &binders[k] {
            Binder::Wildcard => true,
            Binder::PositionVariable(own) => *own == k,
            _ => false,
        };
        if !unnamed || !placed {
            assert(!(all[k as int].name is None && (pattern[k as int] == BinderModel::Wildcard
                || pattern[k as int] == BinderModel::PositionVariable(k as nat))));
            return false;
        }
    }
    true
}

/// Whether a pattern between braces fits the fields.
fn fits_braces(binders: &Vec<Binder>, slots: &Vec<Slot>) -> (fit: bool)
    ensures
        fit == braces_fit(binders.deep_view(), slots.deep_view()),
{
    let ghost pattern = binders.deep_view();
    let ghost all = slots.deep_view();
    for k in 0..slots.len()
        invariant
            pattern == binders.deep_view(),
            all == slots.deep_view(),
            forall|j: int| 0 <= j < k ==> (#[trigger] all[j]).name is Some,
    {
        match &slots[k].name {
            Some(_) => {},
            None => {
                assert(all[k as int].name is None);
                return false;
            },
        }
    }
    for j in 0..binders.len()
        invariant
            pattern == binders.deep_view(),
            all == slots.deep_view(),
            forall|k: int| 0 <= k < all.len() ==> (#[trigger] all[k]).name is Some,
            forall|i: int|
                0 <= i < j ==> match #[trigger] pattern[i] {
                    BinderModel::Variable(name) => find_named(all, name, 0) is Some,
                    BinderModel::Rest => i == pattern.len() - 1,
                    _ => false,
                },
    {
        let allowed = match &binders[j] {
            Binder::Variable(name) => match find_slot(slots, name.as_str()) {
                Some(_) => true,
                None => false,
            },
            Binder::Rest => j + 1 == binders.len(),
            _ => false,
        };
        if !allowed {
            assert(!match pattern[j as int] {
                BinderModel::Variable(name) => find_named(all, name, 0) is Some,
                BinderModel::Rest => j == pattern.len() - 1,
                _ => false,
            });
            return false;
        }
    }
    let open_ended = if binders.len() > 0 {
        match &binders[binders.len() - 1] {
            Binder::Rest => true,
            _ => false,
        }
    } else {
        false
    };
    if !open_ended {
        for k in 0..slots.len()
            invariant
                pattern == binders.deep_view(),
                all == slots.deep_view(),
                !(pattern.len() > 0 && pattern.last() == BinderModel::Rest),
                forall|k: int| 0 <= k < all.len() ==> (#[trigger] all[k]).name is Some,
                forall|j: int| 0 <= j < k ==> binds_name(pattern, (#[trigger] all[j]).name->0),
        {
            let bound = match &slots[k].name {
                Some(name) => binds(binders, name.as_str()),
                None => false,
            };
            if !bound {
                assert(!binds_name(pattern, all[k as int].name->0));
                return false;
            }
        }
    }
    true
}

/// Whether an arm's pattern fits the fields of a value.
pub fn fits(form: PatternForm, binders: &Vec<Binder>, slots: &Vec<Slot>) -> (fit: bool)
    ensures
        fit == pattern_fits(form, binders.deep_view(), slots.deep_view()),
{
    match form {
        PatternForm::Bare => binders.len() == 0 && slots.len() == 0,
        PatternForm::Parentheses => fits_parentheses(binders, slots),
        PatternForm::Braces => fits_braces(binders, slots),
    }
}

/// Computes the text that an arm writes for the fields of a value.
pub fn run_arm(arm: &Arm, slots: &Vec<Slot>, expanded: bool) -> (out: Option<String>)
    ensures
        out.deep_view() == arm_text(arm.deep_view(), slots.deep_view(), expanded),
{
    if fits(arm.form, &arm.binders, slots) {
        run_body(arm.variant.as_str(), &arm.body, slots, Some(&arm.binders), expanded)
    } else {
        None
    }
}

/// Finds the first arm that handles this variant.
pub fn select_arm(arms: &Vec<Arm>, variant: &str) -> (found: Option<usize>)
    ensures
        match found {
            Some(k) => k < arms.len() && selected_arm(arms.deep_view(), variant@, 0) == Some(
                k as int,
            ),
            None => selected_arm(arms.deep_view(), variant@, 0) is None,
        },
{
    let ghost all = arms.deep_view();
    for k in 0..arms.len()
        invariant
            all == arms.deep_view(),
            selected_arm(all, variant@, 0) == selected_arm(all, variant@, k as int),
    {
        if same_text(arms[k].variant.as_str(), variant) {
            return Some(k);
        }
    }
    None
}

/// Computes the text that the generated function writes for a value, in the
/// compact or in the expanded mode.
pub fn render(implementation: &Implementation, instance: &Instance, expanded: bool) -> (out:
    Option<String>)
    ensures
        out.deep_view() == rendered(implementation.deep_view(), instance.deep_view(), expanded),
{
    match &implementation.function {
        Function::Direct(body) => match &instance.variant {
            None => run_body(implementation.name.as_str(), body, &instance.slots, None, expanded),
            Some(_) => None,
        },
        Function::Dispatch(arms) => match &instance.variant {
            Some(variant) => match select_arm(arms, variant.as_str()) {
                Some(k) => run_arm(&arms[k], &instance.slots, expanded),
                None => None,
            },
            None => None,
        },
    }
}

} // verus!
