//! The generated function as data: which contributions it makes to the
//! output builder, under which tests, and through which patterns it reaches
//! the fields of an enum's variant.

use vstd::prelude::*;

verus! {

/// Where the generated function finds a field's value.
#[derive(Debug, Clone, PartialEq, Eq)]
pub enum Place {
    /// `self.name`
    Member(String),
    /// `self.0`, `self.1`, and so on.
    Position(usize),
    /// The variable that a variant's pattern binds to the field `name`.
    Bound(String),
    /// The variable `tuple_0`, `tuple_1`, and so on, that a variant's
    /// pattern binds to the field at that position.
    BoundPosition(usize),
}

/// [`Place`] as a mathematical value, with its texts as sequences of characters.
pub enum PlaceModel {
    Member(Seq<char>),
    Position(nat),
    Bound(Seq<char>),
    BoundPosition(nat),
}

impl DeepView for Place {
    type V = PlaceModel;

    open spec fn deep_view(&self) -> PlaceModel {
        match self {
            Place::Member(name) => PlaceModel::Member(name@),
            Place::Position(index) => PlaceModel::Position(*index as nat),
            Place::Bound(name) => PlaceModel::Bound(name@),
            Place::BoundPosition(index) => PlaceModel::BoundPosition(*index as nat),
        }
    }
}

/// What one contribution hands to the output builder.
#[derive(Debug, Clone, PartialEq, Eq)]
pub enum Argument {
    /// The value found at a place: `&place`.
    Value(Place),
    /// A fixed text, shown as it is: `&format_args!("{}", text)`.
    Text(String),
    /// The word `None`: `&format_args!("None")`.
    NoneWord,
    /// A fixed text inside `Some`: `&Some::<_>(format_args!("{}", text))`.
    SomeText(String),
    /// A fixed text inside `Ok`: `&Ok::<_, ()>(format_args!("{}", text))`.
    OkText(String),
    /// A fixed text inside `Err`: `&Err::<(), _>(format_args!("{}", text))`.
    ErrText(String),
    /// The success held at a place, inside `Ok`:
    /// `&Ok::<_, ()>(place.as_ref().ok().unwrap())`.
    OkValue(Place),
    /// The failure held at a place, inside `Err`:
    /// `&Err::<(), _>(place.as_ref().err().unwrap())`.
    ErrValue(Place),
}

/// [`Argument`] as a mathematical value, with its texts as sequences of characters.
pub enum ArgumentModel {
    Value(PlaceModel),
    Text(Seq<char>),
    NoneWord,
    SomeText(Seq<char>),
    OkText(Seq<char>),
    ErrText(Seq<char>),
    OkValue(PlaceModel),
    ErrValue(PlaceModel),
}

impl DeepView for Argument {
    type V = ArgumentModel;

    open spec fn deep_view(&self) -> ArgumentModel {
        match self {
            Argument::Value(place) => ArgumentModel::Value(place.deep_view()),
            Argument::Text(text) => ArgumentModel::Text(text@),
            Argument::NoneWord => ArgumentModel::NoneWord,
            Argument::SomeText(text) => ArgumentModel::SomeText(text@),
            Argument::OkText(text) => ArgumentModel::OkText(text@),
            Argument::ErrText(text) => ArgumentModel::ErrText(text@),
            Argument::OkValue(place) => ArgumentModel::OkValue(place.deep_view()),
            Argument::ErrValue(place) => ArgumentModel::ErrValue(place.deep_view()),
        }
    }
}

/// A question that the generated function asks of a field's value.
#[derive(Debug, Clone, Copy, PartialEq, Eq, Structural)]
pub enum Test {
    /// `place.is_some()`
    IsSome,
    /// `place.is_ok()`
    IsOk,
    /// `place.is_err()`
    IsErr,
}

/// One statement of the generated function: a contribution, under the
/// field's label where it has one.
#[derive(Debug, Clone, PartialEq, Eq)]
pub enum Statement {
    /// `f.field(label, argument);` or `f.field(argument);`
    Field { label: Option<String>, argument: Argument },
    /// `if test(place) { contribute when_true } else { contribute when_false }`
    Branch {
        label: Option<String>,
        test: Test,
        place: Place,
        when_true: Argument,
        when_false: Argument,
    },
}

/// [`Statement`] as a mathematical value, with its texts as sequences of characters.
pub enum StatementModel {
    Field { label: Option<Seq<char>>, argument: ArgumentModel },
    Branch {
        label: Option<Seq<char>>,
        test: Test,
        place: PlaceModel,
        when_true: ArgumentModel,
        when_false: ArgumentModel,
    },
}

impl DeepView for Statement {
    type V = StatementModel;

    open spec fn deep_view(&self) -> StatementModel {
        match self {
            Statement::Field { label, argument } => StatementModel::Field {
                label: label.deep_view(),
                argument: argument.deep_view(),
            },
            Statement::Branch { label, test, place, when_true, when_false } => {
                StatementModel::Branch {
                    label: label.deep_view(),
                    test: *test,
                    place: place.deep_view(),
                    when_true: when_true.deep_view(),
                    when_false: when_false.deep_view(),
                }
            },
        }
    }
}

/// One element of the pattern through which an enum's variant is taken
/// apart.
#[derive(Debug, Clone, PartialEq, Eq)]
pub enum Binder {
    /// A field's name, which binds the variable of that name to the field.
    Variable(String),
    /// The variable `tuple_0`, `tuple_1`, and so on, bound to the field at
    /// the binder's own position in the pattern.
    PositionVariable(usize),
    /// `_`: the field at this position is not looked at.
    Wildcard,
    /// `..`: the fields not named are not looked at.
    Rest,
}

/// [`Binder`] as a mathematical value, with its texts as sequences of characters.
pub enum BinderModel {
    Variable(Seq<char>),
    PositionVariable(nat),
    Wildcard,
    Rest,
}

impl DeepView for Binder {
    type V = BinderModel;

    open spec fn deep_view(&self) -> BinderModel {
        match self {
            Binder::Variable(name) => BinderModel::Variable(name@),
            Binder::PositionVariable(index) => BinderModel::PositionVariable(*index as nat),
            Binder::Wildcard => BinderModel::Wildcard,
            Binder::Rest => BinderModel::Rest,
        }
    }
}

/// What the generated function does once it has the fields at hand.
#[derive(Debug, Clone, PartialEq, Eq)]
pub enum Body {
    /// Opens a record under the name, makes the contributions, closes it.
    Record(Vec<Statement>),
    /// Opens a tuple under the name, makes the contributions, closes it.
    Tuple(Vec<Statement>),
    /// Writes the bare name.
    Unit,
}

/// [`Body`] as a mathematical value, with its texts as sequences of characters.
pub enum BodyModel {
    Record(Seq<StatementModel>),
    Tuple(Seq<StatementModel>),
    Unit,
}

impl DeepView for Body {
    type V = BodyModel;

    open spec fn deep_view(&self) -> BodyModel {
        match self {
            Body::Record(statements) => BodyModel::Record(statements.deep_view()),
            Body::Tuple(statements) => BodyModel::Tuple(statements.deep_view()),
            Body::Unit => BodyModel::Unit,
        }
    }
}

/// The delimiters of a variant's pattern, which are those of its
/// declaration.
#[derive(Debug, Clone, Copy, PartialEq, Eq, Structural)]
pub enum PatternForm {
    /// `Type::Variant { .. }`
    Braces,
    /// `Type::Variant(..)`
    Parentheses,
    /// `Type::Variant`
    Bare,
}

/// The arm of the dispatch that handles one variant.
#[derive(Debug, Clone, PartialEq, Eq)]
pub struct Arm {
    pub variant: String,
    pub form: PatternForm,
    pub binders: Vec<Binder>,
    pub body: Body,
}

/// [`Arm`] as a mathematical value, with its texts as sequences of characters.
pub struct ArmModel {
    pub variant: Seq<char>,
    pub form: PatternForm,
    pub binders: Seq<BinderModel>,
    pub body: BodyModel,
}

impl DeepView for Arm {
    type V = ArmModel;

    open spec fn deep_view(&self) -> ArmModel {
        ArmModel {
            variant: self.variant@,
            form: self.form,
            binders: self.binders.deep_view(),
            body: self.body.deep_view(),
        }
    }
}

/// The generated function's body.
#[derive(Debug, Clone, PartialEq, Eq)]
pub enum Function {
    /// For a struct: one body, under the type's name.
    Direct(Body),
    /// For an enum: a dispatch on the variant, with one arm for each and no
    /// default; each arm's body stands under its variant's name.
    Dispatch(Vec<Arm>),
}

/// [`Function`] as a mathematical value, with its texts as sequences of characters.
pub enum FunctionModel {
    Direct(BodyModel),
    Dispatch(Seq<ArmModel>),
}

impl DeepView for Function {
    type V = FunctionModel;

    open spec fn deep_view(&self) -> FunctionModel {
        match self {
            Function::Direct(body) => FunctionModel::Direct(body.deep_view()),
            Function::Dispatch(arms) => FunctionModel::Dispatch(arms.deep_view()),
        }
    }
}

/// The generated implementation: for which type, with which requirement on
/// each of its parameters, and what the function does.
#[derive(Debug, Clone, PartialEq, Eq)]
pub struct Implementation {
    pub name: String,
    /// For each parameter of the type, in order: whether it must be
    /// representable itself.
    pub requirements: Vec<bool>,
    pub function: Function,
}

/// [`Implementation`] as a mathematical value, with its texts as sequences of characters.
pub struct ImplementationModel {
    pub name: Seq<char>,
    pub requirements: Seq<bool>,
    pub function: FunctionModel,
}

impl DeepView for Implementation {
    type V = ImplementationModel;

    open spec fn deep_view(&self) -> ImplementationModel {
        ImplementationModel {
            name: self.name@,
            requirements: self.requirements@,
            function: self.function.deep_view(),
        }
    }
}

impl ArgumentModel {
    /// Whether the argument reads the value at `place`.
    pub open spec fn reads(self, place: PlaceModel) -> bool {
        match self {
            ArgumentModel::Value(read) => read == place,
            ArgumentModel::OkValue(read) => read == place,
            ArgumentModel::ErrValue(read) => read == place,
            _ => false,
        }
    }
}

impl StatementModel {
    /// The label under which the statement contributes.
    pub open spec fn label(self) -> Option<Seq<char>> {
        match self {
            StatementModel::Field { label, .. } => label,
            StatementModel::Branch { label, .. } => label,
        }
    }

    /// Whether the statement reads the value at `place`.
    pub open spec fn reads(self, place: PlaceModel) -> bool {
        match self {
            StatementModel::Field { argument, .. } => argument.reads(place),
            StatementModel::Branch { place: tested, when_true, when_false, .. } => {
                tested == place || when_true.reads(place) || when_false.reads(place)
            },
        }
    }
}

} // verus!
