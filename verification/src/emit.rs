//! From a type's description to the implementation generated for it.

use vstd::prelude::*;

use crate::error::{outcome, ConfigurationError, ErrorKind, Location, Site};
use crate::field::{extract_value_attr, field_contribution};
use crate::overrides::{parse_ignore_generics, suppress_generic_bound};
use crate::plan::{Arm, ArmModel, Binder, BinderModel, Body, BodyModel, Function, FunctionModel,
    Implementation, ImplementationModel, PatternForm, Place, PlaceModel, Statement,
    StatementModel};
use crate::shape::{generic_requirements, requirements, Data, DataModel, Fields, FieldsModel,
    NamedField, NamedFieldModel, Shape, TypeDescription, TypeModel, UnnamedField,
    VariantDescription, VariantModel};
use crate::text::copy_text;

verus! {

/// What a list of fields belongs to.
#[derive(Debug, Clone, Copy, PartialEq, Eq, Structural)]
pub enum Owner {
    /// A struct.
    Struct,
    /// The variant at this position of an enum.
    Variant(usize),
}

/// What carries the annotations of the field at `index`.
pub open spec fn site_of(owner: Owner, index: int) -> Site {
    match owner {
        Owner::Struct => Site::Field(index as usize),
        Owner::Variant(variant) => Site::VariantField(variant, index as usize),
    }
}

/// Where the generated function finds the field at `index`: in `self` for
/// a struct, in a variable of the pattern for a variant.
pub open spec fn place_of(fields: FieldsModel, owner: Owner, index: int) -> PlaceModel {
    match owner {
        Owner::Struct => match fields {
            FieldsModel::Named(named) => PlaceModel::Member(named[index].name),
            _ => PlaceModel::Position(index as nat),
        },
        Owner::Variant(_) => match fields {
            FieldsModel::Named(named) => PlaceModel::Bound(named[index].name),
            _ => PlaceModel::BoundPosition(index as nat),
        },
    }
}

/// What the field at `index` contributes.
pub open spec fn contribution_at(fields: FieldsModel, owner: Owner, index: int) -> Result<
    (bool, StatementModel),
    ConfigurationError,
> {
    field_contribution(
        place_of(fields, owner, index),
        fields.attrs(index),
        fields.label(index),
        site_of(owner, index),
    )
}

/// The position of the first field at or after `from` whose annotations are
/// misconfigured.
pub open spec fn first_faulty_field(fields: FieldsModel, owner: Owner, from: int) -> Option<int>
    decreases fields.count() - from,
{
    if from < 0 || from >= fields.count() {
        None
    } else if contribution_at(fields, owner, from) is Err {
        Some(from)
    } else {
        first_faulty_field(fields, owner, from + 1)
    }
}

/// What the fields contribute, in the order of their declaration: for each
/// whether its value is looked at, and its statement. The first
/// misconfigured field is an error.
pub open spec fn contributions(fields: FieldsModel, owner: Owner) -> Result<
    Seq<(bool, StatementModel)>,
    ConfigurationError,
> {
    match first_faulty_field(fields, owner, 0) {
        Some(index) => Err(contribution_at(fields, owner, index)->Err_0),
        None => Ok(
            Seq::new(fields.count(), |i: int| contribution_at(fields, owner, i)->Ok_0),
        ),
    }
}

/// The statements among the contributions.
pub open spec fn statements_of(made: Seq<(bool, StatementModel)>) -> Seq<StatementModel> {
    Seq::new(made.len(), |i: int| made[i].1)
}

/// The binders for the first `upto` named fields: the names of those whose
/// value is looked at, in order.
pub open spec fn bound_names(
    fields: Seq<NamedFieldModel>,
    made: Seq<(bool, StatementModel)>,
    upto: int,
) -> Seq<BinderModel>
    decreases upto,
{
    if upto <= 0 {
        Seq::empty()
    } else {
        let front = bound_names(fields, made, upto - 1);
        if made[upto - 1].0 {
            front.push(BinderModel::Variable(fields[upto - 1].name))
        } else {
            front
        }
    }
}

/// Whether some field's value is not looked at.
pub open spec fn some_unused(made: Seq<(bool, StatementModel)>) -> bool {
    exists|i: int| 0 <= i < made.len() && !(#[trigger] made[i]).0
}

/// The pattern's binders for a variant. Between parentheses every position
/// keeps its place: a variable where the value is looked at, a wildcard
/// where it is not. Between braces the fields not looked at are left out,
/// and `..` closes the pattern if any was.
pub open spec fn binders_for(fields: FieldsModel, made: Seq<(bool, StatementModel)>) -> Seq<
    BinderModel,
> {
    match fields {
        FieldsModel::Named(named) => {
            let names = bound_names(named, made, named.len() as int);
            if some_unused(made) {
                names.push(BinderModel::Rest)
            } else {
                names
            }
        },
        FieldsModel::Unnamed(unnamed) => Seq::new(
            unnamed.len(),
            |i: int|
                if made[i].0 {
                    BinderModel::PositionVariable(i as nat)
                } else {
                    BinderModel::Wildcard
                },
        ),
        FieldsModel::Unit => Seq::empty(),
    }
}

/// The delimiters of the pattern for fields declared in this way.
pub open spec fn form_of(fields: FieldsModel) -> PatternForm {
    match fields {
        FieldsModel::Named(_) => PatternForm::Braces,
        FieldsModel::Unnamed(_) => PatternForm::Parentheses,
        FieldsModel::Unit => PatternForm::Bare,
    }
}

/// The body for fields of this shape with these statements.
pub open spec fn body_for(shape: Shape, statements: Seq<StatementModel>) -> BodyModel {
    match shape {
        Shape::Record => BodyModel::Record(statements),
        Shape::Tuple => BodyModel::Tuple(statements),
        Shape::Unit => BodyModel::Unit,
    }
}

/// The arm for the variant at position `index`.
pub open spec fn arm_for(variant: VariantModel, index: usize) -> Result<
    ArmModel,
    ConfigurationError,
> {
    match contributions(variant.fields, Owner::Variant(index)) {
        Ok(made) => Ok(
            ArmModel {
                variant: variant.name,
                form: form_of(variant.fields),
                binders: binders_for(variant.fields, made),
                body: body_for(variant.fields.shape(), statements_of(made)),
            },
        ),
        Err(error) => Err(error),
    }
}

/// The position of the first variant at or after `from` with a
/// misconfigured field.
pub open spec fn first_faulty_variant(variants: Seq<VariantModel>, from: int) -> Option<int>
    decreases variants.len() - from,
{
    if from < 0 || from >= variants.len() {
        None
    } else if arm_for(variants[from], from as usize) is Err {
        Some(from)
    } else {
        first_faulty_variant(variants, from + 1)
    }
}

/// The arms of the dispatch: one for each variant, in the order of their
/// declaration.
pub open spec fn arms_for(variants: Seq<VariantModel>) -> Result<
    Seq<ArmModel>,
    ConfigurationError,
> {
    match first_faulty_variant(variants, 0) {
        Some(index) => Err(arm_for(variants[index], index as usize)->Err_0),
        None => Ok(Seq::new(variants.len(), |k: int| arm_for(variants[k], k as usize)->Ok_0)),
    }
}

/// The function generated for a declaration.
pub open spec fn function_for(data: DataModel) -> Result<FunctionModel, ConfigurationError> {
    match data {
        DataModel::Struct(fields) => match contributions(fields, Owner::Struct) {
            Ok(made) => Ok(FunctionModel::Direct(body_for(fields.shape(), statements_of(made)))),
            Err(error) => Err(error),
        },
        DataModel::Enum(variants) => match arms_for(variants) {
            Ok(arms) => Ok(FunctionModel::Dispatch(arms)),
            Err(error) => Err(error),
        },
        DataModel::Union => Err(
            ConfigurationError {
                kind: ErrorKind::ExpectedStructOrEnum,
                location: Location::Keyword,
            },
        ),
    }
}

/// The implementation generated for a type. The type's own annotations are
/// read first, then its fields in the order of their declaration; the first
/// misconfiguration met is the error, and nothing is generated.
pub open spec fn implementation_for(described: TypeModel) -> Result<
    ImplementationModel,
    ConfigurationError,
> {
    match suppress_generic_bound(described.attrs) {
        Err(error) => Err(error),
        Ok(suppress) => match function_for(described.data) {
            Err(error) => Err(error),
            Ok(function) => Ok(
                ImplementationModel {
                    name: described.name,
                    requirements: requirements(described.generics, suppress),
                    function,
                },
            ),
        },
    }
}

/// Generates the statements for the named fields of a struct.
pub fn generate_field_stmts(fields: &Vec<NamedField>) -> (generated: Result<
    Vec<Statement>,
    ConfigurationError,
>)
    ensures
        match contributions(FieldsModel::Named(fields.deep_view()), Owner::Struct) {
            Ok(made) => generated is Ok && generated->Ok_0.deep_view() == statements_of(made),
            Err(error) => generated == Err::<Vec<Statement>, _>(error),
        },
{
    let ghost model = FieldsModel::Named(fields.deep_view());
    let mut statements: Vec<Statement> = Vec::new();
    for i in 0..fields.len()
        invariant
            model == FieldsModel::Named(fields.deep_view()),
            first_faulty_field(model, Owner::Struct, 0) == first_faulty_field(
                model,
                Owner::Struct,
                i as int,
            ),
            statements.deep_view() == Seq::new(
                i as nat,
                |j: int| contribution_at(model, Owner::Struct, j)->Ok_0.1,
            ),
    {
        let field = &fields[i];
        let place = Place::Member(copy_text(&field.name));
        let label = Some(copy_text(&field.name));
        match extract_value_attr(&place, &field.attrs, label, Site::Field(i)) {
            Ok((_, statement)) => {
                let ghost before = statements.deep_view();
                statements.push(statement);
                assert(statements.deep_view() == before.push(statement.deep_view()));
            },
            Err(error) => {
                return Err(error);
            },
        }
    }
    Ok(statements)
}

/// Generates the statements for the fields of a tuple struct.
pub fn generate_tuple_field_stmts(fields: &Vec<UnnamedField>) -> (generated: Result<
    Vec<Statement>,
    ConfigurationError,
>)
    ensures
        match contributions(FieldsModel::Unnamed(fields.deep_view()), Owner::Struct) {
            Ok(made) => generated is Ok && generated->Ok_0.deep_view() == statements_of(made),
            Err(error) => generated == Err::<Vec<Statement>, _>(error),
        },
{
    let ghost model = FieldsModel::Unnamed(fields.deep_view());
    let mut statements: Vec<Statement> = Vec::new();
    for i in 0..fields.len()
        invariant
            model == FieldsModel::Unnamed(fields.deep_view()),
            first_faulty_field(model, Owner::Struct, 0) == first_faulty_field(
                model,
                Owner::Struct,
                i as int,
            ),
            statements.deep_view() == Seq::new(
                i as nat,
                |j: int| contribution_at(model, Owner::Struct, j)->Ok_0.1,
            ),
    {
        let place = Place::Position(i);
        match extract_value_attr(&place, &fields[i].attrs, None, Site::Field(i)) {
            Ok((_, statement)) => {
                let ghost before = statements.deep_view();
                statements.push(statement);
                assert(statements.deep_view() == before.push(statement.deep_view()));
            },
            Err(error) => {
                return Err(error);
            },
        }
    }
    Ok(statements)
}

/// Generates the pattern's binders and the statements for the fields of an
/// enum's variant, which stands at position `variant`.
pub fn generate_enum_variant_fields(fields: &Fields, variant: usize) -> (generated: Result<
    (Vec<Binder>, Vec<Statement>),
    ConfigurationError,
>)
    ensures
        match contributions(fields.deep_view(), Owner::Variant(variant)) {
            Ok(made) => generated is Ok && generated->Ok_0.0.deep_view() == binders_for(
                fields.deep_view(),
                made,
            ) && generated->Ok_0.1.deep_view() == statements_of(made),
            Err(error) => generated == Err::<(Vec<Binder>, Vec<Statement>), _>(error),
        },
{
    let ghost model = fields.deep_view();
    let ghost owner = Owner::Variant(variant);
    let mut pats: Vec<Binder> = Vec::new();
    let mut statements: Vec<Statement> = Vec::new();
    let mut unused_fields = false;
    match fields {
        Fields::Named(named) => {
            for i in 0..named.len()
                invariant
                    model == fields.deep_view(),
                    model == FieldsModel::Named(named.deep_view()),
                    owner == Owner::Variant(variant),
                    first_faulty_field(model, owner, 0) == first_faulty_field(
                        model,
                        owner,
                        i as int,
                    ),
                    statements.deep_view() == Seq::new(
                        i as nat,
                        |j: int| contribution_at(model, owner, j)->Ok_0.1,
                    ),
                    pats.deep_view() == bound_names(
                        named.deep_view(),
                        Seq::new(i as nat, |j: int| contribution_at(model, owner, j)->Ok_0),
                        i as int,
                    ),
                    unused_fields == some_unused(
                        Seq::new(i as nat, |j: int| contribution_at(model, owner, j)->Ok_0),
                    ),
            {
                let field = &named[i];
                let place = Place::Bound(copy_text(&field.name));
                let label = Some(copy_text(&field.name));
                match extract_value_attr(
                    &place,
                    &field.attrs,
                    label,
                    Site::VariantField(variant, i),
                ) {
                    Ok((ident_used, statement)) => {
                        let ghost before = statements.deep_view();
                        let ghost bound = pats.deep_view();
                        let ghost made = Seq::new(
                            i as nat,
                            |j: int| contribution_at(model, owner, j)->Ok_0,
                        );
                        let ghost grown = Seq::new(
                            (i + 1) as nat,
                            |j: int| contribution_at(model, owner, j)->Ok_0,
                        );
                        if ident_used {
                            pats.push(Binder::Variable(copy_text(&field.name)));
                        } else {
                            unused_fields = true;
                        }
                        statements.push(statement);
                        proof {
                            assert(statements.deep_view() == before.push(statement.deep_view()));
                            lemma_bound_names_ignores_rest(named.deep_view(), made, grown, i as int);
                            if ident_used {
                                assert(pats.deep_view() == bound.push(
                                    BinderModel::Variable(field.name@),
                                ));
                            }
                            if some_unused(made) {
                                let k = choose|k: int| 0 <= k < made.len() && !(#[trigger] made[k]).0;
                                assert(!grown[k].0);
                            }
                            if some_unused(grown) {
                                let k = choose|k: int|
                                    0 <= k < grown.len() && !(#[trigger] grown[k]).0;
                                if k < i {
                                    assert(!made[k].0);
                                }
                            }
                        }
                    },
                    Err(error) => {
                        return Err(error);
                    },
                }
            }
            if unused_fields {
                pats.push(Binder::Rest);
            }
        },
        Fields::Unnamed(unnamed) => {
            for i in 0..unnamed.len()
                invariant
                    model == fields.deep_view(),
                    model == FieldsModel::Unnamed(unnamed.deep_view()),
                    owner == Owner::Variant(variant),
                    first_faulty_field(model, owner, 0) == first_faulty_field(
                        model,
                        owner,
                        i as int,
                    ),
                    statements.deep_view() == Seq::new(
                        i as nat,
                        |j: int| contribution_at(model, owner, j)->Ok_0.1,
                    ),
                    pats.deep_view() == Seq::new(
                        i as nat,
                        |j: int|
                            if contribution_at(model, owner, j)->Ok_0.0 {
                                BinderModel::PositionVariable(j as nat)
                            } else {
                                BinderModel::Wildcard
                            },
                    ),
            {
                let place = Place::BoundPosition(i);
                match extract_value_attr(
                    &place,
                    &unnamed[i].attrs,
                    None,
                    Site::VariantField(variant, i),
                ) {
                    Ok((ident_used, statement)) => {
                        let ghost before = statements.deep_view();
                        let ghost bound = pats.deep_view();
                        let binder = if ident_used {
                            Binder::PositionVariable(i)
                        } else {
                            Binder::Wildcard
                        };
                        pats.push(binder);
                        statements.push(statement);
                        assert(statements.deep_view() == before.push(statement.deep_view()));
                        assert(pats.deep_view() == bound.push(binder.deep_view()));
                    },
                    Err(error) => {
                        return Err(error);
                    },
                }
            }
        },
        Fields::Unit => {},
    }
    Ok((pats, statements))
}

/// The binders for a prefix of the fields depend on the contributions of
/// that prefix only.
proof fn lemma_bound_names_ignores_rest(
    fields: Seq<NamedFieldModel>,
    short: Seq<(bool, StatementModel)>,
    long: Seq<(bool, StatementModel)>,
    upto: int,
)
    requires
        0 <= upto <= short.len() <= long.len(),
        forall|j: int| 0 <= j < upto ==> short[j] == long[j],
    ensures
        bound_names(fields, short, upto) == bound_names(fields, long, upto),
    decreases upto,
{
    if upto > 0 {
        lemma_bound_names_ignores_rest(fields, short, long, upto - 1);
    }
}

/// Generates the arm of the dispatch for one variant of an enum, which
/// stands at position `index`.
pub fn generate_arm(variant: &VariantDescription, index: usize) -> (generated: Result<
    Arm,
    ConfigurationError,
>)
    ensures
        outcome(generated) == arm_for(variant.deep_view(), index),
{
    match generate_enum_variant_fields(&variant.fields, index) {
        Ok((pats, statements)) => {
            let form = match &variant.fields {
                Fields::Named(_) => PatternForm::Braces,
                Fields::Unnamed(_) => PatternForm::Parentheses,
                Fields::Unit => PatternForm::Bare,
            };
            let body = match variant.fields.shape() {
                Shape::Record => Body::Record(statements),
                Shape::Tuple => Body::Tuple(statements),
                Shape::Unit => Body::Unit,
            };
            Ok(Arm { variant: copy_text(&variant.name), form, binders: pats, body })
        },
        Err(error) => Err(error),
    }
}

/// Generates the implementation for a struct with named fields from their
/// statements.
pub fn implement_named_fields_struct_debug(
    ident: &String,
    requirements: Vec<bool>,
    stmts: Vec<Statement>,
) -> (implementation: Implementation)
    ensures
        implementation.deep_view() == (ImplementationModel {
            name: ident@,
            requirements: requirements@,
            function: FunctionModel::Direct(BodyModel::Record(stmts.deep_view())),
        }),
{
    Implementation {
        name: copy_text(ident),
        requirements,
        function: Function::Direct(Body::Record(stmts)),
    }
}

/// Generates the implementation for a tuple struct from its fields'
/// statements.
pub fn implement_unnamed_fields_struct_debug(
    ident: &String,
    requirements: Vec<bool>,
    stmts: Vec<Statement>,
) -> (implementation: Implementation)
    ensures
        implementation.deep_view() == (ImplementationModel {
            name: ident@,
            requirements: requirements@,
            function: FunctionModel::Direct(BodyModel::Tuple(stmts.deep_view())),
        }),
{
    Implementation {
        name: copy_text(ident),
        requirements,
        function: Function::Direct(Body::Tuple(stmts)),
    }
}

/// Generates the implementation for a struct without fields.
pub fn implement_unit_struct_debug(ident: &String, requirements: Vec<bool>) -> (implementation:
    Implementation)
    ensures
        implementation.deep_view() == (ImplementationModel {
            name: ident@,
            requirements: requirements@,
            function: FunctionModel::Direct(BodyModel::Unit),
        }),
{
    Implementation { name: copy_text(ident), requirements, function: Function::Direct(Body::Unit) }
}

/// Generates the implementation for an enum from the arms of its variants.
pub fn implement_enum_debug(ident: &String, requirements: Vec<bool>, arms: Vec<Arm>) -> (implementation:
    Implementation)
    ensures
        implementation.deep_view() == (ImplementationModel {
            name: ident@,
            requirements: requirements@,
            function: FunctionModel::Dispatch(arms.deep_view()),
        }),
{
    Implementation { name: copy_text(ident), requirements, function: Function::Dispatch(arms) }
}

/// Generates the arms for the variants of an enum.
pub fn generate_arms(variants: &Vec<VariantDescription>) -> (generated: Result<
    Vec<Arm>,
    ConfigurationError,
>)
    ensures
        outcome(generated) == arms_for(variants.deep_view()),
{
    let ghost model = variants.deep_view();
    let mut arms: Vec<Arm> = Vec::new();
    for k in 0..variants.len()
        invariant
            model == variants.deep_view(),
            first_faulty_variant(model, 0) == first_faulty_variant(model, k as int),
            arms.deep_view() == Seq::new(k as nat, |j: int| arm_for(model[j], j as usize)->Ok_0),
    {
        match generate_arm(&variants[k], k) {
            Ok(arm) => {
                let ghost before = arms.deep_view();
                arms.push(arm);
                assert(arms.deep_view() == before.push(arm.deep_view()));
            },
            Err(error) => {
                return Err(error);
            },
        }
    }
    Ok(arms)
}

/// Generates the implementation for a type from its description.
pub fn expand_derive_serialize(ast: &TypeDescription) -> (expanded: Result<
    Implementation,
    ConfigurationError,
>)
    ensures
        outcome(expanded) == implementation_for(ast.deep_view()),
{
    let ignore_generics = match parse_ignore_generics(&ast.attrs) {
        Ok(flag) => flag,
        Err(error) => {
            return Err(error);
        },
    };
    let generics_debug_bounded = generic_requirements(&ast.generics, ignore_generics);
    match &ast.data {
        Data::Struct(fields) => match fields {
            Fields::Named(named) => match generate_field_stmts(named) {
                Ok(stmts) => if named.len() == 0 {
                    Ok(implement_unit_struct_debug(&ast.name, generics_debug_bounded))
                } else {
                    Ok(
                        implement_named_fields_struct_debug(
                            &ast.name,
                            generics_debug_bounded,
                            stmts,
                        ),
                    )
                },
                Err(error) => Err(error),
            },
            Fields::Unnamed(unnamed) => match generate_tuple_field_stmts(unnamed) {
                Ok(stmts) => if unnamed.len() == 0 {
                    Ok(implement_unit_struct_debug(&ast.name, generics_debug_bounded))
                } else {
                    Ok(
                        implement_unnamed_fields_struct_debug(
                            &ast.name,
                            generics_debug_bounded,
                            stmts,
                        ),
                    )
                },
                Err(error) => Err(error),
            },
            Fields::Unit => Ok(implement_unit_struct_debug(&ast.name, generics_debug_bounded)),
        },
        Data::Enum(variants) => match generate_arms(variants) {
            Ok(arms) => Ok(implement_enum_debug(&ast.name, generics_debug_bounded, arms)),
            Err(error) => Err(error),
        },
        Data::Union => Err(
            ConfigurationError {
                kind: ErrorKind::ExpectedStructOrEnum,
                location: Location::Keyword,
            },
        ),
    }
}

} // verus!
