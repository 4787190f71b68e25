//! What holds of every generated implementation.

use vstd::prelude::*;

use crate::builder::{record_text, tuple_progress, tuple_text};
use crate::emit::{arm_for, body_for, bound_names, contribution_at, contributions,
    first_faulty_field, first_faulty_variant, implementation_for, place_of, site_of, some_unused,
    statements_of, Owner};
use crate::error::Site;
use crate::field::{inspects_value, statement_for};
use crate::overrides::{field_override, first_recognized, suppress_generic_bound,
    OverrideSpecModel, ResultTextsModel};
use crate::plan::{ArmModel, BinderModel, PlaceModel, StatementModel};
use crate::render::{all_contribute, arm_text, binds_name, body_text, entries_of, find_named,
    pattern_fits, rendered, resolve, selected_arm, statement_text, values_of, wrapped,
    ScopeModel};
use crate::shape::{distinct_variants, FieldsModel, NamedFieldModel, Shape, TypeModel,
    VariantModel};
use crate::source::{escaped, escaped_char};
use crate::text::indented;
use crate::value::{fields_match, ContentModel, InstanceModel, SlotModel, ValueModel};

verus! {

/// A text wrapped under a word is, compact, the word, the text between
/// parentheses; expanded, the text on a line of its own behind the margin,
/// with a comma after it.
pub proof fn law_wrapped_text(word: Seq<char>, inner: Seq<char>)
    requires
        word.len() > 0,
    ensures
        wrapped(word, inner, false) == word + "("@ + inner + ")"@,
        wrapped(word, inner, true) == word + "(\n"@ + indented(inner + ",\n"@) + ")"@,
{
    reveal_with_fuel(tuple_progress, 2);
}

/// A field replaced by a fixed text contributes that text as it is, in
/// both modes and whatever the value of the field, which the statement does
/// not look at.
pub proof fn law_literal_is_verbatim(
    text: Seq<char>,
    label: Option<Seq<char>>,
    place: PlaceModel,
    scope: ScopeModel,
    expanded: bool,
)
    ensures
        statement_text(
            statement_for(OverrideSpecModel::Literal(text), label, place),
            scope,
            expanded,
        ) == Some(text),
        !inspects_value(OverrideSpecModel::Literal(text)),
        forall|other: PlaceModel|
            !statement_for(OverrideSpecModel::Literal(text), label, place).reads(other),
{
}

/// An optional field with a text contributes the text inside `Some` where
/// a value is present and the word `None` where it is absent, whatever the
/// present value is; of any other value it contributes nothing.
pub proof fn law_optional_wrap(
    text: Seq<char>,
    label: Option<Seq<char>>,
    place: PlaceModel,
    scope: ScopeModel,
    expanded: bool,
)
    ensures
        ({
            let contributed = statement_text(
                statement_for(OverrideSpecModel::OptionalWrap(text), label, place),
                scope,
                expanded,
            );
            match resolve(place, scope) {
                Some(ValueModel { content: ContentModel::Present, .. }) => contributed == Some(
                    wrapped("Some"@, text, expanded),
                ),
                Some(ValueModel { content: ContentModel::Absent, .. }) => contributed == Some(
                    "None"@,
                ),
                _ => contributed is None,
            }
        }),
{
}

/// A field with a text for the success and one for the failure contributes
/// the first inside `Ok` for a success and the second inside `Err` for a
/// failure, whatever the success or the failure holds; of any other value
/// it contributes nothing.
pub proof fn law_result_wrap_both(
    ok: Seq<char>,
    err: Seq<char>,
    label: Option<Seq<char>>,
    place: PlaceModel,
    scope: ScopeModel,
    expanded: bool,
)
    ensures
        ({
            let contributed = statement_text(
                statement_for(
                    OverrideSpecModel::ResultWrap(ResultTextsModel::Both(ok, err)),
                    label,
                    place,
                ),
                scope,
                expanded,
            );
            match resolve(place, scope) {
                Some(ValueModel { content: ContentModel::Success(_), .. }) => contributed == Some(
                    wrapped("Ok"@, ok, expanded),
                ),
                Some(ValueModel { content: ContentModel::Failure(_), .. }) => contributed == Some(
                    wrapped("Err"@, err, expanded),
                ),
                _ => contributed is None,
            }
        }),
{
}

/// A field with a text for the success only contributes the text inside
/// `Ok` for a success, and for a failure the failure's own representation
/// inside `Err`; a failure that has no representation contributes nothing,
/// and neither does any other value.
pub proof fn law_result_wrap_ok(
    ok: Seq<char>,
    label: Option<Seq<char>>,
    place: PlaceModel,
    scope: ScopeModel,
    expanded: bool,
)
    ensures
        ({
            let contributed = statement_text(
                statement_for(
                    OverrideSpecModel::ResultWrap(ResultTextsModel::OkOnly(ok)),
                    label,
                    place,
                ),
                scope,
                expanded,
            );
            match resolve(place, scope) {
                Some(ValueModel { content: ContentModel::Success(_), .. }) => contributed == Some(
                    wrapped("Ok"@, ok, expanded),
                ),
                Some(ValueModel { content: ContentModel::Failure(Some(held)), .. }) => contributed
                    == Some(wrapped("Err"@, held.shown(expanded), expanded)),
                _ => contributed is None,
            }
        }),
{
}

/// A field with a text for the failure only contributes the text inside
/// `Err` for a failure, and for a success the success's own representation
/// inside `Ok`; a success that has no representation contributes nothing,
/// and neither does any other value.
pub proof fn law_result_wrap_err(
    err: Seq<char>,
    label: Option<Seq<char>>,
    place: PlaceModel,
    scope: ScopeModel,
    expanded: bool,
)
    ensures
        ({
            let contributed = statement_text(
                statement_for(
                    OverrideSpecModel::ResultWrap(ResultTextsModel::ErrOnly(err)),
                    label,
                    place,
                ),
                scope,
                expanded,
            );
            match resolve(place, scope) {
                Some(ValueModel { content: ContentModel::Failure(_), .. }) => contributed == Some(
                    wrapped("Err"@, err, expanded),
                ),
                Some(ValueModel { content: ContentModel::Success(Some(held)), .. }) => contributed
                    == Some(wrapped("Ok"@, held.shown(expanded), expanded)),
                _ => contributed is None,
            }
        }),
{
}

/// Among fields with distinct names, a name is found at its own field.
proof fn lemma_find_named(slots: Seq<SlotModel>, fields: FieldsModel, i: int, from: int)
    requires
        fields is Named,
        fields.distinct_labels(),
        fields_match(slots, fields),
        0 <= from <= i < slots.len(),
    ensures
        find_named(slots, fields.label(i)->0, from) == Some(i),
    decreases i - from,
{
    if from < i {
        lemma_find_named(slots, fields, i, from + 1);
    }
}

/// Where every field is well configured, none is the first faulty one.
proof fn lemma_no_faulty_field(fields: FieldsModel, owner: Owner, from: int)
    requires
        0 <= from,
        forall|i: int| from <= i < fields.count() ==> contribution_at(fields, owner, i) is Ok,
    ensures
        first_faulty_field(fields, owner, from) is None,
    decreases fields.count() - from,
{
    if from < fields.count() {
        lemma_no_faulty_field(fields, owner, from + 1);
    }
}

/// The first faulty field, where there is one, is faulty, and where there
/// is none, no field at or after `from` is.
proof fn lemma_first_faulty_field(fields: FieldsModel, owner: Owner, from: int)
    requires
        0 <= from,
    ensures
        match first_faulty_field(fields, owner, from) {
            Some(index) => from <= index < fields.count() && contribution_at(
                fields,
                owner,
                index,
            ) is Err,
            None => forall|i: int|
                from <= i < fields.count() ==> contribution_at(fields, owner, i) is Ok,
        },
    decreases fields.count() - from,
{
    if from < fields.count() {
        lemma_first_faulty_field(fields, owner, from + 1);
    }
}

/// The first faulty variant, where there is one, is faulty, and where there
/// is none, no variant at or after `from` is.
proof fn lemma_first_faulty_variant(variants: Seq<VariantModel>, from: int)
    requires
        0 <= from,
    ensures
        match first_faulty_variant(variants, from) {
            Some(index) => from <= index < variants.len() && arm_for(
                variants[index],
                index as usize,
            ) is Err,
            None => forall|k: int|
                from <= k < variants.len() ==> arm_for(variants[k], k as usize) is Ok,
        },
    decreases variants.len() - from,
{
    if from < variants.len() {
        lemma_first_faulty_variant(variants, from + 1);
    }
}

/// Among arms for variants with distinct names, a variant's name selects
/// its own arm.
proof fn lemma_selected_arm(arms: Seq<ArmModel>, variants: Seq<VariantModel>, k: int, from: int)
    requires
        distinct_variants(variants),
        arms.len() == variants.len(),
        forall|j: int| 0 <= j < arms.len() ==> (#[trigger] arms[j]).variant == variants[j].name,
        0 <= from <= k < arms.len(),
    ensures
        selected_arm(arms, variants[k].name, from) == Some(k),
    decreases k - from,
{
    if from < k {
        lemma_selected_arm(arms, variants, k, from + 1);
    }
}

/// The representation that the host itself gives a record: under its name,
/// every field under its label with its own representation, in order.
pub open spec fn builtin_record(name: Seq<char>, slots: Seq<SlotModel>, expanded: bool) -> Seq<
    char,
> {
    record_text(
        name,
        Seq::new(
            slots.len(),
            |i: int| (slots[i].name->0, slots[i].value.own->0.shown(expanded)),
        ),
        expanded,
    )
}

/// For a record without an override on any field, the generated function
/// writes what the host itself would: every field under its label, with
/// its own representation, in the order of the declaration, in both modes.
pub proof fn law_plain_record_matches_builtin(
    described: TypeModel,
    instance: InstanceModel,
    expanded: bool,
)
    requires
        suppress_generic_bound(described.attrs) is Ok,
        described.data is Struct,
        described.data->Struct_0 is Named,
        described.data->Struct_0.count() > 0,
        described.data->Struct_0.distinct_labels(),
        forall|i: int|
            0 <= i < described.data->Struct_0.count() ==> first_recognized(
                #[trigger] described.data->Struct_0.attrs(i),
                0,
            ) is None,
        instance.variant is None,
        fields_match(instance.slots, described.data->Struct_0),
        forall|i: int|
            0 <= i < instance.slots.len() ==> (#[trigger] instance.slots[i]).value.own is Some,
    ensures
        implementation_for(described) is Ok,
        rendered(implementation_for(described)->Ok_0, instance, expanded) == Some(
            builtin_record(described.name, instance.slots, expanded),
        ),
{
    let fields = described.data->Struct_0;
    let slots = instance.slots;
    let scope = ScopeModel { slots, binders: None };
    assert forall|i: int| 0 <= i < fields.count() implies contribution_at(
        fields,
        Owner::Struct,
        i,
    ) is Ok by {}
    lemma_no_faulty_field(fields, Owner::Struct, 0);
    let made = contributions(fields, Owner::Struct)->Ok_0;
    let statements = statements_of(made);
    assert forall|i: int| 0 <= i < statements.len() implies (#[trigger] statements[i]).label()
        == slots[i].name && statement_text(statements[i], scope, expanded) == Some(
        slots[i].value.own->0.shown(expanded),
    ) by {
        lemma_find_named(slots, fields, i, 0);
    }
    assert(all_contribute(statements, true, scope, expanded)) by {
        assert forall|i: int| 0 <= i < statements.len() implies ((
        #[trigger] statements[i]).label() is Some) == true && statement_text(
            statements[i],
            scope,
            expanded,
        ) is Some by {}
    }
    assert(entries_of(statements, scope, expanded) == Seq::new(
        slots.len(),
        |i: int| (slots[i].name->0, slots[i].value.own->0.shown(expanded)),
    ));
}

/// A struct without fields is written as its bare name, in both modes,
/// whatever delimiters its declaration wrote.
pub proof fn law_unit_struct_is_bare_name(
    described: TypeModel,
    instance: InstanceModel,
    expanded: bool,
)
    requires
        suppress_generic_bound(described.attrs) is Ok,
        described.data is Struct,
        described.data->Struct_0.count() == 0,
        instance.variant is None,
    ensures
        implementation_for(described) is Ok,
        rendered(implementation_for(described)->Ok_0, instance, expanded) == Some(described.name),
{
}

/// The dispatch generated for an enum has one arm for each variant, in the
/// order of the declaration, and no other. Where the variants' names are
/// distinct, a value of a variant is handled by that variant's arm and by
/// no other arm.
pub proof fn law_dispatch_is_exhaustive(
    described: TypeModel,
    k: int,
    slots: Seq<SlotModel>,
    expanded: bool,
)
    requires
        described.data is Enum,
        implementation_for(described) is Ok,
        distinct_variants(described.data->Enum_0),
        0 <= k < described.data->Enum_0.len(),
    ensures
        ({
            let variants = described.data->Enum_0;
            let generated = implementation_for(described)->Ok_0;
            &&& generated.function is Dispatch
            &&& generated.function->Dispatch_0.len() == variants.len()
            &&& forall|j: int|
                0 <= j < variants.len() ==> (#[trigger] generated.function->Dispatch_0[j])
                    == arm_for(variants[j], j as usize)->Ok_0
            &&& forall|j: int|
                0 <= j < variants.len() ==> ((#[trigger] generated.function->Dispatch_0[j]).variant
                    == variants[k].name <==> j == k)
            &&& selected_arm(generated.function->Dispatch_0, variants[k].name, 0) == Some(k)
            &&& rendered(
                generated,
                InstanceModel { variant: Some(variants[k].name), slots },
                expanded,
            ) == arm_text(generated.function->Dispatch_0[k], slots, expanded)
        }),
{
    let variants = described.data->Enum_0;
    let generated = implementation_for(described)->Ok_0;
    lemma_first_faulty_variant(variants, 0);
    let arms = generated.function->Dispatch_0;
    assert forall|j: int| 0 <= j < arms.len() implies (#[trigger] arms[j]).variant
        == variants[j].name by {}
    lemma_selected_arm(arms, variants, k, 0);
}

/// A variant without fields is written as its bare name, in both modes,
/// whatever delimiters its declaration wrote.
pub proof fn law_unit_variant_is_bare_name(described: TypeModel, k: int, expanded: bool)
    requires
        described.data is Enum,
        implementation_for(described) is Ok,
        distinct_variants(described.data->Enum_0),
        0 <= k < described.data->Enum_0.len(),
        described.data->Enum_0[k].fields.count() == 0,
    ensures
        rendered(
            implementation_for(described)->Ok_0,
            InstanceModel {
                variant: Some(described.data->Enum_0[k].name),
                slots: Seq::<SlotModel>::empty(),
            },
            expanded,
        ) == Some(described.data->Enum_0[k].name),
{
    let slots = Seq::<SlotModel>::empty();
    law_dispatch_is_exhaustive(described, k, slots, expanded);
    let arm = implementation_for(described)->Ok_0.function->Dispatch_0[k];
    assert(arm.binders.len() == 0);
}

/// Every binder for named fields is the name of one of them.
proof fn lemma_bound_names_are_fields(
    fields: Seq<NamedFieldModel>,
    made: Seq<(bool, StatementModel)>,
    upto: int,
    j: int,
) -> (i: int)
    requires
        0 <= upto <= fields.len(),
        0 <= j < bound_names(fields, made, upto).len(),
    ensures
        0 <= i < upto,
        made[i].0,
        bound_names(fields, made, upto)[j] == BinderModel::Variable(fields[i].name),
    decreases upto,
{
    let front = bound_names(fields, made, upto - 1);
    if made[upto - 1].0 && j == front.len() {
        upto - 1
    } else {
        lemma_bound_names_are_fields(fields, made, upto - 1, j)
    }
}

/// Every named field whose value is looked at has a binder.
proof fn lemma_used_fields_are_bound(
    fields: Seq<NamedFieldModel>,
    made: Seq<(bool, StatementModel)>,
    upto: int,
    i: int,
)
    requires
        0 <= i < upto <= fields.len(),
        made[i].0,
    ensures
        binds_name(bound_names(fields, made, upto), fields[i].name),
    decreases upto,
{
    let front = bound_names(fields, made, upto - 1);
    let all = bound_names(fields, made, upto);
    if i == upto - 1 {
        assert(all[front.len() as int] == BinderModel::Variable(fields[i].name));
    } else {
        lemma_used_fields_are_bound(fields, made, upto - 1, i);
        let k = choose|k: int|
            0 <= k < front.len() && (#[trigger] front[k]) == BinderModel::Variable(fields[i].name);
        assert(all[k] == BinderModel::Variable(fields[i].name));
    }
}

/// The pattern generated for a variant fits every value of that variant,
/// and binds exactly what the statements read: a field whose value is
/// looked at is found at its place, and a field whose value is not looked
/// at has no place to be found at, so that no variable stays unused.
pub proof fn law_pattern_binds_what_is_read(
    variant: VariantModel,
    index: usize,
    slots: Seq<SlotModel>,
    i: int,
)
    requires
        arm_for(variant, index) is Ok,
        variant.fields.distinct_labels(),
        fields_match(slots, variant.fields),
        0 <= i < variant.fields.count(),
    ensures
        ({
            let arm = arm_for(variant, index)->Ok_0;
            let made = contributions(variant.fields, Owner::Variant(index))->Ok_0;
            let scope = ScopeModel { slots, binders: Some(arm.binders) };
            let place = place_of(variant.fields, Owner::Variant(index), i);
            &&& pattern_fits(arm.form, arm.binders, slots)
            &&& made[i].0 == made[i].1.reads(place)
            &&& resolve(place, scope) == if made[i].0 {
                Some(slots[i].value)
            } else {
                None
            }
        }),
{
    let fields = variant.fields;
    let owner = Owner::Variant(index);
    let arm = arm_for(variant, index)->Ok_0;
    let made = contributions(fields, owner)->Ok_0;
    let scope = ScopeModel { slots, binders: Some(arm.binders) };
    lemma_first_faulty_field(fields, owner, 0);
    match fields {
        FieldsModel::Named(named) => {
            let names = bound_names(named, made, named.len() as int);
            assert forall|k: int| 0 <= k < slots.len() implies (#[trigger] slots[k]).name
                is Some by {}
            assert forall|j: int| 0 <= j < arm.binders.len() implies match #[trigger] arm.binders[j] {
                BinderModel::Variable(name) => find_named(slots, name, 0) is Some,
                BinderModel::Rest => j == arm.binders.len() - 1,
                _ => false,
            } by {
                if j < names.len() {
                    let f = lemma_bound_names_are_fields(named, made, named.len() as int, j);
                    lemma_find_named(slots, fields, f, 0);
                }
            }
            if !some_unused(made) {
                assert forall|k: int| 0 <= k < slots.len() implies binds_name(
                    arm.binders,
                    (#[trigger] slots[k]).name->0,
                ) by {
                    lemma_used_fields_are_bound(named, made, named.len() as int, k);
                }
            }
            lemma_find_named(slots, fields, i, 0);
            if made[i].0 {
                lemma_used_fields_are_bound(named, made, named.len() as int, i);
                let k = choose|k: int|
                    0 <= k < names.len() && (#[trigger] names[k]) == BinderModel::Variable(
                        named[i].name,
                    );
                assert(arm.binders[k] == BinderModel::Variable(named[i].name));
            } else if binds_name(arm.binders, named[i].name) {
                let k = choose|k: int|
                    0 <= k < arm.binders.len() && (#[trigger] arm.binders[k])
                        == BinderModel::Variable(named[i].name);
                let f = lemma_bound_names_are_fields(named, made, named.len() as int, k);
                assert(f != i && fields.label(f) == fields.label(i));
                assert(false);
            }
        },
        FieldsModel::Unnamed(unnamed) => {
            assert forall|k: int| 0 <= k < slots.len() implies (#[trigger] slots[k]).name is None
                && (arm.binders[k] == BinderModel::Wildcard || arm.binders[k]
                == BinderModel::PositionVariable(k as nat)) by {}
        },
        FieldsModel::Unit => {},
    }
}

/// What a field is written as under its override, by what it holds. There
/// is no text where the override does not suit the value: an optional or
/// result override on a value of another kind, or a value shown by itself
/// that has no representation.
pub open spec fn field_text(declared: OverrideSpecModel, value: ValueModel, expanded: bool) -> Option<
    Seq<char>,
> {
    match declared {
        OverrideSpecModel::Own => match value.own {
            Some(own) => Some(own.shown(expanded)),
            None => None,
        },
        OverrideSpecModel::Literal(text) => Some(text),
        OverrideSpecModel::OptionalWrap(text) => match value.content {
            ContentModel::Present => Some(wrapped("Some"@, text, expanded)),
            ContentModel::Absent => Some("None"@),
            _ => None,
        },
        OverrideSpecModel::ResultWrap(ResultTextsModel::Both(ok, err)) => match value.content {
            ContentModel::Success(_) => Some(wrapped("Ok"@, ok, expanded)),
            ContentModel::Failure(_) => Some(wrapped("Err"@, err, expanded)),
            _ => None,
        },
        OverrideSpecModel::ResultWrap(ResultTextsModel::OkOnly(ok)) => match value.content {
            ContentModel::Success(_) => Some(wrapped("Ok"@, ok, expanded)),
            ContentModel::Failure(Some(held)) => Some(
                wrapped("Err"@, held.shown(expanded), expanded),
            ),
            _ => None,
        },
        OverrideSpecModel::ResultWrap(ResultTextsModel::ErrOnly(err)) => match value.content {
            ContentModel::Failure(_) => Some(wrapped("Err"@, err, expanded)),
            ContentModel::Success(Some(held)) => Some(
                wrapped("Ok"@, held.shown(expanded), expanded),
            ),
            _ => None,
        },
    }
}

/// What the field at `index` is written as.
pub open spec fn field_text_at(
    fields: FieldsModel,
    owner: Owner,
    slots: Seq<SlotModel>,
    index: int,
    expanded: bool,
) -> Option<Seq<char>> {
    field_text(
        field_override(fields.attrs(index), site_of(owner, index))->Ok_0,
        slots[index].value,
        expanded,
    )
}

/// What a struct or a variant under `name` is written as, by its
/// declaration and the values of its fields: the bare name without fields,
/// else every field in the order of the declaration, under its label where
/// it has one, as its override says. There is no text where a field has
/// none.
pub open spec fn described_text(
    name: Seq<char>,
    fields: FieldsModel,
    owner: Owner,
    slots: Seq<SlotModel>,
    expanded: bool,
) -> Option<Seq<char>> {
    if forall|i: int|
        0 <= i < fields.count() ==> field_text_at(fields, owner, slots, i, expanded) is Some {
        Some(
            match fields.shape() {
                Shape::Unit => name,
                Shape::Record => record_text(
                    name,
                    Seq::new(
                        fields.count(),
                        |i: int|
                            (
                                fields.label(i)->0,
                                field_text_at(fields, owner, slots, i, expanded)->0,
                            ),
                    ),
                    expanded,
                ),
                Shape::Tuple => tuple_text(
                    name,
                    Seq::new(
                        fields.count(),
                        |i: int| field_text_at(fields, owner, slots, i, expanded)->0,
                    ),
                    expanded,
                ),
            },
        )
    } else {
        None
    }
}

/// A statement contributes what its field is written as, provided that the
/// field's value is found at the statement's place wherever the statement
/// looks at it.
proof fn lemma_statement_means_field(
    declared: OverrideSpecModel,
    label: Option<Seq<char>>,
    place: PlaceModel,
    scope: ScopeModel,
    value: ValueModel,
    expanded: bool,
)
    requires
        inspects_value(declared) ==> resolve(place, scope) == Some(value),
    ensures
        statement_text(statement_for(declared, label, place), scope, expanded) == field_text(
            declared,
            value,
            expanded,
        ),
{
}

/// The body generated for fields writes what the declaration describes,
/// provided that every field looked at is found at its place.
proof fn lemma_body_means_fields(
    name: Seq<char>,
    fields: FieldsModel,
    owner: Owner,
    scope: ScopeModel,
    expanded: bool,
)
    requires
        contributions(fields, owner) is Ok,
        scope.slots.len() == fields.count(),
        forall|i: int|
            0 <= i < fields.count() && inspects_value(
                field_override(fields.attrs(i), site_of(owner, i))->Ok_0,
            ) ==> resolve(#[trigger] place_of(fields, owner, i), scope) == Some(
                scope.slots[i].value,
            ),
    ensures
        body_text(
            name,
            body_for(fields.shape(), statements_of(contributions(fields, owner)->Ok_0)),
            scope,
            expanded,
        ) == described_text(name, fields, owner, scope.slots, expanded),
{
    let slots = scope.slots;
    let made = contributions(fields, owner)->Ok_0;
    let statements = statements_of(made);
    lemma_first_faulty_field(fields, owner, 0);
    assert forall|i: int| 0 <= i < fields.count() implies (#[trigger] statements[i]).label()
        == fields.label(i) && statement_text(statements[i], scope, expanded) == field_text_at(
        fields,
        owner,
        slots,
        i,
        expanded,
    ) by {
        let declared = field_override(fields.attrs(i), site_of(owner, i))->Ok_0;
        let place = place_of(fields, owner, i);
        lemma_statement_means_field(
            declared,
            fields.label(i),
            place,
            scope,
            slots[i].value,
            expanded,
        );
    }
    let labelled = fields is Named;
    if forall|i: int|
        0 <= i < fields.count() ==> field_text_at(fields, owner, slots, i, expanded) is Some {
        assert(all_contribute(statements, labelled, scope, expanded)) by {
            assert forall|i: int| 0 <= i < statements.len() implies ((
            #[trigger] statements[i]).label() is Some) == labelled && statement_text(
                statements[i],
                scope,
                expanded,
            ) is Some by {}
        }
        if labelled {
            assert(entries_of(statements, scope, expanded) == Seq::new(
                fields.count(),
                |i: int|
                    (fields.label(i)->0, field_text_at(fields, owner, slots, i, expanded)->0),
            ));
        } else {
            assert(values_of(statements, scope, expanded) == Seq::new(
                fields.count(),
                |i: int| field_text_at(fields, owner, slots, i, expanded)->0,
            ));
        }
    } else {
        let i = choose|i: int|
            0 <= i < fields.count() && !(field_text_at(fields, owner, slots, i, expanded)
                is Some);
        assert(statement_text(statements[i], scope, expanded) is None);
        assert(!all_contribute(statements, labelled, scope, expanded));
    }
}

/// The function generated for a struct writes, for every value of the
/// struct and in both modes, what the declaration describes.
pub proof fn law_struct_is_written_as_described(
    described: TypeModel,
    instance: InstanceModel,
    expanded: bool,
)
    requires
        implementation_for(described) is Ok,
        described.data is Struct,
        described.data->Struct_0.distinct_labels(),
        instance.variant is None,
        fields_match(instance.slots, described.data->Struct_0),
    ensures
        rendered(implementation_for(described)->Ok_0, instance, expanded) == described_text(
            described.name,
            described.data->Struct_0,
            Owner::Struct,
            instance.slots,
            expanded,
        ),
{
    let fields = described.data->Struct_0;
    let slots = instance.slots;
    let scope = ScopeModel { slots, binders: None };
    assert forall|i: int| 0 <= i < fields.count() implies resolve(
        #[trigger] place_of(fields, Owner::Struct, i),
        scope,
    ) == Some(slots[i].value) by {
        if fields is Named {
            lemma_find_named(slots, fields, i, 0);
        }
    }
    lemma_body_means_fields(described.name, fields, Owner::Struct, scope, expanded);
}

/// The function generated for an enum writes, for every value of each of
/// its variants and in both modes, what the declaration of that variant
/// describes.
pub proof fn law_variant_is_written_as_described(
    described: TypeModel,
    k: int,
    slots: Seq<SlotModel>,
    expanded: bool,
)
    requires
        implementation_for(described) is Ok,
        described.data is Enum,
        distinct_variants(described.data->Enum_0),
        0 <= k < described.data->Enum_0.len(),
        k <= usize::MAX,
        described.data->Enum_0[k].fields.distinct_labels(),
        fields_match(slots, described.data->Enum_0[k].fields),
    ensures
        rendered(
            implementation_for(described)->Ok_0,
            InstanceModel { variant: Some(described.data->Enum_0[k].name), slots },
            expanded,
        ) == described_text(
            described.data->Enum_0[k].name,
            described.data->Enum_0[k].fields,
            Owner::Variant(k as usize),
            slots,
            expanded,
        ),
{
    let variants = described.data->Enum_0;
    let variant = variants[k];
    let fields = variant.fields;
    let owner = Owner::Variant(k as usize);
    law_dispatch_is_exhaustive(described, k, slots, expanded);
    lemma_first_faulty_variant(variants, 0);
    let arm = arm_for(variant, k as usize)->Ok_0;
    let scope = ScopeModel { slots, binders: Some(arm.binders) };
    if fields.count() > 0 {
        law_pattern_binds_what_is_read(variant, k as usize, slots, 0);
    } else {
        assert(arm.binders.len() == 0);
    }
    lemma_first_faulty_field(fields, owner, 0);
    assert forall|i: int|
        0 <= i < fields.count() && inspects_value(
            field_override(fields.attrs(i), site_of(owner, i))->Ok_0,
        ) implies resolve(#[trigger] place_of(fields, owner, i), scope) == Some(
        slots[i].value,
    ) by {
        law_pattern_binds_what_is_read(variant, k as usize, slots, i);
    }
    lemma_body_means_fields(variant.name, fields, owner, scope, expanded);
}

/// What a struct is written as does not depend on the value of a field
/// that is replaced by a fixed text: two values of the struct that differ
/// in that field only are written alike, in both modes.
pub proof fn law_replaced_field_is_never_looked_at(
    described: TypeModel,
    one: InstanceModel,
    other: InstanceModel,
    replaced: int,
    expanded: bool,
)
    requires
        implementation_for(described) is Ok,
        described.data is Struct,
        described.data->Struct_0.distinct_labels(),
        0 <= replaced < described.data->Struct_0.count(),
        field_override(described.data->Struct_0.attrs(replaced), Site::Field(replaced as usize))
            is Ok,
        field_override(
            described.data->Struct_0.attrs(replaced),
            Site::Field(replaced as usize),
        )->Ok_0 is Literal,
        one.variant is None,
        other.variant is None,
        fields_match(one.slots, described.data->Struct_0),
        fields_match(other.slots, described.data->Struct_0),
        forall|i: int|
            0 <= i < one.slots.len() && i != replaced ==> one.slots[i] == other.slots[i],
    ensures
        rendered(implementation_for(described)->Ok_0, one, expanded) == rendered(
            implementation_for(described)->Ok_0,
            other,
            expanded,
        ),
{
    let fields = described.data->Struct_0;
    law_struct_is_written_as_described(described, one, expanded);
    law_struct_is_written_as_described(described, other, expanded);
    assert forall|i: int| 0 <= i < fields.count() implies field_text_at(
        fields,
        Owner::Struct,
        one.slots,
        i,
        expanded,
    ) == field_text_at(fields, Owner::Struct, other.slots, i, expanded) by {
        if i != replaced {
            assert(one.slots[i] == other.slots[i]);
        }
    }
    assert(Seq::new(
        fields.count(),
        |i: int|
            (
                fields.label(i)->0,
                field_text_at(fields, Owner::Struct, one.slots, i, expanded)->0,
            ),
    ) == Seq::new(
        fields.count(),
        |i: int|
            (
                fields.label(i)->0,
                field_text_at(fields, Owner::Struct, other.slots, i, expanded)->0,
            ),
    ));
    assert(Seq::new(
        fields.count(),
        |i: int| field_text_at(fields, Owner::Struct, one.slots, i, expanded)->0,
    ) == Seq::new(
        fields.count(),
        |i: int| field_text_at(fields, Owner::Struct, other.slots, i, expanded)->0,
    ));
}

/// The text that the inside of a string literal denotes: a backslash
/// starts one of the short escapes, a bare quote or carriage return cannot
/// stand inside, and every other character denotes itself.
pub open spec fn denoted(inside: Seq<char>) -> Option<Seq<char>>
    decreases inside.len(),
{
    if inside.len() == 0 {
        Some(inside)
    } else if inside[0] == '\\' {
        if inside.len() < 2 {
            None
        } else {
            let meant = if inside[1] == '"' {
                Some('"')
            } else if inside[1] == '\\' {
                Some('\\')
            } else if inside[1] == 'n' {
                Some('\n')
            } else if inside[1] == 'r' {
                Some('\r')
            } else if inside[1] == 't' {
                Some('\t')
            } else if inside[1] == '0' {
                Some('\0')
            } else {
                None
            };
            match (meant, denoted(inside.skip(2))) {
                (Some(c), Some(rest)) => Some(seq![c] + rest),
                _ => None,
            }
        }
    } else if inside[0] == '"' || inside[0] == '\r' {
        None
    } else {
        match denoted(inside.skip(1)) {
            Some(rest) => Some(seq![inside[0]] + rest),
            None => None,
        }
    }
}

/// Escaping goes character by character.
proof fn lemma_escaped_concat(front: Seq<char>, back: Seq<char>)
    ensures
        escaped(front + back) == escaped(front) + escaped(back),
    decreases back.len(),
{
    if back.len() == 0 {
        assert(front + back == front);
    } else {
        assert((front + back).drop_last() == front + back.drop_last());
        lemma_escaped_concat(front, back.drop_last());
    }
}

/// An escaped character in front of the inside of a literal denotes the
/// character in front of what the rest denotes.
proof fn lemma_denoted_escaped_char(c: char, rest: Seq<char>)
    ensures
        denoted(escaped_char(c) + rest) == match denoted(rest) {
            Some(text) => Some(seq![c] + text),
            None => None,
        },
{
    reveal_strlit("\\\"");
    reveal_strlit("\\\\");
    reveal_strlit("\\n");
    reveal_strlit("\\r");
    reveal_strlit("\\t");
    reveal_strlit("\\0");
    let whole = escaped_char(c) + rest;
    if escaped_char(c).len() == 2 {
        assert(whole.skip(2) == rest);
    } else {
        assert(whole.skip(1) == rest);
    }
}

/// The string literal written for a text denotes that text: whatever the
/// text holds, nothing is lost or added by the escapes.
pub proof fn law_string_literal_denotes_its_text(text: Seq<char>)
    ensures
        denoted(escaped(text)) == Some(text),
    decreases text.len(),
{
    if text.len() > 0 {
        let first = seq![text[0]];
        let rest = text.skip(1);
        assert(text == first + rest);
        lemma_escaped_concat(first, rest);
        assert(escaped(first) == escaped_char(text[0])) by {
            assert(first.drop_last() == Seq::<char>::empty());
            assert(escaped(first.drop_last()) + escaped_char(first.last()) == escaped_char(
                text[0],
            ));
        }
        law_string_literal_denotes_its_text(rest);
        lemma_denoted_escaped_char(text[0], escaped(rest));
    }
}

} // verus!
