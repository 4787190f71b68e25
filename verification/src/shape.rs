//! The description of a type as the generator consumes it, the shape of its
//! fields, and the policy on its parameters.

use vstd::prelude::*;

use crate::annotation::{Attribute, AttributeModel};

verus! {

/// A field with a name.
#[derive(Debug, Clone, PartialEq, Eq)]
pub struct NamedField {
    pub name: String,
    pub attrs: Vec<Attribute>,
}

/// [`NamedField`] as a mathematical value, with its texts as sequences of characters.
pub struct NamedFieldModel {
    pub name: Seq<char>,
    pub attrs: Seq<AttributeModel>,
}

impl DeepView for NamedField {
    type V = NamedFieldModel;

    open spec fn deep_view(&self) -> NamedFieldModel {
        NamedFieldModel { name: self.name@, attrs: self.attrs.deep_view() }
    }
}

/// A field known by its position.
#[derive(Debug, Clone, PartialEq, Eq)]
pub struct UnnamedField {
    pub attrs: Vec<Attribute>,
}

/// [`UnnamedField`] as a mathematical value, with its texts as sequences of characters.
pub struct UnnamedFieldModel {
    pub attrs: Seq<AttributeModel>,
}

impl DeepView for UnnamedField {
    type V = UnnamedFieldModel;

    open spec fn deep_view(&self) -> UnnamedFieldModel {
        UnnamedFieldModel { attrs: self.attrs.deep_view() }
    }
}

/// The fields of a struct or of a variant, as declared.
#[derive(Debug, Clone, PartialEq, Eq)]
pub enum Fields {
    /// Between braces, each with a name.
    Named(Vec<NamedField>),
    /// Between parentheses, each at a position.
    Unnamed(Vec<UnnamedField>),
    /// None, and no delimiters either.
    Unit,
}

/// [`Fields`] as a mathematical value, with its texts as sequences of characters.
pub enum FieldsModel {
    Named(Seq<NamedFieldModel>),
    Unnamed(Seq<UnnamedFieldModel>),
    Unit,
}

impl DeepView for Fields {
    type V = FieldsModel;

    open spec fn deep_view(&self) -> FieldsModel {
        match self {
            Fields::Named(fields) => FieldsModel::Named(fields.deep_view()),
            Fields::Unnamed(fields) => FieldsModel::Unnamed(fields.deep_view()),
            Fields::Unit => FieldsModel::Unit,
        }
    }
}

/// One variant of an enum.
#[derive(Debug, Clone, PartialEq, Eq)]
pub struct VariantDescription {
    pub name: String,
    pub fields: Fields,
}

/// [`VariantDescription`] as a mathematical value, with its texts as sequences of characters.
pub struct VariantModel {
    pub name: Seq<char>,
    pub fields: FieldsModel,
}

impl DeepView for VariantDescription {
    type V = VariantModel;

    open spec fn deep_view(&self) -> VariantModel {
        VariantModel { name: self.name@, fields: self.fields.deep_view() }
    }
}

/// What a parameter of the type stands for.
#[derive(Debug, Clone, Copy, PartialEq, Eq, Structural)]
pub enum ParamKind {
    Type,
    Lifetime,
    Const,
}

/// A parameter of the type.
#[derive(Debug, Clone, PartialEq, Eq)]
pub struct GenericParam {
    pub kind: ParamKind,
    pub name: String,
}

/// [`GenericParam`] as a mathematical value, with its texts as sequences of characters.
pub struct GenericParamModel {
    pub kind: ParamKind,
    pub name: Seq<char>,
}

impl DeepView for GenericParam {
    type V = GenericParamModel;

    open spec fn deep_view(&self) -> GenericParamModel {
        GenericParamModel { kind: self.kind, name: self.name@ }
    }
}

/// What the declaration declares.
#[derive(Debug, Clone, PartialEq, Eq)]
pub enum Data {
    Struct(Fields),
    Enum(Vec<VariantDescription>),
    Union,
}

/// [`Data`] as a mathematical value, with its texts as sequences of characters.
pub enum DataModel {
    Struct(FieldsModel),
    Enum(Seq<VariantModel>),
    Union,
}

impl DeepView for Data {
    type V = DataModel;

    open spec fn deep_view(&self) -> DataModel {
        match self {
            Data::Struct(fields) => DataModel::Struct(fields.deep_view()),
            Data::Enum(variants) => DataModel::Enum(variants.deep_view()),
            Data::Union => DataModel::Union,
        }
    }
}

/// A type's declaration.
#[derive(Debug, Clone, PartialEq, Eq)]
pub struct TypeDescription {
    pub name: String,
    pub attrs: Vec<Attribute>,
    pub generics: Vec<GenericParam>,
    pub data: Data,
}

/// [`TypeDescription`] as a mathematical value, with its texts as sequences of characters.
pub struct TypeModel {
    pub name: Seq<char>,
    pub attrs: Seq<AttributeModel>,
    pub generics: Seq<GenericParamModel>,
    pub data: DataModel,
}

impl DeepView for TypeDescription {
    type V = TypeModel;

    open spec fn deep_view(&self) -> TypeModel {
        TypeModel {
            name: self.name@,
            attrs: self.attrs.deep_view(),
            generics: self.generics.deep_view(),
            data: self.data.deep_view(),
        }
    }
}

/// The structural category of a struct or of a variant.
#[derive(Debug, Clone, Copy, PartialEq, Eq, Structural)]
pub enum Shape {
    /// Fields with labels.
    Record,
    /// Fields at positions.
    Tuple,
    /// No fields.
    Unit,
}

impl FieldsModel {
    /// The number of fields.
    pub open spec fn count(self) -> nat {
        match self {
            FieldsModel::Named(fields) => fields.len(),
            FieldsModel::Unnamed(fields) => fields.len(),
            FieldsModel::Unit => 0,
        }
    }

    /// The label of the field at `index`, where the fields have labels.
    pub open spec fn label(self, index: int) -> Option<Seq<char>> {
        match self {
            FieldsModel::Named(fields) => Some(fields[index].name),
            _ => None,
        }
    }

    /// The annotations of the field at `index`.
    pub open spec fn attrs(self, index: int) -> Seq<AttributeModel> {
        match self {
            FieldsModel::Named(fields) => fields[index].attrs,
            FieldsModel::Unnamed(fields) => fields[index].attrs,
            FieldsModel::Unit => Seq::empty(),
        }
    }

    /// Whether no two fields have the same label.
    pub open spec fn distinct_labels(self) -> bool {
        forall|i: int, j: int|
            0 <= i < j < self.count() && self is Named ==> self.label(i) != self.label(j)
    }

    /// Without fields the shape is a unit, whatever delimiters the
    /// declaration wrote; with fields it is a record where they have labels
    /// and a tuple where they have none.
    pub open spec fn shape(self) -> Shape {
        if self.count() == 0 {
            Shape::Unit
        } else if self is Named {
            Shape::Record
        } else {
            Shape::Tuple
        }
    }
}

/// Whether no two variants have the same name.
pub open spec fn distinct_variants(variants: Seq<VariantModel>) -> bool {
    forall|i: int, j: int| 0 <= i < j < variants.len() ==> variants[i].name != variants[j].name
}

/// Whether a parameter gets the requirement that it can be represented:
/// every type parameter does, unless the type asks otherwise; lifetimes and
/// constants never do.
pub open spec fn requires_representation(param: GenericParamModel, suppress: bool) -> bool {
    param.kind == ParamKind::Type && !suppress
}

/// The requirement decision for each parameter, in order.
pub open spec fn requirements(generics: Seq<GenericParamModel>, suppress: bool) -> Seq<bool> {
    Seq::new(generics.len(), |i: int| requires_representation(generics[i], suppress))
}

impl Fields {
    /// The number of fields.
    pub fn len(&self) -> (count: usize)
        ensures
            count == self.deep_view().count(),
    {
        match self {
            Fields::Named(fields) => fields.len(),
            Fields::Unnamed(fields) => fields.len(),
            Fields::Unit => 0,
        }
    }

    /// Classifies the fields.
    pub fn shape(&self) -> (shape: Shape)
        ensures
            shape == self.deep_view().shape(),
    {
        match self {
            Fields::Named(fields) => if fields.len() == 0 {
                Shape::Unit
            } else {
                Shape::Record
            },
            Fields::Unnamed(fields) => if fields.len() == 0 {
                Shape::Unit
            } else {
                Shape::Tuple
            },
            Fields::Unit => Shape::Unit,
        }
    }
}

/// Decides for each parameter whether it must be representable.
pub fn generic_requirements(generics: &Vec<GenericParam>, suppress: bool) -> (decided: Vec<bool>)
    ensures
        decided@ == requirements(generics.deep_view(), suppress),
{
    let mut decided: Vec<bool> = Vec::new();
    for i in 0..generics.len()
        invariant
            decided@ == requirements(generics.deep_view().take(i as int), suppress),
    {
        let required = match generics[i].kind {
            ParamKind::Type => !suppress,
            _ => false,
        };
        decided.push(required);
    }
    decided
}

} // verus!
