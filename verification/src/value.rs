//! Values of a described type at run time, as far as the generated function
//! can tell them apart.

use vstd::prelude::*;

use crate::shape::FieldsModel;

verus! {

/// A representation: the compact text and the expanded one.
#[derive(Debug, Clone, PartialEq, Eq)]
pub struct Rendering {
    pub compact: String,
    pub expanded: String,
}

/// [`Rendering`] as a mathematical value, with its texts as sequences of characters.
pub struct RenderingModel {
    pub compact: Seq<char>,
    pub expanded: Seq<char>,
}

impl DeepView for Rendering {
    type V = RenderingModel;

    open spec fn deep_view(&self) -> RenderingModel {
        RenderingModel { compact: self.compact@, expanded: self.expanded@ }
    }
}

impl RenderingModel {
    /// The text in the mode asked for.
    pub open spec fn shown(self, expanded: bool) -> Seq<char> {
        if expanded {
            self.expanded
        } else {
            self.compact
        }
    }
}

/// What a value holds, as the tests of the generated function see it. A
/// success or a failure carries the representation of what it holds, where
/// that can be represented.
#[derive(Debug, Clone, PartialEq, Eq)]
pub enum Content {
    /// Neither optional nor a success or failure.
    Plain,
    /// An optional value that is absent.
    Absent,
    /// An optional value that is present.
    Present,
    /// A success.
    Success(Option<Rendering>),
    /// A failure.
    Failure(Option<Rendering>),
}

/// [`Content`] as a mathematical value, with its texts as sequences of characters.
pub enum ContentModel {
    Plain,
    Absent,
    Present,
    Success(Option<RenderingModel>),
    Failure(Option<RenderingModel>),
}

impl DeepView for Content {
    type V = ContentModel;

    open spec fn deep_view(&self) -> ContentModel {
        match self {
            Content::Plain => ContentModel::Plain,
            Content::Absent => ContentModel::Absent,
            Content::Present => ContentModel::Present,
            Content::Success(held) => ContentModel::Success(held.deep_view()),
            Content::Failure(held) => ContentModel::Failure(held.deep_view()),
        }
    }
}

/// The value of one field.
#[derive(Debug, Clone, PartialEq, Eq)]
pub struct Value {
    /// The value's own representation, if its type has one.
    pub own: Option<Rendering>,
    pub content: Content,
}

/// [`Value`] as a mathematical value, with its texts as sequences of characters.
pub struct ValueModel {
    pub own: Option<RenderingModel>,
    pub content: ContentModel,
}

impl DeepView for Value {
    type V = ValueModel;

    open spec fn deep_view(&self) -> ValueModel {
        ValueModel { own: self.own.deep_view(), content: self.content.deep_view() }
    }
}

/// A field of a value: its name, where it has one, and what it holds.
#[derive(Debug, Clone, PartialEq, Eq)]
pub struct Slot {
    pub name: Option<String>,
    pub value: Value,
}

/// [`Slot`] as a mathematical value, with its texts as sequences of characters.
pub struct SlotModel {
    pub name: Option<Seq<char>>,
    pub value: ValueModel,
}

impl DeepView for Slot {
    type V = SlotModel;

    open spec fn deep_view(&self) -> SlotModel {
        SlotModel { name: self.name.deep_view(), value: self.value.deep_view() }
    }
}

/// Whether the fields of a value are those that the declaration lists: as
/// many, in the same order, each under its label.
pub open spec fn fields_match(slots: Seq<SlotModel>, fields: FieldsModel) -> bool {
    &&& slots.len() == fields.count()
    &&& forall|i: int| 0 <= i < slots.len() ==> (#[trigger] slots[i]).name == fields.label(i)
}

/// A value of a described type: the variant it is of, for an enum, and its
/// fields in the order of their declaration.
#[derive(Debug, Clone, PartialEq, Eq)]
pub struct Instance {
    pub variant: Option<String>,
    pub slots: Vec<Slot>,
}

/// [`Instance`] as a mathematical value, with its texts as sequences of characters.
pub struct InstanceModel {
    pub variant: Option<Seq<char>>,
    pub slots: Seq<SlotModel>,
}

impl DeepView for Instance {
    type V = InstanceModel;

    open spec fn deep_view(&self) -> InstanceModel {
        InstanceModel { variant: self.variant.deep_view(), slots: self.slots.deep_view() }
    }
}

} // verus!
