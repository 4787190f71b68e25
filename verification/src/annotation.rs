//! Annotations as the generator reads them: one level of structure below the
//! annotation itself, which is all that the override rules consult.

use vstd::prelude::*;

verus! {

/// A literal inside an annotation.
#[derive(Debug, Clone, PartialEq, Eq)]
pub enum Lit {
    /// A string literal, with the text that it denotes.
    Str(String),
    /// A literal of any other kind.
    Other,
}

/// [`Lit`] as a mathematical value, with its texts as sequences of characters.
pub enum LitModel {
    Str(Seq<char>),
    Other,
}

impl DeepView for Lit {
    type V = LitModel;

    open spec fn deep_view(&self) -> LitModel {
        match self {
            Lit::Str(text) => LitModel::Str(text@),
            Lit::Other => LitModel::Other,
        }
    }
}

/// One entry of an annotation's parenthesised list. A path is given by its
/// identifier where it is a single plain identifier, and by nothing where
/// it is anything longer.
#[derive(Debug, Clone, PartialEq, Eq)]
pub enum Nested {
    /// A literal standing by itself.
    Lit(Lit),
    /// A bare path: `key`.
    Path(Option<String>),
    /// A path with a list of its own: `key(...)`.
    List(Option<String>),
    /// An assignment: `key = literal`.
    NameValue(Option<String>, Lit),
}

/// [`Nested`] as a mathematical value, with its texts as sequences of characters.
pub enum NestedModel {
    Lit(LitModel),
    Path(Option<Seq<char>>),
    List(Option<Seq<char>>),
    NameValue(Option<Seq<char>>, LitModel),
}

impl DeepView for Nested {
    type V = NestedModel;

    open spec fn deep_view(&self) -> NestedModel {
        match self {
            Nested::Lit(lit) => NestedModel::Lit(lit.deep_view()),
            Nested::Path(path) => NestedModel::Path(path.deep_view()),
            Nested::List(path) => NestedModel::List(path.deep_view()),
            Nested::NameValue(path, lit) => NestedModel::NameValue(
                path.deep_view(),
                lit.deep_view(),
            ),
        }
    }
}

/// The structured content of an annotation.
#[derive(Debug, Clone, PartialEq, Eq)]
pub enum Meta {
    /// `#[path]`
    Path(Option<String>),
    /// `#[path(entry, entry, ...)]`
    List(Option<String>, Vec<Nested>),
    /// `#[path = literal]`
    NameValue(Option<String>, Lit),
}

/// [`Meta`] as a mathematical value, with its texts as sequences of characters.
pub enum MetaModel {
    Path(Option<Seq<char>>),
    List(Option<Seq<char>>, Seq<NestedModel>),
    NameValue(Option<Seq<char>>, LitModel),
}

impl DeepView for Meta {
    type V = MetaModel;

    open spec fn deep_view(&self) -> MetaModel {
        match self {
            Meta::Path(path) => MetaModel::Path(path.deep_view()),
            Meta::List(path, nested) => MetaModel::List(path.deep_view(), nested.deep_view()),
            Meta::NameValue(path, lit) => MetaModel::NameValue(path.deep_view(), lit.deep_view()),
        }
    }
}

/// An annotation attached to a type or to a field.
#[derive(Debug, Clone, PartialEq, Eq)]
pub enum Attribute {
    /// Content that has none of the three structured forms.
    Unstructured,
    /// Structured content.
    Meta(Meta),
}

/// [`Attribute`] as a mathematical value, with its texts as sequences of characters.
pub enum AttributeModel {
    Unstructured,
    Meta(MetaModel),
}

impl DeepView for Attribute {
    type V = AttributeModel;

    open spec fn deep_view(&self) -> AttributeModel {
        match self {
            Attribute::Unstructured => AttributeModel::Unstructured,
            Attribute::Meta(meta) => AttributeModel::Meta(meta.deep_view()),
        }
    }
}

impl MetaModel {
    /// The identifier that the annotation's path consists of, if it is one.
    pub open spec fn path(self) -> Option<Seq<char>> {
        match self {
            MetaModel::Path(path) => path,
            MetaModel::List(path, _) => path,
            MetaModel::NameValue(path, _) => path,
        }
    }
}

impl NestedModel {
    /// Whether the entry is a path, a list or an assignment whose path is the
    /// identifier `word`.
    pub open spec fn is_meta_named(self, word: Seq<char>) -> bool {
        match self {
            NestedModel::Lit(_) => false,
            NestedModel::Path(path) => path == Some(word),
            NestedModel::List(path) => path == Some(word),
            NestedModel::NameValue(path, _) => path == Some(word),
        }
    }

    /// The text assigned by the entry, where it assigns a string to the
    /// identifier `key`.
    pub open spec fn assigned(self, key: Seq<char>) -> Option<Seq<char>> {
        match self {
            NestedModel::NameValue(Some(k), LitModel::Str(text)) if k == key => Some(text),
            _ => None,
        }
    }
}

impl AttributeModel {
    /// Whether the annotation is one of this generator's: structured, under
    /// the path `debug_stub`.
    pub open spec fn recognized(self) -> bool {
        match self {
            AttributeModel::Unstructured => false,
            AttributeModel::Meta(meta) => meta.path() == Some("debug_stub"@),
        }
    }

    /// Whether the annotation is a recognized list whose entries are all
    /// `ignore_generics`, with or without a payload of their own.
    pub open spec fn is_flag_list(self) -> bool {
        &&& self.recognized()
        &&& self matches AttributeModel::Meta(MetaModel::List(_, nested))
        &&& forall|k: int|
            0 <= k < nested.len() ==> (#[trigger] nested[k]).is_meta_named("ignore_generics"@)
    }

    /// Whether the annotation asks for no requirement on the type's
    /// parameters: a flag list with at least one entry.
    pub open spec fn sets_flag(self) -> bool {
        &&& self.is_flag_list()
        &&& self matches AttributeModel::Meta(MetaModel::List(_, nested))
        &&& nested.len() > 0
    }

    /// Whether the annotation is recognized and, on a type, out of place.
    pub open spec fn misplaced(self) -> bool {
        self.recognized() && !self.is_flag_list()
    }
}

} // verus!
