//! Configuration errors: what is wrong, and where.

use vstd::prelude::*;
use vstd::string::*;

verus! {

/// What the generator found wrong with a declaration.
#[derive(Debug, Clone, Copy, PartialEq, Eq, Structural)]
pub enum ErrorKind {
    /// An annotation on the type is anything but a list whose entries are
    /// all `ignore_generics`.
    ExpectedIgnoreGenerics,
    /// An annotation on a field has no payload.
    ExpectedListOrNameValue,
    /// A list on a field assigns text to none of the allowed combinations
    /// of `some`, `ok` and `err`.
    ExpectedKeyedValues,
    /// A field is assigned a literal that is no string.
    ExpectedStringLiteral,
    /// The declaration is a union.
    ExpectedStructOrEnum,
}

/// What carries the annotation that an error is about.
#[derive(Debug, Clone, Copy, PartialEq, Eq, Structural)]
pub enum Site {
    /// The type itself.
    Type,
    /// The field of a struct, by its position.
    Field(usize),
    /// The field of an enum's variant: the variant's position, then the
    /// field's.
    VariantField(usize, usize),
}

/// The place in the declaration that an error points at.
#[derive(Debug, Clone, Copy, PartialEq, Eq, Structural)]
pub enum Location {
    /// The keyword that opens the declaration.
    Keyword,
    /// An annotation: what carries it, and its position among the
    /// annotations there. Within the annotation, `ExpectedIgnoreGenerics`
    /// is about the whole content, `ExpectedListOrNameValue` about the path,
    /// `ExpectedKeyedValues` about the list's entries and
    /// `ExpectedStringLiteral` about the literal.
    Attribute { site: Site, index: usize },
}

/// A misconfigured declaration. Nothing is generated for it.
#[derive(Debug, Clone, Copy, PartialEq, Eq, Structural)]
pub struct ConfigurationError {
    pub kind: ErrorKind,
    pub location: Location,
}

/// The outcome of a step of the generator, with what it produced seen as its
/// model.
pub open spec fn outcome<T: DeepView>(result: Result<T, ConfigurationError>) -> Result<
    T::V,
    ConfigurationError,
> {
    match result {
        Ok(produced) => Ok(produced.deep_view()),
        Err(error) => Err(error),
    }
}

impl ErrorKind {
    /// The diagnostic's wording.
    pub open spec fn text(self) -> Seq<char> {
        match self {
            ErrorKind::ExpectedIgnoreGenerics => "expected `ignore_generics`"@,
            ErrorKind::ExpectedListOrNameValue => "expected `List` or `NameValue`"@,
            ErrorKind::ExpectedKeyedValues =>
                "expected `some = _`, `ok = _`, `err = _`, or `ok = _, err = _`"@,
            ErrorKind::ExpectedStringLiteral => "expected string literal"@,
            ErrorKind::ExpectedStructOrEnum => "expected struct or enum"@,
        }
    }

    pub fn message(&self) -> (out: String)
        ensures
            out@ == self.text(),
    {
        match self {
            ErrorKind::ExpectedIgnoreGenerics => String::from_str("expected `ignore_generics`"),
            ErrorKind::ExpectedListOrNameValue => String::from_str(
                "expected `List` or `NameValue`",
            ),
            ErrorKind::ExpectedKeyedValues => String::from_str(
                "expected `some = _`, `ok = _`, `err = _`, or `ok = _, err = _`",
            ),
            ErrorKind::ExpectedStringLiteral => String::from_str("expected string literal"),
            ErrorKind::ExpectedStructOrEnum => String::from_str("expected struct or enum"),
        }
    }
}

impl ConfigurationError {
    /// The diagnostic's wording.
    pub fn message(&self) -> (out: String)
        ensures
            out@ == self.kind.text(),
    {
        self.kind.message()
    }
}

} // verus!
