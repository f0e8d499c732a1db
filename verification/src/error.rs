//! The ways in which reading a schema document fails.

use crate::json::{Json, JsonView};
use crate::literal::TypeFromStringError;
use vstd::prelude::*;

verus! {

/// One of the keys that a schema document holds at its top level.
#[derive(Debug, Clone, Copy, PartialEq, Eq, Structural)]
pub enum Field {
    SchemaUri,
    Title,
    Description,
    Type,
    Definitions,
}

impl Field {
    /// The key as the document writes it.
    pub open spec fn spec_name(self) -> Seq<char> {
        match self {
            Field::SchemaUri => "$schema"@,
            Field::Title => "title"@,
            Field::Description => "description"@,
            Field::Type => "type"@,
            Field::Definitions => "definitions"@,
        }
    }

    /// The key as the document writes it.
    pub fn name(self) -> (name: &'static str)
        ensures
            name@ == self.spec_name(),
    {
        match self {
            Field::SchemaUri => "$schema",
            Field::Title => "title",
            Field::Description => "description",
            Field::Type => "type",
            Field::Definitions => "definitions",
        }
    }
}

/// Why a document could not be read.
#[derive(Debug, Clone, PartialEq, Eq)]
pub enum SchemaError {
    /// The document is not a mapping. The error carries the document.
    NotAnObject(Json),
    /// The document holds a key that a schema document does not have.
    UnknownField(String),
    /// The document lacks a key that a schema document has.
    MissingField(Field),
    /// The value under a key is of another kind than the key asks for. The
    /// error carries the value.
    WrongKind(Field, Json),
    /// The value of the named definition is not a mapping. The error carries
    /// the value.
    DefinitionNotAnObject(String, Json),
    /// A literal field holds a string other than the one it accepts.
    LiteralMismatch(TypeFromStringError),
    /// A field that takes one of a fixed set of strings holds a value that
    /// is not a string. The error carries the value.
    LiteralNotAString(Json),
    /// A property type is named that is not one of the known ones.
    UnknownType(String),
}

/// A `SchemaError` with its strings as sequences of characters and its
/// values as trees.
pub enum SchemaErrorView {
    NotAnObject(JsonView),
    UnknownField(Seq<char>),
    MissingField(Field),
    WrongKind(Field, JsonView),
    DefinitionNotAnObject(Seq<char>, JsonView),
    LiteralMismatch(Seq<char>),
    LiteralNotAString(JsonView),
    UnknownType(Seq<char>),
}

impl SchemaErrorView {
    /// The document's structure is at fault: it is no mapping, or a key is
    /// missing, unknown, or holds a value of the wrong kind.
    pub open spec fn is_structural(self) -> bool {
        self is NotAnObject || self is UnknownField || self is MissingField || self is WrongKind
            || self is DefinitionNotAnObject
    }

    /// A field that takes one of a fixed set of strings holds something else.
    pub open spec fn is_literal_mismatch(self) -> bool {
        self is LiteralMismatch || self is LiteralNotAString || self is UnknownType
    }
}

impl View for SchemaError {
    type V = SchemaErrorView;

    open spec fn view(&self) -> SchemaErrorView {
        match self {
            SchemaError::NotAnObject(value) => SchemaErrorView::NotAnObject(value@),
            SchemaError::UnknownField(key) => SchemaErrorView::UnknownField(key@),
            SchemaError::MissingField(field) => SchemaErrorView::MissingField(*field),
            SchemaError::WrongKind(field, value) => SchemaErrorView::WrongKind(*field, value@),
            SchemaError::DefinitionNotAnObject(name, value) => SchemaErrorView::DefinitionNotAnObject(
                name@,
                value@,
            ),
            SchemaError::LiteralMismatch(rejected) => SchemaErrorView::LiteralMismatch(rejected@),
            SchemaError::LiteralNotAString(value) => SchemaErrorView::LiteralNotAString(value@),
            SchemaError::UnknownType(name) => SchemaErrorView::UnknownType(name@),
        }
    }
}

impl SchemaError {
    /// Whether the document's structure is at fault.
    pub fn is_structural(&self) -> (structural: bool)
        ensures
            structural == self@.is_structural(),
    {
        match self {
            SchemaError::NotAnObject(_) => true,
            SchemaError::UnknownField(_) => true,
            SchemaError::MissingField(_) => true,
            SchemaError::WrongKind(_, _) => true,
            SchemaError::DefinitionNotAnObject(_, _) => true,
            SchemaError::LiteralMismatch(_) => false,
            SchemaError::LiteralNotAString(_) => false,
            SchemaError::UnknownType(_) => false,
        }
    }

    /// Whether a field that takes one of a fixed set of strings holds something else.
    pub fn is_literal_mismatch(&self) -> (mismatch: bool)
        ensures
            mismatch == self@.is_literal_mismatch(),
    {
        match self {
            SchemaError::LiteralMismatch(_) => true,
            SchemaError::LiteralNotAString(_) => true,
            SchemaError::UnknownType(_) => true,
            _ => false,
        }
    }
}

} // verus!
