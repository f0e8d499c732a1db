//! The frame of a schema document alone: its four strings, with whatever
//! else the document holds left unread.

use crate::error::{Field, SchemaError, SchemaErrorView};
use crate::json::{lemma_object_view, Json, JsonView};
use crate::reader::{matches_outcome, spec_text_field, text_field};
use vstd::prelude::*;

verus! {

/// The four strings at the top level of a schema document.
#[derive(Debug, Clone, PartialEq, Eq)]
pub struct Schema {
    pub schema: String,
    pub title: String,
    pub description: String,
    pub ty: String,
}

/// A `Schema` with its strings as sequences of characters.
pub struct SchemaView {
    pub schema: Seq<char>,
    pub title: Seq<char>,
    pub description: Seq<char>,
    pub ty: Seq<char>,
}

impl View for Schema {
    type V = SchemaView;

    open spec fn view(&self) -> SchemaView {
        SchemaView {
            schema: self.schema@,
            title: self.title@,
            description: self.description@,
            ty: self.ty@,
        }
    }
}

/// The outcome of reading the frame of a document: its four strings, or the
/// first fault, taking the keys in their fixed order. Other keys are not
/// looked at, and `type` may be any string.
pub open spec fn spec_frame(document: JsonView) -> Result<SchemaView, SchemaErrorView> {
    match document {
        JsonView::Object(entries) => match (
            spec_text_field(entries, Field::SchemaUri),
            spec_text_field(entries, Field::Title),
            spec_text_field(entries, Field::Description),
            spec_text_field(entries, Field::Type),
        ) {
            (Err(error), _, _, _) => Err(error),
            (_, Err(error), _, _) => Err(error),
            (_, _, Err(error), _) => Err(error),
            (_, _, _, Err(error)) => Err(error),
            (Ok(schema), Ok(title), Ok(description), Ok(ty)) => Ok(
                SchemaView { schema, title, description, ty },
            ),
        },
        other => Err(SchemaErrorView::NotAnObject(other)),
    }
}

impl Schema {
    /// Reads the frame of a schema document from a JSON value. The outcome
    /// is the one that `spec_frame` gives for the document.
    pub fn from_json(document: &Json) -> (outcome: Result<Schema, SchemaError>)
        ensures
            matches_outcome(outcome, spec_frame(document@)),
    {
        match document {
            Json::Object(entries) => {
                proof {
                    lemma_object_view(*entries);
                }
                let schema = match text_field(entries, Field::SchemaUri) {
                    Ok(schema) => schema,
                    Err(error) => {
                        return Err(error);
                    },
                };
                let title = match text_field(entries, Field::Title) {
                    Ok(title) => title,
                    Err(error) => {
                        return Err(error);
                    },
                };
                let description = match text_field(entries, Field::Description) {
                    Ok(description) => description,
                    Err(error) => {
                        return Err(error);
                    },
                };
                let ty = match text_field(entries, Field::Type) {
                    Ok(ty) => ty,
                    Err(error) => {
                        return Err(error);
                    },
                };
                Ok(Schema { schema, title, description, ty })
            },
            other => Err(SchemaError::NotAnObject(other.clone())),
        }
    }
}

} // verus!
