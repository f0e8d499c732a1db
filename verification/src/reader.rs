//! Reading the top level of a schema document: its five keys, and the
//! definitions, each handed to the classification.

use crate::dict::Dict;
use crate::error::{Field, SchemaError, SchemaErrorView};
use crate::json::{entries_view, field, lemma_object_view, lookup, Json, JsonView};
use crate::literal::{is_text, ObjectType};
use crate::model::{text_view, Definition, DefinitionView, Schema, SchemaView};
use crate::resolve::spec_definition;
use vstd::prelude::*;

verus! {

/// A result matches an outcome when both succeed or both fail, and the view
/// of what the one carries is what the other carries.
pub open spec fn matches_outcome<T: View>(
    found: Result<T, SchemaError>,
    expected: Result<T::V, SchemaErrorView>,
) -> bool {
    match found {
        Ok(value) => expected == Ok::<T::V, SchemaErrorView>(value@),
        Err(error) => expected == Err::<T::V, SchemaErrorView>(error@),
    }
}

/// Whether a schema document has this key at its top level.
pub open spec fn known_key(key: Seq<char>) -> bool {
    key == "$schema"@ || key == "title"@ || key == "description"@ || key == "type"@ || key
        == "definitions"@
}

/// The first key, in the order of the entries, that a schema document does
/// not have.
pub open spec fn first_unknown_key(entries: Seq<(Seq<char>, JsonView)>) -> Option<Seq<char>>
    decreases entries.len(),
{
    if entries.len() == 0 {
        None
    } else {
        match first_unknown_key(entries.drop_last()) {
            Some(key) => Some(key),
            None => if known_key(entries.last().0) {
                None
            } else {
                Some(entries.last().0)
            },
        }
    }
}

/// The first of the five keys, in their fixed order, that the entries lack.
pub open spec fn first_missing(entries: Seq<(Seq<char>, JsonView)>) -> Option<Field> {
    if field(entries, "$schema"@) is None {
        Some(Field::SchemaUri)
    } else if field(entries, "title"@) is None {
        Some(Field::Title)
    } else if field(entries, "description"@) is None {
        Some(Field::Description)
    } else if field(entries, "type"@) is None {
        Some(Field::Type)
    } else if field(entries, "definitions"@) is None {
        Some(Field::Definitions)
    } else {
        None
    }
}

/// The string under one of the keys.
pub open spec fn spec_text_field(entries: Seq<(Seq<char>, JsonView)>, key: Field) -> Result<
    Seq<char>,
    SchemaErrorView,
> {
    match field(entries, key.spec_name()) {
        Some(JsonView::String(text)) => Ok(text),
        Some(other) => Err(SchemaErrorView::WrongKind(key, other)),
        None => Err(SchemaErrorView::MissingField(key)),
    }
}

/// The marker for the document's `type`, which must be the string `object`.
pub open spec fn spec_root_type(entries: Seq<(Seq<char>, JsonView)>) -> Result<
    ObjectType,
    SchemaErrorView,
> {
    match field(entries, "type"@) {
        Some(JsonView::String(text)) => if text == "object"@ {
            Ok(ObjectType)
        } else {
            Err(SchemaErrorView::LiteralMismatch(text))
        },
        Some(other) => Err(SchemaErrorView::LiteralNotAString(other)),
        None => Err(SchemaErrorView::MissingField(Field::Type)),
    }
}

/// The definitions that the entries of a `definitions` mapping describe, or
/// the first, in the order of the entries, whose value is no mapping.
pub open spec fn spec_definitions(entries: Seq<(Seq<char>, JsonView)>) -> Result<
    Map<Seq<char>, DefinitionView>,
    SchemaErrorView,
>
    decreases entries.len(),
{
    if entries.len() == 0 {
        Ok(Map::empty())
    } else {
        match spec_definitions(entries.drop_last()) {
            Err(error) => Err(error),
            Ok(definitions) => match spec_definition(entries.last().1) {
                Some(definition) => Ok(definitions.insert(entries.last().0, definition)),
                None => Err(
                    SchemaErrorView::DefinitionNotAnObject(entries.last().0, entries.last().1),
                ),
            },
        }
    }
}

/// The definitions under the key `definitions`, which must hold a mapping.
pub open spec fn spec_definitions_field(entries: Seq<(Seq<char>, JsonView)>) -> Result<
    Map<Seq<char>, DefinitionView>,
    SchemaErrorView,
> {
    match field(entries, "definitions"@) {
        Some(JsonView::Object(inner)) => spec_definitions(inner),
        Some(other) => Err(SchemaErrorView::WrongKind(Field::Definitions, other)),
        None => Err(SchemaErrorView::MissingField(Field::Definitions)),
    }
}

/// The outcome of reading a document. The faults are looked for in this
/// order: the document is no mapping; it holds an unknown key; it lacks one
/// of the five keys; then, key by key in their fixed order, the value under
/// the key does not fit.
pub open spec fn spec_schema(document: JsonView) -> Result<SchemaView, SchemaErrorView> {
    match document {
        JsonView::Object(entries) => {
            if let Some(key) = first_unknown_key(entries) {
                Err(SchemaErrorView::UnknownField(key))
            } else if let Some(key) = first_missing(entries) {
                Err(SchemaErrorView::MissingField(key))
            } else {
                match (
                    spec_text_field(entries, Field::SchemaUri),
                    spec_text_field(entries, Field::Title),
                    spec_text_field(entries, Field::Description),
                    spec_root_type(entries),
                    spec_definitions_field(entries),
                ) {
                    (Err(error), _, _, _, _) => Err(error),
                    (_, Err(error), _, _, _) => Err(error),
                    (_, _, Err(error), _, _) => Err(error),
                    (_, _, _, Err(error), _) => Err(error),
                    (_, _, _, _, Err(error)) => Err(error),
                    (Ok(schema), Ok(title), Ok(description), Ok(_), Ok(definitions)) => Ok(
                        SchemaView { schema, title, description, definitions },
                    ),
                }
            }
        },
        other => Err(SchemaErrorView::NotAnObject(other)),
    }
}

/// Where a front part of the entries has an unknown key, that key is the
/// first unknown one of the whole.
pub proof fn lemma_unknown_key_early(entries: Seq<(Seq<char>, JsonView)>, n: int)
    requires
        0 <= n <= entries.len(),
        first_unknown_key(entries.take(n)) is Some,
    ensures
        first_unknown_key(entries) == first_unknown_key(entries.take(n)),
    decreases entries.len(),
{
    if n < entries.len() {
        assert(entries.drop_last().take(n) =~= entries.take(n));
        lemma_unknown_key_early(entries.drop_last(), n);
    } else {
        assert(entries.take(n) =~= entries);
    }
}

/// Where a front part of the definitions cannot be read, the whole fails in
/// the same way.
pub proof fn lemma_definitions_fail_early(entries: Seq<(Seq<char>, JsonView)>, n: int)
    requires
        0 <= n <= entries.len(),
        spec_definitions(entries.take(n)) is Err,
    ensures
        spec_definitions(entries) == spec_definitions(entries.take(n)),
    decreases entries.len(),
{
    if n < entries.len() {
        assert(entries.drop_last().take(n) =~= entries.take(n));
        lemma_definitions_fail_early(entries.drop_last(), n);
    } else {
        assert(entries.take(n) =~= entries);
    }
}

/// Whether a schema document has this key at its top level.
fn is_known_key(key: &String) -> (known: bool)
    ensures
        known == known_key(key@),
{
    is_text(key, "$schema") || is_text(key, "title") || is_text(key, "description") || is_text(
        key,
        "type",
    ) || is_text(key, "definitions")
}

/// Finds the first key that a schema document does not have.
fn find_unknown_key(entries: &Vec<(String, Json)>) -> (key: Option<String>)
    ensures
        text_view(key) == first_unknown_key(entries_view(entries@)),
{
    let mut i: usize = 0;
    let ghost all = entries_view(entries@);
    while i < entries.len()
        invariant
            i <= entries.len(),
            all == entries_view(entries@),
            first_unknown_key(all.take(i as int)) is None,
        decreases entries.len() - i,
    {
        proof {
            assert(all.take(i + 1).drop_last() =~= all.take(i as int));
        }
        if !is_known_key(&entries[i].0) {
            proof {
                lemma_unknown_key_early(all, i + 1);
            }
            return Some(entries[i].0.clone());
        }
        i += 1;
    }
    proof {
        assert(all.take(i as int) =~= all);
    }
    None
}

/// Finds the first of the five keys that the entries lack.
fn find_missing(entries: &Vec<(String, Json)>) -> (key: Option<Field>)
    ensures
        key == first_missing(entries_view(entries@)),
{
    if lookup(entries, "$schema").is_none() {
        Some(Field::SchemaUri)
    } else if lookup(entries, "title").is_none() {
        Some(Field::Title)
    } else if lookup(entries, "description").is_none() {
        Some(Field::Description)
    } else if lookup(entries, "type").is_none() {
        Some(Field::Type)
    } else if lookup(entries, "definitions").is_none() {
        Some(Field::Definitions)
    } else {
        None
    }
}

/// Reads the string under one of the keys.
pub fn text_field(entries: &Vec<(String, Json)>, key: Field) -> (text: Result<String, SchemaError>)
    ensures
        match text {
            Ok(text) => spec_text_field(entries_view(entries@), key) == Ok::<Seq<char>, SchemaErrorView>(text@),
            Err(error) => spec_text_field(entries_view(entries@), key) == Err::<Seq<char>, SchemaErrorView>(
                error@,
            ),
        },
{
    match lookup(entries, key.name()) {
        Some(Json::String(text)) => Ok(text.clone()),
        Some(other) => Err(SchemaError::WrongKind(key, other.clone())),
        None => Err(SchemaError::MissingField(key)),
    }
}

/// Reads the marker for the document's `type`.
fn root_type(entries: &Vec<(String, Json)>) -> (marker: Result<ObjectType, SchemaError>)
    ensures
        match marker {
            Ok(marker) => spec_root_type(entries_view(entries@)) == Ok::<ObjectType, SchemaErrorView>(marker),
            Err(error) => spec_root_type(entries_view(entries@)) == Err::<ObjectType, SchemaErrorView>(error@),
        },
{
    match lookup(entries, "type") {
        Some(Json::String(text)) => match ObjectType::try_from(text.clone()) {
            Ok(marker) => Ok(marker),
            Err(rejected) => Err(SchemaError::LiteralMismatch(rejected)),
        },
        Some(other) => Err(SchemaError::LiteralNotAString(other.clone())),
        None => Err(SchemaError::MissingField(Field::Type)),
    }
}

/// Reads the entries of a `definitions` mapping.
fn definitions(entries: &Vec<(String, Json)>) -> (dict: Result<Dict<Definition>, SchemaError>)
    ensures
        matches_outcome(dict, spec_definitions(entries_view(entries@))),
{
    let mut dict: Dict<Definition> = Dict::new();
    let mut i: usize = 0;
    let ghost all = entries_view(entries@);
    while i < entries.len()
        invariant
            i <= entries.len(),
            all == entries_view(entries@),
            spec_definitions(all.take(i as int)) == Ok::<
                Map<Seq<char>, DefinitionView>,
                SchemaErrorView,
            >(dict@),
        decreases entries.len() - i,
    {
        proof {
            assert(all.take(i + 1).drop_last() =~= all.take(i as int));
        }
        match Definition::from_json(&entries[i].1) {
            Some(definition) => {
                dict = dict.with(entries[i].0.clone(), definition);
            },
            None => {
                proof {
                    lemma_definitions_fail_early(all, i + 1);
                }
                return Err(
                    SchemaError::DefinitionNotAnObject(entries[i].0.clone(), entries[i].1.clone()),
                );
            },
        }
        i += 1;
    }
    proof {
        assert(all.take(i as int) =~= all);
    }
    Ok(dict)
}

/// Reads the definitions under the key `definitions`.
fn definitions_field(entries: &Vec<(String, Json)>) -> (dict: Result<
    Dict<Definition>,
    SchemaError,
>)
    ensures
        matches_outcome(dict, spec_definitions_field(entries_view(entries@))),
{
    match lookup(entries, "definitions") {
        Some(Json::Object(inner)) => {
            proof {
                lemma_object_view(*inner);
            }
            definitions(inner)
        },
        Some(other) => Err(SchemaError::WrongKind(Field::Definitions, other.clone())),
        None => Err(SchemaError::MissingField(Field::Definitions)),
    }
}

impl Schema {
    /// Reads a schema document from a JSON value. The outcome is the one
    /// that `spec_schema` gives for the document, be it the model or the
    /// fault.
    pub fn from_json(document: &Json) -> (outcome: Result<Schema, SchemaError>)
        ensures
            matches_outcome(outcome, spec_schema(document@)),
    {
        match document {
            Json::Object(entries) => {
                proof {
                    lemma_object_view(*entries);
                }
                match find_unknown_key(entries) {
                    Some(key) => {
                        return Err(SchemaError::UnknownField(key));
                    },
                    None => {},
                }
                match find_missing(entries) {
                    Some(key) => {
                        return Err(SchemaError::MissingField(key));
                    },
                    None => {},
                }
                let schema = match text_field(entries, Field::SchemaUri) {
                    Ok(schema) => schema,
                    Err(error) => {
                        return Err(error);
                    },
                };
                let title = match text_field(entries, Field::Title) {
                    Ok(title) => title,
                    Err(error) => {
                        return Err(error);
                    },
                };
                let description = match text_field(entries, Field::Description) {
                    Ok(description) => description,
                    Err(error) => {
                        return Err(error);
                    },
                };
                let ty = match root_type(entries) {
                    Ok(ty) => ty,
                    Err(error) => {
                        return Err(error);
                    },
                };
                let definitions = match definitions_field(entries) {
                    Ok(definitions) => definitions,
                    Err(error) => {
                        return Err(error);
                    },
                };
                Ok(Schema { schema, title, description, ty, definitions })
            },
            other => Err(SchemaError::NotAnObject(other.clone())),
        }
    }
}

} // verus!
