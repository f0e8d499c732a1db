//! What holds of reading and classifying, for every document.

use crate::error::{Field, SchemaError, SchemaErrorView};
use crate::json::{field, lemma_field_some_iff_entry, JsonView};
use crate::model::{DefinitionView, InterfaceView, PropertyOrRefView, Schema, SchemaView};
use crate::reader::{
    first_missing, first_unknown_key, known_key, matches_outcome, spec_definitions, spec_schema,
    spec_text_field,
};
use crate::resolve::{
    spec_definition, spec_interface, spec_interface_or_ref, spec_parts, spec_properties,
    spec_property_or_ref,
};
use vstd::prelude::*;

verus! {

/// Reading is deterministic: two readings of one document both succeed or
/// both fail, with models that are equal part for part, or with the same
/// fault.
pub proof fn law_reading_is_deterministic(
    document: JsonView,
    first: Result<Schema, SchemaError>,
    second: Result<Schema, SchemaError>,
)
    requires
        matches_outcome(first, spec_schema(document)),
        matches_outcome(second, spec_schema(document)),
    ensures
        first is Ok <==> second is Ok,
        first is Ok ==> first->Ok_0@ == second->Ok_0@,
        first is Err ==> first->Err_0@ == second->Err_0@,
{
}

/// A mapping that lacks one of the five keys, in that none of its entries
/// carries it, is not read: the fault is one of structure.
pub proof fn law_missing_key_is_structural(document: JsonView, key: Field)
    requires
        document is Object,
        forall|i: int|
            0 <= i < document->Object_0.len() ==> (#[trigger] document->Object_0[i]).0
                != key.spec_name(),
    ensures
        spec_schema(document) is Err,
        spec_schema(document)->Err_0.is_structural(),
{
    let entries = document->Object_0;
    lemma_field_some_iff_entry(entries, key.spec_name());
    if first_unknown_key(entries) is None {
        assert(first_missing(entries) is Some);
    }
}

/// Where some entry has an unknown key, the entries have a first unknown key.
pub proof fn lemma_unknown_key_found(entries: Seq<(Seq<char>, JsonView)>, i: int)
    requires
        0 <= i < entries.len(),
        !known_key(entries[i].0),
    ensures
        first_unknown_key(entries) is Some,
        !known_key(first_unknown_key(entries)->Some_0),
    decreases entries.len(),
{
    if i < entries.len() - 1 {
        lemma_unknown_key_found(entries.drop_last(), i);
    } else {
        lemma_unknown_key_is_unknown(entries.drop_last());
    }
}

/// The first unknown key, where there is one, is unknown.
pub proof fn lemma_unknown_key_is_unknown(entries: Seq<(Seq<char>, JsonView)>)
    ensures
        first_unknown_key(entries) is Some ==> !known_key(first_unknown_key(entries)->Some_0),
    decreases entries.len(),
{
    if entries.len() > 0 {
        lemma_unknown_key_is_unknown(entries.drop_last());
    }
}

/// A mapping with a key beyond the five is not read, whatever else it
/// holds: the fault names an unknown key.
pub proof fn law_unknown_key_fails(document: JsonView, i: int)
    requires
        document is Object,
        0 <= i < document->Object_0.len(),
        !known_key(document->Object_0[i].0),
    ensures
        spec_schema(document) is Err,
        spec_schema(document)->Err_0 is UnknownField,
        !known_key(spec_schema(document)->Err_0->UnknownField_0),
        spec_schema(document)->Err_0.is_structural(),
{
    lemma_unknown_key_found(document->Object_0, i);
}

/// A definition whose `allOf` holds a sequence is a composition of the
/// classified items of that sequence, whatever else the definition holds.
pub proof fn law_all_of_is_composition(definition: JsonView, items: Seq<JsonView>)
    requires
        definition is Object,
        field(definition->Object_0, "allOf"@) == Some(JsonView::Array(items)),
    ensures
        spec_definition(definition) == Some(DefinitionView::AllOf { all_of: spec_parts(items) }),
{
}

/// A definition without `allOf` whose `type` is `object`, whose
/// `description` is a string, whose `properties` can each be classified, and
/// which has neither `title` nor `required`, is an interface with that
/// description and those properties.
pub proof fn law_object_shape_is_interface(
    definition: JsonView,
    description: Seq<char>,
    properties: Seq<(Seq<char>, JsonView)>,
)
    requires
        definition is Object,
        field(definition->Object_0, "allOf"@) is None,
        field(definition->Object_0, "type"@) == Some(JsonView::String("object"@)),
        field(definition->Object_0, "description"@) == Some(JsonView::String(description)),
        field(definition->Object_0, "properties"@) == Some(JsonView::Object(properties)),
        spec_properties(properties) is Some,
        field(definition->Object_0, "title"@) is None,
        field(definition->Object_0, "required"@) is None,
    ensures
        spec_definition(definition) == Some(
            DefinitionView::Interface(
                InterfaceView {
                    title: None,
                    description,
                    properties: spec_properties(properties)->Some_0,
                    required: Seq::empty(),
                },
            ),
        ),
{
}

/// In a property position, a mapping whose `$ref` holds a string is a
/// reference that carries that string as it stands.
pub proof fn law_ref_is_reference(value: JsonView, reference: Seq<char>)
    requires
        value is Object,
        field(value->Object_0, "$ref"@) == Some(JsonView::String(reference)),
    ensures
        spec_property_or_ref(value) == Some(PropertyOrRefView::Reference { reference }),
{
}

/// A definition that is a mapping without `allOf` and without `type` is
/// classified as a shape that the model does not cover.
pub proof fn law_unmodeled_shape_is_unrecognized(definition: JsonView)
    requires
        definition is Object,
        field(definition->Object_0, "allOf"@) is None,
        field(definition->Object_0, "type"@) is None,
    ensures
        spec_definition(definition) == Some(DefinitionView::Failed),
{
    assert(spec_interface(definition->Object_0) is None);
}

/// Every mapping has a classification as a definition, so definitions that
/// are all mappings are all read: none of them stops the reading.
pub proof fn law_mappings_are_all_read(entries: Seq<(Seq<char>, JsonView)>)
    requires
        forall|i: int| 0 <= i < entries.len() ==> (#[trigger] entries[i]).1 is Object,
    ensures
        spec_definitions(entries) is Ok,
        forall|i: int|
            0 <= i < entries.len() ==> spec_definitions(entries)->Ok_0.contains_key(
                (#[trigger] entries[i]).0,
            ),
    decreases entries.len(),
{
    if entries.len() > 0 {
        let front = entries.drop_last();
        law_mappings_are_all_read(front);
        assert(entries.last().1 is Object);
        assert forall|i: int| 0 <= i < entries.len() implies spec_definitions(
            entries,
        )->Ok_0.contains_key((#[trigger] entries[i]).0) by {
            if i < entries.len() - 1 {
                assert(front[i] == entries[i]);
            }
        }
    }
}

/// The order of the keys plays no part: two mappings that hold the same
/// value under every key are classified alike, in each of the three
/// positions.
pub proof fn law_key_order_plays_no_part(first: JsonView, second: JsonView)
    requires
        first is Object,
        second is Object,
        forall|key: Seq<char>| #[trigger]
            field(first->Object_0, key) == field(second->Object_0, key),
    ensures
        spec_definition(first) == spec_definition(second),
        spec_interface_or_ref(first) == spec_interface_or_ref(second),
        spec_property_or_ref(first) == spec_property_or_ref(second),
{
    let a = first->Object_0;
    let b = second->Object_0;
    assert(field(a, "allOf"@) == field(b, "allOf"@));
    assert(field(a, "$ref"@) == field(b, "$ref"@));
    assert(field(a, "type"@) == field(b, "type"@));
    assert(field(a, "description"@) == field(b, "description"@));
    assert(field(a, "title"@) == field(b, "title"@));
    assert(field(a, "properties"@) == field(b, "properties"@));
    assert(field(a, "required"@) == field(b, "required"@));
    assert(field(a, "enum"@) == field(b, "enum"@));
}

/// The definitions are read exactly when the value of each is a mapping.
pub proof fn law_definitions_read_iff_mappings(entries: Seq<(Seq<char>, JsonView)>)
    ensures
        spec_definitions(entries) is Ok <==> forall|i: int|
            0 <= i < entries.len() ==> (#[trigger] entries[i]).1 is Object,
    decreases entries.len(),
{
    if entries.len() > 0 {
        let front = entries.drop_last();
        law_definitions_read_iff_mappings(front);
        if spec_definitions(entries) is Ok {
            assert forall|i: int| 0 <= i < entries.len() implies (#[trigger] entries[i]).1
                is Object by {
                if i < entries.len() - 1 {
                    assert(front[i].1 is Object);
                }
            }
        }
        if forall|i: int| 0 <= i < entries.len() ==> (#[trigger] entries[i]).1 is Object {
            assert forall|i: int| 0 <= i < front.len() implies (#[trigger] front[i]).1
                is Object by {
                assert(entries[i].1 is Object);
            }
            assert(entries[entries.len() - 1].1 is Object);
        }
    }
}

/// The properties are read exactly when the value of each can be classified.
pub proof fn law_properties_read_iff_classified(entries: Seq<(Seq<char>, JsonView)>)
    ensures
        spec_properties(entries) is Some <==> forall|i: int|
            0 <= i < entries.len() ==> spec_property_or_ref((#[trigger] entries[i]).1) is Some,
    decreases entries.len(),
{
    if entries.len() > 0 {
        let front = entries.drop_last();
        law_properties_read_iff_classified(front);
        if spec_properties(entries) is Some {
            assert forall|i: int| 0 <= i < entries.len() implies spec_property_or_ref(
                (#[trigger] entries[i]).1,
            ) is Some by {
                if i < entries.len() - 1 {
                    assert(spec_property_or_ref(front[i].1) is Some);
                }
            }
        }
        if forall|i: int|
            0 <= i < entries.len() ==> spec_property_or_ref((#[trigger] entries[i]).1) is Some {
            assert forall|i: int| 0 <= i < front.len() implies spec_property_or_ref(
                (#[trigger] front[i]).1,
            ) is Some by {
                assert(spec_property_or_ref(entries[i].1) is Some);
            }
            assert(spec_property_or_ref(entries[entries.len() - 1].1) is Some);
        }
    }
}

/// Where the definitions are read, their names are the keys of the entries,
/// and each name maps to the classification of the value that the entries
/// hold under it.
pub proof fn law_definitions_by_name(entries: Seq<(Seq<char>, JsonView)>, name: Seq<char>)
    requires
        spec_definitions(entries) is Ok,
    ensures
        spec_definitions(entries)->Ok_0.contains_key(name) <==> field(entries, name) is Some,
        field(entries, name) is Some ==> spec_definition(field(entries, name)->Some_0) == Some(
            spec_definitions(entries)->Ok_0[name],
        ),
    decreases entries.len(),
{
    if entries.len() > 0 {
        law_definitions_by_name(entries.drop_last(), name);
    }
}

/// Where the properties are read, their names are the keys of the entries,
/// and each name maps to the classification of the value that the entries
/// hold under it.
pub proof fn law_properties_by_name(entries: Seq<(Seq<char>, JsonView)>, name: Seq<char>)
    requires
        spec_properties(entries) is Some,
    ensures
        spec_properties(entries)->Some_0.contains_key(name) <==> field(entries, name) is Some,
        field(entries, name) is Some ==> spec_property_or_ref(field(entries, name)->Some_0)
            == Some(spec_properties(entries)->Some_0[name]),
    decreases entries.len(),
{
    if entries.len() > 0 {
        law_properties_by_name(entries.drop_last(), name);
    }
}

/// A document with the five keys and no other, whose three strings are
/// strings and whose `type` is a string other than `object`, is not read:
/// the fault carries that string as it stands.
pub proof fn law_root_type_mismatch(document: JsonView, ty: Seq<char>)
    requires
        document is Object,
        first_unknown_key(document->Object_0) is None,
        first_missing(document->Object_0) is None,
        spec_text_field(document->Object_0, Field::SchemaUri) is Ok,
        spec_text_field(document->Object_0, Field::Title) is Ok,
        spec_text_field(document->Object_0, Field::Description) is Ok,
        field(document->Object_0, "type"@) == Some(JsonView::String(ty)),
        ty != "object"@,
    ensures
        spec_schema(document) == Err::<SchemaView, SchemaErrorView>(
            SchemaErrorView::LiteralMismatch(ty),
        ),
        spec_schema(document)->Err_0.is_literal_mismatch(),
{
}

} // verus!
