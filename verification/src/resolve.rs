//! Classification of a JSON value as one of the shapes of the model.
//!
//! No field of the source says which shape a value has. Each union tries its
//! shapes in a fixed order, from the most constrained one down, and takes the
//! first whose fields are all there, of the right kind, and equal to the
//! literal they must hold. The order of the keys in the source plays no part.

use crate::dict::Dict;
use crate::error::{SchemaError, SchemaErrorView};
use crate::json::{
    entries_view, field, items_view, lemma_array_view, lemma_object_view, lookup, Json, JsonView,
};
use crate::literal::{is_text, type_of_name, ObjectType, Type};
use crate::model::{
    parts_view, text_view, texts_view, Definition, DefinitionView, Interface, InterfaceOrRef,
    InterfaceOrRefView, InterfaceView, Property, PropertyOrRef, PropertyOrRefView, PropertyView,
};
use vstd::prelude::*;

verus! {

/// A result agrees with a classification when both are absent, or when the
/// view of the one is the other.
pub open spec fn agrees<T: View>(found: Option<T>, expected: Option<T::V>) -> bool {
    match found {
        Some(value) => expected == Some(value@),
        None => expected is None,
    }
}

/// The property type that a value names: a string that is one of the four
/// names. Any other string is an unknown type, and any other value is no
/// string.
pub open spec fn spec_type(value: JsonView) -> Result<Type, SchemaErrorView> {
    match value {
        JsonView::String(name) => match type_of_name(name) {
            Some(ty) => Ok(ty),
            None => Err(SchemaErrorView::UnknownType(name)),
        },
        other => Err(SchemaErrorView::LiteralNotAString(other)),
    }
}

/// An optional string field: absent or null is no string, a string is
/// itself, anything else does not fit.
pub open spec fn spec_optional_text(value: Option<JsonView>) -> Option<Option<Seq<char>>> {
    match value {
        None => Some(None),
        Some(JsonView::Null) => Some(None),
        Some(JsonView::String(text)) => Some(Some(text)),
        _ => None,
    }
}

/// The strings of a sequence, if all its items are strings.
pub open spec fn spec_texts(items: Seq<JsonView>) -> Option<Seq<Seq<char>>> {
    if forall|i: int| 0 <= i < items.len() ==> (#[trigger] items[i]) is String {
        Some(Seq::new(items.len(), |i: int| items[i]->String_0))
    } else {
        None
    }
}

/// A field that lists strings: absent is the empty list, a sequence of
/// strings is itself, anything else does not fit.
pub open spec fn spec_text_list(value: Option<JsonView>) -> Option<Seq<Seq<char>>> {
    match value {
        None => Some(Seq::empty()),
        Some(JsonView::Array(items)) => spec_texts(items),
        _ => None,
    }
}

/// The property that a mapping with these entries describes, if it describes
/// one: `type` names a property type, `description` is an optional string and
/// `enum` lists strings.
pub open spec fn spec_property(entries: Seq<(Seq<char>, JsonView)>) -> Option<PropertyView> {
    match field(entries, "type"@) {
        Some(JsonView::String(name)) => match (
            type_of_name(name),
            spec_optional_text(field(entries, "description"@)),
            spec_text_list(field(entries, "enum"@)),
        ) {
            (Some(ty), Some(description), Some(enumeration)) => Some(
                PropertyView { ty, description, enumeration },
            ),
            _ => None,
        },
        _ => None,
    }
}

/// The classification of a value in a property position: a reference where
/// `$ref` holds a string, else a property, else none.
pub open spec fn spec_property_or_ref(value: JsonView) -> Option<PropertyOrRefView> {
    match value {
        JsonView::Object(entries) => match field(entries, "$ref"@) {
            Some(JsonView::String(reference)) => Some(
                PropertyOrRefView::Reference { reference: reference },
            ),
            _ => match spec_property(entries) {
                Some(property) => Some(PropertyOrRefView::Property(property)),
                None => None,
            },
        },
        _ => None,
    }
}

/// The properties that the entries of a `properties` mapping describe, if
/// each of them can be classified.
pub open spec fn spec_properties(entries: Seq<(Seq<char>, JsonView)>) -> Option<
    Map<Seq<char>, PropertyOrRefView>,
>
    decreases entries.len(),
{
    if entries.len() == 0 {
        Some(Map::empty())
    } else {
        match (spec_properties(entries.drop_last()), spec_property_or_ref(entries.last().1)) {
            (Some(properties), Some(property)) => Some(
                properties.insert(entries.last().0, property),
            ),
            _ => None,
        }
    }
}

/// A `properties` field: absent is the empty mapping, a mapping is read entry
/// by entry, anything else does not fit.
pub open spec fn spec_properties_field(value: Option<JsonView>) -> Option<
    Map<Seq<char>, PropertyOrRefView>,
> {
    match value {
        None => Some(Map::empty()),
        Some(JsonView::Object(entries)) => spec_properties(entries),
        _ => None,
    }
}

/// The interface that a mapping with these entries describes, if it describes
/// one: `type` is the string `object`, `description` is a string, `title` is
/// an optional string, `properties` maps names to properties and `required`
/// lists strings.
pub open spec fn spec_interface(entries: Seq<(Seq<char>, JsonView)>) -> Option<InterfaceView> {
    match (field(entries, "type"@), field(entries, "description"@)) {
        (Some(JsonView::String(ty)), Some(JsonView::String(description))) => match (
            spec_optional_text(field(entries, "title"@)),
            spec_properties_field(field(entries, "properties"@)),
            spec_text_list(field(entries, "required"@)),
        ) {
            (Some(title), Some(properties), Some(required)) if ty == "object"@ => Some(
                InterfaceView { title, description: description, properties, required },
            ),
            _ => None,
        },
        _ => None,
    }
}

/// The classification of one part of a composition: a reference where `$ref`
/// holds a string, else an interface, else a shape that is not covered.
pub open spec fn spec_interface_or_ref(value: JsonView) -> InterfaceOrRefView {
    match value {
        JsonView::Object(entries) => match field(entries, "$ref"@) {
            Some(JsonView::String(reference)) => InterfaceOrRefView::Reference {
                reference: reference,
            },
            _ => match spec_interface(entries) {
                Some(interface) => InterfaceOrRefView::Interface(interface),
                None => InterfaceOrRefView::Failed,
            },
        },
        _ => InterfaceOrRefView::Failed,
    }
}

/// The parts of a composition, each classified.
pub open spec fn spec_parts(items: Seq<JsonView>) -> Seq<InterfaceOrRefView> {
    Seq::new(items.len(), |i: int| spec_interface_or_ref(items[i]))
}

/// The classification of a definition, which is owed to every mapping: a
/// composition where `allOf` holds a sequence, else an interface, else a
/// shape that is not covered. A value that is no mapping has none.
pub open spec fn spec_definition(value: JsonView) -> Option<DefinitionView> {
    match value {
        JsonView::Object(entries) => match field(entries, "allOf"@) {
            Some(JsonView::Array(items)) => Some(DefinitionView::AllOf { all_of: spec_parts(items) }),
            _ => match spec_interface(entries) {
                Some(interface) => Some(DefinitionView::Interface(interface)),
                None => Some(DefinitionView::Failed),
            },
        },
        _ => None,
    }
}

/// Where a front part of the entries cannot be read, the whole cannot.
pub proof fn lemma_properties_fail_early(entries: Seq<(Seq<char>, JsonView)>, n: int)
    requires
        0 <= n <= entries.len(),
        spec_properties(entries.take(n)) is None,
    ensures
        spec_properties(entries) is None,
    decreases entries.len(),
{
    if n < entries.len() {
        assert(entries.drop_last().take(n) =~= entries.take(n));
        lemma_properties_fail_early(entries.drop_last(), n);
    } else {
        assert(entries.take(n) =~= entries);
    }
}

impl Type {
    /// Reads a property type on its own, where nothing else can be tried in
    /// its place: a value that names none of the four types is a fault.
    pub fn from_json(value: &Json) -> (ty: Result<Type, SchemaError>)
        ensures
            match ty {
                Ok(ty) => spec_type(value@) == Ok::<Type, SchemaErrorView>(ty),
                Err(error) => spec_type(value@) == Err::<Type, SchemaErrorView>(error@),
            },
    {
        match value {
            Json::String(name) => match Type::from_name(name) {
                Some(ty) => Ok(ty),
                None => Err(SchemaError::UnknownType(name.clone())),
            },
            other => Err(SchemaError::LiteralNotAString(other.clone())),
        }
    }
}

/// Reads an optional string field.
fn optional_text(entries: &Vec<(String, Json)>, key: &str) -> (text: Option<Option<String>>)
    ensures
        match text {
            Some(text) => spec_optional_text(field(entries_view(entries@), key@)) == Some(text_view(text)),
            None => spec_optional_text(field(entries_view(entries@), key@)) is None,
        },
{
    match lookup(entries, key) {
        None => Some(None),
        Some(Json::Null) => Some(None),
        Some(Json::String(text)) => Some(Some(text.clone())),
        Some(_) => None,
    }
}

/// Reads the strings of a sequence.
fn texts(items: &Vec<Json>) -> (list: Option<Vec<String>>)
    ensures
        match list {
            Some(list) => spec_texts(items_view(items@)) == Some(texts_view(list@)),
            None => spec_texts(items_view(items@)) is None,
        },
{
    let mut list: Vec<String> = Vec::new();
    let mut i: usize = 0;
    while i < items.len()
        invariant
            i <= items.len(),
            list.len() == i,
            forall|j: int| 0 <= j < i ==> (#[trigger] items@[j])@ is String,
            forall|j: int| 0 <= j < i ==> (#[trigger] list@[j])@ == items@[j]@->String_0,
        decreases items.len() - i,
    {
        match &items[i] {
            Json::String(text) => {
                list.push(text.clone());
            },
            _ => {
                assert(!(items_view(items@)[i as int] is String));
                return None;
            },
        }
        i += 1;
    }
    proof {
        let views = items_view(items@);
        assert forall|j: int| 0 <= j < views.len() implies (#[trigger] views[j]) is String by {
            assert(items@[j]@ is String);
        }
        assert(texts_view(list@) =~= Seq::new(views.len(), |i: int| views[i]->String_0));
    }
    Some(list)
}

/// Reads a field that lists strings.
fn text_list(entries: &Vec<(String, Json)>, key: &str) -> (list: Option<Vec<String>>)
    ensures
        match list {
            Some(list) => spec_text_list(field(entries_view(entries@), key@)) == Some(texts_view(list@)),
            None => spec_text_list(field(entries_view(entries@), key@)) is None,
        },
{
    match lookup(entries, key) {
        None => {
            let list: Vec<String> = Vec::new();
            proof {
                assert(texts_view(list@) =~= Seq::<Seq<char>>::empty());
            }
            Some(list)
        },
        Some(Json::Array(items)) => {
            proof {
                lemma_array_view(*items);
            }
            texts(items)
        },
        Some(_) => None,
    }
}

impl Property {
    /// Reads a property from the entries of a mapping: `None` exactly when
    /// they do not describe one.
    pub fn from_entries(entries: &Vec<(String, Json)>) -> (property: Option<Property>)
        ensures
            agrees(property, spec_property(entries_view(entries@))),
    {
        let ty = match lookup(entries, "type") {
            Some(Json::String(name)) => match Type::from_name(name) {
                Some(ty) => ty,
                None => {
                    return None;
                },
            },
            _ => {
                return None;
            },
        };
        let description = match optional_text(entries, "description") {
            Some(description) => description,
            None => {
                return None;
            },
        };
        let enumeration = match text_list(entries, "enum") {
            Some(enumeration) => enumeration,
            None => {
                return None;
            },
        };
        Some(Property { ty, description, enumeration })
    }
}

impl PropertyOrRef {
    /// Classifies a value in a property position: `None` exactly when it is
    /// neither a reference nor a property.
    pub fn from_json(value: &Json) -> (property: Option<PropertyOrRef>)
        ensures
            agrees(property, spec_property_or_ref(value@)),
    {
        match value {
            Json::Object(entries) => {
                proof {
                    lemma_object_view(*entries);
                }
                match lookup(entries, "$ref") {
                    Some(Json::String(reference)) => {
                        return Some(PropertyOrRef::Reference { reference: reference.clone() });
                    },
                    _ => {},
                }
                match Property::from_entries(entries) {
                    Some(property) => Some(PropertyOrRef::Property(property)),
                    None => None,
                }
            },
            _ => None,
        }
    }
}

/// Reads the entries of a `properties` mapping.
fn properties(entries: &Vec<(String, Json)>) -> (dict: Option<Dict<PropertyOrRef>>)
    ensures
        agrees(dict, spec_properties(entries_view(entries@))),
{
    let mut dict: Dict<PropertyOrRef> = Dict::new();
    let mut i: usize = 0;
    let ghost all = entries_view(entries@);
    while i < entries.len()
        invariant
            i <= entries.len(),
            all == entries_view(entries@),
            spec_properties(all.take(i as int)) == Some(dict@),
        decreases entries.len() - i,
    {
        proof {
            assert(all.take(i + 1).drop_last() =~= all.take(i as int));
        }
        match PropertyOrRef::from_json(&entries[i].1) {
            Some(property) => {
                dict = dict.with(entries[i].0.clone(), property);
            },
            None => {
                proof {
                    lemma_properties_fail_early(all, i + 1);
                }
                return None;
            },
        }
        i += 1;
    }
    proof {
        assert(all.take(i as int) =~= all);
    }
    Some(dict)
}

/// Reads a `properties` field.
fn properties_field(entries: &Vec<(String, Json)>) -> (dict: Option<Dict<PropertyOrRef>>)
    ensures
        agrees(dict, spec_properties_field(field(entries_view(entries@), "properties"@))),
{
    match lookup(entries, "properties") {
        None => Some(Dict::new()),
        Some(Json::Object(inner)) => {
            proof {
                lemma_object_view(*inner);
            }
            properties(inner)
        },
        Some(_) => None,
    }
}

impl Interface {
    /// Reads an interface from the entries of a mapping: `None` exactly when
    /// they do not describe one.
    pub fn from_entries(entries: &Vec<(String, Json)>) -> (interface: Option<Interface>)
        ensures
            agrees(interface, spec_interface(entries_view(entries@))),
    {
        let is_object = match lookup(entries, "type") {
            Some(Json::String(ty)) => is_text(ty, "object"),
            _ => {
                return None;
            },
        };
        let description = match lookup(entries, "description") {
            Some(Json::String(description)) => description.clone(),
            _ => {
                return None;
            },
        };
        if !is_object {
            return None;
        }
        let title = match optional_text(entries, "title") {
            Some(title) => title,
            None => {
                return None;
            },
        };
        let properties = match properties_field(entries) {
            Some(properties) => properties,
            None => {
                return None;
            },
        };
        let required = match text_list(entries, "required") {
            Some(required) => required,
            None => {
                return None;
            },
        };
        Some(Interface { ty: ObjectType, title, description, properties, required })
    }
}

impl Interface {
    /// Whether every name that the interface requires is the name of one of
    /// its properties. Reading does not ask this of a document.
    pub fn requires_only_properties(&self) -> (consistent: bool)
        ensures
            consistent == forall|i: int|
                0 <= i < self@.required.len() ==> self@.properties.contains_key(
                    #[trigger] self@.required[i],
                ),
    {
        let mut i: usize = 0;
        while i < self.required.len()
            invariant
                i <= self.required.len(),
                forall|j: int|
                    0 <= j < i ==> self@.properties.contains_key(#[trigger] self@.required[j]),
            decreases self.required.len() - i,
        {
            if self.properties.get(self.required[i].as_str()).is_none() {
                assert(!self@.properties.contains_key(self@.required[i as int]));
                return false;
            }
            i += 1;
        }
        true
    }
}

impl InterfaceOrRef {
    /// Classifies one part of a composition. Every value has a
    /// classification.
    pub fn from_json(value: &Json) -> (part: InterfaceOrRef)
        ensures
            part@ == spec_interface_or_ref(value@),
    {
        match value {
            Json::Object(entries) => {
                proof {
                    lemma_object_view(*entries);
                }
                match lookup(entries, "$ref") {
                    Some(Json::String(reference)) => {
                        return InterfaceOrRef::Reference { reference: reference.clone() };
                    },
                    _ => {},
                }
                match Interface::from_entries(entries) {
                    Some(interface) => InterfaceOrRef::Interface(interface),
                    None => InterfaceOrRef::Failed {  },
                }
            },
            _ => InterfaceOrRef::Failed {  },
        }
    }
}

/// Classifies the parts of a composition.
fn parts(items: &Vec<Json>) -> (all_of: Vec<InterfaceOrRef>)
    ensures
        parts_view(all_of@) == spec_parts(items_view(items@)),
{
    let mut all_of: Vec<InterfaceOrRef> = Vec::new();
    let mut i: usize = 0;
    while i < items.len()
        invariant
            i <= items.len(),
            all_of.len() == i,
            forall|j: int|
                0 <= j < i ==> (#[trigger] all_of@[j])@ == spec_interface_or_ref(items@[j]@),
        decreases items.len() - i,
    {
        all_of.push(InterfaceOrRef::from_json(&items[i]));
        i += 1;
    }
    proof {
        assert(parts_view(all_of@) =~= spec_parts(items_view(items@)));
    }
    all_of
}

impl Definition {
    /// Classifies a definition: `None` exactly when the value is no mapping.
    /// Every mapping has a classification.
    pub fn from_json(value: &Json) -> (definition: Option<Definition>)
        ensures
            agrees(definition, spec_definition(value@)),
            definition is Some <==> value@ is Object,
    {
        match value {
            Json::Object(entries) => {
                proof {
                    lemma_object_view(*entries);
                }
                match lookup(entries, "allOf") {
                    Some(Json::Array(items)) => {
                        proof {
                            lemma_array_view(*items);
                        }
                        return Some(Definition::AllOf { all_of: parts(items) });
                    },
                    _ => {},
                }
                match Interface::from_entries(entries) {
                    Some(interface) => Some(Definition::Interface(interface)),
                    None => Some(Definition::Failed {  }),
                }
            },
            _ => None,
        }
    }
}

} // verus!
