//! The typed model of a schema document, and the mathematical view of each
//! of its parts.

use crate::dict::Dict;
use crate::literal::{ObjectType, Type};
use vstd::prelude::*;

verus! {

/// An optional string as an optional sequence of characters.
pub open spec fn text_view(text: Option<String>) -> Option<Seq<char>> {
    match text {
        Some(text) => Some(text@),
        None => None,
    }
}

/// A list of strings as a sequence of sequences of characters.
pub open spec fn texts_view(texts: Seq<String>) -> Seq<Seq<char>> {
    Seq::new(texts.len(), |i: int| texts[i]@)
}

/// The type of a value, its description, and the strings it may take.
#[derive(Debug, Clone)]
pub struct Property {
    pub ty: Type,
    pub description: Option<String>,
    pub enumeration: Vec<String>,
}

/// A `Property` with its strings as sequences of characters.
pub struct PropertyView {
    pub ty: Type,
    pub description: Option<Seq<char>>,
    pub enumeration: Seq<Seq<char>>,
}

impl View for Property {
    type V = PropertyView;

    open spec fn view(&self) -> PropertyView {
        PropertyView {
            ty: self.ty,
            description: text_view(self.description),
            enumeration: texts_view(self.enumeration@),
        }
    }
}

/// A property written out in place, or the name of a definition that holds it.
#[derive(Debug, Clone)]
pub enum PropertyOrRef {
    Reference { reference: String },
    Property(Property),
}

/// A `PropertyOrRef` with its strings as sequences of characters.
pub enum PropertyOrRefView {
    Reference { reference: Seq<char> },
    Property(PropertyView),
}

impl View for PropertyOrRef {
    type V = PropertyOrRefView;

    open spec fn view(&self) -> PropertyOrRefView {
        match self {
            PropertyOrRef::Reference { reference } => PropertyOrRefView::Reference {
                reference: reference@,
            },
            PropertyOrRef::Property(property) => PropertyOrRefView::Property(property@),
        }
    }
}

/// An object schema: named properties, and the names of those that an
/// instance must carry. Nothing holds the required names to the properties.
#[derive(Debug, Clone)]
pub struct Interface {
    pub ty: ObjectType,
    pub title: Option<String>,
    pub description: String,
    pub properties: Dict<PropertyOrRef>,
    pub required: Vec<String>,
}

/// An `Interface` with its strings as sequences of characters and its
/// properties as a mapping. The marker of its `type` has one value and is
/// left out.
pub struct InterfaceView {
    pub title: Option<Seq<char>>,
    pub description: Seq<char>,
    pub properties: Map<Seq<char>, PropertyOrRefView>,
    pub required: Seq<Seq<char>>,
}

impl View for Interface {
    type V = InterfaceView;

    open spec fn view(&self) -> InterfaceView {
        InterfaceView {
            title: text_view(self.title),
            description: self.description@,
            properties: self.properties@,
            required: texts_view(self.required@),
        }
    }
}

/// One part of a composition: the name of a definition, an interface written
/// out in place, or a shape that the model does not cover.
#[derive(Debug, Clone)]
pub enum InterfaceOrRef {
    Reference { reference: String },
    Interface(Interface),
    Failed {  },
}

/// An `InterfaceOrRef` with its strings as sequences of characters.
pub enum InterfaceOrRefView {
    Reference { reference: Seq<char> },
    Interface(InterfaceView),
    Failed,
}

impl View for InterfaceOrRef {
    type V = InterfaceOrRefView;

    open spec fn view(&self) -> InterfaceOrRefView {
        match self {
            InterfaceOrRef::Reference { reference } => InterfaceOrRefView::Reference {
                reference: reference@,
            },
            InterfaceOrRef::Interface(interface) => InterfaceOrRefView::Interface(interface@),
            InterfaceOrRef::Failed {  } => InterfaceOrRefView::Failed,
        }
    }
}

/// The parts of a composition, each by its view.
pub open spec fn parts_view(parts: Seq<InterfaceOrRef>) -> Seq<InterfaceOrRefView> {
    Seq::new(parts.len(), |i: int| parts[i]@)
}

/// A named entry of a schema document: a composition of parts, a single
/// interface, or a shape that the model does not cover.
#[derive(Debug, Clone)]
pub enum Definition {
    AllOf { all_of: Vec<InterfaceOrRef> },
    Interface(Interface),
    Failed {  },
}

/// A `Definition` with its parts as a sequence of views.
pub enum DefinitionView {
    AllOf { all_of: Seq<InterfaceOrRefView> },
    Interface(InterfaceView),
    Failed,
}

impl View for Definition {
    type V = DefinitionView;

    open spec fn view(&self) -> DefinitionView {
        match self {
            Definition::AllOf { all_of } => DefinitionView::AllOf { all_of: parts_view(all_of@) },
            Definition::Interface(interface) => DefinitionView::Interface(interface@),
            Definition::Failed {  } => DefinitionView::Failed,
        }
    }
}

/// A schema document: its three strings and its definitions by name.
#[derive(Debug, Clone)]
pub struct Schema {
    pub schema: String,
    pub title: String,
    pub description: String,
    pub ty: ObjectType,
    pub definitions: Dict<Definition>,
}

/// A `Schema` with its strings as sequences of characters and its
/// definitions as a mapping.
pub struct SchemaView {
    pub schema: Seq<char>,
    pub title: Seq<char>,
    pub description: Seq<char>,
    pub definitions: Map<Seq<char>, DefinitionView>,
}

impl View for Schema {
    type V = SchemaView;

    open spec fn view(&self) -> SchemaView {
        SchemaView {
            schema: self.schema@,
            title: self.title@,
            description: self.description@,
            definitions: self.definitions@,
        }
    }
}

} // verus!
