//! A typed, queryable model of a JSON document that describes a wire
//! protocol's message schema, built from a generic JSON tree.

pub mod dict;
pub mod envelope;
pub mod error;
pub mod json;
pub mod laws;
pub mod literal;
pub mod model;
pub mod reader;
pub mod resolve;

pub use dict::Dict;
pub use error::{Field, SchemaError};
pub use json::{Json, JsonKind};
pub use literal::{ObjectType, StringType, Type, TypeFromStringError};
pub use model::{Definition, Interface, InterfaceOrRef, Property, PropertyOrRef, Schema};
