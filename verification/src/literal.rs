//! Markers for fields whose value must be one fixed string, and the closed
//! set of property types.

use vstd::prelude::*;
use vstd::std_specs::convert::TryFromSpecImpl;

verus! {

/// Whether `text` reads exactly as `literal`.
pub fn is_text(text: &String, literal: &str) -> (same: bool)
    ensures
        same == (text@ == literal@),
{
    let owned = literal.to_owned();
    *text == owned
}

/// The string that a literal field held in place of the one it accepts.
#[derive(Debug, Clone, PartialEq, Eq, PartialOrd, Ord)]
pub struct TypeFromStringError(pub String);

impl View for TypeFromStringError {
    type V = Seq<char>;

    open spec fn view(&self) -> Seq<char> {
        self.0@
    }
}

impl TypeFromStringError {
    /// The rejected string.
    pub fn rejected(&self) -> (text: &String)
        ensures
            text@ == self@,
    {
        &self.0
    }

    /// A sentence that names the rejected string.
    pub fn message(&self) -> (text: String)
        ensures
            text@ == "Expected 'string', got "@ + self@,
    {
        String::from_str("Expected 'string', got ").concat(self.0.as_str())
    }
}

/// Marks a field that held the string `object`.
#[derive(Debug, Clone, Copy, PartialEq, Eq, Structural)]
pub struct ObjectType;

impl TryFrom<String> for ObjectType {
    type Error = TypeFromStringError;

    fn try_from(value: String) -> (marker: Result<Self, TypeFromStringError>) {
        if is_text(&value, "object") {
            Ok(ObjectType)
        } else {
            Err(TypeFromStringError(value))
        }
    }
}

impl TryFromSpecImpl<String> for ObjectType {
    open spec fn obeys_try_from_spec() -> bool {
        true
    }

    open spec fn try_from_spec(value: String) -> Result<Self, TypeFromStringError> {
        if value@ == "object"@ {
            Ok(ObjectType)
        } else {
            Err(TypeFromStringError(value))
        }
    }
}

/// Marks a field that held the string `string`.
#[derive(Debug, Clone, Copy, PartialEq, Eq, Structural)]
pub struct StringType;

impl TryFrom<String> for StringType {
    type Error = TypeFromStringError;

    fn try_from(value: String) -> (marker: Result<Self, TypeFromStringError>) {
        if is_text(&value, "string") {
            Ok(StringType)
        } else {
            Err(TypeFromStringError(value))
        }
    }
}

impl TryFromSpecImpl<String> for StringType {
    open spec fn obeys_try_from_spec() -> bool {
        true
    }

    open spec fn try_from_spec(value: String) -> Result<Self, TypeFromStringError> {
        if value@ == "string"@ {
            Ok(StringType)
        } else {
            Err(TypeFromStringError(value))
        }
    }
}

/// The type of a property's value.
#[derive(Debug, Clone, Copy, PartialEq, Eq, Structural)]
pub enum Type {
    Object,
    String,
    Integer,
    Array,
}

/// The property type that a lowercase name stands for.
pub open spec fn type_of_name(name: Seq<char>) -> Option<Type> {
    if name == "object"@ {
        Some(Type::Object)
    } else if name == "string"@ {
        Some(Type::String)
    } else if name == "integer"@ {
        Some(Type::Integer)
    } else if name == "array"@ {
        Some(Type::Array)
    } else {
        None
    }
}

impl Type {
    /// The property type that `name` stands for, if it stands for one.
    pub fn from_name(name: &String) -> (ty: Option<Type>)
        ensures
            ty == type_of_name(name@),
    {
        if is_text(name, "object") {
            Some(Type::Object)
        } else if is_text(name, "string") {
            Some(Type::String)
        } else if is_text(name, "integer") {
            Some(Type::Integer)
        } else if is_text(name, "array") {
            Some(Type::Array)
        } else {
            None
        }
    }
}

} // verus!
