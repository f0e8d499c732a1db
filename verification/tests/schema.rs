use dap_schema::dict::Dict;
use dap_schema::envelope;
use dap_schema::json::lookup;
use dap_schema::{
    Definition, Field, Interface, InterfaceOrRef, Json, JsonKind, ObjectType, Property,
    PropertyOrRef, Schema, SchemaError, StringType, Type, TypeFromStringError,
};

fn to_json(value: &serde_json::Value) -> Json {
    match value {
        serde_json::Value::Null => Json::Null,
        serde_json::Value::Bool(b) => Json::Bool(*b),
        serde_json::Value::Number(n) => Json::Number(n.to_string()),
        serde_json::Value::String(s) => Json::String(s.clone()),
        serde_json::Value::Array(items) => Json::Array(items.iter().map(to_json).collect()),
        serde_json::Value::Object(entries) => {
            Json::Object(entries.iter().map(|(k, v)| (k.clone(), to_json(v))).collect())
        }
    }
}

fn parse(text: &str) -> Json {
    to_json(&serde_json::from_str::<serde_json::Value>(text).unwrap())
}

fn text(s: &str) -> Json {
    Json::String(s.to_string())
}

fn object(entries: Vec<(&str, Json)>) -> Json {
    Json::Object(entries.into_iter().map(|(k, v)| (k.to_string(), v)).collect())
}

fn entries_of(json: Json) -> Vec<(String, Json)> {
    match json {
        Json::Object(entries) => entries,
        other => panic!("not an object: {:?}", other),
    }
}

const PROTOCOL: &str = r##"{
  "$schema": "http://json-schema.org/draft-04/schema#",
  "title": "Debug Adapter Protocol",
  "description": "The Debug Adapter Protocol defines the protocol used between an editor or IDE and a debugger or runtime.",
  "type": "object",
  "definitions": {
    "ProtocolMessage": {
      "type": "object",
      "title": "Base Protocol",
      "description": "Base class of requests, responses, and events.",
      "properties": {
        "seq": { "type": "integer", "description": "Sequence number of the message." },
        "type": { "type": "string", "description": "Message type.", "_enum": ["request", "response", "event"] }
      },
      "required": ["seq", "type"]
    },
    "Request": {
      "allOf": [
        { "$ref": "#/definitions/ProtocolMessage" },
        {
          "type": "object",
          "description": "A client or debug adapter initiated request.",
          "properties": {
            "type": { "type": "string", "enum": ["request"] },
            "command": { "type": "string", "description": "The command to execute." },
            "arguments": { "type": ["array", "boolean", "integer", "null", "number", "object", "string"] }
          },
          "required": ["type", "command"]
        }
      ]
    },
    "Checksum": {
      "type": "object",
      "description": "The checksum of an item calculated by the specified algorithm.",
      "properties": {
        "algorithm": { "$ref": "#/definitions/ChecksumAlgorithm" },
        "checksum": { "type": "string", "description": "Value of the checksum, encoded as a hexadecimal value." }
      },
      "required": ["algorithm", "checksum"]
    },
    "ChecksumAlgorithm": {
      "type": "string",
      "description": "Names of checksum algorithms that a debug adapter may offer.",
      "enum": ["MD5", "SHA1", "SHA256", "timestamp"]
    }
  }
}"##;

#[test]
fn read_schema() {
    let schema: Schema = Schema::from_json(&parse(PROTOCOL)).unwrap();
    println!("{schema:#?}");
    assert_eq!(schema.schema, "http://json-schema.org/draft-04/schema#");
    assert_eq!(schema.title, "Debug Adapter Protocol");
    assert_eq!(schema.definitions.len(), 4);
    match schema.definitions.get("ProtocolMessage") {
        Some(Definition::Interface(interface)) => {
            assert_eq!(interface.title.as_deref(), Some("Base Protocol"));
            assert_eq!(interface.required, vec!["seq".to_string(), "type".to_string()]);
            assert_eq!(interface.properties.len(), 2);
            match interface.properties.get("seq") {
                Some(PropertyOrRef::Property(p)) => {
                    assert_eq!(p.ty, Type::Integer);
                    assert_eq!(p.description.as_deref(), Some("Sequence number of the message."));
                    assert!(p.enumeration.is_empty());
                }
                other => panic!("unexpected {:?}", other),
            }
        }
        other => panic!("unexpected {:?}", other),
    }
    match schema.definitions.get("Request") {
        Some(Definition::AllOf { all_of }) => {
            assert_eq!(all_of.len(), 2);
            match &all_of[0] {
                InterfaceOrRef::Reference { reference } => {
                    assert_eq!(reference, "#/definitions/ProtocolMessage")
                }
                other => panic!("unexpected {:?}", other),
            }
            // One property has a list of types, which no property type names.
            assert!(matches!(all_of[1], InterfaceOrRef::Failed {}));
        }
        other => panic!("unexpected {:?}", other),
    }
    match schema.definitions.get("Checksum") {
        Some(Definition::Interface(interface)) => {
            match interface.properties.get("algorithm") {
                Some(PropertyOrRef::Reference { reference }) => {
                    assert_eq!(reference, "#/definitions/ChecksumAlgorithm")
                }
                other => panic!("unexpected {:?}", other),
            }
        }
        other => panic!("unexpected {:?}", other),
    }
    assert!(matches!(schema.definitions.get("ChecksumAlgorithm"), Some(Definition::Failed {})));
    assert!(schema.definitions.get("Response").is_none());
}

#[test]
fn lib_read_schema() {
    let _schema: envelope::Schema = envelope::Schema::from_json(&parse(PROTOCOL)).unwrap();
    assert_eq!(_schema.schema, "http://json-schema.org/draft-04/schema#");
    assert_eq!(_schema.title, "Debug Adapter Protocol");
    assert_eq!(_schema.ty, "object");
}

#[test]
fn minimal_document_end_to_end() {
    let doc = parse(
        r#"{"$schema":"s","title":"t","description":"d","type":"object","definitions":{"A":{"type":"object","description":"x","properties":{"n":{"type":"string"}}}}}"#,
    );
    let schema = Schema::from_json(&doc).unwrap();
    assert_eq!(schema.schema, "s");
    assert_eq!(schema.title, "t");
    assert_eq!(schema.description, "d");
    assert_eq!(schema.ty, ObjectType);
    assert_eq!(schema.definitions.len(), 1);
    match schema.definitions.get("A") {
        Some(Definition::Interface(interface)) => {
            assert_eq!(interface.description, "x");
            assert_eq!(interface.title, None);
            assert!(interface.required.is_empty());
            assert_eq!(interface.properties.len(), 1);
            match interface.properties.get("n") {
                Some(PropertyOrRef::Property(p)) => {
                    assert_eq!(p.ty, Type::String);
                    assert_eq!(p.description, None);
                    assert!(p.enumeration.is_empty());
                }
                other => panic!("unexpected {:?}", other),
            }
        }
        other => panic!("unexpected {:?}", other),
    }
}

fn minimal_without(key: &str) -> Json {
    let all = vec![
        ("$schema", text("s")),
        ("title", text("t")),
        ("description", text("d")),
        ("type", text("object")),
        ("definitions", object(vec![])),
    ];
    object(all.into_iter().filter(|(k, _)| *k != key).collect())
}

#[test]
fn missing_top_level_key_is_structural() {
    let cases = [
        ("$schema", Field::SchemaUri),
        ("title", Field::Title),
        ("description", Field::Description),
        ("type", Field::Type),
        ("definitions", Field::Definitions),
    ];
    for (key, field) in cases {
        let error = Schema::from_json(&minimal_without(key)).unwrap_err();
        assert_eq!(error, SchemaError::MissingField(field));
        assert!(error.is_structural());
        assert!(!error.is_literal_mismatch());
    }
    assert!(Schema::from_json(&minimal_without("none")).is_ok());
}

#[test]
fn missing_key_comes_before_a_wrong_literal() {
    let doc = object(vec![
        ("$schema", text("s")),
        ("title", text("t")),
        ("description", text("d")),
        ("type", text("array")),
    ]);
    assert_eq!(
        Schema::from_json(&doc).unwrap_err(),
        SchemaError::MissingField(Field::Definitions)
    );
}

#[test]
fn extra_top_level_key_fails() {
    let mut entries = entries_of(minimal_without("none"));
    entries.push(("extra".to_string(), Json::Null));
    let error = Schema::from_json(&Json::Object(entries)).unwrap_err();
    assert_eq!(error, SchemaError::UnknownField("extra".to_string()));
    assert!(error.is_structural());

    let mut entries = entries_of(minimal_without("title"));
    entries.insert(0, ("zeta".to_string(), Json::Bool(true)));
    entries.push(("alpha".to_string(), Json::Bool(true)));
    let error = Schema::from_json(&Json::Object(entries)).unwrap_err();
    assert_eq!(error, SchemaError::UnknownField("zeta".to_string()));
}

#[test]
fn root_type_array_is_a_literal_mismatch() {
    let doc = parse(r#"{"$schema":"s","title":"t","description":"d","type":"array","definitions":{}}"#);
    let error = Schema::from_json(&doc).unwrap_err();
    assert_eq!(
        error,
        SchemaError::LiteralMismatch(TypeFromStringError("array".to_string()))
    );
    assert!(error.is_literal_mismatch());
    assert!(!error.is_structural());
    match error {
        SchemaError::LiteralMismatch(rejected) => {
            assert_eq!(rejected.rejected(), "array");
            assert_eq!(rejected.message(), "Expected 'string', got array");
        }
        other => panic!("unexpected {:?}", other),
    }
}

#[test]
fn root_type_that_is_no_string_is_a_literal_mismatch() {
    let doc = parse(r#"{"$schema":"s","title":"t","description":"d","type":7,"definitions":{}}"#);
    let error = Schema::from_json(&doc).unwrap_err();
    assert_eq!(error, SchemaError::LiteralNotAString(Json::Number("7".to_string())));
    assert!(error.is_literal_mismatch());
}

#[test]
fn structural_faults_at_the_top_level() {
    assert_eq!(
        Schema::from_json(&parse("[1, 2]")).unwrap_err(),
        SchemaError::NotAnObject(Json::Array(vec![
            Json::Number("1".to_string()),
            Json::Number("2".to_string())
        ]))
    );
    assert_eq!(
        Schema::from_json(&text("x")).unwrap_err(),
        SchemaError::NotAnObject(text("x"))
    );
    let doc = parse(r#"{"$schema":"s","title":3,"description":"d","type":"object","definitions":{}}"#);
    assert_eq!(
        Schema::from_json(&doc).unwrap_err(),
        SchemaError::WrongKind(Field::Title, Json::Number("3".to_string()))
    );
    let doc = parse(r#"{"$schema":"s","title":"t","description":"d","type":"object","definitions":[]}"#);
    assert_eq!(
        Schema::from_json(&doc).unwrap_err(),
        SchemaError::WrongKind(Field::Definitions, Json::Array(vec![]))
    );
    let doc = parse(
        r#"{"$schema":"s","title":"t","description":"d","type":"object","definitions":{"A":{},"B":"text","C":null}}"#,
    );
    let error = Schema::from_json(&doc).unwrap_err();
    assert_eq!(error, SchemaError::DefinitionNotAnObject("B".to_string(), text("text")));
    assert!(error.is_structural());
}

#[test]
fn all_of_is_a_composition_whatever_else_is_there() {
    let def = parse(
        r##"{"allOf":[{"$ref":"#/definitions/Base"},{"type":"object","description":"x"},{"oneOf":[]},5],"type":"object","description":"spurious","properties":{}}"##,
    );
    match Definition::from_json(&def) {
        Some(Definition::AllOf { all_of }) => {
            assert_eq!(all_of.len(), 4);
            assert!(matches!(&all_of[0], InterfaceOrRef::Reference { reference } if reference == "#/definitions/Base"));
            assert!(matches!(&all_of[1], InterfaceOrRef::Interface(i) if i.description == "x"));
            assert!(matches!(&all_of[2], InterfaceOrRef::Failed {}));
            assert!(matches!(&all_of[3], InterfaceOrRef::Failed {}));
        }
        other => panic!("unexpected {:?}", other),
    }
    match Definition::from_json(&parse(r#"{"allOf":[]}"#)) {
        Some(Definition::AllOf { all_of }) => assert!(all_of.is_empty()),
        other => panic!("unexpected {:?}", other),
    }
}

#[test]
fn all_of_that_is_no_sequence_falls_through() {
    let def = parse(r#"{"allOf":"x","type":"object","description":"d"}"#);
    assert!(matches!(Definition::from_json(&def), Some(Definition::Interface(_))));
    let def = parse(r#"{"allOf":{}}"#);
    assert!(matches!(Definition::from_json(&def), Some(Definition::Failed {})));
}

#[test]
fn object_shape_is_an_interface() {
    let def = parse(
        r##"{"type":"object","description":"An item.","properties":{"a":{"type":"array","description":"items"},"b":{"$ref":"#/definitions/B"},"c":{"type":"object"}}}"##,
    );
    match Definition::from_json(&def) {
        Some(Definition::Interface(interface)) => {
            assert_eq!(interface.ty, ObjectType);
            assert_eq!(interface.description, "An item.");
            assert_eq!(interface.title, None);
            assert!(interface.required.is_empty());
            assert_eq!(interface.properties.len(), 3);
            assert!(matches!(interface.properties.get("a"), Some(PropertyOrRef::Property(p)) if p.ty == Type::Array));
            assert!(matches!(interface.properties.get("b"), Some(PropertyOrRef::Reference { reference }) if reference == "#/definitions/B"));
            assert!(matches!(interface.properties.get("c"), Some(PropertyOrRef::Property(p)) if p.ty == Type::Object));
            assert!(interface.properties.get("d").is_none());
        }
        other => panic!("unexpected {:?}", other),
    }
}

#[test]
fn interface_defaults_and_optional_fields() {
    let entries = entries_of(parse(r#"{"type":"object","description":"d","title":null}"#));
    let interface = Interface::from_entries(&entries).unwrap();
    assert_eq!(interface.title, None);
    assert_eq!(interface.properties.len(), 0);
    assert!(interface.required.is_empty());

    let entries = entries_of(parse(
        r#"{"type":"object","description":"d","title":"T","required":["a","b"],"other":1}"#,
    ));
    let interface = Interface::from_entries(&entries).unwrap();
    assert_eq!(interface.title.as_deref(), Some("T"));
    assert_eq!(interface.required, vec!["a".to_string(), "b".to_string()]);
}

#[test]
fn interface_is_refused_where_a_field_does_not_fit() {
    let refused = [
        r#"{"description":"d"}"#,
        r#"{"type":"object"}"#,
        r#"{"type":"array","description":"d"}"#,
        r#"{"type":"Object","description":"d"}"#,
        r#"{"type":["object"],"description":"d"}"#,
        r#"{"type":"object","description":null}"#,
        r#"{"type":"object","description":"d","title":1}"#,
        r#"{"type":"object","description":"d","properties":[]}"#,
        r#"{"type":"object","description":"d","properties":null}"#,
        r#"{"type":"object","description":"d","properties":{"p":1}}"#,
        r#"{"type":"object","description":"d","properties":{"p":{"type":"number"}}}"#,
        r#"{"type":"object","description":"d","required":"a"}"#,
        r#"{"type":"object","description":"d","required":["a",1]}"#,
        r#"{"type":"object","description":"d","required":null}"#,
    ];
    for text in refused {
        let json = parse(text);
        assert!(Interface::from_entries(&entries_of(parse(text))).is_none(), "{}", text);
        assert!(matches!(Definition::from_json(&json), Some(Definition::Failed {})), "{}", text);
        assert!(matches!(InterfaceOrRef::from_json(&json), InterfaceOrRef::Failed {}), "{}", text);
    }
}

#[test]
fn ref_in_a_property_position_is_a_reference() {
    let value = parse(r##"{"$ref":"#/definitions/Foo"}"##);
    match PropertyOrRef::from_json(&value) {
        Some(PropertyOrRef::Reference { reference }) => assert_eq!(reference, "#/definitions/Foo"),
        other => panic!("unexpected {:?}", other),
    }
    let value = parse(r##"{"$ref":" #/Definitions/Foo\n"}"##);
    match PropertyOrRef::from_json(&value) {
        Some(PropertyOrRef::Reference { reference }) => assert_eq!(reference, " #/Definitions/Foo\n"),
        other => panic!("unexpected {:?}", other),
    }
}

#[test]
fn reference_wins_over_the_other_shapes() {
    let value = parse(r##"{"type":"string","$ref":"#/definitions/Foo","description":"d"}"##);
    assert!(matches!(PropertyOrRef::from_json(&value), Some(PropertyOrRef::Reference { .. })));
    let value = parse(r##"{"type":"object","description":"d","$ref":"r"}"##);
    assert!(matches!(InterfaceOrRef::from_json(&value), InterfaceOrRef::Reference { reference } if reference == "r"));
    // A `$ref` that holds no string is no reference: the next shape is tried.
    let value = parse(r##"{"type":"string","$ref":1}"##);
    assert!(matches!(PropertyOrRef::from_json(&value), Some(PropertyOrRef::Property(_))));
    let value = parse(r##"{"type":"object","description":"d","$ref":null}"##);
    assert!(matches!(InterfaceOrRef::from_json(&value), InterfaceOrRef::Interface(_)));
}

#[test]
fn key_order_plays_no_part() {
    let a = object(vec![
        ("type", text("object")),
        ("description", text("d")),
        ("allOf", Json::Array(vec![])),
    ]);
    let b = object(vec![
        ("allOf", Json::Array(vec![])),
        ("description", text("d")),
        ("type", text("object")),
    ]);
    assert!(matches!(Definition::from_json(&a), Some(Definition::AllOf { .. })));
    assert!(matches!(Definition::from_json(&b), Some(Definition::AllOf { .. })));
}

#[test]
fn unmodeled_shape_is_unrecognized_and_does_not_stop_the_reading() {
    let def = parse(r#"{"enum":["a","b"]}"#);
    assert!(matches!(Definition::from_json(&def), Some(Definition::Failed {})));
    assert!(matches!(Definition::from_json(&parse("{}")), Some(Definition::Failed {})));
    let doc = parse(
        r#"{"$schema":"s","title":"t","description":"d","type":"object","definitions":{"E":{"enum":["a","b"]},"I":{"type":"object","description":"x"}}}"#,
    );
    let schema = Schema::from_json(&doc).unwrap();
    assert_eq!(schema.definitions.len(), 2);
    assert!(matches!(schema.definitions.get("E"), Some(Definition::Failed {})));
    assert!(matches!(schema.definitions.get("I"), Some(Definition::Interface(_))));
}

#[test]
fn definition_that_is_no_mapping_has_no_classification() {
    for text in ["null", "true", "1", "\"x\"", "[]"] {
        assert!(Definition::from_json(&parse(text)).is_none(), "{}", text);
        assert!(PropertyOrRef::from_json(&parse(text)).is_none(), "{}", text);
        assert!(matches!(InterfaceOrRef::from_json(&parse(text)), InterfaceOrRef::Failed {}));
    }
}

#[test]
fn reading_twice_gives_equal_models() {
    let doc = parse(PROTOCOL);
    let first = Schema::from_json(&doc).unwrap();
    let second = Schema::from_json(&doc).unwrap();
    assert_eq!(format!("{:?}", first), format!("{:?}", second));
    let bad = parse(r#"{"title":"t"}"#);
    assert_eq!(Schema::from_json(&bad).unwrap_err(), Schema::from_json(&bad).unwrap_err());
}

#[test]
fn property_fields() {
    let entries = entries_of(parse(
        r#"{"type":"string","description":"A choice.","enum":["x","y"],"default":"x"}"#,
    ));
    let property = Property::from_entries(&entries).unwrap();
    assert_eq!(property.ty, Type::String);
    assert_eq!(property.description.as_deref(), Some("A choice."));
    assert_eq!(property.enumeration, vec!["x".to_string(), "y".to_string()]);

    let entries = entries_of(parse(r#"{"type":"integer","description":null}"#));
    let property = Property::from_entries(&entries).unwrap();
    assert_eq!(property.ty, Type::Integer);
    assert_eq!(property.description, None);
    assert!(property.enumeration.is_empty());

    for text in [
        r#"{}"#,
        r#"{"type":"number"}"#,
        r#"{"type":"String"}"#,
        r#"{"type":1}"#,
        r#"{"type":"string","description":1}"#,
        r#"{"type":"string","enum":"x"}"#,
        r#"{"type":"string","enum":["x",null]}"#,
        r#"{"type":"string","enum":null}"#,
    ] {
        assert!(Property::from_entries(&entries_of(parse(text))).is_none(), "{}", text);
        assert!(PropertyOrRef::from_json(&parse(text)).is_none(), "{}", text);
    }
}

#[test]
fn property_type_names() {
    assert_eq!(Type::from_name(&"object".to_string()), Some(Type::Object));
    assert_eq!(Type::from_name(&"string".to_string()), Some(Type::String));
    assert_eq!(Type::from_name(&"integer".to_string()), Some(Type::Integer));
    assert_eq!(Type::from_name(&"array".to_string()), Some(Type::Array));
    assert_eq!(Type::from_name(&"number".to_string()), None);
    assert_eq!(Type::from_name(&"Object".to_string()), None);
    assert_eq!(Type::from_name(&"".to_string()), None);
}

#[test]
fn literal_markers() {
    assert_eq!(ObjectType::try_from("object".to_string()), Ok(ObjectType));
    assert_eq!(
        ObjectType::try_from("string".to_string()),
        Err(TypeFromStringError("string".to_string()))
    );
    assert_eq!(
        ObjectType::try_from("Object".to_string()),
        Err(TypeFromStringError("Object".to_string()))
    );
    assert_eq!(StringType::try_from("string".to_string()), Ok(StringType));
    assert_eq!(
        StringType::try_from("object".to_string()),
        Err(TypeFromStringError("object".to_string()))
    );
    assert_eq!(StringType::try_from("".to_string()), Err(TypeFromStringError("".to_string())));
    let error = StringType::try_from("strings".to_string()).unwrap_err();
    assert_eq!(error.rejected(), "strings");
    assert_eq!(error.message(), "Expected 'string', got strings");
}

#[test]
fn lookup_takes_the_last_entry_of_a_key() {
    let entries = vec![
        ("a".to_string(), text("first")),
        ("b".to_string(), Json::Null),
        ("a".to_string(), text("last")),
    ];
    assert!(matches!(lookup(&entries, "a"), Some(Json::String(s)) if s == "last"));
    assert!(matches!(lookup(&entries, "b"), Some(Json::Null)));
    assert!(lookup(&entries, "c").is_none());
    assert!(lookup(&Vec::new(), "a").is_none());
}

#[test]
fn repeated_definition_name_keeps_the_last() {
    let doc = object(vec![
        ("$schema", text("s")),
        ("title", text("t")),
        ("description", text("d")),
        ("type", text("object")),
        (
            "definitions",
            object(vec![
                ("A", object(vec![])),
                ("B", object(vec![])),
                ("A", object(vec![("allOf", Json::Array(vec![]))])),
            ]),
        ),
    ]);
    let schema = Schema::from_json(&doc).unwrap();
    assert_eq!(schema.definitions.len(), 2);
    assert!(matches!(schema.definitions.get("A"), Some(Definition::AllOf { .. })));
    assert!(matches!(schema.definitions.get("B"), Some(Definition::Failed {})));
}

#[test]
fn dict_maps_names_to_values() {
    let dict: Dict<Definition> = Dict::new();
    assert_eq!(dict.len(), 0);
    assert!(dict.get("a").is_none());
    let dict = dict.with("a".to_string(), Definition::Failed {});
    let dict = dict.with("b".to_string(), Definition::Failed {});
    assert_eq!(dict.len(), 2);
    let dict = dict.with("a".to_string(), Definition::AllOf { all_of: Vec::new() });
    assert_eq!(dict.len(), 2);
    assert!(matches!(dict.get("a"), Some(Definition::AllOf { .. })));
    assert!(matches!(dict.get("b"), Some(Definition::Failed {})));
    assert!(dict.get("c").is_none());
}

#[test]
fn kinds_and_key_names() {
    assert_eq!(Json::Null.kind(), JsonKind::Null);
    assert_eq!(Json::Bool(false).kind(), JsonKind::Bool);
    assert_eq!(Json::Number("1.5".to_string()).kind(), JsonKind::Number);
    assert_eq!(text("x").kind(), JsonKind::String);
    assert_eq!(Json::Array(vec![]).kind(), JsonKind::Array);
    assert_eq!(object(vec![]).kind(), JsonKind::Object);
    assert_eq!(Field::SchemaUri.name(), "$schema");
    assert_eq!(Field::Title.name(), "title");
    assert_eq!(Field::Description.name(), "description");
    assert_eq!(Field::Type.name(), "type");
    assert_eq!(Field::Definitions.name(), "definitions");
}

#[test]
fn frame_reads_four_strings_and_nothing_else() {
    let doc = parse(r#"{"$schema":"s","title":"t","description":"d","type":"array","more":[1]}"#);
    let frame = envelope::Schema::from_json(&doc).unwrap();
    assert_eq!(
        frame,
        envelope::Schema {
            schema: "s".to_string(),
            title: "t".to_string(),
            description: "d".to_string(),
            ty: "array".to_string(),
        }
    );
    assert_eq!(
        envelope::Schema::from_json(&parse(r#"{"$schema":"s","title":"t","type":"object"}"#)).unwrap_err(),
        SchemaError::MissingField(Field::Description)
    );
    assert_eq!(
        envelope::Schema::from_json(&parse(r#"{"$schema":"s","title":"t","description":"d","type":null}"#))
            .unwrap_err(),
        SchemaError::WrongKind(Field::Type, Json::Null)
    );
    assert_eq!(
        envelope::Schema::from_json(&Json::Null).unwrap_err(),
        SchemaError::NotAnObject(Json::Null)
    );
}

#[test]
fn property_type_read_on_its_own() {
    assert_eq!(Type::from_json(&text("object")), Ok(Type::Object));
    assert_eq!(Type::from_json(&text("string")), Ok(Type::String));
    assert_eq!(Type::from_json(&text("integer")), Ok(Type::Integer));
    assert_eq!(Type::from_json(&text("array")), Ok(Type::Array));
    let error = Type::from_json(&text("number")).unwrap_err();
    assert_eq!(error, SchemaError::UnknownType("number".to_string()));
    assert!(error.is_literal_mismatch());
    assert!(!error.is_structural());
    assert_eq!(
        Type::from_json(&Json::Array(vec![text("string")])),
        Err(SchemaError::LiteralNotAString(Json::Array(vec![text("string")])))
    );
    assert_eq!(Type::from_json(&Json::Null), Err(SchemaError::LiteralNotAString(Json::Null)));
}

#[test]
fn required_names_held_to_the_properties() {
    let entries = entries_of(parse(
        r#"{"type":"object","description":"d","properties":{"a":{"type":"string"},"b":{"$ref":"r"}},"required":["b","a"]}"#,
    ));
    assert!(Interface::from_entries(&entries).unwrap().requires_only_properties());
    let entries = entries_of(parse(
        r#"{"type":"object","description":"d","properties":{"a":{"type":"string"}},"required":["a","c"]}"#,
    ));
    assert!(!Interface::from_entries(&entries).unwrap().requires_only_properties());
    let entries = entries_of(parse(r#"{"type":"object","description":"d"}"#));
    assert!(Interface::from_entries(&entries).unwrap().requires_only_properties());
}

#[test]
fn dict_names_and_clone() {
    let dict: Dict<Definition> = Dict::new();
    assert!(dict.names().is_empty());
    let dict = dict
        .with("b".to_string(), Definition::Failed {})
        .with("a".to_string(), Definition::Failed {})
        .with("b".to_string(), Definition::AllOf { all_of: Vec::new() });
    let mut names = dict.names();
    names.sort();
    assert_eq!(names, vec!["a".to_string(), "b".to_string()]);
    let copy = dict.clone();
    assert_eq!(copy.len(), 2);
    assert!(matches!(copy.get("b"), Some(Definition::AllOf { .. })));
    assert!(matches!(copy.get("a"), Some(Definition::Failed {})));

    let schema = Schema::from_json(&parse(PROTOCOL)).unwrap();
    let again = schema.clone();
    assert_eq!(format!("{:?}", schema), format!("{:?}", again));
}

#[test]
fn json_clone_and_equality() {
    let doc = parse(PROTOCOL);
    let copy = doc.clone();
    assert_eq!(doc, copy);
    assert_ne!(doc, Json::Null);
    let small = parse(r#"{"a":[1,true,null,"x",{"b":2.5}]}"#);
    assert_eq!(
        small.clone(),
        object(vec![(
            "a",
            Json::Array(vec![
                Json::Number("1".to_string()),
                Json::Bool(true),
                Json::Null,
                text("x"),
                object(vec![("b", Json::Number("2.5".to_string()))]),
            ])
        )])
    );
}
