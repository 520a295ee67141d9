use botframework::property::{Properties, Property, PropertyKind};
use botframework::schema::props_to_json;
use serde_json::Value;

static COLORS: &[&str] = &["red", "green"];

#[test]
fn constructors_keep_name_and_description() {
    let p = Property::string("title", "The title");
    assert!(matches!(p.kind, PropertyKind::String));
    assert_eq!(p.name, "title");
    assert_eq!(p.description, "The title");
    assert!(matches!(Property::integer("n", "d").kind, PropertyKind::Integer));
    assert!(matches!(Property::number("x", "d").kind, PropertyKind::Number));
    assert!(matches!(Property::boolean("b", "d").kind, PropertyKind::Boolean));
    let e = Property::string_enum("color", "A color", COLORS);
    match e.kind {
        PropertyKind::Enum(v) => assert_eq!(v, COLORS),
        _ => panic!("not an enumeration"),
    }
}

#[test]
fn kind_names() {
    assert_eq!(PropertyKind::String.as_str(), "string");
    assert_eq!(PropertyKind::Integer.as_str(), "integer");
    assert_eq!(PropertyKind::Number.as_str(), "number");
    assert_eq!(PropertyKind::Boolean.as_str(), "boolean");
    assert_eq!(PropertyKind::Enum(COLORS).as_str(), "string");
}

#[test]
fn enum_values_only_for_enumerations() {
    assert_eq!(PropertyKind::Enum(COLORS).enum_values(), Some(COLORS));
    assert_eq!(PropertyKind::String.enum_values(), None);
    assert_eq!(PropertyKind::Boolean.enum_values(), None);
}

#[test]
fn schema_of_parameters() {
    let props: Properties = vec![
        Property::string("minutes", "Assembly minutes text"),
        Property::integer("days", "Number of days"),
        Property::string_enum("color", "A color", COLORS),
    ];
    let expected: Value = serde_json::from_str(
        r#"{
            "type": "object",
            "properties": {
                "minutes": {"type": "string", "description": "Assembly minutes text"},
                "days": {"type": "integer", "description": "Number of days"},
                "color": {"type": "string", "description": "A color", "enum": ["red", "green"]}
            },
            "required": ["minutes", "days", "color"],
            "additionalProperties": false
        }"#,
    )
    .unwrap();
    assert_eq!(props_to_json(props), expected);
}

#[test]
fn schema_of_no_parameters() {
    let expected: Value = serde_json::from_str(
        r#"{"type": "object", "properties": {}, "required": [], "additionalProperties": false}"#,
    )
    .unwrap();
    assert_eq!(props_to_json(Vec::new()), expected);
}

#[test]
fn later_parameter_of_same_name_wins() {
    let props: Properties = vec![
        Property::string("a", "first"),
        Property::boolean("b", "flag"),
        Property::number("a", "second"),
    ];
    let expected: Value = serde_json::from_str(
        r#"{
            "type": "object",
            "properties": {
                "a": {"type": "number", "description": "second"},
                "b": {"type": "boolean", "description": "flag"}
            },
            "required": ["a", "b", "a"],
            "additionalProperties": false
        }"#,
    )
    .unwrap();
    assert_eq!(props_to_json(props), expected);
}
