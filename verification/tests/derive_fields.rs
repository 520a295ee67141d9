use botframework::field_types::{
    enum_field_property, enum_parameters, field_kind, field_property, is_bool_type, is_enum_type,
    is_integer_type, is_number_type, is_string_type, is_vec_type, serde_rename, variant_name,
    FieldKind,
};
use botframework::{Property, PropertyKind};

static STATES: &[&str] = &["active", "inactive"];

#[test]
fn type_classes() {
    assert!(is_string_type("& 'a str"));
    assert!(is_string_type("String"));
    assert!(is_string_type("std :: string :: String"));
    assert!(!is_string_type("str"));
    assert!(is_string_type("& 'b str"));
    assert!(is_string_type("& 'static str"));
    assert!(is_string_type("Option < & 'input str >"));
    assert!(!is_string_type("& ' str"));
    assert!(!is_string_type("& 'a b str"));
    assert!(!is_string_type("Option < &str >"));
    assert!(is_integer_type("i64") && is_integer_type("usize"));
    assert!(!is_integer_type("i128"));
    assert!(is_number_type("f32") && !is_number_type("f16"));
    assert!(is_vec_type("Vec < String >") && is_vec_type("std :: vec :: Vec < u8 >"));
    assert!(is_bool_type("bool"));
    assert!(is_enum_type("Status") && !is_enum_type("Option < u8 >") && !is_enum_type("& T"));
}

#[test]
fn field_kinds_in_derive_order() {
    assert_eq!(field_kind("&str"), Some(FieldKind::String));
    assert_eq!(field_kind("& 'b str"), Some(FieldKind::String));
    assert_eq!(field_kind("u32"), Some(FieldKind::Integer));
    assert_eq!(field_kind("f64"), Some(FieldKind::Number));
    assert_eq!(field_kind("bool"), Some(FieldKind::Boolean));
    assert_eq!(field_kind("Vec < i64 >"), Some(FieldKind::String));
    assert_eq!(field_kind("Status"), Some(FieldKind::Enumeration));
    assert_eq!(field_kind("Option < u8 >"), None);
    assert_eq!(field_kind("& [u8]"), None);
}

#[test]
fn serde_renames() {
    assert_eq!(serde_rename("rename = \"active\""), Some("active".to_string()));
    assert_eq!(serde_rename("rename=\"x y\", default"), Some("x y".to_string()));
    assert_eq!(serde_rename("default"), None);
    assert_eq!(serde_rename("rename \"x\""), None);
    assert_eq!(serde_rename("rename = \"open"), None);
}

#[test]
fn variant_names() {
    assert_eq!(variant_name("Active", &vec![]), "Active");
    assert_eq!(variant_name("Active", &vec!["rename = \"active\"".to_string()]), "active");
    assert_eq!(
        variant_name("A", &vec!["rename = \"a\"".to_string(), "default".to_string()]),
        "a"
    );
    assert_eq!(
        variant_name("A", &vec!["rename = \"a\"".to_string(), "rename = \"b\"".to_string()]),
        "b"
    );
}

#[test]
fn field_properties() {
    assert!(field_property("x", None, FieldKind::String, &Vec::new()).is_none());
    let p = field_property("x", Some("d"), FieldKind::Integer, &Vec::new()).unwrap();
    assert!(matches!(p.kind, PropertyKind::Integer));
    assert_eq!((p.name, p.description), ("x", "d"));
    let p = field_property("flag", Some("d"), FieldKind::Boolean, &Vec::new()).unwrap();
    assert!(matches!(p.kind, PropertyKind::Boolean));
    let enum_props = enum_parameters("Status", STATES);
    let p = field_property("status", Some("The status"), FieldKind::Enumeration, &enum_props).unwrap();
    assert_eq!(p.kind.enum_values(), Some(STATES));
    assert_eq!((p.name, p.description), ("status", "The status"));
}

#[test]
fn enumeration_parameters() {
    let props = enum_parameters("Status", STATES);
    assert_eq!(props.len(), 1);
    assert_eq!(props[0].name, "Status");
    assert_eq!(props[0].description, "");
    assert_eq!(props[0].kind.enum_values(), Some(STATES));
}

#[test]
fn enum_field_falls_back_to_string() {
    let p = enum_field_property("s", "d", &Vec::new());
    assert!(matches!(p.kind, PropertyKind::String));
    let p = enum_field_property("s", "d", &vec![Property::integer("n", "")]);
    assert!(matches!(p.kind, PropertyKind::String));
    let p = enum_field_property("s", "d", &enum_parameters("E", STATES));
    assert_eq!(p.kind.enum_values(), Some(STATES));
}
