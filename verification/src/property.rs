//! Tool parameter descriptions: the kinds of values a tool accepts and
//! the properties that name them.

use vstd::prelude::*;

verus! {

/// The JSON type of a tool parameter.
pub enum PropertyKind {
    String,
    Integer,
    Number,
    Boolean,
    /// A string restricted to the given values.
    Enum(&'static [&'static str]),
}

/// The JSON-schema type name of a kind; an enumeration is a string.
pub open spec fn kind_type_name(kind: PropertyKind) -> Seq<char> {
    match kind {
        PropertyKind::String => "string"@,
        PropertyKind::Integer => "integer"@,
        PropertyKind::Number => "number"@,
        PropertyKind::Boolean => "boolean"@,
        PropertyKind::Enum(_) => "string"@,
    }
}

impl PropertyKind {
    /// The JSON-schema type name of this kind.
    pub fn as_str(&self) -> (name: &'static str)
        ensures
            name@ == kind_type_name(*self),
    {
        match self {
            PropertyKind::String => "string",
            PropertyKind::Integer => "integer",
            PropertyKind::Number => "number",
            PropertyKind::Boolean => "boolean",
            PropertyKind::Enum(_) => "string",
        }
    }

    /// The allowed values when this kind is an enumeration, `None` otherwise.
    pub fn enum_values(&self) -> (values: Option<&'static [&'static str]>)
        ensures
            values == (match *self {
                PropertyKind::Enum(v) => Some(v),
                _ => None,
            }),
    {
        match self {
            PropertyKind::Enum(values) => Some(values),
            _ => None,
        }
    }
}

/// One named, described parameter of a tool.
pub struct Property {
    pub kind: PropertyKind,
    pub name: &'static str,
    pub description: &'static str,
}

/// The parameters of a tool, in declaration order.
pub type Properties = Vec<Property>;

impl Property {
    pub fn string(name: &'static str, description: &'static str) -> (p: Self)
        ensures
            p.kind == PropertyKind::String,
            p.name == name,
            p.description == description,
    {
        Property { kind: PropertyKind::String, name, description }
    }

    pub fn integer(name: &'static str, description: &'static str) -> (p: Self)
        ensures
            p.kind == PropertyKind::Integer,
            p.name == name,
            p.description == description,
    {
        Property { kind: PropertyKind::Integer, name, description }
    }

    pub fn number(name: &'static str, description: &'static str) -> (p: Self)
        ensures
            p.kind == PropertyKind::Number,
            p.name == name,
            p.description == description,
    {
        Property { kind: PropertyKind::Number, name, description }
    }

    pub fn string_enum(
        name: &'static str,
        description: &'static str,
        values: &'static [&'static str],
    ) -> (p: Self)
        ensures
            p.kind == PropertyKind::Enum(values),
            p.name == name,
            p.description == description,
    {
        Property { kind: PropertyKind::Enum(values), name, description }
    }

    pub fn boolean(name: &'static str, description: &'static str) -> (p: Self)
        ensures
            p.kind == PropertyKind::Boolean,
            p.name == name,
            p.description == description,
    {
        Property { kind: PropertyKind::Boolean, name, description }
    }
}

/// Types that describe the parameters a tool accepts.
pub trait ToolParameters {
    /// The properties describing the parameters.
    fn parameters() -> Properties;
}

} // verus!
