//! How the `ToolParameters` derive reads a type: which JSON kind a field's
//! type (written as its token text) stands for, and which name a variant
//! of an enumeration takes from a `#[serde(rename = "...")]` attribute.

use vstd::prelude::*;
use crate::property::{Properties, Property, PropertyKind};
use crate::text::{
    chars_of, find_chars, find_from, find_spec, has_prefix, leading_ws, starts_with, str_eq, trailing_ws,
    trim_bounds, trim_spec,
};

verus! {

/// Whether a character may appear in a lifetime's name.
pub open spec fn is_ident_char(c: char) -> bool {
    ('a' <= c && c <= 'z') || ('A' <= c && c <= 'Z') || ('0' <= c && c <= '9') || c == '_'
}

/// Whether a text is the name of a lifetime (what follows its `'`).
pub open spec fn is_lifetime_name(s: Seq<char>) -> bool {
    s.len() > 0 && forall|k: int| 0 <= k < s.len() ==> is_ident_char(#[trigger] s[k])
}

/// Whether `t` is `pre`, a lifetime name, then `suf`.
pub open spec fn framed_lifetime(t: Seq<char>, pre: Seq<char>, suf: Seq<char>) -> bool {
    &&& t.len() >= pre.len() + suf.len() + 1
    &&& t.take(pre.len() as int) == pre
    &&& t.skip(t.len() - suf.len()) == suf
    &&& is_lifetime_name(t.subrange(pre.len() as int, t.len() - suf.len()))
}

/// The string types: `&str` with or without a lifetime, `String`, and an
/// optional `&str` with a lifetime.
pub open spec fn is_string_type_spec(t: Seq<char>) -> bool {
    ||| t == "&str"@
    ||| t == "String"@
    ||| t == "std :: string :: String"@
    ||| framed_lifetime(t, "& '"@, " str"@)
    ||| framed_lifetime(t, "Option < & '"@, " str >"@)
}

pub open spec fn is_integer_type_spec(t: Seq<char>) -> bool {
    t == "i64"@ || t == "i32"@ || t == "u64"@ || t == "u32"@ || t == "i16"@ || t == "u16"@ || t
        == "i8"@ || t == "u8"@ || t == "isize"@ || t == "usize"@
}

pub open spec fn is_number_type_spec(t: Seq<char>) -> bool {
    t == "f64"@ || t == "f32"@
}

pub open spec fn is_vec_type_spec(t: Seq<char>) -> bool {
    has_prefix(t, "Vec <"@) || has_prefix(t, "std :: vec :: Vec <"@)
}

pub open spec fn is_bool_type_spec(t: Seq<char>) -> bool {
    has_prefix(t, "bool"@)
}

pub open spec fn is_enum_type_spec(t: Seq<char>) -> bool {
    !is_string_type_spec(t) && !is_integer_type_spec(t) && !is_number_type_spec(t) && !has_prefix(
        t,
        "Option <"@,
    ) && !has_prefix(t, "Vec <"@) && !has_prefix(t, "&"@)
}

fn ident_char(c: char) -> (b: bool)
    ensures
        b == is_ident_char(c),
{
    ('a' <= c && c <= 'z') || ('A' <= c && c <= 'Z') || ('0' <= c && c <= '9') || c == '_'
}

/// Whether `type_str` is `pre`, a lifetime name, then `suf`.
fn is_framed_lifetime(type_str: &str, pre: &str, suf: &str) -> (b: bool)
    ensures
        b == framed_lifetime(type_str@, pre@, suf@),
{
    let t = chars_of(type_str);
    let p = chars_of(pre);
    let q = chars_of(suf);
    if t.len() < p.len() || t.len() - p.len() <= q.len() {
        return false;
    }
    let end: usize = t.len() - q.len();
    let mut i: usize = 0;
    while i < p.len()
        invariant
            t@ == type_str@,
            p@ == pre@,
            p.len() <= t.len(),
            i <= p.len(),
            forall|j: int| 0 <= j < i ==> t@[j] == p@[j],
        decreases p.len() - i,
    {
        if t[i] != p[i] {
            assert(t@.take(p@.len() as int)[i as int] != p@[i as int]);
            return false;
        }
        i = i + 1;
    }
    assert(t@.take(p@.len() as int) == p@);
    let mut j: usize = 0;
    while j < q.len()
        invariant
            t@ == type_str@,
            q@ == suf@,
            end == t.len() - q.len(),
            j <= q.len(),
            forall|k: int| 0 <= k < j ==> t@[end + k] == q@[k],
        decreases q.len() - j,
    {
        if t[end + j] != q[j] {
            assert(t@.skip(end as int)[j as int] != q@[j as int]);
            return false;
        }
        j = j + 1;
    }
    assert(t@.skip(end as int) == q@);
    let ghost mid = t@.subrange(p@.len() as int, end as int);
    let mut k: usize = p.len();
    while k < end
        invariant
            t@ == type_str@,
            p@ == pre@,
            q@ == suf@,
            end == t.len() - q.len(),
            p.len() <= k <= end,
            end <= t.len(),
            mid == t@.subrange(p@.len() as int, end as int),
            forall|m: int| 0 <= m < k - p.len() ==> is_ident_char(#[trigger] mid[m]),
        decreases end - k,
    {
        if !ident_char(t[k]) {
            assert(mid[k - p.len()] == t@[k as int]);
            assert(!is_ident_char(mid[k - p.len()]));
            return false;
        }
        assert(mid[k - p.len()] == t@[k as int]);
        k = k + 1;
    }
    true
}

/// Whether the type is one of the string types a tool parameter may have.
pub fn is_string_type(type_str: &str) -> (b: bool)
    ensures
        b == is_string_type_spec(type_str@),
{
    str_eq(type_str, "&str") || str_eq(type_str, "String") || str_eq(
        type_str,
        "std :: string :: String",
    ) || is_framed_lifetime(type_str, "& '", " str") || is_framed_lifetime(
        type_str,
        "Option < & '",
        " str >",
    )
}

/// Whether the type is a primitive integer type.
pub fn is_integer_type(type_str: &str) -> (b: bool)
    ensures
        b == is_integer_type_spec(type_str@),
{
    str_eq(type_str, "i64") || str_eq(type_str, "i32") || str_eq(type_str, "u64") || str_eq(
        type_str,
        "u32",
    ) || str_eq(type_str, "i16") || str_eq(type_str, "u16") || str_eq(type_str, "i8") || str_eq(
        type_str,
        "u8",
    ) || str_eq(type_str, "isize") || str_eq(type_str, "usize")
}

/// Whether the type is a floating-point type.
pub fn is_number_type(type_str: &str) -> (b: bool)
    ensures
        b == is_number_type_spec(type_str@),
{
    str_eq(type_str, "f64") || str_eq(type_str, "f32")
}

/// Whether the type is a vector.
pub fn is_vec_type(type_str: &str) -> (b: bool)
    ensures
        b == is_vec_type_spec(type_str@),
{
    starts_with(type_str, "Vec <") || starts_with(type_str, "std :: vec :: Vec <")
}

/// Whether the type is a boolean.
pub fn is_bool_type(type_str: &str) -> (b: bool)
    ensures
        b == is_bool_type_spec(type_str@),
{
    starts_with(type_str, "bool")
}

/// Whether the type is taken for an enumeration deriving `ToolParameters`:
/// any type that is not a string, an integer, a float, an option, a vector
/// or a reference.
pub fn is_enum_type(type_str: &str) -> (b: bool)
    ensures
        b == is_enum_type_spec(type_str@),
{
    !is_string_type(type_str) && !is_integer_type(type_str) && !is_number_type(type_str)
        && !starts_with(type_str, "Option <") && !starts_with(type_str, "Vec <") && !starts_with(
        type_str,
        "&",
    )
}

/// The parameter kind the derive gives a field of some type.
#[derive(PartialEq, Eq, Debug, Clone, Copy)]
pub enum FieldKind {
    /// A string parameter (also used for vectors).
    String,
    Integer,
    Number,
    Boolean,
    /// A string restricted to the values of an enumeration type.
    Enumeration,
}

/// The kind of a field's type, tested in the derive's order: string,
/// integer, float, boolean, vector (a string), enumeration; `None` for a
/// type the derive does not support.
pub open spec fn field_kind_spec(t: Seq<char>) -> Option<FieldKind> {
    if is_string_type_spec(t) {
        Some(FieldKind::String)
    } else if is_integer_type_spec(t) {
        Some(FieldKind::Integer)
    } else if is_number_type_spec(t) {
        Some(FieldKind::Number)
    } else if is_bool_type_spec(t) {
        Some(FieldKind::Boolean)
    } else if is_vec_type_spec(t) {
        Some(FieldKind::String)
    } else if is_enum_type_spec(t) {
        Some(FieldKind::Enumeration)
    } else {
        None
    }
}

/// The parameter kind of a field whose type reads `type_str`.
pub fn field_kind(type_str: &str) -> (k: Option<FieldKind>)
    ensures
        k == field_kind_spec(type_str@),
{
    if is_string_type(type_str) {
        Some(FieldKind::String)
    } else if is_integer_type(type_str) {
        Some(FieldKind::Integer)
    } else if is_number_type(type_str) {
        Some(FieldKind::Number)
    } else if is_bool_type(type_str) {
        Some(FieldKind::Boolean)
    } else if is_vec_type(type_str) {
        Some(FieldKind::String)
    } else if is_enum_type(type_str) {
        Some(FieldKind::Enumeration)
    } else {
        None
    }
}

/// The value of `rename = "..."` in the text of a `serde` attribute: after
/// the first `rename`, the first `=`; after it (white space trimmed) the
/// first `"`; the value runs up to the next `"`.
pub open spec fn serde_rename_spec(c: Seq<char>) -> Option<Seq<char>> {
    match find_spec(c, "rename"@) {
        None => None,
        Some(s) => {
            let a = c.skip(s + 6);
            match find_spec(a, seq!['=']) {
                None => None,
                Some(e) => {
                    let b = trim_spec(a.skip(e + 1));
                    match find_spec(b, seq!['"']) {
                        None => None,
                        Some(q) => {
                            let d = b.skip(q + 1);
                            match find_spec(d, seq!['"']) {
                                None => None,
                                Some(r) => Some(d.take(r)),
                            }
                        },
                    }
                },
            }
        },
    }
}

fn one_char(c: char) -> (v: Vec<char>)
    ensures
        v@ == seq![c],
{
    let mut v = Vec::new();
    v.push(c);
    v
}

fn tail(v: &Vec<char>, from: usize) -> (t: Vec<char>)
    requires
        from <= v.len(),
    ensures
        t@ == v@.skip(from as int),
{
    let mut t: Vec<char> = Vec::new();
    let mut i: usize = from;
    while i < v.len()
        invariant
            from <= i <= v.len(),
            t@ == v@.subrange(from as int, i as int),
        decreases v.len() - i,
    {
        t.push(v[i]);
        i = i + 1;
    }
    t
}

fn slice(v: &Vec<char>, from: usize, to: usize) -> (t: Vec<char>)
    requires
        from <= to <= v.len(),
    ensures
        t@ == v@.subrange(from as int, to as int),
{
    let mut t: Vec<char> = Vec::new();
    let mut i: usize = from;
    while i < to
        invariant
            from <= i <= to,
            to <= v.len(),
            t@ == v@.subrange(from as int, i as int),
        decreases to - i,
    {
        t.push(v[i]);
        i = i + 1;
    }
    t
}

fn string_of(v: &Vec<char>) -> (s: String)
    ensures
        s@ == v@,
{
    let mut s = String::new();
    let mut i: usize = 0;
    while i < v.len()
        invariant
            i <= v.len(),
            s@ == v@.take(i as int),
        decreases v.len() - i,
    {
        crate::text::push_char(&mut s, v[i]);
        i = i + 1;
        assert(s@ =~= v@.take(i as int));
    }
    assert(v@.take(v@.len() as int) == v@);
    s
}

proof fn lemma_found(text: Seq<char>, pat: Seq<char>, i: int)
    requires
        find_spec(text, pat) == Some(i),
    ensures
        0 <= i && i + pat.len() <= text.len(),
{
    crate::text::lemma_find_from_bounds(text, pat, 0);
}

/// Reads the renamed value out of the text of a `serde` attribute.
pub fn serde_rename(content: &str) -> (v: Option<String>)
    ensures
        opt_view(v) == serde_rename_spec(content@),
{
    let c = chars_of(content);
    proof {
        reveal_strlit("rename");
    }
    let rename = chars_of("rename");
    assert(rename@.len() == 6);
    let eq = one_char('=');
    let quote = one_char('"');
    let s = match find_chars(&c, &rename) {
        Some(s) => s,
        None => return None,
    };
    proof {
        lemma_found(c@, rename@, s as int);
    }
    assert(s + rename@.len() <= c@.len());
    assert(s + 6 <= c.len());
    let a = tail(&c, s + 6);
    let e = match find_chars(&a, &eq) {
        Some(e) => e,
        None => return None,
    };
    proof {
        lemma_found(a@, seq!['='], e as int);
    }
    let rest = tail(&a, e + 1);
    let (lo, hi) = trim_bounds(&rest);
    let b = slice(&rest, lo, hi);
    let q = match find_chars(&b, &quote) {
        Some(q) => q,
        None => return None,
    };
    proof {
        lemma_found(b@, seq!['"'], q as int);
    }
    let d = tail(&b, q + 1);
    let r = match find_chars(&d, &quote) {
        Some(r) => r,
        None => return None,
    };
    proof {
        lemma_found(d@, seq!['"'], r as int);
    }
    let value = slice(&d, 0, r);
    assert(d@.subrange(0, r as int) == d@.take(r as int));
    Some(string_of(&value))
}

pub open spec fn opt_view(s: Option<String>) -> Option<Seq<char>> {
    match s {
        Some(x) => Some(x@),
        None => None,
    }
}

/// The name a variant takes: its identifier, replaced by the value of each
/// `serde` attribute that renames it (the last one wins).
pub open spec fn variant_name_spec(ident: Seq<char>, serde_attrs: Seq<String>) -> Seq<char>
    decreases serde_attrs.len(),
{
    if serde_attrs.len() == 0 {
        ident
    } else {
        match serde_rename_spec(serde_attrs.last()@) {
            Some(v) => v,
            None => variant_name_spec(ident, serde_attrs.drop_last()),
        }
    }
}

/// The name of a variant with this identifier and these `serde` attribute
/// texts, in the order the attributes are written.
pub fn variant_name(ident: &str, serde_attrs: &Vec<String>) -> (name: String)
    ensures
        name@ == variant_name_spec(ident@, serde_attrs@),
{
    let mut name = ident.to_owned();
    let mut i: usize = 0;
    while i < serde_attrs.len()
        invariant
            i <= serde_attrs.len(),
            name@ == variant_name_spec(ident@, serde_attrs@.take(i as int)),
        decreases serde_attrs.len() - i,
    {
        match serde_rename(serde_attrs[i].as_str()) {
            Some(v) => {
                name = v;
            },
            None => {},
        }
        assert(serde_attrs@.take(i + 1).drop_last() == serde_attrs@.take(i as int));
        i = i + 1;
    }
    assert(serde_attrs@.take(serde_attrs@.len() as int) == serde_attrs@);
    name
}

/// The property that a field declaring an enumeration type takes: a string
/// restricted to the values of the enumeration's own first property when
/// that property is an enumeration, a plain string otherwise.
pub open spec fn enum_field_kind(enum_props: Seq<Property>) -> PropertyKind {
    if enum_props.len() > 0 {
        match enum_props[0].kind {
            PropertyKind::Enum(values) => PropertyKind::Enum(values),
            _ => PropertyKind::String,
        }
    } else {
        PropertyKind::String
    }
}

/// The property of a field of an enumeration type, from the properties
/// that the enumeration's `ToolParameters` gives.
pub fn enum_field_property(
    name: &'static str,
    description: &'static str,
    enum_props: &Properties,
) -> (p: Property)
    ensures
        p.kind == enum_field_kind(enum_props@),
        p.name == name,
        p.description == description,
{
    if enum_props.len() > 0 {
        match enum_props[0].kind.enum_values() {
            Some(values) => Property::string_enum(name, description, values),
            None => Property::string(name, description),
        }
    } else {
        Property::string(name, description)
    }
}

/// The property kind for a field of the given kind.
pub open spec fn field_property_kind(kind: FieldKind, enum_props: Seq<Property>) -> PropertyKind {
    match kind {
        FieldKind::String => PropertyKind::String,
        FieldKind::Integer => PropertyKind::Integer,
        FieldKind::Number => PropertyKind::Number,
        FieldKind::Boolean => PropertyKind::Boolean,
        FieldKind::Enumeration => enum_field_kind(enum_props),
    }
}

/// The property a struct field yields: `None` (the field is rejected)
/// when it has no `#[description("...")]`; otherwise a property with the
/// field's name and description whose kind follows the field's type
/// (`enum_props` is what the field's enumeration type describes itself
/// as, used only for an enumeration field).
pub fn field_property(
    name: &'static str,
    description: Option<&'static str>,
    kind: FieldKind,
    enum_props: &Properties,
) -> (p: Option<Property>)
    ensures
        description is None ==> p is None,
        description matches Some(d) ==> (p matches Some(q) && q.name == name && q.description == d
            && q.kind == field_property_kind(kind, enum_props@)),
{
    let description = match description {
        Some(d) => d,
        None => return None,
    };
    let property = match kind {
        FieldKind::String => Property::string(name, description),
        FieldKind::Integer => Property::integer(name, description),
        FieldKind::Number => Property::number(name, description),
        FieldKind::Boolean => Property::boolean(name, description),
        FieldKind::Enumeration => enum_field_property(name, description, enum_props),
    };
    Some(property)
}

/// The parameters an enumeration describes itself as: one property named
/// after the type, with an empty description, restricted to the variant
/// names.
pub fn enum_parameters(enum_name: &'static str, variant_names: &'static [&'static str]) -> (props:
    Properties)
    ensures
        props.len() == 1,
        props@[0].kind == PropertyKind::Enum(variant_names),
        props@[0].name == enum_name,
        props@[0].description@ == ""@,
{
    let mut props: Properties = Vec::new();
    props.push(Property { kind: PropertyKind::Enum(variant_names), name: enum_name, description: "" });
    props
}

/// A name of at most five characters that does not begin with `&` is no
/// string type.
proof fn lemma_short_not_string(t: Seq<char>)
    requires
        0 < t.len() <= 5,
        t[0] != '&',
    ensures
        !is_string_type_spec(t),
{
    reveal_strlit("&str");
    reveal_strlit("String");
    reveal_strlit("std :: string :: String");
    reveal_strlit("& '");
    reveal_strlit(" str");
    reveal_strlit("Option < & '");
    reveal_strlit(" str >");
    assert("&str"@[0] == '&');
    assert("String"@.len() == 6);
    assert("& '"@.len() == 3);
    assert(" str"@.len() == 4);
    assert("Option < & '"@.len() == 12);
    assert(" str >"@.len() == 6);
}

/// Every primitive integer type the derive lists is read as an integer
/// parameter.
pub proof fn lemma_integer_types_are_integers()
    ensures
        is_integer_type_spec("i64"@),
        is_integer_type_spec("i32"@),
        is_integer_type_spec("u64"@),
        is_integer_type_spec("u32"@),
        is_integer_type_spec("i16"@),
        is_integer_type_spec("u16"@),
        is_integer_type_spec("i8"@),
        is_integer_type_spec("u8"@),
        is_integer_type_spec("isize"@),
        is_integer_type_spec("usize"@),
        field_kind_spec("i64"@) == Some(FieldKind::Integer),
        field_kind_spec("i32"@) == Some(FieldKind::Integer),
        field_kind_spec("u64"@) == Some(FieldKind::Integer),
        field_kind_spec("u32"@) == Some(FieldKind::Integer),
        field_kind_spec("i16"@) == Some(FieldKind::Integer),
        field_kind_spec("u16"@) == Some(FieldKind::Integer),
        field_kind_spec("i8"@) == Some(FieldKind::Integer),
        field_kind_spec("u8"@) == Some(FieldKind::Integer),
        field_kind_spec("isize"@) == Some(FieldKind::Integer),
        field_kind_spec("usize"@) == Some(FieldKind::Integer),
{
    reveal_strlit("i64");
    reveal_strlit("i32");
    reveal_strlit("u64");
    reveal_strlit("u32");
    reveal_strlit("i16");
    reveal_strlit("u16");
    reveal_strlit("i8");
    reveal_strlit("u8");
    reveal_strlit("isize");
    reveal_strlit("usize");
    reveal_strlit("&str");
    reveal_strlit("String");
    reveal_strlit("std :: string :: String");
    reveal_strlit("& '");
    reveal_strlit(" str");
    reveal_strlit("Option < & '");
    reveal_strlit(" str >");
    lemma_short_not_string("i64"@);
    assert("i64"@[0] != '&');
    lemma_short_not_string("i32"@);
    assert("i32"@[0] != '&');
    lemma_short_not_string("u64"@);
    assert("u64"@[0] != '&');
    lemma_short_not_string("u32"@);
    assert("u32"@[0] != '&');
    lemma_short_not_string("i16"@);
    assert("i16"@[0] != '&');
    lemma_short_not_string("u16"@);
    assert("u16"@[0] != '&');
    lemma_short_not_string("i8"@);
    assert("i8"@[0] != '&');
    lemma_short_not_string("u8"@);
    assert("u8"@[0] != '&');
    lemma_short_not_string("isize"@);
    assert("isize"@[0] != '&');
    lemma_short_not_string("usize"@);
    assert("usize"@[0] != '&');
}

/// A field's kind is `Integer` exactly for the ten primitive integer type
/// names, whatever else the text could be read as.
pub proof fn lemma_integer_kind_exactly(t: Seq<char>)
    ensures
        field_kind_spec(t) == Some(FieldKind::Integer) <==> (t == "i64"@ || t == "i32"@ || t
            == "u64"@ || t == "u32"@ || t == "i16"@ || t == "u16"@ || t == "i8"@ || t == "u8"@
            || t == "isize"@ || t == "usize"@),
{
    lemma_integer_types_are_integers();
}

/// The other type names the derive lists: the string types (`&str`, with
/// or without a lifetime, `String`, and an optional `&str` with a
/// lifetime) are string parameters, `f64` and `f32` number parameters,
/// and `bool` a boolean parameter.
pub proof fn lemma_listed_kinds()
    ensures
        field_kind_spec("&str"@) == Some(FieldKind::String),
        field_kind_spec("String"@) == Some(FieldKind::String),
        field_kind_spec("std :: string :: String"@) == Some(FieldKind::String),
        field_kind_spec("& 'a str"@) == Some(FieldKind::String),
        field_kind_spec("Option < & 'a str >"@) == Some(FieldKind::String),
        field_kind_spec("f64"@) == Some(FieldKind::Number),
        field_kind_spec("f32"@) == Some(FieldKind::Number),
        field_kind_spec("bool"@) == Some(FieldKind::Boolean),
{
    reveal_strlit("& 'a str");
    reveal_strlit("Option < & 'a str >");
    reveal_strlit("& '");
    reveal_strlit(" str");
    reveal_strlit("Option < & '");
    reveal_strlit(" str >");
    reveal_strlit("f64");
    reveal_strlit("f32");
    reveal_strlit("bool");
    reveal_strlit("i64");
    reveal_strlit("i32");
    reveal_strlit("u64");
    reveal_strlit("u32");
    reveal_strlit("i16");
    reveal_strlit("u16");
    reveal_strlit("i8");
    reveal_strlit("u8");
    reveal_strlit("isize");
    reveal_strlit("usize");
    let t1 = "& 'a str"@;
    assert(t1.take(3) =~= "& '"@);
    assert(t1.skip(4) =~= " str"@);
    assert(is_lifetime_name(t1.subrange(3, 4)));
    let t2 = "Option < & 'a str >"@;
    assert(t2.take(12) =~= "Option < & '"@);
    assert(t2.skip(13) =~= " str >"@);
    assert(is_lifetime_name(t2.subrange(12, 13)));
    lemma_short_not_string("f64"@);
    lemma_short_not_string("f32"@);
    lemma_short_not_string("bool"@);
    assert(!is_integer_type_spec("f64"@) && !is_integer_type_spec("f32"@) && !is_integer_type_spec(
        "bool"@,
    )) by {
        assert("f64"@[0] == 'f' && "f32"@[0] == 'f' && "bool"@[0] == 'b');
        assert("i64"@[0] == 'i' && "i32"@[0] == 'i' && "i16"@[0] == 'i' && "i8"@[0] == 'i'
            && "isize"@[0] == 'i');
        assert("u64"@[0] == 'u' && "u32"@[0] == 'u' && "u16"@[0] == 'u' && "u8"@[0] == 'u'
            && "usize"@[0] == 'u');
    }
    assert(has_prefix("bool"@, "bool"@)) by {
        assert("bool"@.take(4) =~= "bool"@);
    }
    assert(!is_number_type_spec("bool"@)) by {
        assert("bool"@[0] != "f64"@[0]);
        assert("bool"@[0] != "f32"@[0]);
    }
}

/// A field whose type is a plain type name beginning with a capital
/// letter, other than `String`, is read as an enumeration.
pub proof fn lemma_capitalized_name_is_enumeration(t: Seq<char>)
    requires
        t.len() > 0,
        'A' <= t[0] <= 'Z',
        forall|k: int| 0 <= k < t.len() ==> is_ident_char(#[trigger] t[k]),
        t != "String"@,
    ensures
        field_kind_spec(t) == Some(FieldKind::Enumeration),
{
    reveal_strlit("&str");
    reveal_strlit("std :: string :: String");
    reveal_strlit("& '");
    reveal_strlit("Option < & '");
    reveal_strlit("f64");
    reveal_strlit("f32");
    reveal_strlit("bool");
    reveal_strlit("Vec <");
    reveal_strlit("std :: vec :: Vec <");
    reveal_strlit("Option <");
    reveal_strlit("&");
    reveal_strlit("i64");
    reveal_strlit("i32");
    reveal_strlit("u64");
    reveal_strlit("u32");
    reveal_strlit("i16");
    reveal_strlit("u16");
    reveal_strlit("i8");
    reveal_strlit("u8");
    reveal_strlit("isize");
    reveal_strlit("usize");
    // No type the derive reads otherwise begins with a capital letter and
    // holds only name characters.
    assert(t != "&str"@) by {
        assert("&str"@[0] == '&');
    }
    assert(t != "std :: string :: String"@) by {
        assert("std :: string :: String"@[3] == ' ');
        if t == "std :: string :: String"@ {
            assert(is_ident_char(t[3]));
        }
    }
    assert(!framed_lifetime(t, "& '"@, " str"@)) by {
        if framed_lifetime(t, "& '"@, " str"@) {
            assert(t.take(3)[0] == "& '"@[0]);
        }
    }
    assert(!framed_lifetime(t, "Option < & '"@, " str >"@)) by {
        if framed_lifetime(t, "Option < & '"@, " str >"@) {
            assert(t.take(12)[6] == "Option < & '"@[6]);
            assert(is_ident_char(t[6]));
        }
    }
    assert(!is_integer_type_spec(t)) by {
        assert("i64"@[0] == 'i' && "i32"@[0] == 'i' && "i16"@[0] == 'i' && "i8"@[0] == 'i'
            && "isize"@[0] == 'i');
        assert("u64"@[0] == 'u' && "u32"@[0] == 'u' && "u16"@[0] == 'u' && "u8"@[0] == 'u'
            && "usize"@[0] == 'u');
    }
    assert(!is_number_type_spec(t)) by {
        assert("f64"@[0] == 'f' && "f32"@[0] == 'f');
    }
    assert(!has_prefix(t, "bool"@)) by {
        if has_prefix(t, "bool"@) {
            assert(t.take(4)[0] == "bool"@[0]);
        }
    }
    assert(!has_prefix(t, "Vec <"@)) by {
        if has_prefix(t, "Vec <"@) {
            assert(t.take(5)[3] == "Vec <"@[3]);
            assert(is_ident_char(t[3]));
        }
    }
    assert(!has_prefix(t, "std :: vec :: Vec <"@)) by {
        if has_prefix(t, "std :: vec :: Vec <"@) {
            assert(t.take(19)[0] == "std :: vec :: Vec <"@[0]);
        }
    }
    assert(!has_prefix(t, "Option <"@)) by {
        if has_prefix(t, "Option <"@) {
            assert(t.take(8)[6] == "Option <"@[6]);
            assert(is_ident_char(t[6]));
        }
    }
    assert(!has_prefix(t, "&"@)) by {
        if has_prefix(t, "&"@) {
            assert(t.take(1)[0] == "&"@[0]);
        }
    }
}

/// The first place of the character `c` at or after `from` is `idx` when
/// `c` stands at `idx` and nowhere between.
proof fn lemma_find_char(text: Seq<char>, c: char, from: int, idx: int)
    requires
        0 <= from <= idx < text.len(),
        text[idx] == c,
        forall|j: int| from <= j < idx ==> #[trigger] text[j] != c,
    ensures
        find_from(text, seq![c], from) == Some(idx),
    decreases idx - from,
{
    if from == idx {
        assert(text.subrange(from, from + 1) =~= seq![c]);
    } else {
        assert(text.subrange(from, from + 1)[0] == text[from]);
        lemma_find_char(text, c, from + 1, idx);
    }
}

/// An attribute written `rename = "v"`, with no `"` inside `v`, renames
/// the variant to `v`.
pub proof fn lemma_serde_rename_value(v: Seq<char>)
    requires
        forall|j: int| 0 <= j < v.len() ==> #[trigger] v[j] != '"',
    ensures
        serde_rename_spec("rename = \""@ + v + "\""@) == Some(v),
{
    reveal_strlit("rename = \"");
    reveal_strlit("\"");
    reveal_strlit("rename");
    let c = "rename = \""@ + v + "\""@;
    let n = v.len() as int;
    assert(c.len() == 10 + n + 1);
    assert(c.subrange(0, 6) =~= "rename"@);
    assert(find_spec(c, "rename"@) == Some(0int));
    let a = c.skip(6);
    assert(a[0] == ' ' && a[1] == '=');
    lemma_find_char(a, '=', 0, 1);
    assert(find_spec(a, seq!['=']) == Some(1int));
    let x = a.skip(2);
    assert(x[0] == ' ' && x[1] == '"');
    assert(x.drop_first()[0] == '"');
    assert(leading_ws(x.drop_first()) == 0);
    assert(leading_ws(x) == 1);
    let rest = x.skip(1);
    assert(rest.last() == '"');
    assert(trailing_ws(rest) == 0);
    assert(rest.take(rest.len() as int) =~= rest);
    let b = trim_spec(x);
    assert(b == rest);
    assert(b[0] == '"');
    lemma_find_char(b, '"', 0, 0);
    let d = b.skip(1);
    assert(d =~= v + "\""@);
    assert forall|j: int| 0 <= j < n implies #[trigger] d[j] != '"' by {
        assert(d[j] == v[j]);
    }
    lemma_find_char(d, '"', 0, n);
    assert(d.take(n) =~= v);
}

/// A variant without a `serde` attribute is named by its identifier; one
/// with a single `rename = "v"` attribute is named `v`.
pub proof fn lemma_variant_name_renamed(ident: Seq<char>, attr: String, v: Seq<char>)
    requires
        forall|j: int| 0 <= j < v.len() ==> #[trigger] v[j] != '"',
        attr@ == "rename = \""@ + v + "\""@,
    ensures
        variant_name_spec(ident, Seq::<String>::empty()) == ident,
        variant_name_spec(ident, seq![attr]) == v,
{
    lemma_serde_rename_value(v);
    assert(seq![attr].last() == attr);
}

} // verus!
