//! The JSON schema of a tool's parameters, as the AI service expects it:
//! an object whose `properties` map each parameter name to its type and
//! description, whose `required` list names every parameter, and which
//! admits no other properties.

use vstd::prelude::*;
use serde_json::Value;
use crate::property::{kind_type_name, Properties, Property, PropertyKind};
use crate::text::str_eq;

verus! {

/// `serde_json::Value`, held opaque.
#[verifier::external_type_specification]
#[verifier::external_body]
pub struct ExValue(Value);

/// The JSON string `Value::String` holding these characters.
pub uninterp spec fn json_string_of(s: Seq<char>) -> Value;

/// The JSON boolean `Value::Bool`.
pub uninterp spec fn json_bool_of(b: bool) -> Value;

/// The JSON array `Value::Array` of these elements.
pub uninterp spec fn json_array_of(items: Seq<Value>) -> Value;

/// The JSON object `Value::Object` made by collecting these entries into a
/// `serde_json::Map`.
pub uninterp spec fn json_object_of(entries: Seq<(Seq<char>, Value)>) -> Value;

/// `Value::String`: the string as a JSON value.
#[verifier::external_body]
fn json_string(s: String) -> (v: Value)
    ensures
        v == json_string_of(s@),
{
    Value::String(s)
}

/// `Value::Bool`: the boolean as a JSON value.
#[verifier::external_body]
fn json_bool(b: bool) -> (v: Value)
    ensures
        v == json_bool_of(b),
{
    Value::Bool(b)
}

/// `Value::Array`: the elements as a JSON array.
#[verifier::external_body]
fn json_array(items: Vec<Value>) -> (v: Value)
    ensures
        v == json_array_of(items@),
{
    Value::Array(items)
}

/// An entry list as keys (by their characters) and values.
pub open spec fn entries_view(entries: Seq<(String, Value)>) -> Seq<(Seq<char>, Value)> {
    entries.map_values(|e: (String, Value)| (e.0@, e.1))
}

/// `Value::Object` of the `serde_json::Map` collected from the entries
/// (`Map::from_iter`).
#[verifier::external_body]
fn json_object(entries: Vec<(String, Value)>) -> (v: Value)
    ensures
        v == json_object_of(entries_view(entries@)),
{
    Value::Object(entries.into_iter().collect())
}

/// The position of the last entry with key `k`, or -1 when there is none.
pub open spec fn key_pos(entries: Seq<(Seq<char>, Value)>, k: Seq<char>) -> int
    decreases entries.len(),
{
    if entries.len() == 0 {
        -1
    } else if entries.last().0 == k {
        entries.len() - 1
    } else {
        key_pos(entries.drop_last(), k)
    }
}

/// Map insertion: the value of an existing key is replaced in place, a new
/// key is added at the end.
pub open spec fn insert_entry(entries: Seq<(Seq<char>, Value)>, k: Seq<char>, v: Value) -> Seq<
    (Seq<char>, Value),
> {
    let p: int = key_pos(entries, k);
    if p >= 0 {
        entries.update(p, (k, v))
    } else {
        entries.push((k, v))
    }
}

/// The JSON strings of the allowed values of an enumeration.
pub open spec fn enum_strings(values: Seq<&str>) -> Seq<Value> {
    values.map_values(|v: &str| json_string_of(v@))
}

/// The fields describing one property: its type, its description and,
/// for an enumeration, its allowed values.
pub open spec fn property_fields(p: Property) -> Seq<(Seq<char>, Value)> {
    seq![("type"@, json_string_of(kind_type_name(p.kind))), ("description"@, json_string_of(p.description@))]
        + match p.kind {
        PropertyKind::Enum(values) => seq![("enum"@, json_array_of(enum_strings(values@)))],
        _ => Seq::empty(),
    }
}

/// The schema of one property.
pub open spec fn property_schema(p: Property) -> Value {
    json_object_of(property_fields(p))
}

/// The `properties` map: each property inserted in turn under its name.
pub open spec fn property_entries(props: Seq<Property>) -> Seq<(Seq<char>, Value)>
    decreases props.len(),
{
    if props.len() == 0 {
        Seq::empty()
    } else {
        insert_entry(
            property_entries(props.drop_last()),
            props.last().name@,
            property_schema(props.last()),
        )
    }
}

/// The names of the properties, in order, as JSON strings.
pub open spec fn required_names(props: Seq<Property>) -> Seq<Value> {
    props.map_values(|p: Property| json_string_of(p.name@))
}

/// The whole schema of a parameter list.
pub open spec fn schema_spec(props: Seq<Property>) -> Value {
    json_object_of(
        seq![
            ("type"@, json_string_of("object"@)),
            ("properties"@, json_object_of(property_entries(props))),
            ("required"@, json_array_of(required_names(props))),
            ("additionalProperties"@, json_bool_of(false)),
        ],
    )
}

fn key(s: &str) -> (k: String)
    ensures
        k@ == s@,
{
    String::from_str(s)
}

fn property_json(p: &Property) -> (v: Value)
    ensures
        v == property_schema(*p),
{
    let mut fields: Vec<(String, Value)> = Vec::new();
    fields.push((key("type"), json_string(key(p.kind.as_str()))));
    fields.push((key("description"), json_string(key(p.description))));
    match p.kind.enum_values() {
        Some(values) => {
            let mut items: Vec<Value> = Vec::new();
            let mut i: usize = 0;
            while i < values.len()
                invariant
                    i <= values@.len(),
                    items@ == enum_strings(values@.take(i as int)),
                decreases values@.len() - i,
            {
                items.push(json_string(key(values[i])));
                i = i + 1;
                assert(items@ =~= enum_strings(values@.take(i as int)));
            }
            assert(values@.take(values@.len() as int) == values@);
            fields.push((key("enum"), json_array(items)));
        },
        None => {},
    }
    assert(entries_view(fields@) =~= property_fields(*p));
    json_object(fields)
}

/// Inserts an entry as a map does: replaces the value of an existing key,
/// else adds the key at the end.
fn insert_key(entries: &mut Vec<(String, Value)>, k: String, v: Value)
    ensures
        entries_view(final(entries)@) == insert_entry(entries_view(old(entries)@), k@, v),
{
    let ghost ev = entries_view(entries@);
    let mut j: usize = entries.len();
    assert(ev.take(j as int) == ev);
    while j > 0
        invariant
            j <= entries.len(),
            ev == entries_view(entries@),
            ev == entries_view(old(entries)@),
            key_pos(ev, k@) == key_pos(ev.take(j as int), k@),
        decreases j,
    {
        let ghost pre = ev.take(j as int);
        assert(pre.drop_last() == ev.take(j - 1));
        assert(pre.last() == ev[j - 1]);
        assert(ev[j - 1].0 == entries@[j - 1].0@);
        if str_eq(entries[j - 1].0.as_str(), k.as_str()) {
            assert(key_pos(pre, k@) == j - 1);
            let ghost kk = k@;
            entries.set(j - 1, (k, v));
            assert(entries_view(entries@) =~= ev.update(j - 1, (kk, v)));
            return;
        }
        j = j - 1;
    }
    entries.push((k, v));
    assert(entries_view(entries@) =~= ev.push((k@, v)));
}

/// The `properties` entries of a parameter list.
fn property_map(props: &Vec<Property>) -> (entries: Vec<(String, Value)>)
    ensures
        entries_view(entries@) == property_entries(props@),
{
    let mut entries: Vec<(String, Value)> = Vec::new();
    let mut i: usize = 0;
    while i < props.len()
        invariant
            i <= props.len(),
            entries_view(entries@) == property_entries(props@.take(i as int)),
        decreases props.len() - i,
    {
        let p = &props[i];
        let value = property_json(p);
        insert_key(&mut entries, key(p.name), value);
        i = i + 1;
        assert(props@.take(i as int).drop_last() == props@.take(i - 1));
    }
    assert(props@.take(props@.len() as int) == props@);
    entries
}

/// The JSON schema of a tool's parameters: an object of type `object`
/// whose `properties` give, under each parameter's name, its type, its
/// description and (for an enumeration) its allowed values; whose
/// `required` lists every parameter's name in order; and which sets
/// `additionalProperties` to `false`.
pub fn props_to_json(props: Properties) -> (schema: Value)
    ensures
        schema == schema_spec(props@),
{
    let prop_map = property_map(&props);
    let mut required: Vec<Value> = Vec::new();
    let mut i: usize = 0;
    while i < props.len()
        invariant
            i <= props.len(),
            required@ == required_names(props@.take(i as int)),
        decreases props.len() - i,
    {
        required.push(json_string(key(props[i].name)));
        i = i + 1;
        assert(required@ =~= required_names(props@.take(i as int)));
    }
    assert(props@.take(props@.len() as int) == props@);
    let mut top: Vec<(String, Value)> = Vec::new();
    top.push((key("type"), json_string(key("object"))));
    top.push((key("properties"), json_object(prop_map)));
    top.push((key("required"), json_array(required)));
    top.push((key("additionalProperties"), json_bool(false)));
    assert(entries_view(top@) =~= seq![
        ("type"@, json_string_of("object"@)),
        ("properties"@, json_object_of(property_entries(props@))),
        ("required"@, json_array_of(required_names(props@))),
        ("additionalProperties"@, json_bool_of(false)),
    ]);
    json_object(top)
}

/// Whether no key occurs twice.
pub open spec fn distinct_keys(entries: Seq<(Seq<char>, Value)>) -> bool {
    forall|i: int, j: int| 0 <= i < j < entries.len() ==> entries[i].0 != entries[j].0
}

/// The position of the last property named `k`, or -1 when there is none.
pub open spec fn last_named(props: Seq<Property>, k: Seq<char>) -> int
    decreases props.len(),
{
    if props.len() == 0 {
        -1
    } else if props.last().name@ == k {
        props.len() - 1
    } else {
        last_named(props.drop_last(), k)
    }
}

proof fn lemma_key_pos(entries: Seq<(Seq<char>, Value)>, k: Seq<char>)
    ensures
        -1 <= key_pos(entries, k) < entries.len(),
        key_pos(entries, k) == -1 <==> forall|i: int| 0 <= i < entries.len() ==> entries[i].0 != k,
        key_pos(entries, k) >= 0 ==> entries[key_pos(entries, k)].0 == k,
        forall|i: int| key_pos(entries, k) < i < entries.len() ==> entries[i].0 != k,
    decreases entries.len(),
{
    if entries.len() > 0 {
        let d = entries.drop_last();
        lemma_key_pos(d, k);
        assert forall|i: int| 0 <= i < d.len() implies d[i] == entries[i] by {}
    }
}

proof fn lemma_last_named(props: Seq<Property>, k: Seq<char>)
    ensures
        -1 <= last_named(props, k) < props.len(),
        last_named(props, k) >= 0 ==> props[last_named(props, k)].name@ == k,
        last_named(props, k) == -1 <==> forall|i: int| 0 <= i < props.len() ==> props[i].name@ != k,
    decreases props.len(),
{
    if props.len() > 0 {
        let d = props.drop_last();
        lemma_last_named(d, k);
        assert forall|i: int| 0 <= i < d.len() implies d[i] == props[i] by {}
    }
}

/// The `properties` map of a schema holds each parameter name exactly
/// once and no other key, and the value under a name is the schema of the
/// last parameter of that name (a later parameter replaces an earlier one
/// of the same name, as map insertion does).
pub proof fn lemma_property_entries(props: Seq<Property>, k: Seq<char>)
    ensures
        distinct_keys(property_entries(props)),
        (key_pos(property_entries(props), k) >= 0) == (last_named(props, k) >= 0),
        last_named(props, k) >= 0 ==> property_entries(props)[key_pos(property_entries(props), k)].1
            == property_schema(props[last_named(props, k)]),
    decreases props.len(),
{
    lemma_key_pos(property_entries(props), k);
    lemma_last_named(props, k);
    if props.len() > 0 {
        let d = props.drop_last();
        let p = props.last();
        let k0 = p.name@;
        let e = property_entries(d);
        let e2 = property_entries(props);
        lemma_property_entries(d, k);
        lemma_property_entries(d, k0);
        lemma_key_pos(e, k);
        lemma_key_pos(e, k0);
        lemma_last_named(d, k);
        let p0 = key_pos(e, k0);
        if p0 >= 0 {
            assert(e2 == e.update(p0, (k0, property_schema(p))));
            assert forall|i: int, j: int| 0 <= i < j < e2.len() implies e2[i].0 != e2[j].0 by {
                if i == p0 {
                    assert(e2[i].0 == e[i].0);
                } else if j == p0 {
                    assert(e2[j].0 == e[j].0);
                }
            }
        } else {
            assert(e2 == e.push((k0, property_schema(p))));
            assert forall|i: int, j: int| 0 <= i < j < e2.len() implies e2[i].0 != e2[j].0 by {
                if j == e.len() {
                    assert(e2[i] == e[i]);
                }
            }
        }
        lemma_key_pos(e2, k);
        if k != k0 {
            let q = key_pos(e, k);
            if q >= 0 {
                assert(e2[q] == e[q]);
                assert(key_pos(e2, k) == q) by {
                    assert forall|i: int| q < i < e2.len() implies e2[i].0 != k by {
                        if i < e.len() {
                            assert(e2[i].0 == e[i].0);
                        }
                    }
                    if key_pos(e2, k) != q {
                        if key_pos(e2, k) < q {
                            assert(e2[q].0 == k);
                        } else {
                            assert(e2[key_pos(e2, k)].0 == k);
                        }
                    }
                }
            } else {
                assert forall|i: int| 0 <= i < e2.len() implies e2[i].0 != k by {
                    if i < e.len() {
                        assert(e2[i].0 == e[i].0);
                    }
                }
            }
        } else {
            assert(e2[if p0 >= 0 { p0 } else { e.len() as int }].0 == k0);
            assert(key_pos(e2, k) == if p0 >= 0 { p0 } else { e.len() as int }) by {
                let w = if p0 >= 0 { p0 } else { e.len() as int };
                if key_pos(e2, k) != w {
                    if key_pos(e2, k) < w {
                        assert(e2[w].0 == k);
                    } else {
                        assert(e2[key_pos(e2, k)].0 == k);
                        assert(e2[w].0 == k);
                    }
                }
            }
        }
    }
}

/// The `required` list names every parameter, once per parameter and in
/// order: it has one entry per parameter, the `i`-th being the name of the
/// `i`-th parameter.
pub proof fn lemma_required_lists_every_name(props: Seq<Property>)
    ensures
        required_names(props).len() == props.len(),
        forall|i: int|
            0 <= i < props.len() ==> #[trigger] required_names(props)[i] == json_string_of(
                props[i].name@,
            ),
        schema_spec(props) == json_object_of(
            seq![
                ("type"@, json_string_of("object"@)),
                ("properties"@, json_object_of(property_entries(props))),
                ("required"@, json_array_of(Seq::new(props.len(), |i: int| json_string_of(props[i].name@)))),
                ("additionalProperties"@, json_bool_of(false)),
            ],
        ),
{
    assert(required_names(props) =~= Seq::new(props.len(), |i: int| json_string_of(props[i].name@)));
}

} // verus!
