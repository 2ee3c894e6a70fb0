//! JSON decoding and encoding
//!
//! Response bodies from Grafana are JSON.  The library models a parsed JSON
//! document abstractly as a [`JsonData`] tree and verifies its own decoding
//! of documents into resource models against that tree.  The parsing itself
//! is done by `serde_json`, reached only through the small trusted wrappers
//! in this module; everything layered on top of them is verified.

use vstd::prelude::*;

verus! {

/// Abstract model of a JSON document.
///
/// Numbers that are not representable as `u64` (negative or fractional
/// values) are collapsed into [`JsonData::Other`]: no resource model of this
/// library carries them, so decoding treats them like any other value of the
/// wrong shape.
pub ghost enum JsonData {
    /// JSON `null`
    Null,
    /// A boolean
    Bool(bool),
    /// A number representable as `u64`
    UInt(u64),
    /// A string, as its character sequence
    Str(Seq<char>),
    /// An array
    Arr(Seq<JsonData>),
    /// An object, keyed by member name
    Obj(Map<Seq<char>, JsonData>),
    /// Any other value (a negative or fractional number)
    Other,
}

#[verifier::external_type_specification]
#[verifier::external_body]
pub struct ExValue(serde_json::Value);

#[verifier::external_type_specification]
#[verifier::external_body]
#[verifier::reject_recursive_types(K)]
#[verifier::reject_recursive_types(V)]
pub struct ExJsonMap<K, V>(serde_json::Map<K, V>);

/// A JSON object under construction, as `serde_json` represents one.
pub type JsonObj = serde_json::Map<String, serde_json::Value>;

/// The result of parsing a text as JSON: `None` where the text is not valid
/// JSON, otherwise the parsed document.  Parsing is a function of the text
/// alone.
pub uninterp spec fn json_of(s: Seq<char>) -> Option<JsonData>;

/// The document a `serde_json::Value` holds.
pub uninterp spec fn value_model(v: serde_json::Value) -> JsonData;

/// The members a `serde_json::Map` holds, keyed by member name.
pub uninterp spec fn obj_model(m: JsonObj) -> Map<Seq<char>, JsonData>;

/// Relies on `serde_json::from_str::<Value>`: parses a JSON text into a
/// document, deterministically in the text; the error text is unspecified.
#[verifier::external_body]
pub fn parse_value(s: &str) -> (r: Result<serde_json::Value, String>)
    ensures
        r is Ok <==> json_of(s@) is Some,
        r is Ok ==> value_model(r->Ok_0) == json_of(s@)->0,
{
    match serde_json::from_str::<serde_json::Value>(s) {
        Ok(v) => Ok(v),
        Err(e) => Err(e.to_string()),
    }
}

/// Relies on `serde_json::Value::get` with a string index: on an object it
/// looks the member up by name, on anything else it returns nothing.
#[verifier::external_body]
pub fn value_get<'a>(v: &'a serde_json::Value, key: &str) -> (r: Option<&'a serde_json::Value>)
    ensures
        match value_model(*v) {
            JsonData::Obj(m) => {
                &&& r is Some <==> m.contains_key(key@)
                &&& r is Some ==> value_model(*r->0) == m[key@]
            },
            _ => r is None,
        },
{
    v.get(key)
}

/// Relies on `serde_json::Value::is_object`.
#[verifier::external_body]
pub fn value_is_obj(v: &serde_json::Value) -> (r: bool)
    ensures
        r == (value_model(*v) is Obj),
{
    v.is_object()
}

/// Relies on `serde_json::Value::is_null`.
#[verifier::external_body]
pub fn value_is_null(v: &serde_json::Value) -> (r: bool)
    ensures
        r == (value_model(*v) is Null),
{
    v.is_null()
}

/// Relies on `serde_json::Value::as_str`: the string contents exactly when
/// the value is a string.
#[verifier::external_body]
pub fn value_as_str<'a>(v: &'a serde_json::Value) -> (r: Option<&'a str>)
    ensures
        match value_model(*v) {
            JsonData::Str(s) => r is Some && r->0@ == s,
            _ => r is None,
        },
{
    v.as_str()
}

/// Relies on `serde_json::Value::as_u64`: the number exactly when the value
/// is a number representable as `u64`.
#[verifier::external_body]
pub fn value_as_u64(v: &serde_json::Value) -> (r: Option<u64>)
    ensures
        match value_model(*v) {
            JsonData::UInt(n) => r == Some(n),
            _ => r is None,
        },
{
    v.as_u64()
}

/// Relies on `serde_json::Value::as_bool`.
#[verifier::external_body]
pub fn value_as_bool(v: &serde_json::Value) -> (r: Option<bool>)
    ensures
        match value_model(*v) {
            JsonData::Bool(b) => r == Some(b),
            _ => r is None,
        },
{
    v.as_bool()
}

/// Relies on `serde_json::Value::as_array`: the elements exactly when the
/// value is an array.
#[verifier::external_body]
pub fn value_as_array<'a>(v: &'a serde_json::Value) -> (r: Option<
    &'a Vec<serde_json::Value>,
>)
    ensures
        match value_model(*v) {
            JsonData::Arr(a) => {
                &&& r is Some
                &&& r->0@.len() == a.len()
                &&& forall|i: int| 0 <= i < a.len() ==> value_model(#[trigger] r->0@[i]) == a[i]
            },
            _ => r is None,
        },
{
    v.as_array()
}

/// Relies on the `serde_json::Value::String` constructor.
#[verifier::external_body]
pub fn value_of_str(s: &str) -> (v: serde_json::Value)
    ensures
        value_model(v) == JsonData::Str(s@),
{
    serde_json::Value::String(s.to_owned())
}

/// Relies on the `serde_json::Value::Bool` constructor.
#[verifier::external_body]
pub fn value_of_bool(b: bool) -> (v: serde_json::Value)
    ensures
        value_model(v) == JsonData::Bool(b),
{
    serde_json::Value::Bool(b)
}

/// Relies on the `serde_json::Value::Null` constructor.
#[verifier::external_body]
pub fn value_null() -> (v: serde_json::Value)
    ensures
        value_model(v) == JsonData::Null,
{
    serde_json::Value::Null
}

/// An object with no members.
pub open spec fn empty_obj() -> Map<Seq<char>, JsonData> {
    Map::empty()
}

/// Relies on `serde_json::Map::new`: the new map has no members.
#[verifier::external_body]
pub fn obj_new() -> (r: JsonObj)
    ensures
        obj_model(r) == empty_obj(),
{
    serde_json::Map::new()
}

/// Relies on `serde_json::Map::insert`: adds the member, replacing any
/// earlier one of the same name.
#[verifier::external_body]
pub fn obj_insert(m: &mut JsonObj, key: &str, v: serde_json::Value)
    ensures
        obj_model(*final(m)) == obj_model(*old(m)).insert(key@, value_model(v)),
{
    m.insert(key.to_owned(), v);
}

/// Relies on the `serde_json::Value::Object` constructor.
#[verifier::external_body]
pub fn value_of_obj(m: JsonObj) -> (v: serde_json::Value)
    ensures
        value_model(v) == JsonData::Obj(obj_model(m)),
{
    serde_json::Value::Object(m)
}

/// The member named `key`, if the object has one.
pub open spec fn field_of(m: Map<Seq<char>, JsonData>, key: Seq<char>) -> Option<JsonData> {
    if m.contains_key(key) {
        Some(m[key])
    } else {
        None
    }
}

/// A required string member: its text, or `None` where the member is
/// missing or not a string.
pub open spec fn spec_str_field(m: Map<Seq<char>, JsonData>, key: Seq<char>) -> Option<Seq<char>> {
    match field_of(m, key) {
        Some(JsonData::Str(s)) => Some(s),
        _ => None,
    }
}

/// An optional string member: `None` where decoding fails, `Some(None)`
/// where the member is missing or null, `Some(Some(s))` for a string.
pub open spec fn spec_opt_str_field(m: Map<Seq<char>, JsonData>, key: Seq<char>) -> Option<
    Option<Seq<char>>,
> {
    match field_of(m, key) {
        None => Some(None),
        Some(JsonData::Null) => Some(None),
        Some(JsonData::Str(s)) => Some(Some(s)),
        Some(_) => None,
    }
}

/// A required numeric member no greater than `max`: its value, or `None`
/// where the member is missing, not a number, or out of range.
pub open spec fn spec_u64_field(m: Map<Seq<char>, JsonData>, key: Seq<char>, max: u64) -> Option<
    u64,
> {
    match field_of(m, key) {
        Some(JsonData::UInt(n)) => if n <= max {
            Some(n)
        } else {
            None
        },
        _ => None,
    }
}

/// An optional numeric member no greater than `max`.
pub open spec fn spec_opt_u64_field(m: Map<Seq<char>, JsonData>, key: Seq<char>, max: u64) -> Option<
    Option<u64>,
> {
    match field_of(m, key) {
        None => Some(None),
        Some(JsonData::Null) => Some(None),
        Some(JsonData::UInt(n)) => if n <= max {
            Some(Some(n))
        } else {
            None
        },
        Some(_) => None,
    }
}

/// A required boolean member.
pub open spec fn spec_bool_field(m: Map<Seq<char>, JsonData>, key: Seq<char>) -> Option<bool> {
    match field_of(m, key) {
        Some(JsonData::Bool(b)) => Some(b),
        _ => None,
    }
}

/// An optional boolean member.
pub open spec fn spec_opt_bool_field(m: Map<Seq<char>, JsonData>, key: Seq<char>) -> Option<
    Option<bool>,
> {
    match field_of(m, key) {
        None => Some(None),
        Some(JsonData::Null) => Some(None),
        Some(JsonData::Bool(b)) => Some(Some(b)),
        Some(_) => None,
    }
}

/// A bounded number narrowed to `u32`, where present.
pub open spec fn as_u32_opt(o: Option<u64>) -> Option<u32> {
    match o {
        Some(n) => Some(n as u32),
        None => None,
    }
}

/// A bounded number narrowed to `u16`, where present.
pub open spec fn as_u16_opt(o: Option<u64>) -> Option<u16> {
    match o {
        Some(n) => Some(n as u16),
        None => None,
    }
}

/// Whether every element of `a` is a string.
pub open spec fn all_strs(a: Seq<JsonData>) -> bool {
    forall|i: int| 0 <= i < a.len() ==> a[i] is Str
}

/// The texts of a sequence of string elements.
pub open spec fn strs_of(a: Seq<JsonData>) -> Seq<Seq<char>> {
    a.map_values(|j: JsonData| j->Str_0)
}

/// An optional member holding an array of strings.
pub open spec fn spec_opt_str_arr_field(m: Map<Seq<char>, JsonData>, key: Seq<char>) -> Option<
    Option<Seq<Seq<char>>>,
> {
    match field_of(m, key) {
        None => Some(None),
        Some(JsonData::Null) => Some(None),
        Some(JsonData::Arr(a)) => if all_strs(a) {
            Some(Some(strs_of(a)))
        } else {
            None
        },
        Some(_) => None,
    }
}

/// Decodes a required string member of the object `v` holds.
pub fn str_field(v: &serde_json::Value, key: &str) -> (r: Result<String, ()>)
    requires
        value_model(*v) is Obj,
    ensures
        match spec_str_field(value_model(*v)->Obj_0, key@) {
            Some(s) => r is Ok && r->Ok_0@ == s,
            None => r is Err,
        },
{
    match value_get(v, key) {
        Some(f) => match value_as_str(f) {
            Some(s) => Ok(String::from_str(s)),
            None => Err(()),
        },
        None => Err(()),
    }
}

/// Decodes an optional string member of the object `v` holds.
pub fn opt_str_field(v: &serde_json::Value, key: &str) -> (r: Result<Option<String>, ()>)
    requires
        value_model(*v) is Obj,
    ensures
        match spec_opt_str_field(value_model(*v)->Obj_0, key@) {
            Some(o) => r is Ok && r->Ok_0.deep_view() == o,
            None => r is Err,
        },
{
    match value_get(v, key) {
        None => Ok(None),
        Some(f) => {
            if value_is_null(f) {
                Ok(None)
            } else {
                match value_as_str(f) {
                    Some(s) => Ok(Some(String::from_str(s))),
                    None => Err(()),
                }
            }
        },
    }
}

/// Decodes a required numeric member of the object `v` holds, bounded by
/// `max`.
pub fn u64_field(v: &serde_json::Value, key: &str, max: u64) -> (r: Result<u64, ()>)
    requires
        value_model(*v) is Obj,
    ensures
        match spec_u64_field(value_model(*v)->Obj_0, key@, max) {
            Some(n) => r == Ok::<u64, ()>(n),
            None => r is Err,
        },
{
    match value_get(v, key) {
        Some(f) => match value_as_u64(f) {
            Some(n) => if n <= max {
                Ok(n)
            } else {
                Err(())
            },
            None => Err(()),
        },
        None => Err(()),
    }
}

/// Decodes an optional numeric member of the object `v` holds, bounded by
/// `max`.
pub fn opt_u64_field(v: &serde_json::Value, key: &str, max: u64) -> (r: Result<Option<u64>, ()>)
    requires
        value_model(*v) is Obj,
    ensures
        match spec_opt_u64_field(value_model(*v)->Obj_0, key@, max) {
            Some(o) => r == Ok::<Option<u64>, ()>(o),
            None => r is Err,
        },
{
    match value_get(v, key) {
        None => Ok(None),
        Some(f) => {
            if value_is_null(f) {
                Ok(None)
            } else {
                match value_as_u64(f) {
                    Some(n) => if n <= max {
                        Ok(Some(n))
                    } else {
                        Err(())
                    },
                    None => Err(()),
                }
            }
        },
    }
}

/// Decodes a required boolean member of the object `v` holds.
pub fn bool_field(v: &serde_json::Value, key: &str) -> (r: Result<bool, ()>)
    requires
        value_model(*v) is Obj,
    ensures
        match spec_bool_field(value_model(*v)->Obj_0, key@) {
            Some(b) => r == Ok::<bool, ()>(b),
            None => r is Err,
        },
{
    match value_get(v, key) {
        Some(f) => match value_as_bool(f) {
            Some(b) => Ok(b),
            None => Err(()),
        },
        None => Err(()),
    }
}

/// Decodes an optional boolean member of the object `v` holds.
pub fn opt_bool_field(v: &serde_json::Value, key: &str) -> (r: Result<Option<bool>, ()>)
    requires
        value_model(*v) is Obj,
    ensures
        match spec_opt_bool_field(value_model(*v)->Obj_0, key@) {
            Some(o) => r == Ok::<Option<bool>, ()>(o),
            None => r is Err,
        },
{
    match value_get(v, key) {
        None => Ok(None),
        Some(f) => {
            if value_is_null(f) {
                Ok(None)
            } else {
                match value_as_bool(f) {
                    Some(b) => Ok(Some(b)),
                    None => Err(()),
                }
            }
        },
    }
}

/// Decodes an optional member of the object `v` holds as an array of
/// strings.
pub fn opt_str_arr_field(v: &serde_json::Value, key: &str) -> (r: Result<Option<Vec<String>>, ()>)
    requires
        value_model(*v) is Obj,
    ensures
        match spec_opt_str_arr_field(value_model(*v)->Obj_0, key@) {
            Some(o) => r is Ok && r->Ok_0.deep_view() == o,
            None => r is Err,
        },
{
    match value_get(v, key) {
        None => Ok(None),
        Some(f) => {
            if value_is_null(f) {
                return Ok(None);
            }
            let ghost j = value_model(*f);
            match value_as_array(f) {
                None => Err(()),
                Some(items) => {
                    let ghost a = j->Arr_0;
                    let mut out: Vec<String> = Vec::new();
                    let mut i: usize = 0;
                    while i < items.len()
                        invariant
                            i <= items@.len(),
                            items@.len() == a.len(),
                            forall|k: int|
                                0 <= k < a.len() ==> value_model(#[trigger] items@[k]) == a[k],
                            forall|k: int| 0 <= k < i ==> a[k] is Str,
                            out@.len() == i,
                            forall|k: int|
                                0 <= k < i ==> #[trigger] out.deep_view()[k] == a[k]->Str_0,
                            value_model(*v) is Obj,
                            value_model(*v)->Obj_0.contains_key(key@),
                            value_model(*v)->Obj_0[key@] == j,
                            j is Arr,
                            a == j->Arr_0,
                        decreases items@.len() - i,
                    {
                        match value_as_str(&items[i]) {
                            Some(s) => {
                                let elem = String::from_str(s);
                                let ghost prevv = out@;
                                let ghost prevdv = out.deep_view();
                                let ghost ev = elem;
                                out.push(elem);
                                proof {
                                    assert(out@ == prevv.push(ev));
                                    assert(a[i as int] is Str && a[i as int]->Str_0 == s@);
                                    assert forall|k: int| 0 <= k <= i implies #[trigger] out
                                        .deep_view()[k] == a[k]->Str_0 by {
                                        assert(prevv.push(ev)[k] == out@[k]);
                                        if k < i {
                                            assert(prevdv[k] == a[k]->Str_0);
                                            assert(prevdv[k] == prevv[k].deep_view());
                                            assert(out.deep_view()[k] == prevv[k].deep_view());
                                        } else {
                                            assert(out@[k] == ev);
                                            assert(out.deep_view()[k] == ev.deep_view());
                                        }
                                    }
                                }
                            },
                            None => {
                                proof {
                                    assert(!(a[i as int] is Str));
                                    assert(!all_strs(a));
                                }
                                return Err(());
                            },
                        }
                        i = i + 1;
                    }
                    proof {
                        assert(all_strs(a));
                        assert(out.deep_view() =~~= strs_of(a));
                    }
                    Ok(Some(out))
                },
            }
        },
    }
}

} // verus!
