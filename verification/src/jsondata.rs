//! A trusted window onto `serde_json`: the abstract shape of a parsed JSON
//! document, and the three calls the event dispatcher needs — parsing a text
//! and reading object members and string values out of the result.

use vstd::prelude::*;

verus! {

/// The abstract shape of a JSON document: objects as maps from member name to
/// member, arrays as sequences, strings as their characters. Numbers are
/// collapsed to one symbol; nothing in this library reads them.
#[verifier::ext_equal]
pub ghost enum JsonData {
    Null,
    Bool(bool),
    Num,
    Str(Seq<char>),
    Arr(Seq<JsonData>),
    Obj(Map<Seq<char>, JsonData>),
}

#[verifier::external_type_specification]
#[verifier::external_body]
pub struct ExValue(serde_json::Value);

/// The abstract shape of a `serde_json::Value`.
pub uninterp spec fn value_data(v: serde_json::Value) -> JsonData;

/// What `serde_json`'s parser makes of a text: `None` where the text is not
/// valid JSON, otherwise the shape of the parsed document. The parser reads
/// the text alone, so this is a function of the text.
pub uninterp spec fn json_of(s: Seq<char>) -> Option<JsonData>;

/// Relies on `serde_json::from_str::<Value>`: parses a JSON text, failing
/// exactly on malformed input, and returns the document it describes.
#[verifier::external_body]
pub fn json_from_str(s: &str) -> (r: Option<serde_json::Value>)
    ensures
        r is Some <==> json_of(s@) is Some,
        r matches Some(v) ==> json_of(s@) == Some(value_data(v)),
{
    serde_json::from_str(s).ok()
}

/// Relies on `serde_json::Value::get` with a string index: on an object, the
/// member under the key if there is one; `None` on every other kind of value
/// and on a missing key.
#[verifier::external_body]
pub fn json_get<'a>(v: &'a serde_json::Value, key: &str) -> (r: Option<&'a serde_json::Value>)
    ensures
        match r {
            Some(w) => value_data(*v) matches JsonData::Obj(m) && m.contains_key(key@)
                && value_data(*w) == m[key@],
            None => !(value_data(*v) matches JsonData::Obj(m) && m.contains_key(key@)),
        },
{
    v.get(key)
}

/// Relies on `serde_json::Value::as_str`: the characters of a string value,
/// `None` on every other kind of value.
#[verifier::external_body]
pub fn json_as_str<'a>(v: &'a serde_json::Value) -> (r: Option<&'a str>)
    ensures
        match r {
            Some(t) => value_data(*v) == JsonData::Str(t@),
            None => !(value_data(*v) is Str),
        },
{
    v.as_str()
}

} // verus!
