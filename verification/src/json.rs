//! JSON documents as `serde_json` reads and writes them, seen through a plain model.

use vstd::prelude::*;

verus! {

#[verifier::external_type_specification]
#[verifier::external_body]
pub struct ExJsonValue(serde_json::Value);

#[verifier::external_type_specification]
#[verifier::external_body]
pub struct ExJsonError(serde_json::Error);

/// A JSON value. A number stands as some text of its value: `serde_json` keeps
/// numbers as integers or floats, so different texts of one value (`1.0`, `1.00`)
/// are the same number.
pub enum JsonSpec {
    Null,
    Bool(bool),
    Number(Seq<char>),
    String(Seq<char>),
    Array(Seq<JsonSpec>),
    Object(Seq<(Seq<char>, JsonSpec)>),
}

/// The value stored under `key` among the entries of an object (the first such entry).
pub open spec fn obj_lookup(entries: Seq<(Seq<char>, JsonSpec)>, key: Seq<char>) -> Option<JsonSpec>
    decreases entries.len(),
{
    if entries.len() == 0 {
        None
    } else if entries[0].0 == key {
        Some(entries[0].1)
    } else {
        obj_lookup(entries.drop_first(), key)
    }
}

impl JsonSpec {
    /// The member `key` of an object; nothing for other values.
    pub open spec fn field(self, key: Seq<char>) -> Option<JsonSpec> {
        match self {
            JsonSpec::Object(entries) => obj_lookup(entries, key),
            _ => None,
        }
    }

    /// `value[key]` in `serde_json`: the member, or `null` when there is none.
    pub open spec fn at(self, key: Seq<char>) -> JsonSpec {
        match self.field(key) {
            Some(v) => v,
            None => JsonSpec::Null,
        }
    }

    /// The text of a string value.
    pub open spec fn str_value(self) -> Option<Seq<char>> {
        match self {
            JsonSpec::String(s) => Some(s),
            _ => None,
        }
    }

    /// `value.as_str().unwrap_or(default)`.
    pub open spec fn str_or(self, default: Seq<char>) -> Seq<char> {
        match self {
            JsonSpec::String(s) => s,
            _ => default,
        }
    }
}

/// What a `serde_json::Value` holds.
pub uninterp spec fn json_of(v: serde_json::Value) -> JsonSpec;

/// What `serde_json::from_slice::<Value>` makes of `bytes`: the document, or the
/// text of its error.
pub uninterp spec fn parsed_json(bytes: Seq<u8>) -> Result<JsonSpec, Seq<char>>;

/// How `serde_json` writes one character inside a string literal.
pub open spec fn json_escape(c: char) -> Seq<char> {
    let u = c as u32;
    if c == '"' {
        seq!['\\', '"']
    } else if c == '\\' {
        seq!['\\', '\\']
    } else if u == 8 {
        seq!['\\', 'b']
    } else if u == 9 {
        seq!['\\', 't']
    } else if u == 10 {
        seq!['\\', 'n']
    } else if u == 12 {
        seq!['\\', 'f']
    } else if u == 13 {
        seq!['\\', 'r']
    } else if u < 0x20 {
        seq!['\\', 'u', '0', '0', hex_digit((u / 16) as int), hex_digit((u % 16) as int)]
    } else {
        seq![c]
    }
}

/// Lower-case hexadecimal digit.
pub open spec fn hex_digit(d: int) -> char {
    if d < 10 {
        crate::text::digit_char(d)
    } else if d == 10 {
        'a'
    } else if d == 11 {
        'b'
    } else if d == 12 {
        'c'
    } else if d == 13 {
        'd'
    } else if d == 14 {
        'e'
    } else {
        'f'
    }
}

/// The characters of `s`, each escaped as in a JSON string literal.
pub open spec fn json_escaped(s: Seq<char>) -> Seq<char>
    decreases s.len(),
{
    if s.len() == 0 {
        Seq::empty()
    } else {
        json_escaped(s.drop_last()) + json_escape(s.last())
    }
}

/// `s` as a JSON string literal, quotes included.
pub open spec fn json_quoted(s: Seq<char>) -> Seq<char> {
    seq!['"'] + json_escaped(s) + seq!['"']
}

/// Parses `bytes` as a JSON document with `serde_json::from_slice`; an error is
/// returned as the text that the error displays.  What the parser makes of given
/// bytes is the name `parsed_json`, not restated here.
#[verifier::external_body]
pub fn parse_json(bytes: &[u8]) -> (r: Result<serde_json::Value, String>)
    ensures
        parsed_json(bytes@) == (match r {
            Ok(v) => Ok::<JsonSpec, Seq<char>>(json_of(v)),
            Err(e) => Err::<JsonSpec, Seq<char>>(e@),
        }),
{
    serde_json::from_slice::<serde_json::Value>(bytes).map_err(|e| e.to_string())
}

/// `Value::get` with a string key: the member `key` of an object, nothing otherwise.
#[verifier::external_body]
pub fn json_get<'a>(v: &'a serde_json::Value, key: &str) -> (r: Option<&'a serde_json::Value>)
    ensures
        r matches Some(x) ==> json_of(*v).field(key@) == Some(json_of(*x)),
        r is None ==> json_of(*v).field(key@) is None,
{
    v.get(key)
}

/// `Value::as_str`: the text of a string value.
#[verifier::external_body]
pub fn json_as_str(v: &serde_json::Value) -> (r: Option<&str>)
    ensures
        r matches Some(s) ==> json_of(*v) == JsonSpec::String(s@),
        r is None ==> !(json_of(*v) is String),
{
    v.as_str()
}

/// `Value::as_array`: the elements of an array value.
#[verifier::external_body]
pub fn json_as_array(v: &serde_json::Value) -> (r: Option<&Vec<serde_json::Value>>)
    ensures
        r matches Some(a) ==> json_of(*v) == JsonSpec::Array(
            a@.map_values(|x: serde_json::Value| json_of(x)),
        ),
        r is None ==> !(json_of(*v) is Array),
{
    v.as_array()
}

/// `Value::clone`: a value holding the same document.
#[verifier::external_body]
pub fn json_clone(v: &serde_json::Value) -> (r: serde_json::Value)
    ensures
        json_of(r) == json_of(*v),
{
    v.clone()
}

/// `Value::Null`.
#[verifier::external_body]
pub fn json_null() -> (r: serde_json::Value)
    ensures
        json_of(r) == JsonSpec::Null,
{
    serde_json::Value::Null
}

/// `serde_json::to_string` on a string: the string as a JSON literal.  Writing a
/// string into memory cannot fail, so the result is always `Ok`.
#[verifier::external_body]
pub fn json_quote(s: &str) -> (r: Result<String, serde_json::Error>)
    ensures
        r is Ok,
        r matches Ok(q) ==> q@ == json_quoted(s@),
{
    serde_json::to_string(s)
}

/// The value at `key`, or `null` (`value[key]` in `serde_json`).
pub fn json_index<'a>(v: &'a serde_json::Value, key: &str) -> (r: Option<&'a serde_json::Value>)
    ensures
        (match r {
            Some(x) => json_of(*x),
            None => JsonSpec::Null,
        }) == json_of(*v).at(key@),
{
    json_get(v, key)
}

} // verus!
