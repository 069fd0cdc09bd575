//! The JSON documents that travel over the socket, as `serde_json` holds them.
//!
//! `serde_json::Value` is opaque to the verifier. Its mathematical content is
//! the [`Json`] tree returned by [`json_of`]; every accessor below is a thin
//! call into `serde_json` whose contract is stated over that tree and is
//! believed, not proved.

use vstd::prelude::*;
use serde_json::Value;

verus! {

/// A JSON number: `serde_json` keeps it as an unsigned integer, a strictly
/// negative integer, or a finite double (here by its IEEE-754 bit pattern).
pub enum JsonNumber {
    Unsigned(u64),
    Negative(i64),
    Double(u64),
}

/// The mathematical content of a JSON document.
pub enum Json {
    Null,
    Bool(bool),
    Number(JsonNumber),
    String(Seq<char>),
    Array(Seq<Json>),
    Object(Map<Seq<char>, Json>),
}

#[verifier::external_type_specification]
#[verifier::external_body]
pub struct ExValue(serde_json::Value);

#[verifier::external_type_specification]
#[verifier::external_body]
#[verifier::reject_recursive_types(K)]
#[verifier::reject_recursive_types(V)]
pub struct ExObject<K, V>(serde_json::Map<K, V>);

#[verifier::external_type_specification]
#[verifier::external_body]
pub struct ExJsonError(serde_json::Error);

/// The document that a `serde_json::Value` holds.
pub uninterp spec fn json_of(v: Value) -> Json;

/// The entries that a `serde_json::Map` holds.
pub uninterp spec fn object_of(m: serde_json::Map<String, Value>) -> Map<Seq<char>, Json>;

/// The documents held by a sequence of values, in order.
pub open spec fn jsons_of(s: Seq<Value>) -> Seq<Json> {
    Seq::new(s.len(), |i: int| json_of(s[i]))
}

/// The entries of an object that has none.
pub open spec fn no_entries() -> Map<Seq<char>, Json> {
    Map::empty()
}

/// What `serde_json::from_str` makes of a line of text: the document it
/// holds, or nothing where the text is not one JSON document.
pub uninterp spec fn json_parse(text: Seq<char>) -> Option<Json>;

/// What `serde_json::to_string` makes of a document: its compact text, with
/// the entries of an object in the order of their keys, or nothing where the
/// serializer fails.
pub uninterp spec fn json_written(j: Json) -> Option<Seq<char>>;

/// The double that `Value::as_f64` gives for a number kept as an integer,
/// by its bit pattern.
pub uninterp spec fn double_of_integer(n: int) -> u64;

/// Whether a bit pattern is that of a zero, positive or negative.
pub open spec fn is_zero_double(bits: u64) -> bool {
    bits == 0 || bits == 0x8000_0000_0000_0000u64
}

/// Whether two numbers compare equal: integers of the same sign by their
/// value, doubles by their bits, but for the two zeros, which are equal.
pub open spec fn same_number(a: JsonNumber, b: JsonNumber) -> bool {
    match (a, b) {
        (JsonNumber::Unsigned(x), JsonNumber::Unsigned(y)) => x == y,
        (JsonNumber::Negative(x), JsonNumber::Negative(y)) => x == y,
        (JsonNumber::Double(x), JsonNumber::Double(y)) => x == y || (is_zero_double(x)
            && is_zero_double(y)),
        _ => false,
    }
}

/// Whether two documents compare equal: of the same shape, with equal
/// scalars, arrays equal element by element, and objects equal key by key.
pub open spec fn same_document(a: Json, b: Json) -> bool
    decreases a,
{
    match (a, b) {
        (Json::Null, Json::Null) => true,
        (Json::Bool(x), Json::Bool(y)) => x == y,
        (Json::Number(x), Json::Number(y)) => same_number(x, y),
        (Json::String(x), Json::String(y)) => x == y,
        (Json::Array(x), Json::Array(y)) => same_documents(x, y),
        (Json::Object(m), Json::Object(n)) => same_entries(m, n),
        _ => false,
    }
}

/// Whether two sequences of documents compare equal, position by position.
pub open spec fn same_documents(a: Seq<Json>, b: Seq<Json>) -> bool
    decreases a,
{
    a.len() == b.len() && forall|i: int|
        0 <= i < a.len() ==> same_document(#[trigger] a[i], b[i])
}

/// Whether two objects compare equal: the same keys, with equal documents
/// under each. (An object has finitely many keys.)
pub open spec fn same_entries(m: Map<Seq<char>, Json>, n: Map<Seq<char>, Json>) -> bool
    decreases m,
{
    m.dom() =~= n.dom() && (m.dom().finite() ==> forall|k: Seq<char>|
        m.contains_key(k) ==> same_document(#[trigger] m[k], n[k]))
}

/// The message that a `serde_json::Error` displays.
pub uninterp spec fn json_error_text(e: serde_json::Error) -> Seq<char>;

/// `serde_json::from_str` at type `Value`: the parsed document where the text
/// is valid JSON, the parser's error where it is not.
#[verifier::external_body]
pub(crate) fn parse_json(text: &str) -> (r: Result<Value, serde_json::Error>)
    ensures
        match r {
            Ok(v) => json_parse(text@) == Some(json_of(v)),
            Err(_) => json_parse(text@) is None,
        },
{
    serde_json::from_str::<Value>(text)
}

/// `serde_json::to_string` on a `Value`: the text of the document where the
/// serializer succeeds, its error where it fails. Which of the two depends
/// on the document alone.
#[verifier::external_body]
pub(crate) fn write_json(v: &Value) -> (r: Result<String, serde_json::Error>)
    ensures
        match r {
            Ok(s) => json_written(json_of(*v)) == Some(s@),
            Err(_) => json_written(json_of(*v)) is None,
        },
{
    serde_json::to_string(v)
}

/// `ToString::to_string` on a `serde_json::Error`: its displayed message.
#[verifier::external_body]
pub(crate) fn error_text(e: &serde_json::Error) -> (r: String)
    ensures
        r@ == json_error_text(*e),
{
    e.to_string()
}

/// `Value::is_null`: whether the document is `null`.
#[verifier::external_body]
pub(crate) fn value_is_null(v: &Value) -> (r: bool)
    ensures
        r == (json_of(*v) is Null),
{
    v.is_null()
}

/// `Value::as_bool`: the boolean of a `Bool` document, nothing for any other.
#[verifier::external_body]
pub(crate) fn value_as_bool(v: &Value) -> (r: Option<bool>)
    ensures
        r == (match json_of(*v) {
            Json::Bool(b) => Some(b),
            _ => None,
        }),
{
    v.as_bool()
}

/// `Value::as_str`: the text of a `String` document, nothing for any other.
#[verifier::external_body]
pub(crate) fn value_as_str(v: &Value) -> (r: Option<&str>)
    ensures
        match r {
            Some(s) => json_of(*v) == Json::String(s@),
            None => !(json_of(*v) is String),
        },
{
    v.as_str()
}

/// `Value::as_u64`: the integer of a number kept unsigned, nothing for any
/// other document.
#[verifier::external_body]
pub(crate) fn value_as_u64(v: &Value) -> (r: Option<u64>)
    ensures
        r == (match json_of(*v) {
            Json::Number(JsonNumber::Unsigned(n)) => Some(n),
            _ => None,
        }),
{
    v.as_u64()
}

/// `Value::as_i64`: the integer of a number kept negative, or kept unsigned
/// and no larger than `i64::MAX`; nothing for any other document.
#[verifier::external_body]
pub(crate) fn value_as_i64(v: &Value) -> (r: Option<i64>)
    ensures
        match json_of(*v) {
            Json::Number(JsonNumber::Negative(n)) => r == Some(n),
            Json::Number(JsonNumber::Unsigned(n)) => if n <= i64::MAX {
                r matches Some(i) && i == n
            } else {
                r is None
            },
            _ => r is None,
        },
{
    v.as_i64()
}

/// `Value::is_f64`: whether the document is a number kept as a double.
#[verifier::external_body]
pub(crate) fn value_is_double(v: &Value) -> (r: bool)
    ensures
        r == (json_of(*v) matches Json::Number(JsonNumber::Double(_))),
{
    v.is_f64()
}

/// `Value::as_f64`, handed on as the double's bit pattern: for a number
/// kept as a double that very one, for a number kept as an integer the
/// integer as a double, nothing for any other document.
#[verifier::external_body]
pub(crate) fn value_as_double_bits(v: &Value) -> (r: Option<u64>)
    ensures
        r == (match json_of(*v) {
            Json::Number(JsonNumber::Double(bits)) => Some(bits),
            Json::Number(JsonNumber::Unsigned(n)) => Some(double_of_integer(n as int)),
            Json::Number(JsonNumber::Negative(n)) => Some(double_of_integer(n as int)),
            _ => None,
        }),
{
    v.as_f64().map(|d| d.to_bits())
}

/// `Value::as_array`: the elements of an `Array` document, in order.
#[verifier::external_body]
pub(crate) fn value_as_array(v: &Value) -> (r: Option<&Vec<Value>>)
    ensures
        match r {
            Some(a) => json_of(*v) == Json::Array(jsons_of(a@)),
            None => !(json_of(*v) is Array),
        },
{
    v.as_array()
}

/// `Value::as_object`: the entries of an `Object` document.
#[verifier::external_body]
pub(crate) fn value_as_object(v: &Value) -> (r: Option<&serde_json::Map<String, Value>>)
    ensures
        match r {
            Some(m) => json_of(*v) == Json::Object(object_of(*m)),
            None => !(json_of(*v) is Object),
        },
{
    v.as_object()
}

/// `Clone::clone` on a `Value`: a value that holds the same document.
pub assume_specification[ <serde_json::Value as Clone>::clone ](v: &serde_json::Value) -> (r:
    serde_json::Value)
    ensures
        json_of(r) == json_of(*v),
;

/// `PartialEq::eq` on two `Value`s: whether the documents they hold compare
/// equal.
#[verifier::external_body]
pub(crate) fn value_eq(a: &Value, b: &Value) -> (r: bool)
    ensures
        r == same_document(json_of(*a), json_of(*b)),
{
    a == b
}

/// `Map::get`: the value stored under a key, if the object has that key.
#[verifier::external_body]
pub(crate) fn object_get<'a>(m: &'a serde_json::Map<String, Value>, key: &str) -> (r: Option<
    &'a Value,
>)
    ensures
        match r {
            Some(v) => object_of(*m).contains_key(key@) && object_of(*m)[key@] == json_of(*v),
            None => !object_of(*m).contains_key(key@),
        },
{
    m.get(key)
}

/// `Map::keys`, collected: every key of the object, each once.
#[verifier::external_body]
pub(crate) fn object_keys(m: &serde_json::Map<String, Value>) -> (r: Vec<String>)
    ensures
        forall|i: int, j: int| 0 <= i < j < r@.len() ==> r@[i]@ != r@[j]@,
        forall|i: int| 0 <= i < r@.len() ==> object_of(*m).contains_key(#[trigger] r@[i]@),
        forall|k: Seq<char>|
            object_of(*m).contains_key(k) ==> exists|i: int|
                0 <= i < r@.len() && #[trigger] r@[i]@ == k,
{
    m.keys().cloned().collect()
}

/// `Clone::clone` on a `Map`: an object with the same entries.
#[verifier::external_body]
pub(crate) fn object_clone(m: &serde_json::Map<String, Value>) -> (r: serde_json::Map<
    String,
    Value,
>)
    ensures
        object_of(r) == object_of(*m),
{
    m.clone()
}

/// `PartialEq::eq` on two `Map`s: whether the objects have the same keys,
/// with documents that compare equal under each.
#[verifier::external_body]
pub(crate) fn object_eq(
    a: &serde_json::Map<String, Value>,
    b: &serde_json::Map<String, Value>,
) -> (r: bool)
    ensures
        r == same_entries(object_of(*a), object_of(*b)),
{
    a == b
}

/// `Map::new`: an object without entries.
#[verifier::external_body]
pub(crate) fn object_new() -> (r: serde_json::Map<String, Value>)
    ensures
        object_of(r) == no_entries(),
{
    serde_json::Map::new()
}

/// `Map::insert`: the object afterwards holds the value under the key, and
/// every other entry as before.
#[verifier::external_body]
pub(crate) fn object_insert(m: &mut serde_json::Map<String, Value>, key: String, value: Value)
    ensures
        object_of(*final(m)) == object_of(*old(m)).insert(key@, json_of(value)),
{
    m.insert(key, value);
}

/// `Value::Object`: the document made of an object's entries.
#[verifier::external_body]
pub(crate) fn value_from_object(m: serde_json::Map<String, Value>) -> (r: Value)
    ensures
        json_of(r) == Json::Object(object_of(m)),
{
    Value::Object(m)
}

/// `Value::Array`: the document made of the elements, in order.
#[verifier::external_body]
pub(crate) fn value_from_array(a: Vec<Value>) -> (r: Value)
    ensures
        json_of(r) == Json::Array(jsons_of(a@)),
{
    Value::Array(a)
}

/// `Value::String`: the document made of a text.
#[verifier::external_body]
pub(crate) fn value_from_string(s: String) -> (r: Value)
    ensures
        json_of(r) == Json::String(s@),
{
    Value::String(s)
}

/// `Value::from` on a `u64`: the number, kept unsigned.
#[verifier::external_body]
pub(crate) fn value_from_u64(n: u64) -> (r: Value)
    ensures
        json_of(r) == Json::Number(JsonNumber::Unsigned(n)),
{
    Value::from(n)
}

} // verus!
