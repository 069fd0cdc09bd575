//! Decoding of JSON documents into dynamic values and playlists.

use vstd::prelude::*;
use serde_json::Value;
use crate::core_api::{
    entries_map, entries_wf, has_key, key_index, lemma_view_of_array, lemma_view_of_map, DataView,
    MapEntry, MpvDataType, PlaylistEntry, PlaylistEntryView,
};
use crate::error::MpvError;
use crate::json::{
    double_of_integer, json_of, jsons_of, object_get, object_keys, object_of, value_as_array, value_as_bool,
    value_as_double_bits, value_as_i64, value_as_object, value_as_str, value_as_u64,
    value_is_double, value_is_null, Json, JsonNumber,
};

verus! {

/// Whether a JSON number has a dynamic value: an unsigned integer, minus one,
/// or a double.
pub open spec fn supported_number(n: JsonNumber) -> bool {
    match n {
        JsonNumber::Unsigned(_) => true,
        JsonNumber::Negative(i) => i == -1,
        JsonNumber::Double(_) => true,
    }
}

/// Whether every number inside a document has a dynamic value.
pub open spec fn decodable(j: Json) -> bool
    decreases j,
{
    match j {
        Json::Number(n) => supported_number(n),
        Json::Array(a) => decodable_all(a),
        Json::Object(m) => m.dom().finite() ==> forall|k: Seq<char>|
            m.contains_key(k) ==> decodable(#[trigger] m[k]),
        _ => true,
    }
}

/// Whether every document of a sequence is decodable.
pub open spec fn decodable_all(a: Seq<Json>) -> bool
    decreases a,
{
    forall|i: int| 0 <= i < a.len() ==> decodable(#[trigger] a[i])
}

/// The dynamic value of a decodable document.
pub open spec fn decode(j: Json) -> DataView
    decreases j,
{
    match j {
        Json::Null => DataView::Null,
        Json::Bool(b) => DataView::Bool(b),
        Json::Number(JsonNumber::Unsigned(n)) => DataView::Usize(n as usize),
        Json::Number(JsonNumber::Negative(_)) => DataView::MinusOne,
        Json::Number(JsonNumber::Double(bits)) => DataView::Double(bits),
        Json::String(s) => DataView::String(s),
        Json::Array(a) => DataView::Array(decode_all(a)),
        Json::Object(m) => DataView::HashMap(decode_entries(m)),
    }
}

/// The dynamic values of a sequence of documents, in order.
pub open spec fn decode_all(a: Seq<Json>) -> Seq<DataView>
    decreases a,
{
    Seq::new(
        a.len(),
        |i: int|
            if 0 <= i < a.len() {
                decode(a[i])
            } else {
                DataView::Null
            },
    )
}

/// The dynamic values of the entries of an object, key by key.
pub open spec fn decode_entries(m: Map<Seq<char>, Json>) -> Map<Seq<char>, DataView>
    decreases m,
{
    Map::new(
        |k: Seq<char>| m.contains_key(k),
        |k: Seq<char>|
            if m.dom().finite() && m.contains_key(k) {
                decode(m[k])
            } else {
                DataView::Null
            },
    )
}

/// Whether a dynamic value is a boolean, a string, a double, null, minus
/// one, or an array of such values.
pub open spec fn is_plain(v: DataView) -> bool
    decreases v,
{
    match v {
        DataView::Bool(_) => true,
        DataView::String(_) => true,
        DataView::Double(_) => true,
        DataView::Null => true,
        DataView::MinusOne => true,
        DataView::Array(a) => all_plain(a),
        _ => false,
    }
}

/// Whether every value of a sequence is plain.
pub open spec fn all_plain(a: Seq<DataView>) -> bool
    decreases a,
{
    forall|i: int| 0 <= i < a.len() ==> is_plain(#[trigger] a[i])
}

/// The document that stands for a plain dynamic value on the wire.
pub open spec fn encode(v: DataView) -> Json
    decreases v,
{
    match v {
        DataView::Bool(b) => Json::Bool(b),
        DataView::String(s) => Json::String(s),
        DataView::Double(bits) => Json::Number(JsonNumber::Double(bits)),
        DataView::MinusOne => Json::Number(JsonNumber::Negative(-1i64)),
        DataView::Array(a) => Json::Array(encode_all(a)),
        _ => Json::Null,
    }
}

/// The documents that stand for a sequence of plain values, in order.
pub open spec fn encode_all(a: Seq<DataView>) -> Seq<Json>
    decreases a,
{
    Seq::new(
        a.len(),
        |i: int|
            if 0 <= i < a.len() {
                encode(a[i])
            } else {
                Json::Null
            },
    )
}

/// Encoding a plain value and decoding the document gives the value back:
/// scalars are kept as they are, and arrays keep their elements in order.
pub proof fn lemma_decode_encode(v: DataView)
    requires
        is_plain(v),
    ensures
        decodable(encode(v)),
        decode(encode(v)) == v,
    decreases v,
{
    match v {
        DataView::Array(a) => {
            let e = encode_all(a);
            assert forall|i: int| 0 <= i < e.len() implies decodable(#[trigger] e[i]) && decode(
                e[i],
            ) == a[i] by {
                lemma_decode_encode(a[i]);
            }
            assert(decodable_all(e));
            assert(decode_all(e) =~= a);
        },
        _ => {},
    }
}

/// A `u64` as a `usize`, truncated where `usize` is narrower.
pub fn u64_to_usize(n: u64) -> (r: usize)
    ensures
        r == n as usize,
{
    #[verifier::truncate]
    (n as usize)
}

/// Whether `found` is the number at which decoding a document stops: the
/// document itself where it is a number without a dynamic value; in an
/// array, the number at which its first undecodable element stops; in an
/// object, the number at which one of its undecodable entries stops.
pub open spec fn stops_at(j: Json, found: Json) -> bool
    decreases j,
{
    match j {
        Json::Number(n) => !supported_number(n) && found == j,
        Json::Array(a) => stops_at_in(a, found),
        Json::Object(m) => stops_at_among(m, found),
        _ => false,
    }
}

/// Whether `found` is the number at which decoding some entry of an object
/// stops.
pub open spec fn stops_at_among(m: Map<Seq<char>, Json>, found: Json) -> bool
    decreases m,
{
    m.dom().finite() && exists|k: Seq<char>|
        m.contains_key(k) && stops_at(#[trigger] m[k], found)
}

/// Whether `found` is the number at which decoding the first undecodable
/// document of a sequence stops.
pub open spec fn stops_at_in(a: Seq<Json>, found: Json) -> bool
    decreases a,
{
    exists|k: int|
        {
            &&& 0 <= k < a.len()
            &&& forall|i: int| 0 <= i < k ==> decodable(#[trigger] a[i])
            &&& stops_at(#[trigger] a[k], found)
        }
}

/// What an error says of a document that does not decode: the numbers that
/// have a dynamic value, and the number at which decoding stopped.
pub open spec fn is_unsupported_number_error(e: MpvError, j: Json) -> bool {
    &&& e matches MpvError::ValueContainsUnexpectedType { expected_type, received }
    &&& expected_type@ == "i64, u64, or f64"@
    &&& stops_at(j, json_of(received))
}

/// Decodes a JSON document into a dynamic value. Every document decodes but
/// one that holds a negative integer other than minus one; the error then
/// carries such a number.
pub fn json_to_value(value: &Value) -> (r: Result<MpvDataType, MpvError>)
    ensures
        match r {
            Ok(d) => decodable(json_of(*value)) && d@ == decode(json_of(*value)) && d.wf(),
            Err(e) => !decodable(json_of(*value)) && is_unsupported_number_error(e, json_of(*value)),
        },
    decreases json_of(*value),
{
    if let Some(array) = value_as_array(value) {
        match json_array_to_vec(array.as_slice()) {
            Ok(items) => {
                proof {
                    lemma_view_of_array(items);
                    assert(Seq::new(items@.len(), |i: int| items@[i]@) =~= decode_all(
                        jsons_of(array@),
                    ));
                }
                Ok(MpvDataType::Array(items))
            },
            Err(e) => Err(e),
        }
    } else if let Some(b) = value_as_bool(value) {
        Ok(MpvDataType::Bool(b))
    } else if let Some(map) = value_as_object(value) {
        match json_map_to_hashmap(map) {
            Ok(entries) => {
                proof {
                    lemma_view_of_map(entries);
                }
                Ok(MpvDataType::HashMap(entries))
            },
            Err(e) => Err(e),
        }
    } else if let Some(s) = value_as_str(value) {
        Ok(MpvDataType::String(s.to_owned()))
    } else if value_is_null(value) {
        Ok(MpvDataType::Null)
    } else {
        let minus_one = match value_as_i64(value) {
            Some(i) => i == -1,
            None => false,
        };
        if minus_one {
            Ok(MpvDataType::MinusOne)
        } else if let Some(n) = value_as_u64(value) {
            Ok(MpvDataType::Usize(u64_to_usize(n)))
        } else if value_is_double(value) {
            match value_as_double_bits(value) {
                Some(bits) => Ok(MpvDataType::Double(bits)),
                None => Ok(MpvDataType::Null),
            }
        } else {
            Err(
                MpvError::ValueContainsUnexpectedType {
                    expected_type: "i64, u64, or f64".to_owned(),
                    received: value.clone(),
                },
            )
        }
    }
}

/// A map whose keys are all among the strings of a list has finitely many.
proof fn lemma_listed_keys_are_finite(m: Map<Seq<char>, Json>, keys: Seq<String>)
    requires
        forall|k: Seq<char>|
            m.contains_key(k) ==> exists|i: int| 0 <= i < keys.len() && #[trigger] keys[i]@ == k,
    ensures
        m.dom().finite(),
{
    let listed = Seq::new(keys.len(), |i: int| keys[i]@);
    vstd::seq_lib::seq_to_set_is_finite(listed);
    assert forall|k: Seq<char>| m.dom().contains(k) implies listed.to_set().contains(k) by {
        let i = choose|i: int| 0 <= i < keys.len() && #[trigger] keys[i]@ == k;
        assert(listed[i] == k);
    }
    vstd::set_lib::lemma_len_subset(m.dom(), listed.to_set());
}

/// Decodes the entries of a JSON object. The result lists every key once;
/// it fails where some entry does not decode.
pub fn json_map_to_hashmap(map: &serde_json::Map<String, Value>) -> (r: Result<
    Vec<MapEntry>,
    MpvError,
>)
    ensures
        match r {
            Ok(entries) => {
                &&& decodable(Json::Object(object_of(*map)))
                &&& entries_wf(entries@)
                &&& entries_map(entries@) == decode_entries(object_of(*map))
            },
            Err(e) => !decodable(Json::Object(object_of(*map))) && is_unsupported_number_error(
                e,
                Json::Object(object_of(*map)),
            ),
        },
    decreases object_of(*map),
{
    let keys = object_keys(map);
    let ghost m = object_of(*map);
    proof {
        lemma_listed_keys_are_finite(m, keys@);
    }
    let mut entries: Vec<MapEntry> = Vec::new();
    let mut i: usize = 0;
    while i < keys.len()
        invariant
            i <= keys.len(),
            m == object_of(*map),
            m.dom().finite(),
            entries@.len() == i,
            forall|a: int, b: int| 0 <= a < b < keys@.len() ==> keys@[a]@ != keys@[b]@,
            forall|a: int| 0 <= a < keys@.len() ==> m.contains_key(#[trigger] keys@[a]@),
            forall|a: int|
                0 <= a < i ==> {
                    &&& (#[trigger] entries@[a]).key@ == keys@[a]@
                    &&& entries@[a].value.wf()
                    &&& entries@[a].value@ == decode(m[keys@[a]@])
                    &&& decodable(m[keys@[a]@])
                },
        decreases keys.len() - i,
    {
        let key = keys[i].clone();
        match object_get(map, key.as_str()) {
            Some(child) => {
                match json_to_value(child) {
                    Ok(value) => {
                        entries.push(MapEntry { key, value });
                    },
                    Err(e) => {
                        proof {
                            assert(m.contains_key(keys@[i as int]@));
                            assert(!decodable(m[keys@[i as int]@]));
                            assert(!decodable(Json::Object(m)));
                            assert(stops_at(
                                m[keys@[i as int]@],
                                json_of(e->ValueContainsUnexpectedType_received),
                            ));
                        }
                        return Err(e);
                    },
                }
            },
            None => {},
        }
        i += 1;
    }
    proof {
        assert forall|k: Seq<char>| #[trigger] m.contains_key(k) implies has_key(entries@, k)
            && decodable(m[k]) && entries_map(entries@)[k] == decode(m[k]) by {
            let a = choose|a: int| 0 <= a < keys@.len() && #[trigger] keys@[a]@ == k;
            assert(entries@[a].key@ == k);
            let c = key_index(entries@, k);
            assert(entries@[c].key@ == k);
            assert(c == a);
        }
        assert forall|k: Seq<char>| has_key(entries@, k) implies m.contains_key(k) by {
            let c = key_index(entries@, k);
            assert(entries@[c].key@ == keys@[c]@);
        }
        assert(entries_map(entries@) =~= decode_entries(m));
        assert(decodable(Json::Object(m)));
    }
    Ok(entries)
}

/// Decodes the elements of a JSON array, in order; it fails where some
/// element does not decode.
pub fn json_array_to_vec(array: &[Value]) -> (r: Result<Vec<MpvDataType>, MpvError>)
    ensures
        match r {
            Ok(items) => {
                &&& decodable_all(jsons_of(array@))
                &&& items@.len() == array@.len()
                &&& forall|i: int|
                    0 <= i < items@.len() ==> (#[trigger] items@[i]).wf() && items@[i]@ == decode(
                        json_of(array@[i]),
                    )
            },
            Err(e) => !decodable_all(jsons_of(array@)) && is_unsupported_number_error(
                e,
                Json::Array(jsons_of(array@)),
            ),
        },
    decreases jsons_of(array@),
{
    let mut items: Vec<MpvDataType> = Vec::new();
    let mut i: usize = 0;
    while i < array.len()
        invariant
            i <= array@.len(),
            items@.len() == i,
            forall|a: int|
                0 <= a < i ==> {
                    &&& (#[trigger] items@[a]).wf()
                    &&& items@[a]@ == decode(json_of(array@[a]))
                    &&& decodable(json_of(array@[a]))
                },
        decreases array.len() - i,
    {
        proof {
            assert(jsons_of(array@)[i as int] == json_of(array@[i as int]));
        }
        match json_to_value(&array[i]) {
            Ok(value) => {
                items.push(value);
            },
            Err(e) => {
                proof {
                    assert(!decodable(jsons_of(array@)[i as int]));
                    let a = jsons_of(array@);
                    assert(0 <= i < a.len());
                    assert(!decodable(a[i as int]));
                    assert forall|k: int| 0 <= k < i implies decodable(#[trigger] a[k]) by {
                        assert(items@[k].wf());
                        assert(a[k] == json_of(array@[k]));
                    }
                    assert(stops_at(a[i as int], json_of(e->ValueContainsUnexpectedType_received)));
                    assert(stops_at_in(a, json_of(e->ValueContainsUnexpectedType_received)));
                }
                return Err(e);
            },
        }
        i += 1;
    }
    proof {
        assert forall|a: int| 0 <= a < jsons_of(array@).len() implies decodable(
            #[trigger] jsons_of(array@)[a],
        ) by {
            assert(items@[a].wf());
            assert(decodable(json_of(array@[a])));
        }
    }
    Ok(items)
}

/// What an error says of a document that has not the shape asked for.
pub open spec fn is_unexpected_value(e: MpvError, expected: Seq<char>, j: Json) -> bool {
    &&& e matches MpvError::ValueContainsUnexpectedType { expected_type, received }
    &&& expected_type@ == expected
    &&& json_of(received) == j
}

/// Whether an object has the shape of a playlist entry: a string under
/// `filename`, a boolean under `current`, and under `title` a string or
/// nothing.
pub open spec fn is_playlist_entry(m: Map<Seq<char>, Json>) -> bool {
    &&& m.contains_key("filename"@) && m["filename"@] is String
    &&& m.contains_key("title"@) ==> m["title"@] is String
    &&& m.contains_key("current"@) && m["current"@] is Bool
}

/// The playlist entry that an object of that shape holds, at a position.
pub open spec fn playlist_entry_of(m: Map<Seq<char>, Json>, id: usize) -> PlaylistEntryView {
    PlaylistEntryView {
        id,
        filename: m["filename"@]->String_0,
        title: if m.contains_key("title"@) {
            Some(m["title"@]->String_0)
        } else {
            None
        },
        current: m["current"@]->Bool_0,
    }
}

/// The error owed for an object that has not the shape of a playlist entry:
/// that of the first field at fault, in the order `filename`, `title`,
/// `current`.
pub open spec fn is_playlist_entry_error(m: Map<Seq<char>, Json>, e: MpvError) -> bool {
    if !m.contains_key("filename"@) {
        e is MissingMpvData
    } else if !(m["filename"@] is String) {
        is_unexpected_value(e, "String"@, m["filename"@])
    } else if m.contains_key("title"@) && !(m["title"@] is String) {
        is_unexpected_value(e, "String"@, m["title"@])
    } else if !m.contains_key("current"@) {
        e is MissingMpvData
    } else {
        is_unexpected_value(e, "bool"@, m["current"@])
    }
}

/// Decodes one playlist entry from a JSON object; its position is left at 0.
pub fn json_map_to_playlist_entry(map: &serde_json::Map<String, Value>) -> (r: Result<
    PlaylistEntry,
    MpvError,
>)
    ensures
        match r {
            Ok(entry) => is_playlist_entry(object_of(*map)) && entry@ == playlist_entry_of(
                object_of(*map),
                0,
            ),
            Err(e) => !is_playlist_entry(object_of(*map)) && is_playlist_entry_error(
                object_of(*map),
                e,
            ),
        },
{
    let filename = match object_get(map, "filename") {
        Some(data) => match value_as_str(data) {
            Some(s) => s.to_owned(),
            None => {
                return Err(
                    MpvError::ValueContainsUnexpectedType {
                        expected_type: "String".to_owned(),
                        received: data.clone(),
                    },
                );
            },
        },
        None => {
            return Err(MpvError::MissingMpvData);
        },
    };
    let title = match object_get(map, "title") {
        Some(data) => match value_as_str(data) {
            Some(s) => Some(s.to_owned()),
            None => {
                return Err(
                    MpvError::ValueContainsUnexpectedType {
                        expected_type: "String".to_owned(),
                        received: data.clone(),
                    },
                );
            },
        },
        None => None,
    };
    let current = match object_get(map, "current") {
        Some(data) => match value_as_bool(data) {
            Some(b) => b,
            None => {
                return Err(
                    MpvError::ValueContainsUnexpectedType {
                        expected_type: "bool".to_owned(),
                        received: data.clone(),
                    },
                );
            },
        },
        None => {
            return Err(MpvError::MissingMpvData);
        },
    };
    Ok(PlaylistEntry { id: 0, filename, title, current })
}

/// Whether a document is an object with the shape of a playlist entry.
pub open spec fn is_playlist_item(j: Json) -> bool {
    j is Object && is_playlist_entry(j->Object_0)
}

/// The error owed for a document that is no playlist entry.
pub open spec fn is_playlist_item_error(j: Json, e: MpvError) -> bool {
    match j {
        Json::Object(m) => is_playlist_entry_error(m, e),
        _ => is_unexpected_value(e, "Map<String, Value>"@, j),
    }
}

/// Whether a result is the playlist that the documents of an array decode
/// to, or the error of the first that is no playlist entry.
pub open spec fn is_playlist_of_json(a: Seq<Json>, r: Result<Vec<PlaylistEntry>, MpvError>) -> bool {
    match r {
        Ok(entries) => {
            &&& entries@.len() == a.len()
            &&& forall|i: int| 0 <= i < a.len() ==> is_playlist_item(#[trigger] a[i])
            &&& forall|i: int|
                0 <= i < a.len() ==> (#[trigger] entries@[i])@ == playlist_entry_of(
                    a[i]->Object_0,
                    i as usize,
                )
        },
        Err(e) => exists|k: int|
            {
                &&& 0 <= k < a.len()
                &&& forall|i: int| 0 <= i < k ==> is_playlist_item(#[trigger] a[i])
                &&& !is_playlist_item(a[k])
                &&& #[trigger] is_playlist_item_error(a[k], e)
            },
    }
}

/// Decodes a playlist from the elements of a JSON array. Each entry gets its
/// position in the array as its `id`. Where some element is no playlist
/// entry, the error is that of the first such element.
pub fn json_array_to_playlist(array: &[Value]) -> (r: Result<Vec<PlaylistEntry>, MpvError>)
    ensures
        is_playlist_of_json(jsons_of(array@), r),
{
    let ghost a = jsons_of(array@);
    let mut entries: Vec<PlaylistEntry> = Vec::new();
    let mut i: usize = 0;
    while i < array.len()
        invariant
            i <= array@.len(),
            a == jsons_of(array@),
            entries@.len() == i,
            forall|k: int| 0 <= k < i ==> is_playlist_item(#[trigger] a[k]),
            forall|k: int|
                0 <= k < i ==> (#[trigger] entries@[k])@ == playlist_entry_of(
                    a[k]->Object_0,
                    k as usize,
                ),
        decreases array.len() - i,
    {
        let item = &array[i];
        assert(a[i as int] == json_of(*item));
        let decoded = match value_as_object(item) {
            Some(map) => json_map_to_playlist_entry(map),
            None => Err(
                MpvError::ValueContainsUnexpectedType {
                    expected_type: "Map<String, Value>".to_owned(),
                    received: item.clone(),
                },
            ),
        };
        match decoded {
            Ok(entry) => {
                let mut entry = entry;
                entry.id = i;
                entries.push(entry);
            },
            Err(e) => {
                proof {
                    assert(is_playlist_item_error(a[i as int], e));
                }
                return Err(e);
            },
        }
        i += 1;
    }
    Ok(entries)
}

/// The error for a document of the wrong shape.
fn unexpected_value(expected: &str, received: Value) -> (e: MpvError)
    ensures
        is_unexpected_value(e, expected@, json_of(received)),
{
    MpvError::ValueContainsUnexpectedType { expected_type: expected.to_owned(), received }
}

/// The string that a document is; any other document is an error.
pub fn get_string(value: Value) -> (r: Result<String, MpvError>)
    ensures
        match json_of(value) {
            Json::String(s) => r matches Ok(t) && t@ == s,
            other => r matches Err(e) && is_unexpected_value(e, "String"@, other),
        },
{
    let text = match value_as_str(&value) {
        Some(s) => Some(s.to_owned()),
        None => None,
    };
    match text {
        Some(t) => Ok(t),
        None => Err(unexpected_value("String", value)),
    }
}

/// The boolean that a document is; any other document is an error.
pub fn get_bool(value: Value) -> (r: Result<bool, MpvError>)
    ensures
        match json_of(value) {
            Json::Bool(b) => r == Ok::<bool, MpvError>(b),
            other => r matches Err(e) && is_unexpected_value(e, "bool"@, other),
        },
{
    match value_as_bool(&value) {
        Some(b) => Ok(b),
        None => Err(unexpected_value("bool", value)),
    }
}

/// The double that a number is, as its bit pattern: the number itself where
/// it is kept as a double, else the integer as a double. Any document that
/// is no number is an error.
pub fn get_double(value: Value) -> (r: Result<u64, MpvError>)
    ensures
        match json_of(value) {
            Json::Number(JsonNumber::Double(bits)) => r == Ok::<u64, MpvError>(bits),
            Json::Number(JsonNumber::Unsigned(n)) => r == Ok::<u64, MpvError>(
                double_of_integer(n as int),
            ),
            Json::Number(JsonNumber::Negative(n)) => r == Ok::<u64, MpvError>(
                double_of_integer(n as int),
            ),
            other => r matches Err(e) && is_unexpected_value(e, "f64"@, other),
        },
{
    match value_as_double_bits(&value) {
        Some(bits) => Ok(bits),
        None => Err(unexpected_value("f64", value)),
    }
}

/// The unsigned integer that a document is; any other document is an error.
pub fn get_usize(value: Value) -> (r: Result<usize, MpvError>)
    ensures
        match json_of(value) {
            Json::Number(JsonNumber::Unsigned(n)) => r == Ok::<usize, MpvError>(n as usize),
            other => r matches Err(e) && is_unexpected_value(e, "usize"@, other),
        },
{
    match value_as_u64(&value) {
        Some(n) => Ok(u64_to_usize(n)),
        None => Err(unexpected_value("usize", value)),
    }
}

/// The map of dynamic values that an object decodes to; a document that is
/// no object is an error, and so is an entry that does not decode.
pub fn get_hashmap(value: Value) -> (r: Result<Vec<MapEntry>, MpvError>)
    ensures
        match json_of(value) {
            Json::Object(m) => match r {
                Ok(entries) => {
                    &&& decodable(Json::Object(m))
                    &&& entries_wf(entries@)
                    &&& entries_map(entries@) == decode_entries(m)
                },
                Err(e) => !decodable(Json::Object(m)) && is_unsupported_number_error(e, Json::Object(m)),
            },
            other => r matches Err(e) && is_unexpected_value(e, "Map<String, Value>"@, other),
        },
{
    let decoded = match value_as_object(&value) {
        Some(m) => Some(json_map_to_hashmap(m)),
        None => None,
    };
    match decoded {
        Some(r) => r,
        None => Err(unexpected_value("Map<String, Value>", value)),
    }
}

/// The playlist that an array decodes to; a document that is no array is an
/// error.
pub fn get_playlist(value: Value) -> (r: Result<Vec<PlaylistEntry>, MpvError>)
    ensures
        match json_of(value) {
            Json::Array(a) => is_playlist_of_json(a, r),
            other => r matches Err(e) && is_unexpected_value(e, "Array<Value>"@, other),
        },
{
    let decoded = match value_as_array(&value) {
        Some(a) => Some(json_array_to_playlist(a.as_slice())),
        None => None,
    };
    match decoded {
        Some(r) => r,
        None => Err(unexpected_value("Array<Value>", value)),
    }
}

} // verus!
