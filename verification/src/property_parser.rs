//! Typed properties: the shape that each known property name requires of a
//! dynamic value.

use vstd::prelude::*;
use crate::core_api::{
    field, find_entry, has_key, MapEntry, MpvDataType, PlaylistEntry, PlaylistEntryView,
};
use crate::error::MpvError;
use crate::text::str_eq;

verus! {

/// How often the player repeats a file or a playlist.
#[derive(Debug, Clone, PartialEq)]
pub enum LoopProperty {
    N(usize),
    Inf,
    No,
}

/// A property of the player, decoded by name. Doubles are kept as their
/// IEEE-754 bit patterns.
#[derive(Debug, PartialEq)]
pub enum Property {
    Path(Option<String>),
    Pause(bool),
    PlaybackTime(Option<u64>),
    Duration(Option<u64>),
    Metadata(Option<Vec<MapEntry>>),
    Playlist(Vec<PlaylistEntry>),
    PlaylistPos(Option<usize>),
    LoopFile(LoopProperty),
    LoopPlaylist(LoopProperty),
    TimePos(Option<u64>),
    TimeRemaining(Option<u64>),
    Speed(u64),
    Volume(u64),
    Mute(bool),
    EofReached(bool),
    Unknown { name: String, data: Option<MpvDataType> },
}

/// What decoding a dynamic value for a given shape comes to: a value, or
/// one of the two ways to fail.
pub enum Decoded<T> {
    Value(T),
    WrongType { expected: Seq<char>, received: MpvDataType },
    Missing,
}

/// What an error says of a dynamic value that has not the shape asked for.
pub open spec fn is_wrong_type(e: MpvError, expected: Seq<char>, d: MpvDataType) -> bool {
    &&& e matches MpvError::DataContainsUnexpectedType { expected_type, received }
    &&& expected_type@ == expected
    &&& received == d
}

/// The same of a copy of the dynamic value.
pub open spec fn is_wrong_type_copy(e: MpvError, expected: Seq<char>, d: MpvDataType) -> bool {
    &&& e matches MpvError::DataContainsUnexpectedType { expected_type, received }
    &&& expected_type@ == expected
    &&& received@ == d@
}

/// Whether a result is the one that a decoding comes to.
pub open spec fn agrees<T>(r: Result<T, MpvError>, d: Decoded<T>) -> bool {
    match d {
        Decoded::Value(v) => r == Ok::<T, MpvError>(v),
        Decoded::WrongType { expected, received } => r matches Err(e) && is_wrong_type(
            e,
            expected,
            received,
        ),
        Decoded::Missing => r matches Err(MpvError::MissingMpvData),
    }
}

/// A double that may be absent: nothing and `null` both stand for none.
pub open spec fn optional_double_of(data: Option<MpvDataType>) -> Decoded<Option<u64>> {
    match data {
        Some(MpvDataType::Double(bits)) => Decoded::Value(Some(bits)),
        None => Decoded::Value(None),
        Some(MpvDataType::Null) => Decoded::Value(None),
        Some(d) => Decoded::WrongType { expected: "f64"@, received: d },
    }
}

/// A double that must be present.
pub open spec fn double_of(data: Option<MpvDataType>) -> Decoded<u64> {
    match data {
        Some(MpvDataType::Double(bits)) => Decoded::Value(bits),
        Some(d) => Decoded::WrongType { expected: "f64"@, received: d },
        None => Decoded::Missing,
    }
}

/// A boolean that must be present.
pub open spec fn bool_of(data: Option<MpvDataType>) -> Decoded<bool> {
    match data {
        Some(MpvDataType::Bool(b)) => Decoded::Value(b),
        Some(d) => Decoded::WrongType { expected: "bool"@, received: d },
        None => Decoded::Missing,
    }
}

/// A loop setting: a count, a boolean (`true` for ever, `false` for not at
/// all), or the string `inf`.
pub open spec fn loop_of(data: Option<MpvDataType>) -> Decoded<LoopProperty> {
    match data {
        Some(MpvDataType::Usize(n)) => Decoded::Value(LoopProperty::N(n)),
        Some(MpvDataType::Bool(b)) => Decoded::Value(
            if b {
                LoopProperty::Inf
            } else {
                LoopProperty::No
            },
        ),
        Some(MpvDataType::String(s)) => if s@ == "inf"@ {
            Decoded::Value(LoopProperty::Inf)
        } else {
            Decoded::WrongType {
                expected: "'inf', bool, or usize"@,
                received: MpvDataType::String(s),
            }
        },
        Some(d) => Decoded::WrongType { expected: "'inf', bool, or usize"@, received: d },
        None => Decoded::Missing,
    }
}

/// The error for a dynamic value of the wrong shape.
fn wrong_type(expected: &str, received: MpvDataType) -> (e: MpvError)
    ensures
        is_wrong_type(e, expected@, received),
{
    MpvError::DataContainsUnexpectedType { expected_type: expected.to_owned(), received }
}

fn optional_double(data: Option<MpvDataType>) -> (r: Result<Option<u64>, MpvError>)
    ensures
        agrees(r, optional_double_of(data)),
{
    match data {
        Some(MpvDataType::Double(bits)) => Ok(Some(bits)),
        None => Ok(None),
        Some(MpvDataType::Null) => Ok(None),
        Some(d) => Err(wrong_type("f64", d)),
    }
}

fn required_double(data: Option<MpvDataType>) -> (r: Result<u64, MpvError>)
    ensures
        agrees(r, double_of(data)),
{
    match data {
        Some(MpvDataType::Double(bits)) => Ok(bits),
        Some(d) => Err(wrong_type("f64", d)),
        None => Err(MpvError::MissingMpvData),
    }
}

fn required_bool(data: Option<MpvDataType>) -> (r: Result<bool, MpvError>)
    ensures
        agrees(r, bool_of(data)),
{
    match data {
        Some(MpvDataType::Bool(b)) => Ok(b),
        Some(d) => Err(wrong_type("bool", d)),
        None => Err(MpvError::MissingMpvData),
    }
}

fn loop_setting(data: Option<MpvDataType>) -> (r: Result<LoopProperty, MpvError>)
    ensures
        agrees(r, loop_of(data)),
{
    match data {
        Some(MpvDataType::Usize(n)) => Ok(LoopProperty::N(n)),
        Some(MpvDataType::Bool(b)) => if b {
            Ok(LoopProperty::Inf)
        } else {
            Ok(LoopProperty::No)
        },
        Some(MpvDataType::String(s)) => if str_eq(s.as_str(), "inf") {
            Ok(LoopProperty::Inf)
        } else {
            Err(wrong_type("'inf', bool, or usize", MpvDataType::String(s)))
        },
        Some(d) => Err(wrong_type("'inf', bool, or usize", d)),
        None => Err(MpvError::MissingMpvData),
    }
}

/// Whether a map has the shape of a playlist entry: a string under
/// `filename`, a boolean under `current`, and under `title` a string or
/// nothing.
pub open spec fn is_playlist_entry_data(e: Seq<MapEntry>) -> bool {
    &&& has_key(e, "filename"@) && field(e, "filename"@) is String
    &&& has_key(e, "title"@) ==> field(e, "title"@) is String
    &&& has_key(e, "current"@) && field(e, "current"@) is Bool
}

/// The playlist entry that a map of that shape holds, at a position.
pub open spec fn playlist_entry_of_data(e: Seq<MapEntry>, id: usize) -> PlaylistEntryView {
    PlaylistEntryView {
        id,
        filename: field(e, "filename"@)->String_0@,
        title: if has_key(e, "title"@) {
            Some(field(e, "title"@)->String_0@)
        } else {
            None
        },
        current: field(e, "current"@)->Bool_0,
    }
}

/// The error owed for a map that has not the shape of a playlist entry:
/// that of the first field at fault, in the order `filename`, `title`,
/// `current`.
pub open spec fn is_playlist_entry_data_error(e: Seq<MapEntry>, err: MpvError) -> bool {
    if !has_key(e, "filename"@) {
        err is MissingMpvData
    } else if !(field(e, "filename"@) is String) {
        is_wrong_type_copy(err, "String"@, field(e, "filename"@))
    } else if has_key(e, "title"@) && !(field(e, "title"@) is String) {
        is_wrong_type_copy(err, "String"@, field(e, "title"@))
    } else if !has_key(e, "current"@) {
        err is MissingMpvData
    } else {
        is_wrong_type_copy(err, "bool"@, field(e, "current"@))
    }
}

/// The error that carries a copy of a dynamic value of the wrong shape.
fn wrong_type_copy(expected: &str, received: &MpvDataType) -> (e: MpvError)
    requires
        received.wf(),
    ensures
        is_wrong_type_copy(e, expected@, *received),
{
    MpvError::DataContainsUnexpectedType {
        expected_type: expected.to_owned(),
        received: received.duplicate(),
    }
}

/// Decodes one playlist entry from a map; its position is left at 0.
pub fn mpv_data_to_playlist_entry(map: &Vec<MapEntry>) -> (r: Result<PlaylistEntry, MpvError>)
    requires
        MpvDataType::HashMap(*map).wf(),
    ensures
        match r {
            Ok(entry) => is_playlist_entry_data(map@) && entry@ == playlist_entry_of_data(map@, 0),
            Err(e) => !is_playlist_entry_data(map@) && is_playlist_entry_data_error(map@, e),
        },
{
    proof {
        crate::core_api::lemma_view_of_map(*map);
    }
    let filename = match find_entry(map, "filename") {
        Some(MpvDataType::String(s)) => s.clone(),
        Some(data) => {
            return Err(wrong_type_copy("String", data));
        },
        None => {
            return Err(MpvError::MissingMpvData);
        },
    };
    let title = match find_entry(map, "title") {
        Some(MpvDataType::String(s)) => Some(s.clone()),
        Some(data) => {
            return Err(wrong_type_copy("String", data));
        },
        None => None,
    };
    let current = match find_entry(map, "current") {
        Some(MpvDataType::Bool(b)) => *b,
        Some(data) => {
            return Err(wrong_type_copy("bool", data));
        },
        None => {
            return Err(MpvError::MissingMpvData);
        },
    };
    Ok(PlaylistEntry { id: 0, filename, title, current })
}

/// Whether a dynamic value is a map with the shape of a playlist entry.
pub open spec fn is_playlist_item_data(d: MpvDataType) -> bool {
    d matches MpvDataType::HashMap(e) && is_playlist_entry_data(e@)
}

/// The error owed for a dynamic value that is no playlist entry.
pub open spec fn is_playlist_item_data_error(d: MpvDataType, err: MpvError) -> bool {
    match d {
        MpvDataType::HashMap(e) => is_playlist_entry_data_error(e@, err),
        _ => is_wrong_type_copy(err, "HashMap"@, d),
    }
}

/// Whether a result is the playlist that a sequence of dynamic values
/// decodes to: entry by entry, each with its position as `id`; or the error
/// of the first value that is no playlist entry.
pub open spec fn is_playlist_of(array: Seq<MpvDataType>, r: Result<Vec<PlaylistEntry>, MpvError>) -> bool {
    match r {
        Ok(entries) => {
            &&& entries@.len() == array.len()
            &&& forall|i: int| 0 <= i < array.len() ==> is_playlist_item_data(#[trigger] array[i])
            &&& forall|i: int|
                0 <= i < array.len() ==> (#[trigger] entries@[i])@ == playlist_entry_of_data(
                    array[i]->HashMap_0@,
                    i as usize,
                )
        },
        Err(e) => exists|k: int|
            {
                &&& 0 <= k < array.len()
                &&& forall|i: int| 0 <= i < k ==> is_playlist_item_data(#[trigger] array[i])
                &&& !is_playlist_item_data(array[k])
                &&& #[trigger] is_playlist_item_data_error(array[k], e)
            },
    }
}

/// Decodes a playlist from a sequence of dynamic values.
pub fn mpv_array_to_playlist(array: &[MpvDataType]) -> (r: Result<Vec<PlaylistEntry>, MpvError>)
    requires
        forall|i: int| 0 <= i < array@.len() ==> (#[trigger] array@[i]).wf(),
    ensures
        is_playlist_of(array@, r),
{
    let mut entries: Vec<PlaylistEntry> = Vec::new();
    let mut i: usize = 0;
    while i < array.len()
        invariant
            i <= array@.len(),
            entries@.len() == i,
            forall|a: int| 0 <= a < array@.len() ==> (#[trigger] array@[a]).wf(),
            forall|a: int| 0 <= a < i ==> is_playlist_item_data(#[trigger] array@[a]),
            forall|a: int|
                0 <= a < i ==> (#[trigger] entries@[a])@ == playlist_entry_of_data(
                    array@[a]->HashMap_0@,
                    a as usize,
                ),
        decreases array.len() - i,
    {
        let item = &array[i];
        assert(item.wf());
        let decoded = match item {
            MpvDataType::HashMap(map) => mpv_data_to_playlist_entry(map),
            _ => Err(wrong_type_copy("HashMap", item)),
        };
        match decoded {
            Ok(entry) => {
                let mut entry = entry;
                entry.id = i;
                entries.push(entry);
            },
            Err(e) => {
                proof {
                    assert(is_playlist_item_data_error(array@[i as int], e));
                }
                return Err(e);
            },
        }
        i += 1;
    }
    Ok(entries)
}

/// A decoding with its value wrapped into a property.
pub open spec fn wrapped<T>(d: Decoded<T>, wrap: spec_fn(T) -> Property) -> Decoded<Property> {
    match d {
        Decoded::Value(v) => Decoded::Value(wrap(v)),
        Decoded::WrongType { expected, received } => Decoded::WrongType { expected, received },
        Decoded::Missing => Decoded::Missing,
    }
}

/// A path: a string, or `null` or nothing for none.
pub open spec fn path_of(data: Option<MpvDataType>) -> Decoded<Property> {
    match data {
        Some(MpvDataType::String(s)) => Decoded::Value(Property::Path(Some(s))),
        None => Decoded::Value(Property::Path(None)),
        Some(MpvDataType::Null) => Decoded::Value(Property::Path(None)),
        Some(d) => Decoded::WrongType { expected: "String"@, received: d },
    }
}

/// Metadata: a map, or `null` or nothing for none.
pub open spec fn metadata_of(data: Option<MpvDataType>) -> Decoded<Property> {
    match data {
        Some(MpvDataType::HashMap(m)) => Decoded::Value(Property::Metadata(Some(m))),
        None => Decoded::Value(Property::Metadata(None)),
        Some(MpvDataType::Null) => Decoded::Value(Property::Metadata(None)),
        Some(d) => Decoded::WrongType { expected: "HashMap"@, received: d },
    }
}

/// A position in the playlist: an unsigned integer, or minus one, `null` or
/// nothing for none.
pub open spec fn playlist_pos_of(data: Option<MpvDataType>) -> Decoded<Property> {
    match data {
        Some(MpvDataType::Usize(n)) => Decoded::Value(Property::PlaylistPos(Some(n))),
        Some(MpvDataType::MinusOne) => Decoded::Value(Property::PlaylistPos(None)),
        Some(MpvDataType::Null) => Decoded::Value(Property::PlaylistPos(None)),
        None => Decoded::Value(Property::PlaylistPos(None)),
        Some(d) => Decoded::WrongType { expected: "usize or -1"@, received: d },
    }
}

/// What the data of a property of a known name, other than `playlist`,
/// decodes to; nothing for any other name.
pub open spec fn known_property_of(name: Seq<char>, data: Option<MpvDataType>) -> Option<
    Decoded<Property>,
> {
    if name == "path"@ {
        Some(path_of(data))
    } else if name == "pause"@ {
        Some(wrapped(bool_of(data), |b: bool| Property::Pause(b)))
    } else if name == "playback-time"@ {
        Some(wrapped(optional_double_of(data), |t: Option<u64>| Property::PlaybackTime(t)))
    } else if name == "duration"@ {
        Some(wrapped(optional_double_of(data), |t: Option<u64>| Property::Duration(t)))
    } else if name == "metadata"@ {
        Some(metadata_of(data))
    } else if name == "playlist-pos"@ {
        Some(playlist_pos_of(data))
    } else if name == "loop-file"@ {
        Some(wrapped(loop_of(data), |l: LoopProperty| Property::LoopFile(l)))
    } else if name == "loop-playlist"@ {
        Some(wrapped(loop_of(data), |l: LoopProperty| Property::LoopPlaylist(l)))
    } else if name == "time-pos"@ {
        Some(wrapped(optional_double_of(data), |t: Option<u64>| Property::TimePos(t)))
    } else if name == "time-remaining"@ {
        Some(
            wrapped(optional_double_of(data), |t: Option<u64>| Property::TimeRemaining(t)),
        )
    } else if name == "speed"@ {
        Some(wrapped(double_of(data), |d: u64| Property::Speed(d)))
    } else if name == "volume"@ {
        Some(wrapped(double_of(data), |d: u64| Property::Volume(d)))
    } else if name == "mute"@ {
        Some(wrapped(bool_of(data), |b: bool| Property::Mute(b)))
    } else if name == "eof-reached"@ {
        Some(wrapped(bool_of(data), |b: bool| Property::EofReached(b)))
    } else {
        None
    }
}

/// Whether a result is what the data of the `playlist` property decodes to:
/// the playlist of an array.
pub open spec fn is_playlist_property(data: Option<MpvDataType>, r: Result<Property, MpvError>) -> bool {
    match data {
        Some(MpvDataType::Array(a)) => match r {
            Ok(p) => p matches Property::Playlist(entries) && is_playlist_of(
                a@,
                Ok::<Vec<PlaylistEntry>, MpvError>(entries),
            ),
            Err(e) => is_playlist_of(a@, Err::<Vec<PlaylistEntry>, MpvError>(e)),
        },
        Some(d) => r matches Err(e) && is_wrong_type(e, "Array"@, d),
        None => r matches Err(MpvError::MissingMpvData),
    }
}

/// Whether a result is what the data of a property decodes to under its
/// name. A property that may be absent takes nothing and `null` for none;
/// every other property of a known name requires its data. A name that is
/// not known gives `Unknown`, with name and data kept.
pub open spec fn is_property(name: Seq<char>, data: Option<MpvDataType>, r: Result<
    Property,
    MpvError,
>) -> bool {
    if name == "playlist"@ {
        is_playlist_property(data, r)
    } else {
        match known_property_of(name, data) {
            Some(d) => agrees(r, d),
            None => r matches Ok(Property::Unknown { name: n, data: d }) && n@ == name && d == data,
        }
    }
}

/// Decodes the data of a property under its name.
pub fn parse_property(name: &str, data: Option<MpvDataType>) -> (r: Result<Property, MpvError>)
    requires
        data matches Some(d) ==> d.wf(),
    ensures
        is_property(name@, data, r),
{
    if str_eq(name, "playlist") {
        match data {
            Some(MpvDataType::Array(a)) => {
                proof {
                    crate::core_api::lemma_view_of_array(a);
                }
                match mpv_array_to_playlist(a.as_slice()) {
                    Ok(entries) => Ok(Property::Playlist(entries)),
                    Err(e) => Err(e),
                }
            },
            Some(d) => Err(wrong_type("Array", d)),
            None => Err(MpvError::MissingMpvData),
        }
    } else if str_eq(name, "path") {
        match data {
            Some(MpvDataType::String(s)) => Ok(Property::Path(Some(s))),
            None => Ok(Property::Path(None)),
            Some(MpvDataType::Null) => Ok(Property::Path(None)),
            Some(d) => Err(wrong_type("String", d)),
        }
    } else if str_eq(name, "pause") {
        match required_bool(data) {
            Ok(b) => Ok(Property::Pause(b)),
            Err(e) => Err(e),
        }
    } else if str_eq(name, "playback-time") {
        match optional_double(data) {
            Ok(t) => Ok(Property::PlaybackTime(t)),
            Err(e) => Err(e),
        }
    } else if str_eq(name, "duration") {
        match optional_double(data) {
            Ok(t) => Ok(Property::Duration(t)),
            Err(e) => Err(e),
        }
    } else if str_eq(name, "metadata") {
        match data {
            Some(MpvDataType::HashMap(m)) => Ok(Property::Metadata(Some(m))),
            None => Ok(Property::Metadata(None)),
            Some(MpvDataType::Null) => Ok(Property::Metadata(None)),
            Some(d) => Err(wrong_type("HashMap", d)),
        }
    } else if str_eq(name, "playlist-pos") {
        match data {
            Some(MpvDataType::Usize(n)) => Ok(Property::PlaylistPos(Some(n))),
            Some(MpvDataType::MinusOne) => Ok(Property::PlaylistPos(None)),
            Some(MpvDataType::Null) => Ok(Property::PlaylistPos(None)),
            None => Ok(Property::PlaylistPos(None)),
            Some(d) => Err(wrong_type("usize or -1", d)),
        }
    } else if str_eq(name, "loop-file") {
        match loop_setting(data) {
            Ok(l) => Ok(Property::LoopFile(l)),
            Err(e) => Err(e),
        }
    } else if str_eq(name, "loop-playlist") {
        match loop_setting(data) {
            Ok(l) => Ok(Property::LoopPlaylist(l)),
            Err(e) => Err(e),
        }
    } else if str_eq(name, "time-pos") {
        match optional_double(data) {
            Ok(t) => Ok(Property::TimePos(t)),
            Err(e) => Err(e),
        }
    } else if str_eq(name, "time-remaining") {
        match optional_double(data) {
            Ok(t) => Ok(Property::TimeRemaining(t)),
            Err(e) => Err(e),
        }
    } else if str_eq(name, "speed") {
        match required_double(data) {
            Ok(d) => Ok(Property::Speed(d)),
            Err(e) => Err(e),
        }
    } else if str_eq(name, "volume") {
        match required_double(data) {
            Ok(d) => Ok(Property::Volume(d)),
            Err(e) => Err(e),
        }
    } else if str_eq(name, "mute") {
        match required_bool(data) {
            Ok(b) => Ok(Property::Mute(b)),
            Err(e) => Err(e),
        }
    } else if str_eq(name, "eof-reached") {
        match required_bool(data) {
            Ok(b) => Ok(Property::EofReached(b)),
            Err(e) => Err(e),
        }
    } else {
        Ok(Property::Unknown { name: name.to_owned(), data })
    }
}

} // verus!
