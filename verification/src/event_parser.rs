//! Typed events: the fields that each kind of event requires of the JSON
//! object that announces it.

use vstd::prelude::*;
use serde_json::Value;
use crate::core_api::MpvDataType;
use crate::error::MpvError;
use crate::ipc::MpvIpcEvent;
use crate::json::{
    json_of, jsons_of, object_clone, object_get, object_of, value_as_array, value_as_object,
    value_as_str, value_as_u64, Json, JsonNumber,
};
use crate::message_parser::{
    decodable, decode, is_unexpected_value, is_unsupported_number_error, json_to_value,
    u64_to_usize,
};
use crate::text::str_eq;

verus! {

/// Why the player stopped playing a file.
#[derive(Debug, Clone, PartialEq)]
pub enum EventEndFileReason {
    Eof,
    Stop,
    Quit,
    Error,
    Redirect,
    Unknown,
    Unimplemented(String),
}

/// The level of a log message.
#[derive(Debug, Clone, PartialEq)]
pub enum EventLogMessageLevel {
    Info,
    Warn,
    Error,
    Fatal,
    Verbose,
    Debug,
    Trace,
    Unimplemented(String),
}

/// Whether a reason is the one that a text names; a text that names none
/// is kept as `Unimplemented`.
pub open spec fn is_end_file_reason(s: Seq<char>, r: EventEndFileReason) -> bool {
    if s == "eof"@ {
        r is Eof
    } else if s == "stop"@ {
        r is Stop
    } else if s == "quit"@ {
        r is Quit
    } else if s == "error"@ {
        r is Error
    } else if s == "redirect"@ {
        r is Redirect
    } else {
        r matches EventEndFileReason::Unimplemented(t) && t@ == s
    }
}

/// Whether a level is the one that a text names; a text that names none is
/// kept as `Unimplemented`.
pub open spec fn is_log_level(s: Seq<char>, r: EventLogMessageLevel) -> bool {
    if s == "info"@ {
        r is Info
    } else if s == "warn"@ {
        r is Warn
    } else if s == "error"@ {
        r is Error
    } else if s == "fatal"@ {
        r is Fatal
    } else if s == "verbose"@ {
        r is Verbose
    } else if s == "debug"@ {
        r is Debug
    } else if s == "trace"@ {
        r is Trace
    } else {
        r matches EventLogMessageLevel::Unimplemented(t) && t@ == s
    }
}

impl EventEndFileReason {
    /// The reason that a text names.
    pub fn parse(s: &str) -> (r: EventEndFileReason)
        ensures
            is_end_file_reason(s@, r),
    {
        if str_eq(s, "eof") {
            EventEndFileReason::Eof
        } else if str_eq(s, "stop") {
            EventEndFileReason::Stop
        } else if str_eq(s, "quit") {
            EventEndFileReason::Quit
        } else if str_eq(s, "error") {
            EventEndFileReason::Error
        } else if str_eq(s, "redirect") {
            EventEndFileReason::Redirect
        } else {
            EventEndFileReason::Unimplemented(s.to_owned())
        }
    }
}

impl std::str::FromStr for EventEndFileReason {
    type Err = ();

    fn from_str(s: &str) -> (r: Result<Self, Self::Err>)
        ensures
            r matches Ok(reason) && is_end_file_reason(s@, reason),
    {
        Ok(EventEndFileReason::parse(s))
    }
}

impl EventLogMessageLevel {
    /// The level that a text names.
    pub fn parse(s: &str) -> (r: EventLogMessageLevel)
        ensures
            is_log_level(s@, r),
    {
        if str_eq(s, "info") {
            EventLogMessageLevel::Info
        } else if str_eq(s, "warn") {
            EventLogMessageLevel::Warn
        } else if str_eq(s, "error") {
            EventLogMessageLevel::Error
        } else if str_eq(s, "fatal") {
            EventLogMessageLevel::Fatal
        } else if str_eq(s, "verbose") {
            EventLogMessageLevel::Verbose
        } else if str_eq(s, "debug") {
            EventLogMessageLevel::Debug
        } else if str_eq(s, "trace") {
            EventLogMessageLevel::Trace
        } else {
            EventLogMessageLevel::Unimplemented(s.to_owned())
        }
    }
}

impl std::str::FromStr for EventLogMessageLevel {
    type Err = ();

    fn from_str(s: &str) -> (r: Result<Self, Self::Err>)
        ensures
            r matches Ok(level) && is_log_level(s@, level),
    {
        Ok(EventLogMessageLevel::parse(s))
    }
}

/// An event of the player.
#[derive(Debug, PartialEq)]
pub enum Event {
    StartFile { playlist_entry_id: usize },
    EndFile {
        reason: EventEndFileReason,
        playlist_entry_id: usize,
        file_error: Option<String>,
        playlist_insert_id: Option<usize>,
        playlist_insert_num_entries: Option<usize>,
    },
    FileLoaded,
    Seek,
    PlaybackRestart,
    Shutdown,
    LogMessage { prefix: String, level: EventLogMessageLevel, text: String },
    Hook { hook_id: usize },
    GetPropertyReply,
    SetPropertyReply,
    CommandReply { result: String },
    ClientMessage { args: Vec<String> },
    VideoReconfig,
    AudioReconfig,
    PropertyChange { id: usize, name: String, data: Option<MpvDataType> },
    EventQueueOverflow,
    /// The player's `none` event.
    NoEvent,
    Idle,
    Tick,
    TracksChanged,
    TrackSwitched,
    Pause,
    Unpause,
    MetadataUpdate,
    ChapterChange,
    ScriptInputDispatch,
    /// An event of a kind that has no variant here, with all its fields.
    Unimplemented(serde_json::Map<String, Value>),
}

/// What is at fault in the object of an event.
pub enum FieldFault {
    /// A key that is required is absent.
    Missing { key: Seq<char> },
    /// The value under a key has not the shape asked for.
    Wrong { expected: Seq<char>, found: Json },
    /// The data of a changed property holds a number without a dynamic value.
    Undecodable { data: Json },
}

/// Whether an error reports a fault in an object.
pub open spec fn is_fault(e: MpvError, f: FieldFault, m: Map<Seq<char>, Json>) -> bool {
    match f {
        FieldFault::Missing { key } => {
            &&& e matches MpvError::MissingKeyInObject { key: k, map }
            &&& k@ == key
            &&& object_of(map) == m
        },
        FieldFault::Wrong { expected, found } => is_unexpected_value(e, expected, found),
        FieldFault::Undecodable { data } => is_unsupported_number_error(e, data),
    }
}

/// The first of two faults.
pub open spec fn or_else(a: Option<FieldFault>, b: Option<FieldFault>) -> Option<FieldFault> {
    if a is Some {
        a
    } else {
        b
    }
}

/// The fault of a key that must hold a string.
pub open spec fn str_fault(m: Map<Seq<char>, Json>, k: Seq<char>) -> Option<FieldFault> {
    if !m.contains_key(k) {
        Some(FieldFault::Missing { key: k })
    } else if !(m[k] is String) {
        Some(FieldFault::Wrong { expected: "str"@, found: m[k] })
    } else {
        None
    }
}

/// Whether a document is an unsigned integer.
pub open spec fn is_unsigned(j: Json) -> bool {
    j matches Json::Number(JsonNumber::Unsigned(_))
}

/// The unsigned integer that a document holds, as a `usize`.
pub open spec fn unsigned_of(j: Json) -> usize {
    match j {
        Json::Number(JsonNumber::Unsigned(n)) => n as usize,
        _ => 0,
    }
}

/// The fault of a key that must hold an unsigned integer.
pub open spec fn u64_fault(m: Map<Seq<char>, Json>, k: Seq<char>) -> Option<FieldFault> {
    if !m.contains_key(k) {
        Some(FieldFault::Missing { key: k })
    } else if !is_unsigned(m[k]) {
        Some(FieldFault::Wrong { expected: "u64"@, found: m[k] })
    } else {
        None
    }
}

/// The fault of a key that may hold a string.
pub open spec fn optional_str_fault(m: Map<Seq<char>, Json>, k: Seq<char>) -> Option<FieldFault> {
    if m.contains_key(k) && !(m[k] is String) {
        Some(FieldFault::Wrong { expected: "str"@, found: m[k] })
    } else {
        None
    }
}

/// The fault of a key that may hold an unsigned integer.
pub open spec fn optional_u64_fault(m: Map<Seq<char>, Json>, k: Seq<char>) -> Option<FieldFault> {
    if m.contains_key(k) && !is_unsigned(m[k]) {
        Some(FieldFault::Wrong { expected: "u64"@, found: m[k] })
    } else {
        None
    }
}

/// The string that a key may hold.
pub open spec fn optional_str_of(m: Map<Seq<char>, Json>, k: Seq<char>) -> Option<Seq<char>> {
    if m.contains_key(k) {
        Some(m[k]->String_0)
    } else {
        None
    }
}

/// The unsigned integer that a key may hold.
pub open spec fn optional_u64_of(m: Map<Seq<char>, Json>, k: Seq<char>) -> Option<usize> {
    if m.contains_key(k) {
        Some(unsigned_of(m[k]))
    } else {
        None
    }
}

/// The error for a key that is absent.
fn missing_key(event: &serde_json::Map<String, Value>, key: &str) -> (e: MpvError)
    ensures
        is_fault(e, FieldFault::Missing { key: key@ }, object_of(*event)),
{
    MpvError::MissingKeyInObject { key: key.to_owned(), map: object_clone(event) }
}

/// The error for a value of the wrong shape.
fn wrong_value(expected: &str, found: &Value) -> (e: MpvError)
    ensures
        is_unexpected_value(e, expected@, json_of(*found)),
{
    MpvError::ValueContainsUnexpectedType {
        expected_type: expected.to_owned(),
        received: found.clone(),
    }
}

fn get_str<'a>(event: &'a serde_json::Map<String, Value>, key: &str) -> (r: Result<
    &'a str,
    MpvError,
>)
    ensures
        match r {
            Ok(s) => str_fault(object_of(*event), key@) is None && object_of(*event)[key@]
                == Json::String(s@),
            Err(e) => str_fault(object_of(*event), key@) matches Some(f) && is_fault(
                e,
                f,
                object_of(*event),
            ),
        },
{
    match object_get(event, key) {
        Some(v) => match value_as_str(v) {
            Some(s) => Ok(s),
            None => Err(wrong_value("str", v)),
        },
        None => Err(missing_key(event, key)),
    }
}

fn get_u64(event: &serde_json::Map<String, Value>, key: &str) -> (r: Result<usize, MpvError>)
    ensures
        match r {
            Ok(n) => u64_fault(object_of(*event), key@) is None && n == unsigned_of(
                object_of(*event)[key@],
            ),
            Err(e) => u64_fault(object_of(*event), key@) matches Some(f) && is_fault(
                e,
                f,
                object_of(*event),
            ),
        },
{
    match object_get(event, key) {
        Some(v) => match value_as_u64(v) {
            Some(n) => Ok(u64_to_usize(n)),
            None => Err(wrong_value("u64", v)),
        },
        None => Err(missing_key(event, key)),
    }
}

fn get_optional_str(event: &serde_json::Map<String, Value>, key: &str) -> (r: Result<
    Option<String>,
    MpvError,
>)
    ensures
        match r {
            Ok(s) => {
                &&& optional_str_fault(object_of(*event), key@) is None
                &&& s is Some == object_of(*event).contains_key(key@)
                &&& s matches Some(t) ==> object_of(*event)[key@] == Json::String(t@)
            },
            Err(e) => optional_str_fault(object_of(*event), key@) matches Some(f) && is_fault(
                e,
                f,
                object_of(*event),
            ),
        },
{
    match object_get(event, key) {
        Some(v) => match value_as_str(v) {
            Some(s) => Ok(Some(s.to_owned())),
            None => Err(wrong_value("str", v)),
        },
        None => Ok(None),
    }
}

fn get_optional_u64(event: &serde_json::Map<String, Value>, key: &str) -> (r: Result<
    Option<usize>,
    MpvError,
>)
    ensures
        match r {
            Ok(n) => optional_u64_fault(object_of(*event), key@) is None && n == optional_u64_of(
                object_of(*event),
                key@,
            ),
            Err(e) => optional_u64_fault(object_of(*event), key@) matches Some(f) && is_fault(
                e,
                f,
                object_of(*event),
            ),
        },
{
    match object_get(event, key) {
        Some(v) => match value_as_u64(v) {
            Some(n) => Ok(Some(u64_to_usize(n))),
            None => Err(wrong_value("u64", v)),
        },
        None => Ok(None),
    }
}

/// Whether a result is an event with the given content, or the error of
/// the given fault.
pub open spec fn is_outcome(
    r: Result<Event, MpvError>,
    fault: Option<FieldFault>,
    holds: spec_fn(Event) -> bool,
    m: Map<Seq<char>, Json>,
) -> bool {
    match r {
        Ok(ev) => fault is None && holds(ev),
        Err(e) => fault matches Some(f) && is_fault(e, f, m),
    }
}

/// The content of a `start-file` event.
pub open spec fn is_start_file(m: Map<Seq<char>, Json>, ev: Event) -> bool {
    ev matches Event::StartFile { playlist_entry_id } && playlist_entry_id == unsigned_of(
        m["playlist_entry_id"@],
    )
}

fn parse_start_file(event: &serde_json::Map<String, Value>) -> (r: Result<Event, MpvError>)
    ensures
        is_outcome(
            r,
            u64_fault(object_of(*event), "playlist_entry_id"@),
            |ev: Event| is_start_file(object_of(*event), ev),
            object_of(*event),
        ),
{
    match get_u64(event, "playlist_entry_id") {
        Ok(playlist_entry_id) => Ok(Event::StartFile { playlist_entry_id }),
        Err(e) => Err(e),
    }
}

/// The first fault of an `end-file` event.
pub open spec fn end_file_fault(m: Map<Seq<char>, Json>) -> Option<FieldFault> {
    or_else(
        str_fault(m, "reason"@),
        or_else(
            u64_fault(m, "playlist_entry_id"@),
            or_else(
                optional_str_fault(m, "file_error"@),
                or_else(
                    optional_u64_fault(m, "playlist_insert_id"@),
                    optional_u64_fault(m, "playlist_insert_num_entries"@),
                ),
            ),
        ),
    )
}

/// The content of an `end-file` event.
pub open spec fn is_end_file(m: Map<Seq<char>, Json>, ev: Event) -> bool {
    &&& ev matches Event::EndFile {
        reason,
        playlist_entry_id,
        file_error,
        playlist_insert_id,
        playlist_insert_num_entries,
    }
    &&& is_end_file_reason(m["reason"@]->String_0, reason)
    &&& playlist_entry_id == unsigned_of(m["playlist_entry_id"@])
    &&& file_error is Some == m.contains_key("file_error"@)
    &&& file_error matches Some(t) ==> m["file_error"@] == Json::String(t@)
    &&& playlist_insert_id == optional_u64_of(m, "playlist_insert_id"@)
    &&& playlist_insert_num_entries == optional_u64_of(m, "playlist_insert_num_entries"@)
}

fn parse_end_file(event: &serde_json::Map<String, Value>) -> (r: Result<Event, MpvError>)
    ensures
        is_outcome(
            r,
            end_file_fault(object_of(*event)),
            |ev: Event| is_end_file(object_of(*event), ev),
            object_of(*event),
        ),
{
    let reason = match get_str(event, "reason") {
        Ok(s) => s,
        Err(e) => {
            return Err(e);
        },
    };
    let playlist_entry_id = match get_u64(event, "playlist_entry_id") {
        Ok(n) => n,
        Err(e) => {
            return Err(e);
        },
    };
    let file_error = match get_optional_str(event, "file_error") {
        Ok(s) => s,
        Err(e) => {
            return Err(e);
        },
    };
    let playlist_insert_id = match get_optional_u64(event, "playlist_insert_id") {
        Ok(n) => n,
        Err(e) => {
            return Err(e);
        },
    };
    let playlist_insert_num_entries = match get_optional_u64(
        event,
        "playlist_insert_num_entries",
    ) {
        Ok(n) => n,
        Err(e) => {
            return Err(e);
        },
    };
    Ok(
        Event::EndFile {
            reason: EventEndFileReason::parse(reason),
            playlist_entry_id,
            file_error,
            playlist_insert_id,
            playlist_insert_num_entries,
        },
    )
}

/// The first fault of a `log-message` event.
pub open spec fn log_message_fault(m: Map<Seq<char>, Json>) -> Option<FieldFault> {
    or_else(str_fault(m, "prefix"@), or_else(str_fault(m, "level"@), str_fault(m, "text"@)))
}

/// The content of a `log-message` event.
pub open spec fn is_log_message(m: Map<Seq<char>, Json>, ev: Event) -> bool {
    &&& ev matches Event::LogMessage { prefix, level, text }
    &&& m["prefix"@] == Json::String(prefix@)
    &&& is_log_level(m["level"@]->String_0, level)
    &&& m["text"@] == Json::String(text@)
}

fn parse_log_message(event: &serde_json::Map<String, Value>) -> (r: Result<Event, MpvError>)
    ensures
        is_outcome(
            r,
            log_message_fault(object_of(*event)),
            |ev: Event| is_log_message(object_of(*event), ev),
            object_of(*event),
        ),
{
    let prefix = match get_str(event, "prefix") {
        Ok(s) => s.to_owned(),
        Err(e) => {
            return Err(e);
        },
    };
    let level = match get_str(event, "level") {
        Ok(s) => s,
        Err(e) => {
            return Err(e);
        },
    };
    let text = match get_str(event, "text") {
        Ok(s) => s.to_owned(),
        Err(e) => {
            return Err(e);
        },
    };
    Ok(Event::LogMessage { prefix, level: EventLogMessageLevel::parse(level), text })
}

/// The content of a `hook` event.
pub open spec fn is_hook(m: Map<Seq<char>, Json>, ev: Event) -> bool {
    ev matches Event::Hook { hook_id } && hook_id == unsigned_of(m["hook_id"@])
}

fn parse_hook(event: &serde_json::Map<String, Value>) -> (r: Result<Event, MpvError>)
    ensures
        is_outcome(
            r,
            u64_fault(object_of(*event), "hook_id"@),
            |ev: Event| is_hook(object_of(*event), ev),
            object_of(*event),
        ),
{
    match get_u64(event, "hook_id") {
        Ok(hook_id) => Ok(Event::Hook { hook_id }),
        Err(e) => Err(e),
    }
}

/// Whether position `k` holds the first document of a sequence that is no
/// string.
pub open spec fn is_first_non_string(a: Seq<Json>, k: int) -> bool {
    &&& 0 <= k < a.len()
    &&& !(a[k] is String)
    &&& forall|i: int| 0 <= i < k ==> #[trigger] a[i] is String
}

/// The first fault of a `client-message` event: `args` must be an array of
/// strings.
pub open spec fn client_message_fault(m: Map<Seq<char>, Json>) -> Option<FieldFault> {
    if !m.contains_key("args"@) {
        Some(FieldFault::Missing { key: "args"@ })
    } else {
        match m["args"@] {
            Json::Array(a) => if exists|k: int| is_first_non_string(a, k) {
                Some(
                    FieldFault::Wrong {
                        expected: "string"@,
                        found: a[choose|k: int| is_first_non_string(a, k)],
                    },
                )
            } else {
                None
            },
            other => Some(FieldFault::Wrong { expected: "array"@, found: other }),
        }
    }
}

/// The content of a `client-message` event.
pub open spec fn is_client_message(m: Map<Seq<char>, Json>, ev: Event) -> bool {
    &&& ev matches Event::ClientMessage { args }
    &&& m["args"@] matches Json::Array(a)
    &&& args@.len() == a.len()
    &&& forall|i: int| 0 <= i < a.len() ==> #[trigger] a[i] == Json::String(args@[i]@)
}

fn parse_client_message(event: &serde_json::Map<String, Value>) -> (r: Result<Event, MpvError>)
    ensures
        is_outcome(
            r,
            client_message_fault(object_of(*event)),
            |ev: Event| is_client_message(object_of(*event), ev),
            object_of(*event),
        ),
{
    let list = match object_get(event, "args") {
        Some(v) => match value_as_array(v) {
            Some(a) => a,
            None => {
                return Err(wrong_value("array", v));
            },
        },
        None => {
            return Err(missing_key(event, "args"));
        },
    };
    let ghost a = jsons_of(list@);
    let mut args: Vec<String> = Vec::new();
    let mut i: usize = 0;
    while i < list.len()
        invariant
            i <= list@.len(),
            a == jsons_of(list@),
            object_of(*event).contains_key("args"@),
            object_of(*event)["args"@] == Json::Array(a),
            args@.len() == i,
            forall|k: int| 0 <= k < i ==> #[trigger] a[k] == Json::String(args@[k]@),
        decreases list.len() - i,
    {
        match value_as_str(&list[i]) {
            Some(s) => {
                args.push(s.to_owned());
            },
            None => {
                proof {
                    assert(a[i as int] == json_of(list@[i as int]));
                    assert(is_first_non_string(a, i as int)) by {
                        assert forall|k: int| 0 <= k < i implies #[trigger] a[k] is String by {
                            assert(a[k] == Json::String(args@[k]@));
                        }
                    }
                    let c = choose|k: int| is_first_non_string(a, k);
                    assert(is_first_non_string(a, c));
                    if c < i {
                        assert(a[c] is String);
                    }
                    if i < c {
                        assert(a[i as int] is String);
                    }
                }
                return Err(wrong_value("string", &list[i]));
            },
        }
        proof {
            assert(a[i as int] == json_of(list@[i as int]));
        }
        i += 1;
    }
    proof {
        assert forall|k: int| !is_first_non_string(a, k) by {
            if 0 <= k < a.len() {
                assert(a[k] == Json::String(args@[k]@));
            }
        }
    }
    Ok(Event::ClientMessage { args })
}

/// The first fault of a `property-change` event.
pub open spec fn property_change_fault(m: Map<Seq<char>, Json>) -> Option<FieldFault> {
    or_else(
        u64_fault(m, "id"@),
        or_else(
            str_fault(m, "name"@),
            if m.contains_key("data"@) && !decodable(m["data"@]) {
                Some(FieldFault::Undecodable { data: m["data"@] })
            } else {
                None
            },
        ),
    )
}

/// The content of a `property-change` event: the subscription's id, the
/// property's name, and its data, decoded, where the event has any.
pub open spec fn is_property_change(m: Map<Seq<char>, Json>, ev: Event) -> bool {
    &&& ev matches Event::PropertyChange { id, name, data }
    &&& id == unsigned_of(m["id"@])
    &&& m["name"@] == Json::String(name@)
    &&& data is Some == m.contains_key("data"@)
    &&& data matches Some(d) ==> d@ == decode(m["data"@]) && d.wf()
}

fn parse_property_change(event: &serde_json::Map<String, Value>) -> (r: Result<Event, MpvError>)
    ensures
        is_outcome(
            r,
            property_change_fault(object_of(*event)),
            |ev: Event| is_property_change(object_of(*event), ev),
            object_of(*event),
        ),
{
    let id = match get_u64(event, "id") {
        Ok(n) => n,
        Err(e) => {
            return Err(e);
        },
    };
    let name = match get_str(event, "name") {
        Ok(s) => s.to_owned(),
        Err(e) => {
            return Err(e);
        },
    };
    let data = match object_get(event, "data") {
        Some(v) => match json_to_value(v) {
            Ok(d) => Some(d),
            Err(e) => {
                return Err(e);
            },
        },
        None => None,
    };
    Ok(Event::PropertyChange { id, name, data })
}

/// Whether a result is what an object decodes to as an event of a given
/// name. An object of a kind that has no variant is kept whole.
pub open spec fn is_event_named(name: Seq<char>, m: Map<Seq<char>, Json>, r: Result<
    Event,
    MpvError,
>) -> bool {
    if name == "start-file"@ {
        is_outcome(r, u64_fault(m, "playlist_entry_id"@), |ev: Event| is_start_file(m, ev), m)
    } else if name == "end-file"@ {
        is_outcome(r, end_file_fault(m), |ev: Event| is_end_file(m, ev), m)
    } else if name == "file-loaded"@ {
        r matches Ok(Event::FileLoaded)
    } else if name == "seek"@ {
        r matches Ok(Event::Seek)
    } else if name == "playback-restart"@ {
        r matches Ok(Event::PlaybackRestart)
    } else if name == "shutdown"@ {
        r matches Ok(Event::Shutdown)
    } else if name == "log-message"@ {
        is_outcome(r, log_message_fault(m), |ev: Event| is_log_message(m, ev), m)
    } else if name == "hook"@ {
        is_outcome(r, u64_fault(m, "hook_id"@), |ev: Event| is_hook(m, ev), m)
    } else if name == "client-message"@ {
        is_outcome(r, client_message_fault(m), |ev: Event| is_client_message(m, ev), m)
    } else if name == "video-reconfig"@ {
        r matches Ok(Event::VideoReconfig)
    } else if name == "audio-reconfig"@ {
        r matches Ok(Event::AudioReconfig)
    } else if name == "property-change"@ {
        is_outcome(r, property_change_fault(m), |ev: Event| is_property_change(m, ev), m)
    } else if name == "tick"@ {
        r matches Ok(Event::Tick)
    } else if name == "idle"@ {
        r matches Ok(Event::Idle)
    } else if name == "tracks-changed"@ {
        r matches Ok(Event::TracksChanged)
    } else if name == "track-switched"@ {
        r matches Ok(Event::TrackSwitched)
    } else if name == "pause"@ {
        r matches Ok(Event::Pause)
    } else if name == "unpause"@ {
        r matches Ok(Event::Unpause)
    } else if name == "metadata-update"@ {
        r matches Ok(Event::MetadataUpdate)
    } else if name == "chapter-change"@ {
        r matches Ok(Event::ChapterChange)
    } else {
        r matches Ok(Event::Unimplemented(fields)) && object_of(fields) == m
    }
}

/// Whether a result is what a document decodes to as an event: it must be an
/// object with a string under `event`, which names the kind.
pub open spec fn is_parsed_event(j: Json, r: Result<Event, MpvError>) -> bool {
    match j {
        Json::Object(m) => match str_fault(m, "event"@) {
            Some(f) => r matches Err(e) && is_fault(e, f, m),
            None => is_event_named(m["event"@]->String_0, m, r),
        },
        _ => r matches Err(e) && is_unexpected_value(e, "object"@, j),
    }
}

/// Decodes a line that announces an event into the typed event.
pub fn parse_event(raw_event: MpvIpcEvent) -> (r: Result<Event, MpvError>)
    ensures
        is_parsed_event(json_of(raw_event.0), r),
{
    let MpvIpcEvent(value) = raw_event;
    let event = match value_as_object(&value) {
        Some(m) => m,
        None => {
            return Err(wrong_value("object", &value));
        },
    };
    let name = match get_str(event, "event") {
        Ok(s) => s,
        Err(e) => {
            return Err(e);
        },
    };
    if str_eq(name, "start-file") {
        parse_start_file(event)
    } else if str_eq(name, "end-file") {
        parse_end_file(event)
    } else if str_eq(name, "file-loaded") {
        Ok(Event::FileLoaded)
    } else if str_eq(name, "seek") {
        Ok(Event::Seek)
    } else if str_eq(name, "playback-restart") {
        Ok(Event::PlaybackRestart)
    } else if str_eq(name, "shutdown") {
        Ok(Event::Shutdown)
    } else if str_eq(name, "log-message") {
        parse_log_message(event)
    } else if str_eq(name, "hook") {
        parse_hook(event)
    } else if str_eq(name, "client-message") {
        parse_client_message(event)
    } else if str_eq(name, "video-reconfig") {
        Ok(Event::VideoReconfig)
    } else if str_eq(name, "audio-reconfig") {
        Ok(Event::AudioReconfig)
    } else if str_eq(name, "property-change") {
        parse_property_change(event)
    } else if str_eq(name, "tick") {
        Ok(Event::Tick)
    } else if str_eq(name, "idle") {
        Ok(Event::Idle)
    } else if str_eq(name, "tracks-changed") {
        Ok(Event::TracksChanged)
    } else if str_eq(name, "track-switched") {
        Ok(Event::TrackSwitched)
    } else if str_eq(name, "pause") {
        Ok(Event::Pause)
    } else if str_eq(name, "unpause") {
        Ok(Event::Unpause)
    } else if str_eq(name, "metadata-update") {
        Ok(Event::MetadataUpdate)
    } else if str_eq(name, "chapter-change") {
        Ok(Event::ChapterChange)
    } else {
        Ok(Event::Unimplemented(object_clone(event)))
    }
}

} // verus!
