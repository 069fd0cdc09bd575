//! The connection actor: the commands it takes, the lines it writes and
//! reads, and what it decides on each of them. The actor itself, which owns
//! the socket and the channels, runs these decisions one by one.

use vstd::prelude::*;
use serde_json::Value;
use crate::error::MpvError;
use crate::json::{
    json_of, json_parse, json_written, jsons_of, no_entries, object_clone, object_get, object_insert,
    object_new, object_of, parse_json, value_as_object, value_as_str, value_from_array,
    value_from_object, value_from_string, value_from_u64, write_json, Json, JsonNumber,
};
use crate::message_parser::is_unexpected_value;
use crate::text::str_eq;

verus! {

/// A command for the connection actor.
#[derive(Debug, Clone, PartialEq, Eq)]
pub enum MpvIpcCommand {
    Command(Vec<String>),
    GetProperty(String),
    SetProperty(String, Value),
    ObserveProperty(u64, String),
    UnobserveProperty(u64),
    Exit,
}

/// The actor's answer to a command.
#[derive(Debug)]
pub struct MpvIpcResponse(pub Result<Option<Value>, MpvError>);

/// A line of the player that announces an event, parsed but not yet typed.
#[derive(Debug, Clone)]
pub struct MpvIpcEvent(pub Value);

/// The elements of the array that a command is written as: the verb, then
/// its arguments. A value to set is embedded as it is.
pub open spec fn command_json(cmd: MpvIpcCommand) -> Seq<Json> {
    match cmd {
        MpvIpcCommand::Command(parts) => Seq::new(
            parts@.len(),
            |i: int| Json::String(parts@[i]@),
        ),
        MpvIpcCommand::GetProperty(name) => seq![
            Json::String("get_property"@),
            Json::String(name@),
        ],
        MpvIpcCommand::SetProperty(name, value) => seq![
            Json::String("set_property"@),
            Json::String(name@),
            json_of(value),
        ],
        MpvIpcCommand::ObserveProperty(id, name) => seq![
            Json::String("observe_property"@),
            Json::Number(JsonNumber::Unsigned(id)),
            Json::String(name@),
        ],
        MpvIpcCommand::UnobserveProperty(id) => seq![
            Json::String("unobserve_property"@),
            Json::Number(JsonNumber::Unsigned(id)),
        ],
        MpvIpcCommand::Exit => Seq::empty(),
    }
}

/// The values of the array that a command is written as.
pub fn command_values(cmd: MpvIpcCommand) -> (r: Vec<Value>)
    ensures
        jsons_of(r@) == command_json(cmd),
{
    let mut values: Vec<Value> = Vec::new();
    match cmd {
        MpvIpcCommand::Command(parts) => {
            let mut i: usize = 0;
            while i < parts.len()
                invariant
                    i <= parts@.len(),
                    values@.len() == i,
                    forall|k: int|
                        0 <= k < i ==> json_of(#[trigger] values@[k]) == Json::String(
                            parts@[k]@,
                        ),
                decreases parts.len() - i,
            {
                values.push(value_from_string(parts[i].clone()));
                i += 1;
            }
            assert(jsons_of(values@) =~= command_json(MpvIpcCommand::Command(parts)));
        },
        MpvIpcCommand::GetProperty(name) => {
            values.push(value_from_string("get_property".to_owned()));
            values.push(value_from_string(name));
            assert(jsons_of(values@) =~= command_json(MpvIpcCommand::GetProperty(name)));
        },
        MpvIpcCommand::SetProperty(name, value) => {
            values.push(value_from_string("set_property".to_owned()));
            values.push(value_from_string(name));
            values.push(value);
            assert(jsons_of(values@) =~= command_json(MpvIpcCommand::SetProperty(name, value)));
        },
        MpvIpcCommand::ObserveProperty(id, name) => {
            values.push(value_from_string("observe_property".to_owned()));
            values.push(value_from_u64(id));
            values.push(value_from_string(name));
            assert(jsons_of(values@) =~= command_json(MpvIpcCommand::ObserveProperty(id, name)));
        },
        MpvIpcCommand::UnobserveProperty(id) => {
            values.push(value_from_string("unobserve_property".to_owned()));
            values.push(value_from_u64(id));
            assert(jsons_of(values@) =~= command_json(MpvIpcCommand::UnobserveProperty(id)));
        },
        MpvIpcCommand::Exit => {
            assert(jsons_of(values@) =~= command_json(MpvIpcCommand::Exit));
        },
    }
    values
}

/// The envelope of a command: an object with the command's array under
/// `command`, and nothing else.
pub open spec fn envelope(command: Seq<Json>) -> Json {
    Json::Object(no_entries().insert("command"@, Json::Array(command)))
}

/// A copy of a sequence of values.
fn copy_values(values: &[Value]) -> (r: Vec<Value>)
    ensures
        jsons_of(r@) == jsons_of(values@),
{
    let mut copy: Vec<Value> = Vec::new();
    let mut i: usize = 0;
    while i < values.len()
        invariant
            i <= values@.len(),
            copy@.len() == i,
            forall|k: int| 0 <= k < i ==> json_of(#[trigger] copy@[k]) == json_of(values@[k]),
        decreases values.len() - i,
    {
        copy.push(values[i].clone());
        i += 1;
    }
    assert(jsons_of(copy@) =~= jsons_of(values@));
    copy
}

/// Writes a command as one line of text: the compact JSON of its envelope.
/// It fails exactly where the serializer has no text for the envelope, and
/// then with `JsonParseError`.
pub fn encode_command(command: &[Value]) -> (r: Result<String, MpvError>)
    ensures
        match r {
            Ok(line) => json_written(envelope(jsons_of(command@))) == Some(line@),
            Err(e) => json_written(envelope(jsons_of(command@))) is None && e is JsonParseError,
        },
{
    let mut fields = object_new();
    object_insert(&mut fields, "command".to_owned(), value_from_array(copy_values(command)));
    let document = value_from_object(fields);
    match write_json(&document) {
        Ok(line) => Ok(line),
        Err(e) => Err(MpvError::JsonParseError(e)),
    }
}

/// Whether a result is what the player's reply to a command comes to. The
/// reply must be an object with a string under `error`: `success` gives the
/// value under `data`, if there is one; `property unavailable` gives no
/// value; any other message is the player's refusal, and comes back with
/// the command and the message as they are.
pub open spec fn is_reply(j: Json, command: Seq<Json>, r: Result<Option<Value>, MpvError>) -> bool {
    match j {
        Json::Object(m) => if !m.contains_key("error"@) {
            &&& r matches Err(MpvError::MissingKeyInObject { key, map })
            &&& key@ == "error"@
            &&& object_of(map) == m
        } else {
            match m["error"@] {
                Json::String(s) => if s == "success"@ {
                    match r {
                        Ok(Some(v)) => m.contains_key("data"@) && json_of(v) == m["data"@],
                        Ok(None) => !m.contains_key("data"@),
                        Err(_) => false,
                    }
                } else if s == "property unavailable"@ {
                    r matches Ok(None)
                } else {
                    &&& r matches Err(MpvError::MpvError { command: c, message })
                    &&& jsons_of(c@) == command
                    &&& message@ == s
                },
                other => r matches Err(e) && is_unexpected_value(e, "string"@, other),
            }
        },
        _ => r matches Err(e) && is_unexpected_value(e, "object"@, j),
    }
}

/// Reads the player's reply to a command.
pub fn parse_mpv_response_data(value: Value, command: &[Value]) -> (r: Result<
    Option<Value>,
    MpvError,
>)
    ensures
        is_reply(json_of(value), jsons_of(command@), r),
{
    let fields = match value_as_object(&value) {
        Some(m) => m,
        None => {
            return Err(
                MpvError::ValueContainsUnexpectedType {
                    expected_type: "object".to_owned(),
                    received: value.clone(),
                },
            );
        },
    };
    let status = match object_get(fields, "error") {
        Some(v) => v,
        None => {
            return Err(
                MpvError::MissingKeyInObject {
                    key: "error".to_owned(),
                    map: object_clone(fields),
                },
            );
        },
    };
    let message = match value_as_str(status) {
        Some(s) => s,
        None => {
            return Err(
                MpvError::ValueContainsUnexpectedType {
                    expected_type: "string".to_owned(),
                    received: status.clone(),
                },
            );
        },
    };
    if str_eq(message, "success") {
        match object_get(fields, "data") {
            Some(data) => Ok(Some(data.clone())),
            None => Ok(None),
        }
    } else if str_eq(message, "property unavailable") {
        Ok(None)
    } else {
        Err(MpvError::MpvError { command: copy_values(command), message: message.to_owned() })
    }
}

/// Whether a document announces an event: an object with the key `event`.
pub open spec fn is_event_json(j: Json) -> bool {
    j matches Json::Object(m) && m.contains_key("event"@)
}

/// Whether a line of text announces an event.
pub open spec fn text_is_event(text: Seq<char>) -> bool {
    json_parse(text) matches Some(j) && is_event_json(j)
}

/// Parses a line of the player. A line that is no JSON document gives
/// `JsonParseError`.
pub fn parse_line(line: &str) -> (r: Result<Value, MpvError>)
    ensures
        match r {
            Ok(v) => json_parse(line@) == Some(json_of(v)),
            Err(e) => json_parse(line@) is None && e is JsonParseError,
        },
{
    match parse_json(line) {
        Ok(v) => Ok(v),
        Err(e) => Err(MpvError::JsonParseError(e)),
    }
}

/// Whether a parsed line announces an event. A line that did not parse
/// announces none.
pub fn is_event_line(parsed: &Result<Value, MpvError>) -> (r: bool)
    ensures
        r == (*parsed matches Ok(v) && is_event_json(json_of(v))),
{
    match parsed {
        Ok(v) => match value_as_object(v) {
            Some(m) => object_get(m, "event").is_some(),
            None => false,
        },
        Err(_) => false,
    }
}

/// Where the actor stands between two inputs.
#[derive(Debug)]
pub enum ActorState {
    /// No command is in flight.
    AwaitingWork,
    /// The command was written to the socket and its reply is awaited.
    AwaitingReply { command: Vec<Value> },
    /// `Exit` was handled: the actor takes no further input.
    Stopped,
}

/// What the actor does after an input.
#[derive(Debug)]
pub enum ActorAction {
    /// Nothing: the input is dropped.
    Nothing,
    /// Publish the event to every subscriber.
    Publish(MpvIpcEvent),
    /// Write the line to the socket.
    Send(String),
    /// Fulfil the reply slot of the command in flight.
    Reply(MpvIpcResponse),
}

/// The kinds of action.
pub enum ActionKind {
    Nothing,
    Publish,
    Send,
    Reply,
}

/// The kind of an action.
pub open spec fn kind_of(action: ActorAction) -> ActionKind {
    match action {
        ActorAction::Nothing => ActionKind::Nothing,
        ActorAction::Publish(_) => ActionKind::Publish,
        ActorAction::Send(_) => ActionKind::Send,
        ActorAction::Reply(_) => ActionKind::Reply,
    }
}

/// What a line from the socket leads to, by whether a reply is awaited: an
/// event line is published and changes nothing; any other line is the reply
/// where one is awaited, and is dropped where none is.
pub open spec fn line_step(waiting: bool, text: Seq<char>) -> (bool, ActionKind) {
    if text_is_event(text) {
        (waiting, ActionKind::Publish)
    } else if waiting {
        (false, ActionKind::Reply)
    } else {
        (false, ActionKind::Nothing)
    }
}

/// Whether a result is what a line comes to as the reply to a command.
pub open spec fn is_reply_to_line(
    text: Seq<char>,
    command: Seq<Json>,
    r: Result<Option<Value>, MpvError>,
) -> bool {
    match json_parse(text) {
        Some(j) => is_reply(j, command, r),
        None => r matches Err(MpvError::JsonParseError(_)),
    }
}

/// Whether a parsed line announces an event.
pub open spec fn parsed_is_event(parsed: Result<Value, MpvError>) -> bool {
    parsed matches Ok(v) && is_event_json(json_of(v))
}

/// Whether a result is what a parsed line comes to as the reply to a
/// command: a line that did not parse fails the command with the parser's
/// error.
pub open spec fn is_reply_to_parsed(
    parsed: Result<Value, MpvError>,
    command: Seq<Json>,
    r: Result<Option<Value>, MpvError>,
) -> bool {
    match parsed {
        Ok(v) => is_reply(json_of(v), command, r),
        Err(e) => r == Err::<Option<Value>, MpvError>(e),
    }
}

/// Handles a line of the socket that was parsed already.
///
/// An event line is published whether or not a command is in flight, and
/// leaves the state as it is. Any other line, while a reply is awaited, is
/// taken as that reply: the action fulfils the slot with what the line comes
/// to for the command in flight, and the actor awaits work again. With no
/// command in flight such a line is dropped. A stopped actor drops every
/// line.
pub fn handle_parsed_line(state: ActorState, parsed: Result<Value, MpvError>) -> (r: (
    ActorState,
    ActorAction,
))
    ensures
        match state {
            ActorState::Stopped => r.0 is Stopped && r.1 is Nothing,
            ActorState::AwaitingWork => r.0 is AwaitingWork && if parsed_is_event(parsed) {
                r.1 matches ActorAction::Publish(ev) && parsed == Ok::<Value, MpvError>(ev.0)
            } else {
                r.1 is Nothing
            },
            ActorState::AwaitingReply { command } => if parsed_is_event(parsed) {
                &&& r.0 == state
                &&& r.1 matches ActorAction::Publish(ev)
                &&& parsed == Ok::<Value, MpvError>(ev.0)
            } else {
                &&& r.0 is AwaitingWork
                &&& r.1 matches ActorAction::Reply(resp)
                &&& is_reply_to_parsed(parsed, jsons_of(command@), resp.0)
            },
        },
{
    match state {
        ActorState::Stopped => (ActorState::Stopped, ActorAction::Nothing),
        ActorState::AwaitingWork => {
            if is_event_line(&parsed) {
                match parsed {
                    Ok(v) => (ActorState::AwaitingWork, ActorAction::Publish(MpvIpcEvent(v))),
                    Err(_) => (ActorState::AwaitingWork, ActorAction::Nothing),
                }
            } else {
                (ActorState::AwaitingWork, ActorAction::Nothing)
            }
        },
        ActorState::AwaitingReply { command } => {
            if is_event_line(&parsed) {
                match parsed {
                    Ok(v) => (
                        ActorState::AwaitingReply { command },
                        ActorAction::Publish(MpvIpcEvent(v)),
                    ),
                    Err(_) => (ActorState::AwaitingReply { command }, ActorAction::Nothing),
                }
            } else {
                let response = match parsed {
                    Ok(v) => parse_mpv_response_data(v, command.as_slice()),
                    Err(e) => Err(e),
                };
                (ActorState::AwaitingWork, ActorAction::Reply(MpvIpcResponse(response)))
            }
        },
    }
}

/// Handles a line that the socket delivered: the line is parsed and then
/// handled as [`handle_parsed_line`] says.
pub fn handle_line(state: ActorState, line: &str) -> (r: (ActorState, ActorAction))
    ensures
        state is Stopped ==> r.0 is Stopped && r.1 is Nothing,
        !(state is Stopped) ==> {
            &&& kind_of(r.1) == line_step(state is AwaitingReply, line@).1
            &&& r.0 is AwaitingReply == line_step(state is AwaitingReply, line@).0
            &&& !(r.0 is Stopped)
        },
        r.1 matches ActorAction::Publish(ev) ==> json_parse(line@) == Some(json_of(ev.0)) && r.0
            == state,
        r.1 matches ActorAction::Reply(resp) ==> state matches ActorState::AwaitingReply {
            command,
        } && is_reply_to_line(line@, jsons_of(command@), resp.0),
{
    handle_parsed_line(state, parse_line(line))
}

/// The line that a command is written as, where the serializer has one.
pub open spec fn command_line(cmd: MpvIpcCommand) -> Option<Seq<char>> {
    json_written(envelope(command_json(cmd)))
}

/// What a command taken from the queue leads to while no other is in
/// flight, and whether its reply is awaited afterwards: `Exit`, and a
/// command that has no line, are answered at once; any other command is
/// sent.
pub open spec fn command_step(cmd: MpvIpcCommand) -> (bool, ActionKind) {
    if cmd is Exit || command_line(cmd) is None {
        (false, ActionKind::Reply)
    } else {
        (true, ActionKind::Send)
    }
}

/// What the actor does once the line of a command is written, or could not
/// be: it sends the line and awaits the reply, or answers the command with
/// the error and awaits work again.
pub fn after_encoding(command: Vec<Value>, encoded: Result<String, MpvError>) -> (r: (
    ActorState,
    ActorAction,
))
    ensures
        match encoded {
            Ok(line) => r.0 == (ActorState::AwaitingReply { command }) && r.1
                == ActorAction::Send(line),
            Err(e) => r.0 is AwaitingWork && r.1 == ActorAction::Reply(MpvIpcResponse(Err(e))),
        },
{
    match encoded {
        Ok(line) => (ActorState::AwaitingReply { command }, ActorAction::Send(line)),
        Err(e) => (ActorState::AwaitingWork, ActorAction::Reply(MpvIpcResponse(Err(e)))),
    }
}

/// Handles a command taken from the queue while no other is in flight.
///
/// `Exit` is answered at once with success and no value, and stops the
/// actor. Any other command is written as one line to send, and the actor
/// awaits its reply; where the line cannot be written, the command is
/// answered with that error and the actor awaits work again. A stopped
/// actor stays stopped and fails every command.
pub fn handle_command(state: ActorState, cmd: MpvIpcCommand) -> (r: (ActorState, ActorAction))
    requires
        !(state is AwaitingReply),
    ensures
        state is Stopped ==> r.0 is Stopped && (r.1 matches ActorAction::Reply(resp)
            && resp.0 matches Err(MpvError::InternalConnectionError(_))),
        state is AwaitingWork && cmd is Exit ==> r.0 is Stopped && (
        r.1 matches ActorAction::Reply(resp) && resp.0 == Ok::<Option<Value>, MpvError>(None)),
        state is AwaitingWork && !(cmd is Exit) ==> match command_line(cmd) {
            Some(text) => {
                &&& r.1 matches ActorAction::Send(line)
                &&& line@ == text
                &&& r.0 matches ActorState::AwaitingReply { command }
                &&& jsons_of(command@) == command_json(cmd)
            },
            None => {
                &&& r.0 is AwaitingWork
                &&& r.1 matches ActorAction::Reply(resp)
                &&& resp.0 matches Err(MpvError::JsonParseError(_))
            },
        },
        state is AwaitingWork ==> {
            &&& kind_of(r.1) == command_step(cmd).1
            &&& r.0 is AwaitingReply == command_step(cmd).0
        },
{
    if let ActorState::Stopped = state {
        return (
            ActorState::Stopped,
            ActorAction::Reply(
                MpvIpcResponse(Err(MpvError::InternalConnectionError("channel closed".to_owned()))),
            ),
        );
    }
    match cmd {
        MpvIpcCommand::Exit => (
            ActorState::Stopped,
            ActorAction::Reply(MpvIpcResponse(Ok(None))),
        ),
        _ => {
            let command = command_values(cmd);
            let encoded = encode_command(command.as_slice());
            after_encoding(command, encoded)
        },
    }
}

/// Handles a failure of the socket. The command in flight, if there is one,
/// fails with the transport's message, and nothing is tried again.
pub fn handle_transport_failure(state: ActorState, message: String) -> (r: (
    ActorState,
    ActorAction,
))
    ensures
        match state {
            ActorState::AwaitingReply { command } => {
                &&& r.0 is AwaitingWork
                &&& r.1 matches ActorAction::Reply(resp)
                &&& resp.0 == Err::<Option<Value>, MpvError>(
                    MpvError::MpvSocketConnectionError(message),
                )
            },
            _ => r.0 == state && r.1 is Nothing,
        },
{
    match state {
        ActorState::AwaitingReply { command } => (
            ActorState::AwaitingWork,
            ActorAction::Reply(MpvIpcResponse(Err(MpvError::MpvSocketConnectionError(message)))),
        ),
        other => (other, ActorAction::Nothing),
    }
}

/// Handles the end of the socket's stream: a failure of the transport with
/// a message of its own.
pub fn handle_end_of_stream(state: ActorState) -> (r: (ActorState, ActorAction))
    ensures
        match state {
            ActorState::AwaitingReply { command } => {
                &&& r.0 is AwaitingWork
                &&& r.1 matches ActorAction::Reply(resp)
                &&& resp.0 matches Err(MpvError::MpvSocketConnectionError(message))
                &&& message@ == "Could not receive response from mpv"@
            },
            _ => r.0 == state && r.1 is Nothing,
        },
{
    handle_transport_failure(state, "Could not receive response from mpv".to_owned())
}

/// The kinds of the actions that a sequence of lines leads to, one per
/// line, starting with or without a reply awaited.
pub open spec fn line_kinds(waiting: bool, lines: Seq<Seq<char>>) -> Seq<ActionKind>
    decreases lines.len(),
{
    if lines.len() == 0 {
        Seq::empty()
    } else {
        seq![line_step(waiting, lines[0]).1] + line_kinds(
            line_step(waiting, lines[0]).0,
            lines.drop_first(),
        )
    }
}

/// Whether position `k` holds the first line of a sequence that announces no
/// event.
pub open spec fn is_first_reply_line(lines: Seq<Seq<char>>, k: int) -> bool {
    &&& 0 <= k < lines.len()
    &&& !text_is_event(lines[k])
    &&& forall|i: int| 0 <= i < k ==> text_is_event(#[trigger] lines[i])
}

/// Every line leads to one action.
pub proof fn lemma_line_kinds_len(waiting: bool, lines: Seq<Seq<char>>)
    ensures
        line_kinds(waiting, lines).len() == lines.len(),
    decreases lines.len(),
{
    if lines.len() > 0 {
        lemma_line_kinds_len(line_step(waiting, lines[0]).0, lines.drop_first());
    }
}

/// An event line is published wherever it stands in the stream: before,
/// while or after a command is in flight.
pub proof fn lemma_event_lines_are_published(waiting: bool, lines: Seq<Seq<char>>, i: int)
    requires
        0 <= i < lines.len(),
        text_is_event(lines[i]),
    ensures
        line_kinds(waiting, lines).len() == lines.len(),
        line_kinds(waiting, lines)[i] is Publish,
    decreases lines.len(),
{
    lemma_line_kinds_len(waiting, lines);
    let rest = lines.drop_first();
    let next = line_step(waiting, lines[0]).0;
    lemma_line_kinds_len(next, rest);
    if i > 0 {
        assert(rest[i - 1] == lines[i]);
        lemma_event_lines_are_published(next, rest, i - 1);
    }
}

/// With no command in flight, no line leads to a reply.
pub proof fn lemma_no_reply_without_command(lines: Seq<Seq<char>>, i: int)
    requires
        0 <= i < lines.len(),
    ensures
        line_kinds(false, lines).len() == lines.len(),
        !(line_kinds(false, lines)[i] is Reply),
    decreases lines.len(),
{
    lemma_line_kinds_len(false, lines);
    let rest = lines.drop_first();
    lemma_line_kinds_len(false, rest);
    if i > 0 {
        lemma_no_reply_without_command(rest, i - 1);
    }
}

/// A command in flight gets exactly one reply: at the first line that
/// announces no event, and at no other line, however many event lines come
/// before or after it.
pub proof fn lemma_one_reply_per_command(lines: Seq<Seq<char>>, k: int, i: int)
    requires
        is_first_reply_line(lines, k),
        0 <= i < lines.len(),
    ensures
        line_kinds(true, lines).len() == lines.len(),
        line_kinds(true, lines)[i] is Reply <==> i == k,
    decreases lines.len(),
{
    lemma_line_kinds_len(true, lines);
    let rest = lines.drop_first();
    let next = line_step(true, lines[0]).0;
    lemma_line_kinds_len(next, rest);
    if k == 0 {
        if i > 0 {
            lemma_no_reply_without_command(rest, i - 1);
        }
    } else {
        assert(text_is_event(lines[0]));
        assert(is_first_reply_line(rest, k - 1)) by {
            assert(rest[k - 1] == lines[k]);
            assert forall|j: int| 0 <= j < k - 1 implies text_is_event(#[trigger] rest[j]) by {
                assert(rest[j] == lines[j + 1]);
            }
        }
        if i > 0 {
            lemma_one_reply_per_command(rest, k - 1, i - 1);
        }
    }
}

/// Until a line comes that announces no event, a command in flight gets no
/// reply: the actor goes on waiting.
pub proof fn lemma_no_reply_before_reply_line(lines: Seq<Seq<char>>, i: int)
    requires
        forall|j: int| 0 <= j < lines.len() ==> text_is_event(#[trigger] lines[j]),
        0 <= i < lines.len(),
    ensures
        line_kinds(true, lines).len() == lines.len(),
        line_kinds(true, lines)[i] is Publish,
{
    lemma_event_lines_are_published(true, lines, i);
}

/// The kinds of the actions of one transaction: a command taken from the
/// queue while no other is in flight, then the lines that the socket
/// delivers.
pub open spec fn transaction_kinds(cmd: MpvIpcCommand, lines: Seq<Seq<char>>) -> Seq<ActionKind> {
    seq![command_step(cmd).1] + line_kinds(command_step(cmd).0, lines)
}

/// Whether a reply is still awaited after a sequence of lines.
pub open spec fn waiting_after(waiting: bool, lines: Seq<Seq<char>>) -> bool
    decreases lines.len(),
{
    if lines.len() == 0 {
        waiting
    } else {
        waiting_after(line_step(waiting, lines[0]).0, lines.drop_first())
    }
}

/// Once a line has come that announces no event, no reply is awaited, and
/// none is awaited after lines that come with no command in flight: the
/// actor is ready for the next command.
pub proof fn lemma_ready_after_reply(waiting: bool, lines: Seq<Seq<char>>, k: int)
    requires
        !waiting || is_first_reply_line(lines, k),
    ensures
        !waiting_after(waiting, lines),
    decreases lines.len(),
{
    if lines.len() > 0 {
        let rest = lines.drop_first();
        let next = line_step(waiting, lines[0]).0;
        if next {
            assert(text_is_event(lines[0]));
            assert(k > 0);
            assert(is_first_reply_line(rest, k - 1)) by {
                assert(rest[k - 1] == lines[k]);
                assert forall|j: int| 0 <= j < k - 1 implies text_is_event(#[trigger] rest[j]) by {
                    assert(rest[j] == lines[j + 1]);
                }
            }
        }
        lemma_ready_after_reply(next, rest, k - 1);
    }
}

/// Every command other than `Exit` gets exactly one reply. A command that
/// has a line is sent first; its reply comes at the first line that
/// announces no event, and at no other line. A command that has no line is
/// answered at once, and no line answers it again. Either way the actor is
/// ready for the next command afterwards.
pub proof fn lemma_one_reply_per_transaction(
    cmd: MpvIpcCommand,
    lines: Seq<Seq<char>>,
    k: int,
    i: int,
)
    requires
        is_first_reply_line(lines, k),
        0 <= i < lines.len(),
    ensures
        transaction_kinds(cmd, lines).len() == lines.len() + 1,
        !(cmd is Exit) && command_line(cmd) is Some ==> {
            &&& transaction_kinds(cmd, lines)[0] is Send
            &&& transaction_kinds(cmd, lines)[i + 1] is Reply <==> i == k
        },
        cmd is Exit || command_line(cmd) is None ==> {
            &&& transaction_kinds(cmd, lines)[0] is Reply
            &&& !(transaction_kinds(cmd, lines)[i + 1] is Reply)
        },
        !waiting_after(command_step(cmd).0, lines),
{
    let waiting = command_step(cmd).0;
    lemma_line_kinds_len(waiting, lines);
    assert(transaction_kinds(cmd, lines)[i + 1] == line_kinds(waiting, lines)[i]);
    if waiting {
        lemma_one_reply_per_command(lines, k, i);
    } else {
        lemma_no_reply_without_command(lines, i);
    }
    lemma_ready_after_reply(waiting, lines, k);
}

} // verus!
