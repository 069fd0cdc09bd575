use mpvipc::core_api::discard_value;
use mpvipc::error::MpvError;
use mpvipc::ipc::{
    after_encoding, command_values, encode_command, handle_command, handle_end_of_stream,
    handle_line,
    handle_parsed_line, handle_transport_failure, is_event_line, parse_line,
    parse_mpv_response_data, ActorAction, ActorState, MpvIpcCommand, MpvIpcResponse,
};
use mpvipc::message_parser::get_double;
use serde_json::Value;

fn json(text: &str) -> Value {
    serde_json::from_str::<Value>(text).unwrap()
}

fn send(cmd: MpvIpcCommand) -> (ActorState, String) {
    match handle_command(ActorState::AwaitingWork, cmd) {
        (state, ActorAction::Send(line)) => (state, line),
        other => panic!("{:?}", other),
    }
}

fn reply(state: ActorState, line: &str) -> Result<Option<Value>, MpvError> {
    match handle_line(state, line) {
        (ActorState::AwaitingWork, ActorAction::Reply(MpvIpcResponse(r))) => r,
        other => panic!("{:?}", other),
    }
}

#[test]
fn commands_are_written_as_envelopes() {
    let (_, line) = send(MpvIpcCommand::GetProperty("volume".to_string()));
    assert_eq!(line, r#"{"command":["get_property","volume"]}"#);
    let (_, line) = send(MpvIpcCommand::SetProperty("pause".to_string(), json("true")));
    assert_eq!(line, r#"{"command":["set_property","pause",true]}"#);
    let (_, line) = send(MpvIpcCommand::SetProperty("volume".to_string(), json("64.5")));
    assert_eq!(line, r#"{"command":["set_property","volume",64.5]}"#);
    let (_, line) = send(MpvIpcCommand::ObserveProperty(3, "mute".to_string()));
    assert_eq!(line, r#"{"command":["observe_property",3,"mute"]}"#);
    let (_, line) = send(MpvIpcCommand::UnobserveProperty(3));
    assert_eq!(line, r#"{"command":["unobserve_property",3]}"#);
    let (_, line) =
        send(MpvIpcCommand::Command(vec!["seek".to_string(), "10".to_string()]));
    assert_eq!(line, r#"{"command":["seek","10"]}"#);
}

#[test]
fn command_values_of_each_command() {
    assert_eq!(command_values(MpvIpcCommand::Exit), Vec::<Value>::new());
    assert_eq!(
        command_values(MpvIpcCommand::ObserveProperty(1, "volume".to_string())),
        vec![json("\"observe_property\""), json("1"), json("\"volume\"")]
    );
    assert_eq!(
        encode_command(&[json("\"get_property\""), json("\"volume\"")]).unwrap(),
        r#"{"command":["get_property","volume"]}"#
    );
}

#[test]
fn get_property_float_success() {
    let (state, _) = send(MpvIpcCommand::GetProperty("volume".to_string()));
    let response = reply(state, r#"{"data": 100.0, "error": "success"}"#);
    let value = response.unwrap().unwrap();
    assert_eq!(f64::from_bits(get_double(value).unwrap()), 100.0);
}

#[test]
fn get_unavailable_property_is_absent() {
    let (state, _) = send(MpvIpcCommand::GetProperty("path".to_string()));
    let response = reply(state, r#"{"error": "property unavailable"}"#);
    assert!(matches!(response, Ok(None)));
}

#[test]
fn values_of_no_interest_are_dropped() {
    assert!(discard_value(Ok(Some(json("1")))).is_ok());
    assert!(discard_value(Ok(None)).is_ok());
    assert!(matches!(
        discard_value(Err(MpvError::MissingMpvData)),
        Err(MpvError::MissingMpvData)
    ));
}

#[test]
fn rejected_command_keeps_command_and_message() {
    let (state, _) = send(MpvIpcCommand::GetProperty("nonexistent".to_string()));
    match reply(state, r#"{"error": "property not found"}"#) {
        Err(MpvError::MpvError { command, message }) => {
            assert_eq!(message, "property not found");
            assert_eq!(command, vec![json("\"get_property\""), json("\"nonexistent\"")]);
        }
        other => panic!("{:?}", other),
    }
    let (state, _) = send(MpvIpcCommand::SetProperty("volume".to_string(), json("1")));
    match reply(state, r#"{"error": "property not found", "request_id": 7}"#) {
        Err(MpvError::MpvError { message, .. }) => assert_eq!(message, "property not found"),
        other => panic!("{:?}", other),
    }
}

#[test]
fn success_without_data() {
    let (state, _) = send(MpvIpcCommand::SetProperty("pause".to_string(), json("true")));
    assert!(matches!(reply(state, r#"{"error": "success", "request_id": 0}"#), Ok(None)));
}

#[test]
fn malformed_replies() {
    let command = [json("\"stop\"")];
    match parse_mpv_response_data(json("[1]"), &command) {
        Err(MpvError::ValueContainsUnexpectedType { expected_type, received }) => {
            assert_eq!(expected_type, "object");
            assert_eq!(received, json("[1]"));
        }
        other => panic!("{:?}", other),
    }
    match parse_mpv_response_data(json(r#"{"data": 1}"#), &command) {
        Err(MpvError::MissingKeyInObject { key, map }) => {
            assert_eq!(key, "error");
            assert_eq!(Value::Object(map), json(r#"{"data": 1}"#));
        }
        other => panic!("{:?}", other),
    }
    match parse_mpv_response_data(json(r#"{"error": 1}"#), &command) {
        Err(MpvError::ValueContainsUnexpectedType { expected_type, received }) => {
            assert_eq!(expected_type, "string");
            assert_eq!(received, json("1"));
        }
        other => panic!("{:?}", other),
    }
}

#[test]
fn unparseable_reply_fails_only_that_command() {
    let (state, _) = send(MpvIpcCommand::GetProperty("volume".to_string()));
    assert!(matches!(reply(state, "not json"), Err(MpvError::JsonParseError(_))));
}

#[test]
fn event_lines_are_published_while_a_command_is_in_flight() {
    let (state, _) = send(MpvIpcCommand::GetProperty("volume".to_string()));
    let event = r#"{"event": "property-change", "id": 1, "name": "pause", "data": true}"#;
    let (state, action) = handle_line(state, event);
    match action {
        ActorAction::Publish(ev) => assert_eq!(ev.0, json(event)),
        other => panic!("{:?}", other),
    }
    assert!(matches!(state, ActorState::AwaitingReply { .. }));
    let (state, action) = handle_line(state, r#"{"event": "seek"}"#);
    assert!(matches!(action, ActorAction::Publish(_)));
    let response = reply(state, r#"{"data": 50.0, "error": "success"}"#);
    assert_eq!(response.unwrap(), Some(json("50.0")));
}

#[test]
fn lines_without_a_command_in_flight() {
    let (state, action) = handle_line(ActorState::AwaitingWork, r#"{"event": "idle"}"#);
    assert!(matches!(state, ActorState::AwaitingWork));
    match action {
        ActorAction::Publish(ev) => assert_eq!(ev.0, json(r#"{"event": "idle"}"#)),
        other => panic!("{:?}", other),
    }
    let (state, action) = handle_line(ActorState::AwaitingWork, r#"{"error": "success"}"#);
    assert!(matches!(state, ActorState::AwaitingWork));
    assert!(matches!(action, ActorAction::Nothing));
    let (state, action) = handle_line(ActorState::AwaitingWork, "garbage");
    assert!(matches!(state, ActorState::AwaitingWork));
    assert!(matches!(action, ActorAction::Nothing));
}

#[test]
fn each_command_gets_its_own_reply() {
    let mut state = ActorState::AwaitingWork;
    let names = ["volume", "speed", "duration"];
    let replies = ["1.0", "2.0", "3.0"];
    for (name, value) in names.iter().zip(replies.iter()) {
        let (next, action) = handle_command(state, MpvIpcCommand::GetProperty(name.to_string()));
        match action {
            ActorAction::Send(line) => {
                assert_eq!(line, format!("{{\"command\":[\"get_property\",\"{}\"]}}", name))
            }
            other => panic!("{:?}", other),
        }
        let (next, action) = handle_line(next, r#"{"event": "tick"}"#);
        assert!(matches!(action, ActorAction::Publish(_)));
        let line = format!("{{\"data\": {}, \"error\": \"success\"}}", value);
        let (next, action) = handle_line(next, &line);
        match action {
            ActorAction::Reply(MpvIpcResponse(Ok(Some(v)))) => assert_eq!(v, json(value)),
            other => panic!("{:?}", other),
        }
        state = next;
    }
    assert!(matches!(state, ActorState::AwaitingWork));
}

#[test]
fn exit_stops_the_actor() {
    let (state, action) = handle_command(ActorState::AwaitingWork, MpvIpcCommand::Exit);
    assert!(matches!(state, ActorState::Stopped));
    assert!(matches!(action, ActorAction::Reply(MpvIpcResponse(Ok(None)))));
    let (state, action) =
        handle_command(state, MpvIpcCommand::GetProperty("volume".to_string()));
    assert!(matches!(state, ActorState::Stopped));
    assert!(matches!(
        action,
        ActorAction::Reply(MpvIpcResponse(Err(MpvError::InternalConnectionError(_))))
    ));
    let (state, action) = handle_line(state, r#"{"event": "idle"}"#);
    assert!(matches!(state, ActorState::Stopped));
    assert!(matches!(action, ActorAction::Nothing));
    let (state, action) = handle_transport_failure(state, "closed".to_string());
    assert!(matches!(state, ActorState::Stopped));
    assert!(matches!(action, ActorAction::Nothing));
}

#[test]
fn transport_failure_fails_the_command_in_flight() {
    let (state, _) = send(MpvIpcCommand::GetProperty("volume".to_string()));
    let (state, action) = handle_transport_failure(state, "Broken pipe".to_string());
    assert!(matches!(state, ActorState::AwaitingWork));
    match action {
        ActorAction::Reply(MpvIpcResponse(Err(MpvError::MpvSocketConnectionError(m)))) => {
            assert_eq!(m, "Broken pipe")
        }
        other => panic!("{:?}", other),
    }
    let (state, action) =
        handle_transport_failure(ActorState::AwaitingWork, "Broken pipe".to_string());
    assert!(matches!(state, ActorState::AwaitingWork));
    assert!(matches!(action, ActorAction::Nothing));
}

#[test]
fn event_lines_are_recognised() {
    assert!(is_event_line(&parse_line(r#"{"event": "idle"}"#)));
    assert!(is_event_line(&parse_line(r#"{"event": 1, "error": "success"}"#)));
    assert!(!is_event_line(&parse_line(r#"{"error": "success"}"#)));
    assert!(!is_event_line(&parse_line(r#"["event"]"#)));
    assert!(!is_event_line(&parse_line("nonsense")));
    assert!(matches!(parse_line("nonsense"), Err(MpvError::JsonParseError(_))));
    assert_eq!(parse_line("[1, 2]").unwrap(), json("[1,2]"));
}

#[test]
fn parsed_lines_are_handled_by_state() {
    let event = json(r#"{"event": "seek"}"#);
    let other = json(r#"{"error": "success", "data": [1]}"#);
    let (state, action) = handle_parsed_line(ActorState::AwaitingWork, Ok(event.clone()));
    assert!(matches!(state, ActorState::AwaitingWork));
    assert!(matches!(action, ActorAction::Publish(ev) if ev.0 == event));
    let (state, action) = handle_parsed_line(ActorState::AwaitingWork, Ok(other.clone()));
    assert!(matches!(state, ActorState::AwaitingWork));
    assert!(matches!(action, ActorAction::Nothing));
    let (state, action) =
        handle_parsed_line(ActorState::AwaitingWork, Err(MpvError::MissingMpvData));
    assert!(matches!(state, ActorState::AwaitingWork));
    assert!(matches!(action, ActorAction::Nothing));

    let waiting = || ActorState::AwaitingReply { command: vec![json("\"stop\"")] };
    let (state, action) = handle_parsed_line(waiting(), Ok(event.clone()));
    assert!(matches!(state, ActorState::AwaitingReply { command } if command == vec![json("\"stop\"")]));
    assert!(matches!(action, ActorAction::Publish(ev) if ev.0 == event));
    let (state, action) = handle_parsed_line(waiting(), Ok(other));
    assert!(matches!(state, ActorState::AwaitingWork));
    assert!(matches!(
        action,
        ActorAction::Reply(MpvIpcResponse(Ok(Some(v)))) if v == json("[1]")
    ));
    let (state, action) = handle_parsed_line(waiting(), Err(MpvError::MissingMpvData));
    assert!(matches!(state, ActorState::AwaitingWork));
    assert!(matches!(action, ActorAction::Reply(MpvIpcResponse(Err(MpvError::MissingMpvData)))));

    let (state, action) = handle_parsed_line(ActorState::Stopped, Ok(event));
    assert!(matches!(state, ActorState::Stopped));
    assert!(matches!(action, ActorAction::Nothing));
}

#[test]
fn a_written_command_is_sent_and_awaited() {
    let command = vec![json("\"stop\"")];
    let (state, action) = after_encoding(command.clone(), Ok("line".to_string()));
    assert!(matches!(state, ActorState::AwaitingReply { command: c } if c == command));
    assert!(matches!(action, ActorAction::Send(line) if line == "line"));
    let (state, action) = after_encoding(command, Err(MpvError::Other("x".to_string())));
    assert!(matches!(state, ActorState::AwaitingWork));
    assert!(matches!(action, ActorAction::Reply(MpvIpcResponse(Err(MpvError::Other(m)))) if m == "x"));
}

#[test]
fn end_of_stream_fails_the_command_in_flight() {
    let (state, _) = send(MpvIpcCommand::GetProperty("volume".to_string()));
    let (state, action) = handle_end_of_stream(state);
    assert!(matches!(state, ActorState::AwaitingWork));
    match action {
        ActorAction::Reply(MpvIpcResponse(Err(MpvError::MpvSocketConnectionError(m)))) => {
            assert_eq!(m, "Could not receive response from mpv")
        }
        other => panic!("{:?}", other),
    }
    let (state, action) = handle_end_of_stream(ActorState::AwaitingWork);
    assert!(matches!(state, ActorState::AwaitingWork));
    assert!(matches!(action, ActorAction::Nothing));
}

#[test]
fn every_command_but_exit_is_written() {
    let commands = vec![
        MpvIpcCommand::Command(vec![]),
        MpvIpcCommand::Command(vec!["a \"quoted\" word".to_string(), "\n".to_string()]),
        MpvIpcCommand::GetProperty(String::new()),
        MpvIpcCommand::SetProperty("x".to_string(), json(r#"{"k": [null, 1.5, -3]}"#)),
        MpvIpcCommand::ObserveProperty(u64::MAX, "p".to_string()),
        MpvIpcCommand::UnobserveProperty(0),
    ];
    for cmd in commands {
        let values = command_values(cmd.clone());
        let (state, line) = send(cmd);
        assert!(matches!(state, ActorState::AwaitingReply { command } if command == values));
        assert!(!line.contains('\n'));
        let parsed = json(&line);
        let fields = parsed.as_object().unwrap();
        assert_eq!(fields.len(), 1);
        assert_eq!(fields.get("command"), Some(&Value::Array(values)));
    }
}

#[test]
fn set_property_bool_is_raw_json() {
    let (_, line) = send(MpvIpcCommand::SetProperty("pause".to_string(), json("true")));
    assert_eq!(line, r#"{"command":["set_property","pause",true]}"#);
}
