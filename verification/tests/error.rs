use mpvipc::core_api::{MapEntry, MpvDataType, Playlist, PlaylistEntry};
use mpvipc::error::{CodedError, ErrorCode, MpvError};
use mpvipc::ipc::parse_line;
use mpvipc::property_parser::Property;
use serde_json::Value;

fn json(text: &str) -> Value {
    serde_json::from_str::<Value>(text).unwrap()
}

fn entry(key: &str, value: MpvDataType) -> MapEntry {
    MapEntry { key: key.to_string(), value }
}

fn parse_error(text: &str) -> MpvError {
    parse_line(text).unwrap_err()
}

#[test]
fn values_compare_by_content() {
    let a = MpvDataType::Array(vec![MpvDataType::Usize(1), MpvDataType::Null]);
    let b = MpvDataType::Array(vec![MpvDataType::Usize(1), MpvDataType::Null]);
    let c = MpvDataType::Array(vec![MpvDataType::Null, MpvDataType::Usize(1)]);
    let d = MpvDataType::Array(vec![MpvDataType::Usize(1)]);
    assert!(a.same_as(&b));
    assert!(!a.same_as(&c));
    assert!(!a.same_as(&d));
    assert!(MpvDataType::Double(1.5f64.to_bits()).same_as(&MpvDataType::Double(1.5f64.to_bits())));
    assert!(!MpvDataType::Double(1.5f64.to_bits()).same_as(&MpvDataType::Double(2.5f64.to_bits())));
    assert!(!MpvDataType::Null.same_as(&MpvDataType::MinusOne));
    assert!(MpvDataType::MinusOne.same_as(&MpvDataType::MinusOne));
    assert!(MpvDataType::String("a".to_string()).same_as(&MpvDataType::String("a".to_string())));
    assert!(!MpvDataType::String("a".to_string()).same_as(&MpvDataType::String("b".to_string())));
    assert!(!MpvDataType::Bool(true).same_as(&MpvDataType::Bool(false)));
    assert!(!MpvDataType::Usize(1).same_as(&MpvDataType::Double(1.0f64.to_bits())));
}

#[test]
fn maps_compare_without_order() {
    let a = MpvDataType::HashMap(vec![
        entry("x", MpvDataType::Usize(1)),
        entry("y", MpvDataType::Bool(true)),
    ]);
    let b = MpvDataType::HashMap(vec![
        entry("y", MpvDataType::Bool(true)),
        entry("x", MpvDataType::Usize(1)),
    ]);
    let c = MpvDataType::HashMap(vec![
        entry("x", MpvDataType::Usize(1)),
        entry("y", MpvDataType::Bool(false)),
    ]);
    let d = MpvDataType::HashMap(vec![entry("x", MpvDataType::Usize(1))]);
    let e = MpvDataType::HashMap(vec![
        entry("x", MpvDataType::Usize(1)),
        entry("z", MpvDataType::Bool(true)),
    ]);
    assert!(a.same_as(&b));
    assert!(b.same_as(&a));
    assert!(!a.same_as(&c));
    assert!(!a.same_as(&d));
    assert!(!d.same_as(&a));
    assert!(!a.same_as(&e));
}

#[test]
fn playlists_compare_entry_by_entry() {
    let one = |title: Option<&str>, current: bool| {
        MpvDataType::Playlist(Playlist(vec![PlaylistEntry {
            id: 0,
            filename: "f".to_string(),
            title: title.map(|t| t.to_string()),
            current,
        }]))
    };
    assert!(one(Some("t"), true).same_as(&one(Some("t"), true)));
    assert!(!one(Some("t"), true).same_as(&one(None, true)));
    assert!(!one(Some("t"), true).same_as(&one(Some("u"), true)));
    assert!(!one(None, true).same_as(&one(None, false)));
    assert!(!one(None, true).same_as(&MpvDataType::Playlist(Playlist(vec![]))));
}

#[test]
fn errors_of_different_variants_differ() {
    assert!(!MpvError::MissingMpvData.eq(&MpvError::Other("x".to_string())));
    assert!(!MpvError::MpvSocketConnectionError("x".to_string())
        .eq(&MpvError::InternalConnectionError("x".to_string())));
}

#[test]
fn errors_compare_by_content() {
    assert!(MpvError::MissingMpvData.eq(&MpvError::MissingMpvData));
    assert!(MpvError::MpvSocketConnectionError("a".to_string())
        .eq(&MpvError::MpvSocketConnectionError("a".to_string())));
    assert!(!MpvError::MpvSocketConnectionError("a".to_string())
        .eq(&MpvError::MpvSocketConnectionError("b".to_string())));
    assert!(MpvError::InternalConnectionError("a".to_string())
        .eq(&MpvError::InternalConnectionError("a".to_string())));
    assert!(!MpvError::InternalConnectionError("a".to_string())
        .eq(&MpvError::InternalConnectionError("b".to_string())));
    assert!(MpvError::Other("a".to_string()).eq(&MpvError::Other("b".to_string())));
    assert!(MpvError::UnexpectedProperty(Property::Pause(true))
        .eq(&MpvError::UnexpectedProperty(Property::Mute(false))));
    let rejected = |message: &str, command: &str| MpvError::MpvError {
        command: vec![json(command)],
        message: message.to_string(),
    };
    assert!(rejected("m", "\"stop\"").eq(&rejected("m", "\"stop\"")));
    assert!(!rejected("m", "\"stop\"").eq(&rejected("n", "\"stop\"")));
    assert!(!rejected("m", "\"stop\"").eq(&rejected("m", "\"quit\"")));
    let unexpected = |expected: &str, received: &str| MpvError::ValueContainsUnexpectedType {
        expected_type: expected.to_string(),
        received: json(received),
    };
    assert!(unexpected("bool", "1").eq(&unexpected("bool", "1")));
    assert!(!unexpected("bool", "1").eq(&unexpected("bool", "2")));
    assert!(!unexpected("bool", "1").eq(&unexpected("str", "1")));
    let wrong = |expected: &str, received: MpvDataType| MpvError::DataContainsUnexpectedType {
        expected_type: expected.to_string(),
        received,
    };
    assert!(wrong("bool", MpvDataType::Null).eq(&wrong("bool", MpvDataType::Null)));
    assert!(!wrong("bool", MpvDataType::Null).eq(&wrong("bool", MpvDataType::MinusOne)));
    assert!(!wrong("bool", MpvDataType::Null).eq(&wrong("f64", MpvDataType::Null)));
    let missing = |key: &str, map: &str| MpvError::MissingKeyInObject {
        key: key.to_string(),
        map: json(map).as_object().unwrap().clone(),
    };
    assert!(missing("k", r#"{"a": 1}"#).eq(&missing("k", r#"{"a": 1}"#)));
    assert!(!missing("k", r#"{"a": 1}"#).eq(&missing("k", r#"{"a": 2}"#)));
    assert!(!missing("k", r#"{"a": 1}"#).eq(&missing("l", r#"{"a": 1}"#)));
}

#[test]
fn parse_errors_compare_by_message() {
    assert!(parse_error("{").eq(&parse_error("{")));
    assert!(!parse_error("{").eq(&parse_error("nonsense")));
}

#[test]
fn error_codes_describe_themselves() {
    assert_eq!(ErrorCode::ConnectError("refused".to_string()).message(), "ConnectError: refused");
    assert_eq!(ErrorCode::JsonParseError("eof".to_string()).message(), "JsonParseError: eof");
    assert_eq!(ErrorCode::MpvError("no".to_string()).message(), "MpvError: no");
    assert_eq!(
        ErrorCode::JsonContainsUnexptectedType.message(),
        "Mpv sent a value with an unexpected type"
    );
    assert_eq!(ErrorCode::UnexpectedResult.message(), "Unexpected result received");
    assert_eq!(ErrorCode::UnexpectedValue.message(), "Unexpected value received");
    assert_eq!(ErrorCode::MissingValue.message(), "Missing value");
    assert_eq!(ErrorCode::UnsupportedType.message(), "Unsupported type received");
    assert_eq!(
        ErrorCode::ValueDoesNotContainBool.message(),
        "The received value is not of type 'std::bool'"
    );
    assert_eq!(
        ErrorCode::ValueDoesNotContainF64.message(),
        "The received value is not of type 'std::f64'"
    );
    assert_eq!(
        ErrorCode::ValueDoesNotContainHashMap.message(),
        "The received value is not of type 'std::collections::HashMap'"
    );
    assert_eq!(
        ErrorCode::ValueDoesNotContainPlaylist.message(),
        "The received value is not of type 'mpvipc::Playlist'"
    );
    assert_eq!(
        ErrorCode::ValueDoesNotContainString.message(),
        "The received value is not of type 'std::string::String'"
    );
    assert_eq!(
        ErrorCode::ValueDoesNotContainUsize.message(),
        "The received value is not of type 'std::usize'"
    );
    assert_eq!(CodedError(ErrorCode::MissingValue).message(), "Missing value");
    assert_eq!(CodedError(ErrorCode::MissingValue), CodedError(ErrorCode::MissingValue));
}

#[test]
fn the_two_zeros_are_equal_doubles() {
    let unexpected = |received: &str| MpvError::ValueContainsUnexpectedType {
        expected_type: "bool".to_string(),
        received: json(received),
    };
    assert!(unexpected("0.0").eq(&unexpected("-0.0")));
    assert!(unexpected("-0.0").eq(&unexpected("0.0")));
    assert!(unexpected("[0.0, 1.5]").eq(&unexpected("[-0.0, 1.5]")));
    assert!(!unexpected("0.0").eq(&unexpected("0")));
    assert!(!unexpected("1.0").eq(&unexpected("-1.0")));
    assert!(!unexpected("1").eq(&unexpected("-1")));
}

#[test]
fn error_equality_is_symmetric_and_reflexive() {
    let errors = || {
        vec![
            MpvError::MissingMpvData,
            MpvError::Other("a".to_string()),
            MpvError::MpvSocketConnectionError("a".to_string()),
            MpvError::MpvSocketConnectionError("b".to_string()),
            MpvError::InternalConnectionError("a".to_string()),
            MpvError::MpvError { command: vec![json("1")], message: "m".to_string() },
            MpvError::MpvError { command: vec![json("1"), json("2")], message: "m".to_string() },
            MpvError::ValueContainsUnexpectedType {
                expected_type: "t".to_string(),
                received: json(r#"{"a": [1, 2.0]}"#),
            },
            MpvError::ValueContainsUnexpectedType {
                expected_type: "t".to_string(),
                received: json(r#"{"a": [1, 2.5]}"#),
            },
            MpvError::DataContainsUnexpectedType {
                expected_type: "t".to_string(),
                received: MpvDataType::Usize(1),
            },
            MpvError::MissingKeyInObject {
                key: "k".to_string(),
                map: json(r#"{"a": 1}"#).as_object().unwrap().clone(),
            },
            MpvError::MissingKeyInObject {
                key: "k".to_string(),
                map: json(r#"{"a": 1, "b": 2}"#).as_object().unwrap().clone(),
            },
            parse_error("{"),
        ]
    };
    let left = errors();
    let right = errors();
    for (i, a) in left.iter().enumerate() {
        for (j, b) in right.iter().enumerate() {
            assert_eq!(a.eq(b), b.eq(a));
            assert_eq!(a.eq(b), i == j);
        }
    }
}
