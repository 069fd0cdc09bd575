use mpvipc::core_api::{MapEntry, MpvDataType, PlaylistEntry};
use mpvipc::error::MpvError;
use mpvipc::message_parser::{
    get_bool, get_double, get_hashmap, get_playlist, get_string, get_usize, json_array_to_playlist,
    json_array_to_vec, json_map_to_hashmap, json_map_to_playlist_entry, json_to_value,
};
use serde_json::Value;

fn json(text: &str) -> Value {
    serde_json::from_str::<Value>(text).unwrap()
}

fn entry(key: &str, value: MpvDataType) -> MapEntry {
    MapEntry { key: key.to_string(), value }
}

fn lookup<'a>(entries: &'a [MapEntry], key: &str) -> Option<&'a MpvDataType> {
    entries.iter().find(|e| e.key == key).map(|e| &e.value)
}

#[test]
fn test_json_map_to_hashmap() {
    let json = json(
        r#"{
            "array": [1, 2, 3],
            "bool": true,
            "double": 1.0,
            "usize": 1,
            "minus_one": -1,
            "null": null,
            "string": "string",
            "object": {
                "key": "value"
            }
        }"#,
    );

    let expected = vec![
        entry(
            "array",
            MpvDataType::Array(vec![
                MpvDataType::Usize(1),
                MpvDataType::Usize(2),
                MpvDataType::Usize(3),
            ]),
        ),
        entry("bool", MpvDataType::Bool(true)),
        entry("double", MpvDataType::Double(1.0f64.to_bits())),
        entry("usize", MpvDataType::Usize(1)),
        entry("minus_one", MpvDataType::MinusOne),
        entry("null", MpvDataType::Null),
        entry("string", MpvDataType::String("string".to_string())),
        entry(
            "object",
            MpvDataType::HashMap(vec![entry("key", MpvDataType::String("value".to_string()))]),
        ),
    ];

    match json_map_to_hashmap(json.as_object().unwrap()) {
        Ok(m) => {
            assert_eq!(m.len(), expected.len());
            for e in &expected {
                assert_eq!(lookup(&m, &e.key), Some(&e.value));
            }
        }
        Err(e) => panic!("{:?}", e),
    }
}

#[test]
fn test_json_array_to_vec() {
    let json = json(
        r#"[
            [1, 2, 3],
            true,
            1.0,
            1,
            -1,
            null,
            "string",
            {
                "key": "value"
            }
        ]"#,
    );

    println!("{:?}", json.as_array().unwrap());
    println!("{:?}", json_array_to_vec(json.as_array().unwrap()));

    let expected = vec![
        MpvDataType::Array(vec![
            MpvDataType::Usize(1),
            MpvDataType::Usize(2),
            MpvDataType::Usize(3),
        ]),
        MpvDataType::Bool(true),
        MpvDataType::Double(1.0f64.to_bits()),
        MpvDataType::Usize(1),
        MpvDataType::MinusOne,
        MpvDataType::Null,
        MpvDataType::String("string".to_string()),
        MpvDataType::HashMap(vec![entry("key", MpvDataType::String("value".to_string()))]),
    ];

    match json_array_to_vec(json.as_array().unwrap()) {
        Ok(v) => assert_eq!(v, expected),
        Err(e) => panic!("{:?}", e),
    }
}

#[test]
fn test_json_array_to_playlist() {
    let json = json(
        r#"[
            {
                "filename": "file1",
                "title": "title1",
                "current": true
            },
            {
                "filename": "file2",
                "title": "title2",
                "current": false
            }
        ]"#,
    );

    let expected = vec![
        PlaylistEntry {
            id: 0,
            filename: "file1".to_string(),
            title: Some("title1".to_string()),
            current: true,
        },
        PlaylistEntry {
            id: 1,
            filename: "file2".to_string(),
            title: Some("title2".to_string()),
            current: false,
        },
    ];

    assert_eq!(json_array_to_playlist(json.as_array().unwrap()).unwrap(), expected);
}

#[test]
fn decode_scalars() {
    assert_eq!(json_to_value(&json("null")).unwrap(), MpvDataType::Null);
    assert_eq!(json_to_value(&json("true")).unwrap(), MpvDataType::Bool(true));
    assert_eq!(json_to_value(&json("false")).unwrap(), MpvDataType::Bool(false));
    assert_eq!(json_to_value(&json("-1")).unwrap(), MpvDataType::MinusOne);
    assert_eq!(json_to_value(&json("0")).unwrap(), MpvDataType::Usize(0));
    assert_eq!(json_to_value(&json("42")).unwrap(), MpvDataType::Usize(42));
    assert_eq!(
        json_to_value(&json("18446744073709551615")).unwrap(),
        MpvDataType::Usize(u64::MAX as usize)
    );
    assert_eq!(
        json_to_value(&json("\"text\"")).unwrap(),
        MpvDataType::String("text".to_string())
    );
    assert_eq!(json_to_value(&json("2.5")).unwrap(), MpvDataType::Double(2.5f64.to_bits()));
    assert_eq!(json_to_value(&json("-1.0")).unwrap(), MpvDataType::Double((-1.0f64).to_bits()));
}

#[test]
fn decode_double_keeps_the_number() {
    match json_to_value(&json("100.25")).unwrap() {
        MpvDataType::Double(bits) => assert_eq!(f64::from_bits(bits), 100.25),
        other => panic!("{:?}", other),
    }
}

#[test]
fn decode_rejects_other_negative_integers() {
    match json_to_value(&json("-2")) {
        Err(MpvError::ValueContainsUnexpectedType { expected_type, received }) => {
            assert_eq!(expected_type, "i64, u64, or f64");
            assert_eq!(received, json("-2"));
        }
        other => panic!("{:?}", other),
    }
}

#[test]
fn decode_fails_fast_inside_containers() {
    match json_to_value(&json(r#"[1, [true, -7], -9]"#)) {
        Err(MpvError::ValueContainsUnexpectedType { expected_type, received }) => {
            assert_eq!(expected_type, "i64, u64, or f64");
            assert_eq!(received, json("-7"));
        }
        other => panic!("{:?}", other),
    }
    match json_to_value(&json(r#"{"a": 1, "b": {"c": -3}}"#)) {
        Err(MpvError::ValueContainsUnexpectedType { received, .. }) => {
            assert_eq!(received, json("-3"));
        }
        other => panic!("{:?}", other),
    }
}

#[test]
fn decode_arrays_keep_their_order() {
    let decoded = json_to_value(&json(r#"[true, "a", null, -1, [false, "b"]]"#)).unwrap();
    assert_eq!(
        decoded,
        MpvDataType::Array(vec![
            MpvDataType::Bool(true),
            MpvDataType::String("a".to_string()),
            MpvDataType::Null,
            MpvDataType::MinusOne,
            MpvDataType::Array(vec![
                MpvDataType::Bool(false),
                MpvDataType::String("b".to_string()),
            ]),
        ])
    );
}

#[test]
fn decode_empty_containers() {
    assert_eq!(json_to_value(&json("[]")).unwrap(), MpvDataType::Array(vec![]));
    assert_eq!(json_to_value(&json("{}")).unwrap(), MpvDataType::HashMap(vec![]));
}

#[test]
fn decode_object_lists_each_key_once() {
    let decoded = json_to_value(&json(r#"{"b": 2, "a": 1, "c": "x"}"#)).unwrap();
    match decoded {
        MpvDataType::HashMap(entries) => {
            assert_eq!(entries.len(), 3);
            assert_eq!(lookup(&entries, "a"), Some(&MpvDataType::Usize(1)));
            assert_eq!(lookup(&entries, "b"), Some(&MpvDataType::Usize(2)));
            assert_eq!(lookup(&entries, "c"), Some(&MpvDataType::String("x".to_string())));
            assert_eq!(lookup(&entries, "d"), None);
        }
        other => panic!("{:?}", other),
    }
}

#[test]
fn duplicate_is_equal() {
    let decoded =
        json_to_value(&json(r#"{"a": [1, 2.5, "s", null, -1, true], "b": {"c": []}}"#)).unwrap();
    assert_eq!(decoded.duplicate(), decoded);
}

#[test]
fn playlist_entry_without_title() {
    let value = json(r#"{"filename": "f", "current": false}"#);
    let entry = json_map_to_playlist_entry(value.as_object().unwrap()).unwrap();
    assert_eq!(
        entry,
        PlaylistEntry { id: 0, filename: "f".to_string(), title: None, current: false }
    );
}

#[test]
fn playlist_entry_missing_filename() {
    let value = json(r#"{"title": "t", "current": false}"#);
    assert!(matches!(
        json_map_to_playlist_entry(value.as_object().unwrap()),
        Err(MpvError::MissingMpvData)
    ));
}

#[test]
fn playlist_entry_missing_current() {
    let value = json(r#"{"filename": "f", "title": "t"}"#);
    assert!(matches!(
        json_map_to_playlist_entry(value.as_object().unwrap()),
        Err(MpvError::MissingMpvData)
    ));
}

#[test]
fn playlist_entry_wrong_types() {
    let value = json(r#"{"filename": 1, "current": false}"#);
    match json_map_to_playlist_entry(value.as_object().unwrap()) {
        Err(MpvError::ValueContainsUnexpectedType { expected_type, received }) => {
            assert_eq!(expected_type, "String");
            assert_eq!(received, json("1"));
        }
        other => panic!("{:?}", other),
    }
    let value = json(r#"{"filename": "f", "title": false, "current": false}"#);
    match json_map_to_playlist_entry(value.as_object().unwrap()) {
        Err(MpvError::ValueContainsUnexpectedType { expected_type, received }) => {
            assert_eq!(expected_type, "String");
            assert_eq!(received, json("false"));
        }
        other => panic!("{:?}", other),
    }
    let value = json(r#"{"filename": "f", "current": "yes"}"#);
    match json_map_to_playlist_entry(value.as_object().unwrap()) {
        Err(MpvError::ValueContainsUnexpectedType { expected_type, received }) => {
            assert_eq!(expected_type, "bool");
            assert_eq!(received, json("\"yes\""));
        }
        other => panic!("{:?}", other),
    }
}

#[test]
fn playlist_reports_the_first_bad_element() {
    let value = json(r#"[{"filename": "f", "current": true}, 7, {"current": true}]"#);
    match json_array_to_playlist(value.as_array().unwrap()) {
        Err(MpvError::ValueContainsUnexpectedType { expected_type, received }) => {
            assert_eq!(expected_type, "Map<String, Value>");
            assert_eq!(received, json("7"));
        }
        other => panic!("{:?}", other),
    }
}

#[test]
fn playlist_of_empty_array() {
    let value = json("[]");
    assert_eq!(json_array_to_playlist(value.as_array().unwrap()).unwrap(), vec![]);
}

#[test]
fn typed_getters() {
    assert_eq!(get_string(json("\"a\"")).unwrap(), "a");
    assert_eq!(get_bool(json("true")).unwrap(), true);
    assert_eq!(get_usize(json("7")).unwrap(), 7);
    assert_eq!(f64::from_bits(get_double(json("100.0")).unwrap()), 100.0);
    assert_eq!(f64::from_bits(get_double(json("3")).unwrap()), 3.0);
    assert_eq!(
        get_playlist(json(r#"[{"filename": "f", "current": true}]"#)).unwrap(),
        vec![PlaylistEntry { id: 0, filename: "f".to_string(), title: None, current: true }]
    );
    let entries = get_hashmap(json(r#"{"k": "v"}"#)).unwrap();
    assert_eq!(entries, vec![entry("k", MpvDataType::String("v".to_string()))]);
}

#[test]
fn typed_getters_reject_other_shapes() {
    match get_string(json("1")) {
        Err(MpvError::ValueContainsUnexpectedType { expected_type, received }) => {
            assert_eq!(expected_type, "String");
            assert_eq!(received, json("1"));
        }
        other => panic!("{:?}", other),
    }
    match get_bool(json("\"true\"")) {
        Err(MpvError::ValueContainsUnexpectedType { expected_type, .. }) => {
            assert_eq!(expected_type, "bool")
        }
        other => panic!("{:?}", other),
    }
    match get_double(json("\"1.0\"")) {
        Err(MpvError::ValueContainsUnexpectedType { expected_type, .. }) => {
            assert_eq!(expected_type, "f64")
        }
        other => panic!("{:?}", other),
    }
    match get_usize(json("-1")) {
        Err(MpvError::ValueContainsUnexpectedType { expected_type, .. }) => {
            assert_eq!(expected_type, "usize")
        }
        other => panic!("{:?}", other),
    }
    match get_hashmap(json("[]")) {
        Err(MpvError::ValueContainsUnexpectedType { expected_type, .. }) => {
            assert_eq!(expected_type, "Map<String, Value>")
        }
        other => panic!("{:?}", other),
    }
    match get_playlist(json("{}")) {
        Err(MpvError::ValueContainsUnexpectedType { expected_type, .. }) => {
            assert_eq!(expected_type, "Array<Value>")
        }
        other => panic!("{:?}", other),
    }
}
