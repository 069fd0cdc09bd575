//! The errors of the library.

use vstd::prelude::*;
use serde_json::Value;
use crate::core_api::MpvDataType;
use crate::json::{
    error_text, json_error_text, json_of, jsons_of, object_eq, object_of, same_document,
    same_documents, same_entries, value_eq, Json,
};
use crate::property_parser::Property;
use crate::text::concat;

verus! {

/// Any error that can occur when interacting with mpv.
#[derive(Debug)]
#[allow(inconsistent_fields)]
pub enum MpvError {
    /// The player answered a command with an error message.
    MpvError { command: Vec<Value>, message: String },
    /// The socket failed.
    MpvSocketConnectionError(String),
    /// A channel between a handle and the connection task failed.
    InternalConnectionError(String),
    /// A line was not valid JSON.
    JsonParseError(serde_json::Error),
    /// A JSON value did not have the shape that was asked for.
    ValueContainsUnexpectedType { expected_type: String, received: Value },
    /// A dynamic value did not have the shape that was asked for.
    DataContainsUnexpectedType { expected_type: String, received: MpvDataType },
    /// A value that is required was absent.
    MissingMpvData,
    /// An object lacked a key that is required.
    MissingKeyInObject { key: String, map: serde_json::Map<String, Value> },
    /// A property decoded to another variant than the one asked for.
    UnexpectedProperty(Property),
    Other(String),
}

/// Whether two lists of values compare equal, element by element.
fn same_values(a: &Vec<Value>, b: &Vec<Value>) -> (r: bool)
    ensures
        r == same_documents(jsons_of(a@), jsons_of(b@)),
{
    if a.len() != b.len() {
        return false;
    }
    let mut i: usize = 0;
    while i < a.len()
        invariant
            i <= a@.len(),
            a@.len() == b@.len(),
            forall|k: int|
                0 <= k < i ==> same_document(#[trigger] jsons_of(a@)[k], jsons_of(b@)[k]),
        decreases a.len() - i,
    {
        assert(jsons_of(a@)[i as int] == json_of(a@[i as int]));
        assert(jsons_of(b@)[i as int] == json_of(b@[i as int]));
        if !value_eq(&a[i], &b[i]) {
            return false;
        }
        i += 1;
    }
    true
}

impl MpvError {
    /// Whether two errors are equal. Errors of different variants never
    /// are. A rejected command, an unexpected value or piece of data, and a
    /// missing key are equal where all their fields are; the two connection
    /// errors where their messages are; two parse errors where they display
    /// the same message. JSON documents compare as [`same_document`] says,
    /// dynamic values by what they hold. Any two errors of one of the other
    /// variants are equal.
    pub open spec fn equals(self, other: MpvError) -> bool {
        match (self, other) {
            (
                MpvError::MpvError { command: lc, message: lm },
                MpvError::MpvError { command: rc, message: rm },
            ) => same_documents(jsons_of(lc@), jsons_of(rc@)) && lm@ == rm@,
            (
                MpvError::MpvSocketConnectionError(l),
                MpvError::MpvSocketConnectionError(r),
            ) => l@ == r@,
            (MpvError::InternalConnectionError(l), MpvError::InternalConnectionError(r)) => l@
                == r@,
            (MpvError::JsonParseError(l), MpvError::JsonParseError(r)) => json_error_text(l)
                == json_error_text(r),
            (
                MpvError::ValueContainsUnexpectedType { expected_type: le, received: lr },
                MpvError::ValueContainsUnexpectedType { expected_type: re, received: rr },
            ) => le@ == re@ && same_document(json_of(lr), json_of(rr)),
            (
                MpvError::DataContainsUnexpectedType { expected_type: le, received: lr },
                MpvError::DataContainsUnexpectedType { expected_type: re, received: rr },
            ) => le@ == re@ && lr@ == rr@,
            (
                MpvError::MissingKeyInObject { key: lk, map: lm },
                MpvError::MissingKeyInObject { key: rk, map: rm },
            ) => lk@ == rk@ && same_entries(object_of(lm), object_of(rm)),
            (MpvError::MissingMpvData, MpvError::MissingMpvData) => true,
            (MpvError::UnexpectedProperty(_), MpvError::UnexpectedProperty(_)) => true,
            (MpvError::Other(_), MpvError::Other(_)) => true,
            _ => false,
        }
    }

    /// Whether the error carries no dynamic value, or one whose maps have
    /// distinct keys.
    pub open spec fn wf(self) -> bool {
        self matches MpvError::DataContainsUnexpectedType { expected_type: _, received }
            ==> received.wf()
    }

    /// Whether two errors are equal.
    pub fn eq(&self, other: &MpvError) -> (r: bool)
        requires
            self.wf(),
            other.wf(),
        ensures
            r == self.equals(*other),
    {
        match (self, other) {
            (
                MpvError::MpvError { command: lc, message: lm },
                MpvError::MpvError { command: rc, message: rm },
            ) => same_values(lc, rc) && *lm == *rm,
            (
                MpvError::MpvSocketConnectionError(l),
                MpvError::MpvSocketConnectionError(r),
            ) => *l == *r,
            (MpvError::InternalConnectionError(l), MpvError::InternalConnectionError(r)) => *l
                == *r,
            (MpvError::JsonParseError(l), MpvError::JsonParseError(r)) => error_text(l)
                == error_text(r),
            (
                MpvError::ValueContainsUnexpectedType { expected_type: le, received: lr },
                MpvError::ValueContainsUnexpectedType { expected_type: re, received: rr },
            ) => *le == *re && value_eq(lr, rr),
            (
                MpvError::DataContainsUnexpectedType { expected_type: le, received: lr },
                MpvError::DataContainsUnexpectedType { expected_type: re, received: rr },
            ) => *le == *re && lr.same_as(rr),
            (
                MpvError::MissingKeyInObject { key: lk, map: lm },
                MpvError::MissingKeyInObject { key: rk, map: rm },
            ) => *lk == *rk && object_eq(lm, rm),
            (MpvError::MissingMpvData, MpvError::MissingMpvData) => true,
            (MpvError::UnexpectedProperty(_), MpvError::UnexpectedProperty(_)) => true,
            (MpvError::Other(_), MpvError::Other(_)) => true,
            _ => false,
        }
    }
}

/// Every document compares equal to itself.
pub proof fn lemma_same_document_reflexive(j: Json)
    ensures
        same_document(j, j),
    decreases j,
{
    match j {
        Json::Array(a) => {
            assert forall|i: int| 0 <= i < a.len() implies same_document(#[trigger] a[i], a[i]) by {
                lemma_same_document_reflexive(a[i]);
            }
            assert(same_documents(a, a));
        },
        Json::Object(m) => {
            if m.dom().finite() {
                assert forall|k: Seq<char>| m.contains_key(k) implies same_document(
                    #[trigger] m[k],
                    m[k],
                ) by {
                    lemma_same_document_reflexive(m[k]);
                }
            }
            assert(same_entries(m, m));
        },
        _ => {},
    }
}

/// Two documents compare equal whichever comes first.
pub proof fn lemma_same_document_symmetric(a: Json, b: Json)
    ensures
        same_document(a, b) == same_document(b, a),
    decreases a,
{
    match (a, b) {
        (Json::Array(x), Json::Array(y)) => {
            if x.len() == y.len() {
                assert forall|i: int| 0 <= i < x.len() implies same_document(#[trigger] x[i], y[i])
                    == same_document(y[i], x[i]) by {
                    lemma_same_document_symmetric(x[i], y[i]);
                }
                if same_documents(x, y) {
                    assert forall|i: int| 0 <= i < y.len() implies same_document(
                        #[trigger] y[i],
                        x[i],
                    ) by {
                        assert(same_document(x[i], y[i]));
                    }
                    assert(same_documents(y, x));
                }
                if same_documents(y, x) {
                    assert forall|i: int| 0 <= i < x.len() implies same_document(
                        #[trigger] x[i],
                        y[i],
                    ) by {
                        assert(same_document(y[i], x[i]));
                    }
                    assert(same_documents(x, y));
                }
            }
        },
        (Json::Object(m), Json::Object(n)) => {
            if m.dom() =~= n.dom() && m.dom().finite() {
                assert forall|k: Seq<char>| m.contains_key(k) implies same_document(
                    #[trigger] m[k],
                    n[k],
                ) == same_document(n[k], m[k]) by {
                    lemma_same_document_symmetric(m[k], n[k]);
                }
                if same_entries(m, n) {
                    assert forall|k: Seq<char>| n.contains_key(k) implies same_document(
                        #[trigger] n[k],
                        m[k],
                    ) by {
                        assert(same_document(m[k], n[k]));
                    }
                    assert(same_entries(n, m));
                }
                if same_entries(n, m) {
                    assert forall|k: Seq<char>| m.contains_key(k) implies same_document(
                        #[trigger] m[k],
                        n[k],
                    ) by {
                        assert(same_document(n[k], m[k]));
                    }
                    assert(same_entries(m, n));
                }
            }
        },
        _ => {},
    }
}

/// Every error is equal to itself.
pub proof fn lemma_error_equals_itself(e: MpvError)
    ensures
        e.equals(e),
{
    match e {
        MpvError::MpvError { command, message } => {
            let docs = jsons_of(command@);
            assert forall|i: int| 0 <= i < docs.len() implies same_document(
                #[trigger] docs[i],
                docs[i],
            ) by {
                lemma_same_document_reflexive(docs[i]);
            }
            assert(same_documents(docs, docs));
        },
        MpvError::ValueContainsUnexpectedType { expected_type, received } => {
            lemma_same_document_reflexive(json_of(received));
        },
        MpvError::MissingKeyInObject { key, map } => {
            lemma_same_document_reflexive(Json::Object(object_of(map)));
        },
        _ => {},
    }
}

/// Two errors are equal whichever comes first.
pub proof fn lemma_error_equals_symmetric(a: MpvError, b: MpvError)
    ensures
        a.equals(b) == b.equals(a),
{
    match (a, b) {
        (
            MpvError::MpvError { command: lc, message: lm },
            MpvError::MpvError { command: rc, message: rm },
        ) => {
            lemma_same_document_symmetric(Json::Array(jsons_of(lc@)), Json::Array(jsons_of(rc@)));
        },
        (
            MpvError::ValueContainsUnexpectedType { expected_type: le, received: lr },
            MpvError::ValueContainsUnexpectedType { expected_type: re, received: rr },
        ) => {
            lemma_same_document_symmetric(json_of(lr), json_of(rr));
        },
        (
            MpvError::MissingKeyInObject { key: lk, map: lm },
            MpvError::MissingKeyInObject { key: rk, map: rm },
        ) => {
            lemma_same_document_symmetric(
                Json::Object(object_of(lm)),
                Json::Object(object_of(rm)),
            );
        },
        _ => {},
    }
}

/// The kind of an error, with a message where the kind has one.
#[derive(Debug, Clone, PartialEq, Eq)]
pub enum ErrorCode {
    MpvError(String),
    JsonParseError(String),
    ConnectError(String),
    JsonContainsUnexptectedType,
    UnexpectedResult,
    UnexpectedValue,
    MissingValue,
    UnsupportedType,
    ValueDoesNotContainBool,
    ValueDoesNotContainF64,
    ValueDoesNotContainHashMap,
    ValueDoesNotContainPlaylist,
    ValueDoesNotContainString,
    ValueDoesNotContainUsize,
}

/// An error given by its kind alone.
#[derive(Debug, Clone, PartialEq, Eq)]
pub struct CodedError(pub ErrorCode);

impl ErrorCode {
    /// The line that describes the kind: a fixed text, or the name of the
    /// kind followed by its message.
    pub open spec fn text(self) -> Seq<char> {
        match self {
            ErrorCode::ConnectError(msg) => "ConnectError: "@ + msg@,
            ErrorCode::JsonParseError(msg) => "JsonParseError: "@ + msg@,
            ErrorCode::MpvError(msg) => "MpvError: "@ + msg@,
            ErrorCode::JsonContainsUnexptectedType => "Mpv sent a value with an unexpected type"@,
            ErrorCode::UnexpectedResult => "Unexpected result received"@,
            ErrorCode::UnexpectedValue => "Unexpected value received"@,
            ErrorCode::MissingValue => "Missing value"@,
            ErrorCode::UnsupportedType => "Unsupported type received"@,
            ErrorCode::ValueDoesNotContainBool => "The received value is not of type 'std::bool'"@,
            ErrorCode::ValueDoesNotContainF64 => "The received value is not of type 'std::f64'"@,
            ErrorCode::ValueDoesNotContainHashMap => "The received value is not of type 'std::collections::HashMap'"@,
            ErrorCode::ValueDoesNotContainPlaylist => "The received value is not of type 'mpvipc::Playlist'"@,
            ErrorCode::ValueDoesNotContainString => "The received value is not of type 'std::string::String'"@,
            ErrorCode::ValueDoesNotContainUsize => "The received value is not of type 'std::usize'"@,
        }
    }

    /// The line that describes the kind.
    pub fn message(&self) -> (r: String)
        ensures
            r@ == self.text(),
    {
        match self {
            ErrorCode::ConnectError(msg) => concat("ConnectError: ", msg.as_str()),
            ErrorCode::JsonParseError(msg) => concat("JsonParseError: ", msg.as_str()),
            ErrorCode::MpvError(msg) => concat("MpvError: ", msg.as_str()),
            ErrorCode::JsonContainsUnexptectedType => "Mpv sent a value with an unexpected type".to_owned(),
            ErrorCode::UnexpectedResult => "Unexpected result received".to_owned(),
            ErrorCode::UnexpectedValue => "Unexpected value received".to_owned(),
            ErrorCode::MissingValue => "Missing value".to_owned(),
            ErrorCode::UnsupportedType => "Unsupported type received".to_owned(),
            ErrorCode::ValueDoesNotContainBool => "The received value is not of type 'std::bool'".to_owned(),
            ErrorCode::ValueDoesNotContainF64 => "The received value is not of type 'std::f64'".to_owned(),
            ErrorCode::ValueDoesNotContainHashMap => "The received value is not of type 'std::collections::HashMap'".to_owned(),
            ErrorCode::ValueDoesNotContainPlaylist => "The received value is not of type 'mpvipc::Playlist'".to_owned(),
            ErrorCode::ValueDoesNotContainString => "The received value is not of type 'std::string::String'".to_owned(),
            ErrorCode::ValueDoesNotContainUsize => "The received value is not of type 'std::usize'".to_owned(),
        }
    }
}

impl CodedError {
    /// The line that describes the error: that of its kind.
    pub fn message(&self) -> (r: String)
        ensures
            r@ == self.0.text(),
    {
        self.0.message()
    }
}

} // verus!
