//! Payloads: the bytes that cross between a workflow and its activities,
//! tagged with their encoding.
//!
//! The runtime carries a payload as data with metadata. Of the metadata a
//! workflow reads the entry under `encoding` alone, so a payload here is the
//! data and that entry. JSON text is written and read by `serde_json`.

use vstd::prelude::*;
use vstd::string::{StrSliceExecFns, StringExecFns, StringSliceAdditionalSpecFns};

verus! {

/// The metadata key under which a payload names its encoding.
pub const ENCODING_PAYLOAD_KEY: &'static str = "encoding";

/// The encoding of a payload whose data is JSON text.
pub const JSON_ENCODING_VAL: &'static str = "json/plain";

/// The bytes of [`JSON_ENCODING_VAL`].
pub open spec fn json_encoding() -> Seq<u8> {
    JSON_ENCODING_VAL.spec_bytes()
}

/// The bytes of the JSON text `null`, which stands for the unit value.
pub open spec fn json_null() -> Seq<u8> {
    "null".spec_bytes()
}

/// Data with the encoding entry of its metadata.
#[derive(Debug)]
pub struct Payload {
    /// The metadata entry under `encoding`, if there is one.
    pub encoding: Option<Vec<u8>>,
    pub data: Vec<u8>,
}

/// The mathematical value of a [`Payload`].
pub struct PayloadView {
    pub encoding: Option<Seq<u8>>,
    pub data: Seq<u8>,
}

impl PayloadView {
    /// Whether the payload says of itself that it is JSON.
    pub open spec fn is_json(self) -> bool {
        self.encoding == Some(json_encoding())
    }
}

impl View for Payload {
    type V = PayloadView;

    open spec fn view(&self) -> PayloadView {
        PayloadView {
            encoding: match self.encoding {
                Some(encoding) => Some(encoding@),
                None => None,
            },
            data: self.data@,
        }
    }
}

/// Why a payload could not be read.
#[derive(Debug)]
pub enum PayloadDeserializeErr {
    /// The payload does not say that it is JSON.
    DeserializerDoesNotHandle,
    /// The data is not the JSON text of the value asked for; the message
    /// says what is wrong with it.
    DeserializeErr(String),
}

/// The mathematical value of a [`PayloadDeserializeErr`].
pub enum PayloadDeserializeErrView {
    DeserializerDoesNotHandle,
    DeserializeErr(Seq<char>),
}

impl View for PayloadDeserializeErr {
    type V = PayloadDeserializeErrView;

    open spec fn view(&self) -> PayloadDeserializeErrView {
        match self {
            PayloadDeserializeErr::DeserializerDoesNotHandle => {
                PayloadDeserializeErrView::DeserializerDoesNotHandle
            },
            PayloadDeserializeErr::DeserializeErr(message) => {
                PayloadDeserializeErrView::DeserializeErr(message@)
            },
        }
    }
}

/// The text of an error.
pub open spec fn error_message(error: PayloadDeserializeErrView) -> Seq<char> {
    match error {
        PayloadDeserializeErrView::DeserializerDoesNotHandle => {
            "This deserializer does not understand this payload"@
        },
        PayloadDeserializeErrView::DeserializeErr(message) => "Error during deserialization: "@
            + message,
    }
}

impl PayloadDeserializeErr {
    /// The text of the error.
    pub fn to_string(&self) -> (r: String)
        ensures
            r@ == error_message(self@),
    {
        match self {
            PayloadDeserializeErr::DeserializerDoesNotHandle => String::from_str(
                "This deserializer does not understand this payload",
            ),
            PayloadDeserializeErr::DeserializeErr(message) => {
                let mut text = String::from_str("Error during deserialization: ");
                text.append(message.as_str());
                text
            },
        }
    }
}

/// What `serde_json` reads from bytes as a JSON string: the text, or the
/// message of its error.
pub uninterp spec fn json_text(bytes: Seq<u8>) -> Result<Seq<char>, Seq<char>>;

/// What `serde_json` writes for a text as a JSON string: the bytes, or the
/// message of its error.
pub uninterp spec fn json_of_text(text: Seq<char>) -> Result<Seq<u8>, Seq<char>>;

/// The mathematical value of a text or an error message.
pub open spec fn text_result(result: Result<String, String>) -> Result<Seq<char>, Seq<char>> {
    match result {
        Ok(text) => Ok(text@),
        Err(message) => Err(message@),
    }
}

/// The mathematical value of bytes or an error message.
pub open spec fn bytes_result(result: Result<Vec<u8>, String>) -> Result<Seq<u8>, Seq<char>> {
    match result {
        Ok(bytes) => Ok(bytes@),
        Err(message) => Err(message@),
    }
}

/// Calls `serde_json::from_slice` for a `String` and turns its error into
/// the error's message. The contract names the result; it is not proved.
#[verifier::external_body]
fn decode_json_text(bytes: &[u8]) -> (r: Result<String, String>)
    ensures
        text_result(r) == json_text(bytes@),
{
    match serde_json::from_slice::<String>(bytes) {
        Ok(text) => Ok(text),
        Err(error) => Err(error.to_string()),
    }
}

/// Calls `serde_json::to_vec` on a text and turns its error into the
/// error's message. The contract names the result; it is not proved.
#[verifier::external_body]
fn encode_json_text(text: &str) -> (r: Result<Vec<u8>, String>)
    ensures
        bytes_result(r) == json_of_text(text@),
{
    match serde_json::to_vec(text) {
        Ok(bytes) => Ok(bytes),
        Err(error) => Err(error.to_string()),
    }
}

/// Whether two byte strings are the same.
fn same_bytes(a: &[u8], b: &[u8]) -> (r: bool)
    ensures
        r == (a@ == b@),
{
    if a.len() != b.len() {
        return false;
    }
    let mut i: usize = 0;
    while i < a.len()
        invariant
            i <= a.len(),
            a.len() == b.len(),
            forall|j: int| 0 <= j < i ==> a@[j] == b@[j],
        decreases a.len() - i,
    {
        if a[i] != b[i] {
            return false;
        }
        i += 1;
    }
    assert(a@ =~= b@);
    true
}

/// The payload of data that is JSON text.
pub fn json_payload(data: Vec<u8>) -> (r: Payload)
    ensures
        r@ == (PayloadView { encoding: Some(json_encoding()), data: data@ }),
        r@.is_json(),
{
    Payload { encoding: Some(JSON_ENCODING_VAL.as_bytes_vec()), data }
}

/// The payload of the unit value: the JSON text `null`.
pub fn unit_payload() -> (r: Payload)
    ensures
        r@ == (PayloadView { encoding: Some(json_encoding()), data: json_null() }),
{
    json_payload("null".as_bytes_vec())
}

/// The payload of a text: the text as a JSON string. `Err` carries the
/// message of `serde_json` when it cannot write the text.
pub fn text_payload(text: &str) -> (r: Result<Payload, String>)
    ensures
        match r {
            Ok(payload) => json_of_text(text@) == Ok::<Seq<u8>, Seq<char>>(payload@.data)
                && payload@.is_json(),
            Err(message) => json_of_text(text@) == Err::<Seq<u8>, Seq<char>>(message@),
        },
{
    match encode_json_text(text) {
        Ok(data) => Ok(json_payload(data)),
        Err(message) => Err(message),
    }
}

/// What reading a payload as a text gives: the payload must say that it is
/// JSON, and its data must be a JSON string.
pub open spec fn text_of_payload(payload: PayloadView) -> Result<
    Seq<char>,
    PayloadDeserializeErrView,
> {
    if !payload.is_json() {
        Err(PayloadDeserializeErrView::DeserializerDoesNotHandle)
    } else {
        match json_text(payload.data) {
            Ok(text) => Ok(text),
            Err(message) => Err(PayloadDeserializeErrView::DeserializeErr(message)),
        }
    }
}

/// What reading a payload as a text gives, when the data reads as `read`:
/// the payload must say that it is JSON.
pub open spec fn text_of_read(payload: PayloadView, read: Result<Seq<char>, Seq<char>>) -> Result<
    Seq<char>,
    PayloadDeserializeErrView,
> {
    if !payload.is_json() {
        Err(PayloadDeserializeErrView::DeserializerDoesNotHandle)
    } else {
        match read {
            Ok(text) => Ok(text),
            Err(message) => Err(PayloadDeserializeErrView::DeserializeErr(message)),
        }
    }
}

/// The mathematical value of a text or a payload error.
pub open spec fn read_result(result: Result<String, PayloadDeserializeErr>) -> Result<
    Seq<char>,
    PayloadDeserializeErrView,
> {
    match result {
        Ok(text) => Ok(text@),
        Err(error) => Err(error@),
    }
}

impl Payload {
    /// Whether the payload says of itself that it is JSON.
    pub fn is_json_payload(&self) -> (r: bool)
        ensures
            r == self@.is_json(),
    {
        match &self.encoding {
            Some(encoding) => same_bytes(encoding.as_slice(), JSON_ENCODING_VAL.as_bytes()),
            None => false,
        }
    }

    /// The data of a payload that says it is JSON; any other payload is
    /// refused.
    pub fn json_data(&self) -> (r: Result<&Vec<u8>, PayloadDeserializeErr>)
        ensures
            match r {
                Ok(data) => self@.is_json() && data@ == self@.data,
                Err(error) => !self@.is_json() && error@
                    == PayloadDeserializeErrView::DeserializerDoesNotHandle,
            },
    {
        if self.is_json_payload() {
            Ok(&self.data)
        } else {
            Err(PayloadDeserializeErr::DeserializerDoesNotHandle)
        }
    }

    /// Reads the payload as a text, given what its data reads as.
    pub fn text_from_read(&self, read: Result<String, String>) -> (r: Result<
        String,
        PayloadDeserializeErr,
    >)
        ensures
            read_result(r) == text_of_read(self@, text_result(read)),
    {
        if !self.is_json_payload() {
            return Err(PayloadDeserializeErr::DeserializerDoesNotHandle);
        }
        match read {
            Ok(text) => Ok(text),
            Err(message) => Err(PayloadDeserializeErr::DeserializeErr(message)),
        }
    }

    /// Reads the payload as a text: the payload must say that it is JSON,
    /// and its data must be a JSON string.
    pub fn text(&self) -> (r: Result<String, PayloadDeserializeErr>)
        ensures
            read_result(r) == text_of_payload(self@),
    {
        let read = decode_json_text(self.data.as_slice());
        self.text_from_read(read)
    }
}

} // verus!
