//! JSON values as the client sees them, and the decoding of a response body.

use crate::error::{Error, ErrorKind};
use vstd::prelude::*;
use vstd::string::*;
use vstd::utf8::*;

verus! {

/// One member of a JSON object.
#[derive(Debug, PartialEq, Eq)]
pub struct JsonMember {
    pub key: String,
    pub value: JsonValue,
}

/// A JSON value.
///
/// A number is held as the text that `serde_json` writes for it. The members
/// of an object are held in the order of their keys.
#[derive(Debug, PartialEq, Eq)]
pub enum JsonValue {
    Null,
    Bool(bool),
    Number(String),
    String(String),
    Array(Vec<JsonValue>),
    Object(Vec<JsonMember>),
}

/// A JSON value as a tree of mathematical values: what a `JsonValue` holds,
/// whatever memory it holds it in.
pub enum JsonTree {
    Null,
    Bool(bool),
    Number(Seq<char>),
    String(Seq<char>),
    Array(Seq<JsonTree>),
    Object(Seq<(Seq<char>, JsonTree)>),
}

impl JsonTree {
    /// Whether the value is the array without items.
    pub open spec fn is_empty_array(self) -> bool {
        self matches JsonTree::Array(items) && items.len() == 0
    }
}

impl View for JsonValue {
    type V = JsonTree;

    open spec fn view(&self) -> JsonTree
        decreases self,
    {
        match self {
            JsonValue::Null => JsonTree::Null,
            JsonValue::Bool(b) => JsonTree::Bool(*b),
            JsonValue::Number(text) => JsonTree::Number(text@),
            JsonValue::String(text) => JsonTree::String(text@),
            JsonValue::Array(items) => JsonTree::Array(
                Seq::new(
                    items@.len(),
                    |i: int|
                        if 0 <= i < items@.len() {
                            items@[i]@
                        } else {
                            JsonTree::Null
                        },
                ),
            ),
            JsonValue::Object(members) => JsonTree::Object(
                Seq::new(
                    members@.len(),
                    |i: int|
                        if 0 <= i < members@.len() {
                            (members@[i].key@, members@[i].value@)
                        } else {
                            (Seq::empty(), JsonTree::Null)
                        },
                ),
            ),
        }
    }
}

/// The answer in the outcome of an exchange, if it has one.
pub open spec fn answer_view(outcome: Result<JsonValue, Error>) -> Option<JsonTree> {
    match outcome {
        Ok(answer) => Some(answer@),
        Err(_) => None,
    }
}

/// Declares `serde_json::Value`, which the two conversions below take and
/// return. Nothing inside a value of it is visible to the verifier.
#[verifier::external_type_specification]
#[verifier::external_body]
pub struct ExSerdeValue(serde_json::Value);

/// What `serde_json::from_str` makes of a text: the value it reads, or its
/// description of why it rejects the text.
pub uninterp spec fn json_of_text(text: Seq<char>) -> Result<JsonTree, Seq<char>>;

/// The compact text that `serde_json` writes for a value.
pub uninterp spec fn text_of_json(value: JsonTree) -> Seq<char>;

/// How `String::from_utf8` describes what is wrong with bytes that are not
/// UTF-8.
pub uninterp spec fn utf8_fault(bytes: Seq<u8>) -> Seq<char>;

/// Turns a `serde_json::Value` into a `JsonValue`, variant by variant. A
/// number becomes the text that `serde_json` prints for it. Nothing is
/// claimed of the result.
#[verifier::external_body]
fn from_serde(value: serde_json::Value) -> JsonValue {
    match value {
        serde_json::Value::Null => JsonValue::Null,
        serde_json::Value::Bool(b) => JsonValue::Bool(b),
        serde_json::Value::Number(n) => JsonValue::Number(n.to_string()),
        serde_json::Value::String(s) => JsonValue::String(s),
        serde_json::Value::Array(a) => JsonValue::Array(a.into_iter().map(from_serde).collect()),
        serde_json::Value::Object(m) => JsonValue::Object(
            m.into_iter().map(|(key, v)| JsonMember { key, value: from_serde(v) }).collect(),
        ),
    }
}

/// Turns a `JsonValue` into a `serde_json::Value`, variant by variant. The
/// text of a number is read back with `serde_json::from_str`; a text that is
/// no number becomes `null`. Nothing is claimed of the result.
#[verifier::external_body]
fn to_serde(value: &JsonValue) -> serde_json::Value {
    match value {
        JsonValue::Null => serde_json::Value::Null,
        JsonValue::Bool(b) => serde_json::Value::Bool(*b),
        JsonValue::Number(n) => serde_json::from_str::<serde_json::Number>(n).map_or(
            serde_json::Value::Null,
            serde_json::Value::Number,
        ),
        JsonValue::String(s) => serde_json::Value::String(s.clone()),
        JsonValue::Array(a) => serde_json::Value::Array(a.iter().map(to_serde).collect()),
        JsonValue::Object(m) => serde_json::Value::Object(
            m.iter().map(|member| (member.key.clone(), to_serde(&member.value))).collect(),
        ),
    }
}

/// A parse outcome as mathematical values.
pub open spec fn outcome_view(outcome: Result<JsonValue, String>) -> Result<JsonTree, Seq<char>> {
    match outcome {
        Ok(value) => Ok(value@),
        Err(fault) => Err(fault@),
    }
}

/// Calls `serde_json::from_str` for a `serde_json::Value`. The contract names
/// the outcome: the value read, or the parser's description of the fault, as
/// its `to_string` gives it. The text alone decides both.
#[verifier::external_body]
fn parse_json(text: &str) -> (r: Result<JsonValue, String>)
    ensures
        outcome_view(r) == json_of_text(text@),
{
    match serde_json::from_str::<serde_json::Value>(text) {
        Ok(value) => Ok(from_serde(value)),
        Err(fault) => Err(fault.to_string()),
    }
}

/// Calls `to_string` of `serde_json::Value`, which writes the compact form.
/// The contract names the text.
#[verifier::external_body]
fn render_json(value: &JsonValue) -> (text: String)
    ensures
        text@ == text_of_json(value@),
{
    to_serde(value).to_string()
}

/// Calls `String::from_utf8`: it succeeds on the byte sequences that are
/// UTF-8, and the string it returns is made of the bytes given. On other
/// bytes the contract names the description of the fault, as the error's
/// `to_string` gives it; the bytes alone decide it.
#[verifier::external_body]
fn string_from_utf8(bytes: Vec<u8>) -> (r: Result<String, String>)
    ensures
        r is Ok <==> valid_utf8(bytes@),
        r matches Ok(text) ==> encode_utf8(text@) == bytes@,
        r matches Err(fault) ==> fault@ == utf8_fault(bytes@),
{
    match String::from_utf8(bytes) {
        Ok(text) => Ok(text),
        Err(fault) => Err(fault.to_string()),
    }
}

impl JsonValue {
    /// The compact JSON text of the value.
    pub fn to_string(&self) -> (text: String)
        ensures
            text@ == text_of_json(self@),
    {
        render_json(self)
    }
}

/// The message of a `Decode` error: it quotes the text and ends with the
/// parser's description of the fault.
pub open spec fn decode_failure_message(text: Seq<char>, fault: Seq<char>) -> Seq<char> {
    "Could not parse \""@ + text + "\" as json: "@ + fault
}

/// Decodes a response body.
///
/// A body that is not UTF-8 gives an `Encoding` error, whose message says
/// where the bytes go wrong. A body whose text is not JSON gives a `Decode`
/// error, whose message quotes the text. Any other body gives the JSON value
/// of its text.
pub fn decode_response(bytes: Vec<u8>) -> (r: Result<JsonValue, Error>)
    ensures
        !valid_utf8(bytes@) ==> (r matches Err(e) && e.kind == ErrorKind::Encoding && e.msg@
            == utf8_fault(bytes@)),
        valid_utf8(bytes@) ==> match json_of_text(decode_utf8(bytes@)) {
            Ok(tree) => (r matches Ok(value) && value@ == tree),
            Err(fault) => (r matches Err(e) && e.kind == ErrorKind::Decode && e.msg@
                == decode_failure_message(decode_utf8(bytes@), fault)),
        },
{
    match string_from_utf8(bytes) {
        Err(fault) => Err(Error { kind: ErrorKind::Encoding, msg: fault }),
        Ok(text) => {
            proof {
                encode_utf8_decode_utf8(text@);
            }
            match parse_json(text.as_str()) {
                Ok(value) => Ok(value),
                Err(fault) => {
                    let mut msg = String::from_str("Could not parse \"");
                    msg.append(text.as_str());
                    msg.append("\" as json: ");
                    msg.append(fault.as_str());
                    Err(Error { kind: ErrorKind::Decode, msg })
                },
            }
        },
    }
}

} // verus!
