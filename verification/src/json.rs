use vstd::prelude::*;
use vstd::string::StringExecFns;

use crate::negotiation::JsSessionResponse;
use crate::negotiation::SessionAnswer;
use crate::negotiation::SessionAnswerModel;
use crate::negotiation::SessionCandidate;
use crate::negotiation::SessionCandidateModel;
use crate::negotiation::SessionResponseModel;

verus! {

#[verifier::external_type_specification]
#[verifier::external_body]
pub struct ExValue(serde_json::Value);

/// The document that parsing this text yields, if it is well-formed JSON;
/// parsing depends on the characters alone.
pub uninterp spec fn doc_of(s: Seq<char>) -> Option<serde_json::Value>;

/// The value at this key, if the document is an object holding the key;
/// lookup depends on the document and the key alone.
pub uninterp spec fn field_of(v: serde_json::Value, key: Seq<char>) -> Option<serde_json::Value>;

/// The text of a JSON string value, nothing for any other kind of value.
pub uninterp spec fn text_of(v: serde_json::Value) -> Option<Seq<char>>;

/// The value of a JSON integer that fits in a u64, nothing otherwise.
pub uninterp spec fn uint_of(v: serde_json::Value) -> Option<u64>;

/// Relies on serde_json::from_str: deterministic in the input text, a
/// document for a well-formed body and an error (here nothing) for a
/// malformed one.
#[verifier::external_body]
fn json_parse(s: &str) -> (r: Option<serde_json::Value>)
    ensures
        r == doc_of(s@),
{
    serde_json::from_str::<serde_json::Value>(s).ok()
}

/// Relies on serde_json::Value::get: the value at this key of an object,
/// deterministic in the document and the key.
#[verifier::external_body]
fn json_get<'a>(v: &'a serde_json::Value, key: &str) -> (r: Option<&'a serde_json::Value>)
    ensures
        r matches Some(f) ==> field_of(*v, key@) == Some(*f),
        r is None ==> field_of(*v, key@) is None,
{
    v.get(key)
}

/// Relies on serde_json::Value::as_str: the text of a JSON string value,
/// nothing for any other kind of value.
#[verifier::external_body]
fn json_as_str(v: &serde_json::Value) -> (r: Option<&str>)
    ensures
        r matches Some(s) ==> text_of(*v) == Some(s@),
        r is None ==> text_of(*v) is None,
{
    v.as_str()
}

/// Relies on serde_json::Value::as_u64: the value of a JSON integer that
/// fits in a u64, nothing otherwise.
#[verifier::external_body]
fn json_as_u64(v: &serde_json::Value) -> (r: Option<u64>)
    ensures
        r == uint_of(*v),
{
    v.as_u64()
}

/// The text under this key of the document: the key's value where it is a
/// string, nothing where the key is absent or its value is no string.
pub open spec fn string_field_of(v: serde_json::Value, key: Seq<char>) -> Option<Seq<char>> {
    match field_of(v, key) {
        Option::None => Option::None,
        Option::Some(f) => text_of(f),
    }
}

/// The integer under this key of the document.
pub open spec fn uint_field_of(v: serde_json::Value, key: Seq<char>) -> Option<u64> {
    match field_of(v, key) {
        Option::None => Option::None,
        Option::Some(f) => uint_of(f),
    }
}

/// What parsing a signaling response body yields: the answer and candidate
/// fields of the documented shape, or nothing where the body is malformed, a
/// field is missing or of the wrong kind, or the line index does not fit.
pub open spec fn session_response_of(body: Seq<char>) -> Option<SessionResponseModel> {
    match doc_of(body) {
        Option::None => Option::None,
        Option::Some(doc) => match (field_of(doc, "answer"@), field_of(doc, "candidate"@)) {
            (Option::Some(answer), Option::Some(candidate)) => match (
                string_field_of(answer, "sdp"@),
                string_field_of(answer, "type"@),
                string_field_of(candidate, "candidate"@),
                string_field_of(candidate, "sdpMid"@),
                uint_field_of(candidate, "sdpMLineIndex"@),
            ) {
                (
                    Option::Some(sdp),
                    Option::Some(kind),
                    Option::Some(cand),
                    Option::Some(mid),
                    Option::Some(idx),
                ) => if idx > u16::MAX as u64 {
                    Option::None
                } else {
                    Option::Some(
                        SessionResponseModel {
                            answer: SessionAnswerModel { sdp, kind },
                            candidate: SessionCandidateModel {
                                candidate: cand,
                                sdp_m_line_index: idx as u16,
                                sdp_mid: mid,
                            },
                        },
                    )
                },
                _ => Option::None,
            },
            _ => Option::None,
        },
    }
}

/// Reads one string field of a JSON object.
fn get_string_field(v: &serde_json::Value, key: &str) -> (r: Option<String>)
    ensures
        r matches Some(s) ==> string_field_of(*v, key@) == Some(s@),
        r is None ==> string_field_of(*v, key@) is None,
{
    match json_get(v, key) {
        Option::Some(field) => match json_as_str(field) {
            Option::Some(s) => Option::Some(String::from_str(s)),
            Option::None => Option::None,
        },
        Option::None => Option::None,
    }
}

/// Parses a signaling response body: an HTTP 200 answer must carry a JSON
/// document with exactly one answer description and exactly one candidate,
///
/// ```text
/// { "answer": { "sdp": ..., "type": ... },
///   "candidate": { "candidate": ..., "sdpMLineIndex": ..., "sdpMid": ... } }
/// ```
///
/// Anything else — a malformed document, a missing field, a field of the
/// wrong kind, a line index out of range — yields nothing, and the
/// negotiation stalls silently.
pub fn parse_session_response(body: &str) -> (r: Option<JsSessionResponse>)
    ensures
        r matches Some(resp) ==> session_response_of(body@) == Some(resp@),
        r is None ==> session_response_of(body@) is None,
{
    let doc = match json_parse(body) {
        Option::Some(v) => v,
        Option::None => {
            return Option::None;
        },
    };
    let answer_field = match json_get(&doc, "answer") {
        Option::Some(v) => v,
        Option::None => {
            return Option::None;
        },
    };
    let candidate_field = match json_get(&doc, "candidate") {
        Option::Some(v) => v,
        Option::None => {
            return Option::None;
        },
    };
    let sdp = match get_string_field(answer_field, "sdp") {
        Option::Some(s) => s,
        Option::None => {
            return Option::None;
        },
    };
    let kind = match get_string_field(answer_field, "type") {
        Option::Some(s) => s,
        Option::None => {
            return Option::None;
        },
    };
    let candidate = match get_string_field(candidate_field, "candidate") {
        Option::Some(s) => s,
        Option::None => {
            return Option::None;
        },
    };
    let sdp_mid = match get_string_field(candidate_field, "sdpMid") {
        Option::Some(s) => s,
        Option::None => {
            return Option::None;
        },
    };
    let line_index = match json_get(candidate_field, "sdpMLineIndex") {
        Option::Some(v) => match json_as_u64(v) {
            Option::Some(n) => n,
            Option::None => {
                return Option::None;
            },
        },
        Option::None => {
            return Option::None;
        },
    };
    if line_index > u16::MAX as u64 {
        return Option::None;
    }
    Option::Some(
        JsSessionResponse {
            answer: SessionAnswer { sdp, kind },
            candidate: SessionCandidate {
                candidate,
                sdp_m_line_index: line_index as u16,
                sdp_mid,
            },
        },
    )
}

} // verus!
