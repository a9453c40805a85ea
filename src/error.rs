//! The error taxonomy, and the classification of failed responses into it.
use vstd::prelude::*;

use crate::json::{
    as_unsigned, into_structured_member_or_self, member, string_items, string_items_member,
    string_member, structured_member_or_self, take_object_member, unsigned_member, JsonValue,
};

verus! {

/// reqwest's `Error`, carried unopened in the `Http` variant; nothing is assumed of it.
#[verifier::external_type_specification]
#[verifier::external_body]
pub struct ExReqwestError(reqwest::Error);

/// serde_json's `Error`, carried unopened in the `Json` variant; nothing is assumed of it.
#[verifier::external_type_specification]
#[verifier::external_body]
pub struct ExSerdeJsonError(serde_json::Error);

/// Error types returned by the Veil Mail API.
#[derive(Debug)]
pub enum VeilMailError {
    Authentication { message: String, code: Option<String> },
    Forbidden { message: String, code: Option<String> },
    NotFound { message: String, code: Option<String> },
    Validation {
        message: String,
        code: Option<String>,
        /// The members of the `details` object that came with the error.
        details: Option<Vec<(String, JsonValue)>>,
    },
    PiiDetected { message: String, pii_types: Vec<String>, code: Option<String> },
    RateLimit { message: String, retry_after: Option<u64>, code: Option<String> },
    Server { message: String, status_code: u16, code: Option<String> },
    /// A network-level failure: no status code was received.
    Http(reqwest::Error),
    /// A body that could not be read into the shape the caller asked for.
    Json(serde_json::Error),
    /// A failure no status rule covers, or a check made before any request.
    Other(String),
}

/// The part of a failure body that describes the error: its `error` member
/// when that is a structured value (an object or an array), else the body itself.
pub open spec fn envelope_of(body: JsonValue) -> JsonValue {
    structured_member_or_self(body, "error"@)
}

/// The `message` member when it is a string, else a fixed default.
pub open spec fn message_of(env: JsonValue) -> Seq<char> {
    match member(env, "message"@) {
        Some(JsonValue::String(s)) => s@,
        _ => "Unknown error"@,
    }
}

/// The `code` member when it is a string.
pub open spec fn code_of(env: JsonValue) -> Option<Seq<char>> {
    match member(env, "code"@) {
        Some(JsonValue::String(s)) => Some(s@),
        _ => None,
    }
}

/// The members of the `details` member when it is an object.
pub open spec fn details_of(env: JsonValue) -> Option<Seq<(String, JsonValue)>> {
    match member(env, "details"@) {
        Some(JsonValue::Object(entries)) => Some(entries@),
        _ => None,
    }
}

/// The string items of the `piiTypes` member when it is an array, else none.
pub open spec fn pii_types_of(env: JsonValue) -> Seq<Seq<char>> {
    match member(env, "piiTypes"@) {
        Some(JsonValue::Array(items)) => string_items(items@),
        _ => Seq::empty(),
    }
}

/// The `retryAfter` member when it is a non-negative integer.
pub open spec fn retry_after_of(env: JsonValue) -> Option<u64> {
    match member(env, "retryAfter"@) {
        Some(JsonValue::Number(n)) => as_unsigned(n),
        _ => None,
    }
}

/// The text of an optional string.
pub open spec fn text_opt(o: Option<String>) -> Option<Seq<char>> {
    match o {
        Some(s) => Some(s@),
        None => None,
    }
}

/// The members of an optional object.
pub open spec fn entries_opt(o: Option<Vec<(String, JsonValue)>>) -> Option<Seq<(String, JsonValue)>> {
    match o {
        Some(v) => Some(v@),
        None => None,
    }
}

/// The texts of a list of strings.
pub open spec fn texts(v: Vec<String>) -> Seq<Seq<char>> {
    v@.map_values(|s: String| s@)
}

/// Whether a 422 response reports personal data: an explicit `pii_detected`
/// code, or a non-empty list of detected kinds.
pub open spec fn reports_pii(env: JsonValue) -> bool {
    code_of(env) == Some("pii_detected"@) || pii_types_of(env).len() > 0
}

/// `e` is the classification of a failed response with status `status` and body `body`.
pub open spec fn classifies(status: u16, body: JsonValue, e: VeilMailError) -> bool {
    let env = envelope_of(body);
    let msg = message_of(env);
    let code = code_of(env);
    if status == 401 {
        e matches VeilMailError::Authentication { message, code: c }
            && message@ == msg && text_opt(c) == code
    } else if status == 403 {
        e matches VeilMailError::Forbidden { message, code: c }
            && message@ == msg && text_opt(c) == code
    } else if status == 404 {
        e matches VeilMailError::NotFound { message, code: c }
            && message@ == msg && text_opt(c) == code
    } else if status == 400 {
        e matches VeilMailError::Validation { message, code: c, details }
            && message@ == msg && text_opt(c) == code && entries_opt(details) == details_of(env)
    } else if status == 422 {
        if reports_pii(env) {
            e matches VeilMailError::PiiDetected { message, pii_types, code: c }
                && message@ == msg && text_opt(c) == code && texts(pii_types) == pii_types_of(env)
        } else {
            e matches VeilMailError::Validation { message, code: c, details }
                && message@ == msg && text_opt(c) == code && details is None
        }
    } else if status == 429 {
        e matches VeilMailError::RateLimit { message, retry_after, code: c }
            && message@ == msg && text_opt(c) == code && retry_after == retry_after_of(env)
    } else if status >= 500 {
        e matches VeilMailError::Server { message, status_code, code: c }
            && message@ == msg && text_opt(c) == code && status_code == status
    } else {
        e matches VeilMailError::Other(message) && message@ == msg
    }
}

/// Separates the error envelope from a failure body.
pub fn error_envelope(body: JsonValue) -> (r: JsonValue)
    ensures
        r == envelope_of(body),
{
    into_structured_member_or_self(body, "error")
}

impl VeilMailError {
    /// Classifies a failed response by its status code and body.
    pub fn from_response(status: u16, body: JsonValue) -> (r: VeilMailError)
        ensures
            classifies(status, body, r),
    {
        let env = error_envelope(body);
        let message = match string_member(&env, "message") {
            Some(m) => m,
            None => "Unknown error".to_owned(),
        };
        let code = string_member(&env, "code");
        if status == 401 {
            VeilMailError::Authentication { message, code }
        } else if status == 403 {
            VeilMailError::Forbidden { message, code }
        } else if status == 404 {
            VeilMailError::NotFound { message, code }
        } else if status == 400 {
            let details = take_object_member(env, "details");
            VeilMailError::Validation { message, code, details }
        } else if status == 422 {
            let pii_types = string_items_member(&env, "piiTypes");
            let explicit = match &code {
                Some(c) => *c == "pii_detected".to_owned(),
                None => false,
            };
            if explicit || pii_types.len() > 0 {
                VeilMailError::PiiDetected { message, pii_types, code }
            } else {
                VeilMailError::Validation { message, code, details: None }
            }
        } else if status == 429 {
            let retry_after = unsigned_member(&env, "retryAfter");
            VeilMailError::RateLimit { message, retry_after, code }
        } else if status >= 500 {
            VeilMailError::Server { message, status_code: status, code }
        } else {
            VeilMailError::Other(message)
        }
    }
}

/// For 401, 403 and 404 the error is Authentication, Forbidden or NotFound
/// respectively, and a `message` and `code` given as strings reach it unchanged.
pub proof fn lemma_access_errors_keep_fields(
    status: u16,
    body: JsonValue,
    e: VeilMailError,
    message: String,
    code: String,
)
    requires
        status == 401 || status == 403 || status == 404,
        classifies(status, body, e),
        member(envelope_of(body), "message"@) == Some(JsonValue::String(message)),
        member(envelope_of(body), "code"@) == Some(JsonValue::String(code)),
    ensures
        status == 401 ==> (e matches VeilMailError::Authentication { message: m, code: Some(c) }
            && m@ == message@ && c@ == code@),
        status == 403 ==> (e matches VeilMailError::Forbidden { message: m, code: Some(c) }
            && m@ == message@ && c@ == code@),
        status == 404 ==> (e matches VeilMailError::NotFound { message: m, code: Some(c) }
            && m@ == message@ && c@ == code@),
{
}

/// For 400 the error is Validation; a `details` object reaches it with all its
/// members, whatever they nest, and a `details` of any other shape gives none.
pub proof fn lemma_validation_details(body: JsonValue, e: VeilMailError)
    requires
        classifies(400, body, e),
    ensures
        e matches VeilMailError::Validation { details, .. } && match member(envelope_of(body), "details"@) {
            Some(JsonValue::Object(d)) => details matches Some(x) && x@ == d@,
            _ => details is None,
        },
{
}

/// For 422 an explicit `pii_detected` code, or a non-empty `piiTypes` list,
/// gives PiiDetected; with neither the error is Validation without details.
pub proof fn lemma_unprocessable_disambiguation(body: JsonValue, e: VeilMailError)
    requires
        classifies(422, body, e),
    ensures
        code_of(envelope_of(body)) == Some("pii_detected"@) ==> e is PiiDetected,
        pii_types_of(envelope_of(body)).len() > 0 ==> e is PiiDetected,
        !reports_pii(envelope_of(body)) ==> (e matches VeilMailError::Validation { details, .. }
            && details is None),
{
}

/// For 429 the error is RateLimit, carrying `retryAfter` when it is a
/// non-negative integer and nothing when it is absent.
pub proof fn lemma_rate_limit_retry_after(body: JsonValue, e: VeilMailError)
    requires
        classifies(429, body, e),
    ensures
        e matches VeilMailError::RateLimit { retry_after, .. } && retry_after == retry_after_of(envelope_of(body)),
        member(envelope_of(body), "retryAfter"@) is None ==> (e matches VeilMailError::RateLimit { retry_after, .. }
            && retry_after is None),
{
}

/// Every status of 500 or more gives Server, carrying that status.
pub proof fn lemma_server_errors_keep_status(status: u16, body: JsonValue, e: VeilMailError)
    requires
        status >= 500,
        classifies(status, body, e),
    ensures
        e matches VeilMailError::Server { status_code, .. } && status_code == status,
{
}

} // verus!
