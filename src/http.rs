//! The decisions of the transport: which query parameters are sent, where a
//! request goes, and what a received status and body become for the caller.
use vstd::prelude::*;
use vstd::string::{StrSliceExecFns, StringExecFns};

use crate::error::{classifies, VeilMailError};
use crate::json::{inner_object_or_self, into_inner_object_or_self, JsonValue};

verus! {

/// The query parameters that are sent: those whose value is not empty, in order.
pub open spec fn sent_params<'a>(params: Seq<(&'a str, &'a str)>) -> Seq<(&'a str, &'a str)>
    decreases params.len(),
{
    if params.len() == 0 {
        Seq::empty()
    } else {
        let rest = sent_params(params.drop_last());
        if params.last().1@.len() == 0 {
            rest
        } else {
            rest.push(params.last())
        }
    }
}

/// `s` without the slashes at its end.
pub open spec fn without_trailing_slashes(s: Seq<char>) -> Seq<char>
    decreases s.len(),
{
    if s.len() > 0 && s.last() == '/' {
        without_trailing_slashes(s.drop_last())
    } else {
        s
    }
}

/// The body handed on when a response body was absent or not JSON.
pub open spec fn body_or_null(body: Option<JsonValue>) -> JsonValue {
    match body {
        Some(v) => v,
        None => JsonValue::Null,
    }
}

/// The body to classify: the parsed body, or null where it could not be parsed.
pub open spec fn parsed_or_null(body: Result<JsonValue, serde_json::Error>) -> JsonValue {
    match body {
        Ok(v) => v,
        Err(_) => JsonValue::Null,
    }
}

/// Drops the query parameters whose value is the empty string.
pub fn filter_query<'a>(params: &[(&'a str, &'a str)]) -> (r: Vec<(&'a str, &'a str)>)
    ensures
        r@ == sent_params(params@),
{
    let mut out: Vec<(&'a str, &'a str)> = Vec::new();
    let mut i: usize = 0;
    while i < params.len()
        invariant
            i <= params@.len(),
            out@ == sent_params(params@.subrange(0, i as int)),
        decreases params@.len() - i,
    {
        proof {
            assert(params@.subrange(0, i as int + 1).drop_last() == params@.subrange(0, i as int));
        }
        let p = params[i];
        if !p.1.is_empty() {
            out.push(p);
        }
        i = i + 1;
    }
    assert(params@.subrange(0, params@.len() as int) == params@);
    out
}

/// Removes the slashes at the end of a base URL.
pub fn trim_trailing_slashes(url: &str) -> (r: String)
    ensures
        r@ == without_trailing_slashes(url@),
{
    let mut end: usize = url.unicode_len();
    assert(url@.subrange(0, end as int) == url@);
    while end > 0 && url.get_char(end - 1) == '/'
        invariant
            end <= url@.len(),
            without_trailing_slashes(url@) == without_trailing_slashes(url@.subrange(0, end as int)),
        decreases end,
    {
        proof {
            assert(url@.subrange(0, end as int).drop_last() == url@.subrange(0, end as int - 1));
        }
        end = end - 1;
    }
    url.substring_char(0, end).to_owned()
}

/// The full URL of `path` under `base_url`.
pub fn request_url(base_url: &str, path: &str) -> (r: String)
    ensures
        r@ == base_url@ + path@,
{
    base_url.to_owned().concat(path)
}

/// Turns a response into the caller's result, given the outcome of parsing
/// its body as JSON. A 204 carries no body and yields an empty object; a
/// status of 400 or more is classified, over a null body where parsing
/// failed; any other status hands on the parsed body, or reports the parse
/// failure as a deserialization error.
pub fn handle_response(status: u16, body: Result<JsonValue, serde_json::Error>) -> (r: Result<JsonValue, VeilMailError>)
    ensures
        status == 204 ==> (r matches Ok(JsonValue::Object(members)) && members@.len() == 0),
        status != 204 && status >= 400 ==> (r matches Err(e) && classifies(status, parsed_or_null(body), e)),
        status != 204 && status < 400 ==> match body {
            Ok(v) => r == Ok::<JsonValue, VeilMailError>(v),
            Err(parse_error) => r matches Err(VeilMailError::Json(e)) && e == parse_error,
        },
{
    if status == 204 {
        return Ok(JsonValue::Object(Vec::new()));
    }
    if status >= 400 {
        let body = match body {
            Ok(v) => v,
            Err(_) => JsonValue::Null,
        };
        return Err(VeilMailError::from_response(status, body));
    }
    match body {
        Ok(v) => Ok(v),
        Err(e) => Err(VeilMailError::Json(e)),
    }
}

/// The outcome of a request whose successful body is not read as JSON:
/// a status of 400 or more is classified, any other status succeeds.
pub fn check_status(status: u16, body: Option<JsonValue>) -> (r: Result<(), VeilMailError>)
    ensures
        status >= 400 ==> (r matches Err(e) && classifies(status, body_or_null(body), e)),
        status < 400 ==> r is Ok,
{
    if status >= 400 {
        let body = match body {
            Some(v) => v,
            None => JsonValue::Null,
        };
        return Err(VeilMailError::from_response(status, body));
    }
    Ok(())
}

/// Takes a resource out of its `data` wrapper, when the response has one that
/// is an object; otherwise hands the response back as it is.
pub fn unwrap_data(value: JsonValue) -> (r: JsonValue)
    ensures
        r == inner_object_or_self(value, "data"@),
{
    into_inner_object_or_self(value, "data")
}

} // verus!
