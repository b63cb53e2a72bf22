use vstd::prelude::*;
use crate::json::{Json, member, get_member, spec_small_uint, parse_small_uint};

verus! {

/// Why a call of the API failed.
#[derive(Debug, PartialEq, Eq)]
pub enum ClientError {
    /// The request could not be sent, or its response could not be received.
    Transport(String),
    /// The response body is not JSON, or not of the shape the endpoint returns.
    Decode(String),
}

/// The status and the payload of an envelope `{"status": <n>, "data": <payload>}`,
/// or `None` where the body is not of that shape. Other members are ignored.
pub open spec fn spec_envelope(body: Json) -> Option<(u16, Json)> {
    match body {
        Json::Object(fields) => match (member(fields@, "status"@), member(fields@, "data"@)) {
            (Some(Json::Number(t)), Some(d)) => match spec_small_uint(t@) {
                Some(s) => Some((s, d)),
                None => None,
            },
            _ => None,
        },
        _ => None,
    }
}

/// Opens the envelope that every response of the API comes in: its status
/// and a reference to its payload.
pub fn open_envelope(body: &Json) -> (r: Result<(u16, &Json), ClientError>)
    ensures
        match r {
            Ok((s, d)) => spec_envelope(*body) == Some((s, *d)),
            Err(e) => spec_envelope(*body) is None && e is Decode,
        },
{
    let fields = match body {
        Json::Object(fields) => fields,
        _ => {
            return Err(ClientError::Decode(String::from_str("the body is not a JSON object")));
        },
    };
    let status = match get_member(fields, "status") {
        Some(Json::Number(t)) => match parse_small_uint(t.as_str()) {
            Some(s) => s,
            None => {
                return Err(ClientError::Decode(String::from_str("`status` is not a status code")));
            },
        },
        _ => {
            return Err(ClientError::Decode(String::from_str("missing or mistyped field `status`")));
        },
    };
    match get_member(fields, "data") {
        Some(d) => Ok((status, d)),
        None => Err(ClientError::Decode(String::from_str("missing field `data`"))),
    }
}

/// Round trip: an envelope written as `{"status": s, "data": p}`, with `s`
/// the text of a status code, opens to that status and to exactly `p`.
pub proof fn lemma_envelope_round_trip(
    body: Json,
    status_key: String,
    status_text: String,
    data_key: String,
    payload: Json,
)
    requires
        status_key@ == "status"@,
        data_key@ == "data"@,
        spec_small_uint(status_text@) is Some,
        body matches Json::Object(fields) && fields@ == seq![
            (status_key, Json::Number(status_text)),
            (data_key, payload),
        ],
    ensures
        spec_envelope(body) == Some((spec_small_uint(status_text@)->Some_0, payload)),
{
    reveal_strlit("status");
    reveal_strlit("data");
    let fields = body->Object_0@;
    assert("status"@.len() != "data"@.len());
    assert(fields[0].0@ != "data"@);
    assert(fields.drop_first()[0] == (data_key, payload));
    assert(member(fields, "data"@) == member(fields.drop_first(), "data"@));
}

/// A body that holds no `data` member is not an envelope: it is refused,
/// never read as an empty or default payload.
pub proof fn lemma_missing_data_refused(body: Json)
    requires
        body matches Json::Object(fields) && member(fields@, "data"@) is None,
    ensures
        spec_envelope(body) is None,
{
}

} // verus!
