//! Admission to the relay: which upgrade requests carry what is needed, what
//! is sent to the service that verifies a signature, and how its answer is
//! read.

use vstd::prelude::*;
use crate::envelope::{parsed_model, text_of};
use crate::error::RelayError;
use crate::json::{
    empty_object, has_field, integer_value, json_parse, json_text, object_insert,
    parse_value, text_value, value_as_str, value_get, write_value, JsonModel,
};
use crate::text::{parse_unsigned, same_text, unsigned_of};

verus! {

/// What a client supplies to be let in.
#[derive(Debug)]
pub struct Credentials {
    /// The identity that the client claims.
    pub client_id: String,
    /// The signature that is to prove it.
    pub sign: String,
    /// The second, counted from the Unix epoch, at which the signature was
    /// made.
    pub timestamp: u64,
}

/// How an upgrade request that is not let in is answered.
#[derive(Clone, Copy, Debug, PartialEq, Eq, Structural)]
pub enum Refusal {
    /// The caller is not authorized.
    Unauthorized,
    /// The verification service could not be asked.
    ServiceUnavailable,
}

/// The credentials that three supplied values make up, where they make up
/// any: none may be missing, and the timestamp must be an unsigned number.
pub open spec fn supplied(
    client_id: Option<&str>,
    sign: Option<&str>,
    timestamp: Option<&str>,
) -> Result<(Seq<char>, Seq<char>, u64), RelayError> {
    if client_id is None || sign is None || timestamp is None {
        Err(RelayError::AuthMissingCredential)
    } else {
        match unsigned_of(timestamp->Some_0@) {
            Some(seconds) => Ok((client_id->Some_0@, sign->Some_0@, seconds)),
            None => Err(RelayError::AuthInvalidTimestamp),
        }
    }
}

/// The object `{"client_id": client_id, "sign": sign, "ts": timestamp}`.
pub open spec fn request_model(client_id: Seq<char>, sign: Seq<char>, timestamp: u64) -> JsonModel {
    JsonModel::Object(
        Map::<Seq<char>, JsonModel>::empty().insert("client_id"@, JsonModel::Text(client_id)).insert(
            "sign"@,
            JsonModel::Text(sign),
        ).insert("ts"@, JsonModel::Integer(timestamp as int)),
    )
}

/// How an answer of the verification service, once parsed, is to be read: an
/// object whose field `ec` is the string `"ok"` lets the client in; one whose
/// `ec` is another string turns it away; anything else is no answer.
pub open spec fn judged(answer: Option<JsonModel>) -> Result<(), RelayError> {
    match answer {
        Some(value) => if has_field(value, "ec"@) && value->Object_0["ec"@] is Text {
            if value->Object_0["ec"@]->Text_0 == "ok"@ {
                Ok(())
            } else {
                Err(RelayError::AuthRejected)
            }
        } else {
            Err(RelayError::AuthServiceUnreachable)
        },
        None => Err(RelayError::AuthServiceUnreachable),
    }
}

/// How the outcome of the call to the verification service is to be read:
/// without a response body the service was not reached.
pub open spec fn verdict_of(response: Option<&str>) -> Result<(), RelayError> {
    match response {
        Some(body) => judged(json_parse(body@)),
        None => Err(RelayError::AuthServiceUnreachable),
    }
}

/// Collects the credentials of an upgrade request from the three values that
/// the caller may have supplied.
pub fn credentials(client_id: Option<&str>, sign: Option<&str>, timestamp: Option<&str>) -> (res:
    Result<Credentials, RelayError>)
    ensures
        match res {
            Ok(found) => supplied(client_id, sign, timestamp) == Ok::<
                (Seq<char>, Seq<char>, u64),
                RelayError,
            >((found.client_id@, found.sign@, found.timestamp)),
            Err(e) => supplied(client_id, sign, timestamp) == Err::<
                (Seq<char>, Seq<char>, u64),
                RelayError,
            >(e),
        },
{
    match (client_id, sign, timestamp) {
        (Some(client_id), Some(sign), Some(timestamp)) => {
            match parse_unsigned(timestamp) {
                Some(seconds) => Ok(
                    Credentials {
                        client_id: client_id.to_owned(),
                        sign: sign.to_owned(),
                        timestamp: seconds,
                    },
                ),
                None => Err(RelayError::AuthInvalidTimestamp),
            }
        },
        _ => Err(RelayError::AuthMissingCredential),
    }
}

/// The body of the request that asks the verification service about a
/// client's signature.
pub fn verification_request(credentials: &Credentials) -> (body: Option<String>)
    ensures
        text_of(body) == json_text(
            request_model(credentials.client_id@, credentials.sign@, credentials.timestamp),
        ),
{
    let mut request = empty_object();
    object_insert(&mut request, "client_id", text_value(credentials.client_id.as_str()));
    object_insert(&mut request, "sign", text_value(credentials.sign.as_str()));
    object_insert(&mut request, "ts", integer_value(credentials.timestamp));
    match write_value(&request) {
        Ok(body) => Some(body),
        Err(_) => None,
    }
}

/// Reads a parsed answer of the verification service.
pub fn judge(answer: Result<serde_json::Value, serde_json::Error>) -> (res: Result<(), RelayError>)
    ensures
        res == judged(parsed_model(answer)),
{
    match answer {
        Ok(value) => {
            match value_get(&value, "ec") {
                Some(field) => match value_as_str(field) {
                    Some(code) => if same_text(code, "ok") {
                        Ok(())
                    } else {
                        Err(RelayError::AuthRejected)
                    },
                    None => Err(RelayError::AuthServiceUnreachable),
                },
                None => Err(RelayError::AuthServiceUnreachable),
            }
        },
        Err(_) => Err(RelayError::AuthServiceUnreachable),
    }
}

/// Decides on an upgrade request from what the verification service sent
/// back: its response body, or nothing where the call failed.
pub fn verdict(response: Option<&str>) -> (res: Result<(), RelayError>)
    ensures
        res == verdict_of(response),
{
    match response {
        Some(body) => judge(parse_value(body)),
        None => Err(RelayError::AuthServiceUnreachable),
    }
}

/// How an upgrade request that failed for `error` is answered. A service
/// that could not be asked is the relay's trouble; a credential that is
/// missing, ill-formed or not accepted is the caller's. An error that does
/// not come from admission has no answer.
pub fn refusal(error: RelayError) -> (answer: Option<Refusal>)
    ensures
        answer == match error {
            RelayError::AuthServiceUnreachable => Some(Refusal::ServiceUnavailable),
            RelayError::AuthMissingCredential => Some(Refusal::Unauthorized),
            RelayError::AuthInvalidTimestamp => Some(Refusal::Unauthorized),
            RelayError::AuthRejected => Some(Refusal::Unauthorized),
            _ => None,
        },
{
    match error {
        RelayError::AuthServiceUnreachable => Some(Refusal::ServiceUnavailable),
        RelayError::AuthMissingCredential => Some(Refusal::Unauthorized),
        RelayError::AuthInvalidTimestamp => Some(Refusal::Unauthorized),
        RelayError::AuthRejected => Some(Refusal::Unauthorized),
        _ => None,
    }
}

} // verus!
