//! The envelopes that the relay produces: the announcements of a connect and
//! of a disconnect, and a client's message stamped with its sender.

use vstd::prelude::*;
use crate::error::RelayError;
use crate::json::{
    empty_object, integer_value, json_parse, json_text, json_view, object_insert, parse_value,
    text_value, value_is_object, write_value, JsonModel,
};

verus! {

/// The text of an optional string.
pub open spec fn text_of(text: Option<String>) -> Option<Seq<char>> {
    match text {
        Some(text) => Some(text@),
        None => None,
    }
}

/// The object `{"type": kind, "client_id": client_id, "time": time}`.
pub open spec fn presence_model(kind: Seq<char>, client_id: Seq<char>, time: u64) -> JsonModel {
    JsonModel::Object(
        Map::<Seq<char>, JsonModel>::empty().insert("type"@, JsonModel::Text(kind)).insert(
            "client_id"@,
            JsonModel::Text(client_id),
        ).insert("time"@, JsonModel::Integer(time as int)),
    )
}

/// The announcement that `client_id` connected at `time`.
pub open spec fn connect_model(client_id: Seq<char>, time: u64) -> JsonModel {
    presence_model("connect"@, client_id, time)
}

/// The announcement that `client_id` disconnected at `time`.
pub open spec fn disconnect_model(client_id: Seq<char>, time: u64) -> JsonModel {
    presence_model("disconnect"@, client_id, time)
}

/// The wire text of the connect announcement, where it can be written.
pub open spec fn connect_text(client_id: Seq<char>, time: u64) -> Option<Seq<char>> {
    json_text(connect_model(client_id, time))
}

/// The wire text of the disconnect announcement, where it can be written.
pub open spec fn disconnect_text(client_id: Seq<char>, time: u64) -> Option<Seq<char>> {
    json_text(disconnect_model(client_id, time))
}

/// A client's value with its `client_id` field set to the sender's identity,
/// whatever the client wrote there; `None` where the value is no object.
pub open spec fn stamped_model(value: JsonModel, client_id: Seq<char>) -> Option<JsonModel> {
    match value {
        JsonModel::Object(fields) => Some(
            JsonModel::Object(fields.insert("client_id"@, JsonModel::Text(client_id))),
        ),
        _ => None,
    }
}

/// The wire text of a parsed payload once stamped; `None` where the payload
/// did not parse, is no object, or cannot be written back.
pub open spec fn stamped_value_text(parsed: Option<JsonModel>, client_id: Seq<char>) -> Option<
    Seq<char>,
> {
    match parsed {
        Some(value) => match stamped_model(value, client_id) {
            Some(stamped) => json_text(stamped),
            None => None,
        },
        None => None,
    }
}

/// The wire text of a raw payload once stamped with its sender.
pub open spec fn stamped_text(raw: Seq<char>, client_id: Seq<char>) -> Option<Seq<char>> {
    stamped_value_text(json_parse(raw), client_id)
}

/// The model of the outcome of a parse.
pub open spec fn parsed_model(parsed: Result<serde_json::Value, serde_json::Error>) -> Option<
    JsonModel,
> {
    match parsed {
        Ok(value) => Some(json_view(value)),
        Err(_) => None,
    }
}

/// Writes a value as wire text.
fn written(value: &serde_json::Value) -> (res: Option<String>)
    ensures
        text_of(res) == json_text(json_view(*value)),
{
    match write_value(value) {
        Ok(text) => Some(text),
        Err(_) => None,
    }
}

/// Builds and writes `{"type": kind, "client_id": client_id, "time": time}`.
fn presence_envelope(kind: &str, client_id: &str, time: u64) -> (res: Option<String>)
    ensures
        text_of(res) == json_text(presence_model(kind@, client_id@, time)),
{
    let mut envelope = empty_object();
    object_insert(&mut envelope, "type", text_value(kind));
    object_insert(&mut envelope, "client_id", text_value(client_id));
    object_insert(&mut envelope, "time", integer_value(time));
    written(&envelope)
}

/// The envelope that tells the peers of a new connection: the object with
/// `type` set to `"connect"`, `client_id` to the identity of the client that
/// joined and `time` to the second, counted from the Unix epoch, at which it
/// did.
pub fn connect_envelope(client_id: &str, time: u64) -> (res: Option<String>)
    ensures
        text_of(res) == connect_text(client_id@, time),
{
    presence_envelope("connect", client_id, time)
}

/// The envelope that tells the remaining peers that a client left.
pub fn disconnect_envelope(client_id: &str, time: u64) -> (res: Option<String>)
    ensures
        text_of(res) == disconnect_text(client_id@, time),
{
    presence_envelope("disconnect", client_id, time)
}

/// Stamps the outcome of a parse with the sender's identity and writes it
/// back. A payload that did not parse, or that is not an object, is malformed.
pub fn stamp_parsed(parsed: Result<serde_json::Value, serde_json::Error>, client_id: &str) -> (res:
    Result<String, RelayError>)
    ensures
        match res {
            Ok(text) => stamped_value_text(parsed_model(parsed), client_id@) == Some(text@),
            Err(e) => e == RelayError::MalformedEnvelope && stamped_value_text(
                parsed_model(parsed),
                client_id@,
            ) is None,
        },
{
    match parsed {
        Ok(value) => {
            if !value_is_object(&value) {
                return Err(RelayError::MalformedEnvelope);
            }
            let mut value = value;
            object_insert(&mut value, "client_id", text_value(client_id));
            match written(&value) {
                Some(text) => Ok(text),
                None => Err(RelayError::MalformedEnvelope),
            }
        },
        Err(_) => Err(RelayError::MalformedEnvelope),
    }
}

/// Reads a client's payload, sets its `client_id` field to the sender's
/// identity, overwriting what the client may have put there, and writes the
/// result as wire text.
pub fn stamp_envelope(raw: &str, client_id: &str) -> (res: Result<String, RelayError>)
    ensures
        match res {
            Ok(text) => stamped_text(raw@, client_id@) == Some(text@),
            Err(e) => e == RelayError::MalformedEnvelope && stamped_text(raw@, client_id@) is None,
        },
{
    stamp_parsed(parse_value(raw), client_id)
}

/// An announcement holds three fields and no other: `type` says what
/// happened, `client_id` is the identity of the client that it happened to,
/// and `time` is the second at which it did.
pub proof fn lemma_presence_fields(kind: Seq<char>, client_id: Seq<char>, time: u64)
    ensures
        presence_model(kind, client_id, time) is Object,
        presence_model(kind, client_id, time)->Object_0.dom() == set![
            "type"@,
            "client_id"@,
            "time"@,
        ],
        presence_model(kind, client_id, time)->Object_0["type"@] == JsonModel::Text(kind),
        presence_model(kind, client_id, time)->Object_0["client_id"@] == JsonModel::Text(client_id),
        presence_model(kind, client_id, time)->Object_0["time"@] == JsonModel::Integer(time as int),
{
    reveal_strlit("type");
    reveal_strlit("client_id");
    reveal_strlit("time");
    assert("type"@[1] != "time"@[1]);
    assert("type"@.len() != "client_id"@.len());
    assert(presence_model(kind, client_id, time)->Object_0.dom() =~= set![
        "type"@,
        "client_id"@,
        "time"@,
    ]);
}

/// The announcement of a connect names the client that connected and the
/// second at which it did.
pub proof fn lemma_connect_envelope_fields(client_id: Seq<char>, time: u64)
    ensures
        connect_model(client_id, time) is Object,
        connect_model(client_id, time)->Object_0["type"@] == JsonModel::Text("connect"@),
        connect_model(client_id, time)->Object_0["client_id"@] == JsonModel::Text(client_id),
        connect_model(client_id, time)->Object_0["time"@] == JsonModel::Integer(time as int),
{
    lemma_presence_fields("connect"@, client_id, time);
}

/// The announcement of a disconnect names the client that left and the
/// second at which it did.
pub proof fn lemma_disconnect_envelope_fields(client_id: Seq<char>, time: u64)
    ensures
        disconnect_model(client_id, time) is Object,
        disconnect_model(client_id, time)->Object_0["type"@] == JsonModel::Text("disconnect"@),
        disconnect_model(client_id, time)->Object_0["client_id"@] == JsonModel::Text(client_id),
        disconnect_model(client_id, time)->Object_0["time"@] == JsonModel::Integer(time as int),
{
    lemma_presence_fields("disconnect"@, client_id, time);
}

/// A stamped object carries the sender's identity in its `client_id` field
/// and is otherwise what the client sent.
pub proof fn lemma_stamp_sets_identity(fields: Map<Seq<char>, JsonModel>, client_id: Seq<char>)
    ensures
        stamped_model(JsonModel::Object(fields), client_id) is Some,
        stamped_model(JsonModel::Object(fields), client_id)->Some_0 is Object,
        ({
            let stamped = stamped_model(JsonModel::Object(fields), client_id)->Some_0->Object_0;
            &&& stamped.contains_key("client_id"@)
            &&& stamped["client_id"@] == JsonModel::Text(client_id)
            &&& forall|key: Seq<char>|
                key != "client_id"@ ==> (#[trigger] stamped.contains_key(key)
                    <==> fields.contains_key(key))
            &&& forall|key: Seq<char>|
                key != "client_id"@ && fields.contains_key(key) ==> #[trigger] stamped[key]
                    == fields[key]
        }),
{
}

/// What a client writes into the `client_id` field of its message has no
/// part in what goes out: the sender's identity takes its place.
pub proof fn lemma_stamp_ignores_claimed_identity(
    fields: Map<Seq<char>, JsonModel>,
    claimed: JsonModel,
    client_id: Seq<char>,
)
    ensures
        stamped_model(JsonModel::Object(fields.insert("client_id"@, claimed)), client_id)
            == stamped_model(JsonModel::Object(fields.remove("client_id"@)), client_id),
{
    assert(fields.insert("client_id"@, claimed).insert("client_id"@, JsonModel::Text(client_id))
        =~= fields.remove("client_id"@).insert("client_id"@, JsonModel::Text(client_id)));
}

/// A payload that does not parse, or that parses as anything but an object,
/// has no stamped text: nothing of it is relayed.
pub proof fn lemma_malformed_payload_has_no_text(raw: Seq<char>, client_id: Seq<char>)
    requires
        json_parse(raw) is None || !(json_parse(raw)->Some_0 is Object),
    ensures
        stamped_text(raw, client_id) is None,
{
}

} // verus!
