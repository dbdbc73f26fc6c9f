use vstd::prelude::*;

use crate::error::FuseLlmError;
use crate::text::{owned, same_text};

verus! {

/// A request to the search service.
#[derive(Debug)]
pub enum SearchRequest {
    CreateIndex { index_id: String },
    DeleteIndex { index_id: String },
    Add { index_id: String, file_path: String, content: String },
    Remove { index_id: String, file_path: String },
    Query { index_id: String, query_text: String },
}

/// The command word of a request.
pub open spec fn command_of(r: SearchRequest) -> Seq<char> {
    match r {
        SearchRequest::CreateIndex { .. } => "create_index"@,
        SearchRequest::DeleteIndex { .. } => "delete_index"@,
        SearchRequest::Add { .. } => "add_document"@,
        SearchRequest::Remove { .. } => "remove_document"@,
        SearchRequest::Query { .. } => "query"@,
    }
}

/// The payload fields of a request, as names and texts.
pub open spec fn payload_of(r: SearchRequest) -> Seq<(Seq<char>, Seq<char>)> {
    match r {
        SearchRequest::CreateIndex { index_id } => seq![("index_id"@, index_id@)],
        SearchRequest::DeleteIndex { index_id } => seq![("index_id"@, index_id@)],
        SearchRequest::Add { index_id, file_path, content } => seq![
            ("index_id"@, index_id@),
            ("file_path"@, file_path@),
            ("content"@, content@),
        ],
        SearchRequest::Remove { index_id, file_path } => seq![("index_id"@, index_id@), ("file_path"@, file_path@)],
        SearchRequest::Query { index_id, query_text } => seq![("index_id"@, index_id@), ("query_text"@, query_text@)],
    }
}

/// The JSON text of the object `{command_key: command, payload_key: {name:
/// text, ...}}`.
pub uninterp spec fn json_request(
    command_key: Seq<char>,
    command: Seq<char>,
    payload_key: Seq<char>,
    payload: Seq<(Seq<char>, Seq<char>)>,
) -> Seq<char>;

/// The status and data fields of a JSON reply object, under the given keys:
/// the data as its text when it is a string, as JSON text when it is
/// another value, and none when it is null or missing. None when the text
/// is not a JSON object with a string under the status key.
pub uninterp spec fn json_reply(text: Seq<char>, status_key: Seq<char>, data_key: Seq<char>) -> Option<(Seq<char>, Option<Seq<char>>)>;

/// The names and texts of payload fields.
pub open spec fn fields_view(v: Seq<(String, String)>) -> Seq<(Seq<char>, Seq<char>)> {
    v.map_values(|f: (String, String)| (f.0@, f.1@))
}

/// Relies on `serde_json::Map` and `serde_json::Value`'s `Display`: the
/// compact JSON text of the request object under the given keys.
#[verifier::external_body]
fn request_json(command_key: &str, command: &str, payload_key: &str, payload: &Vec<(String, String)>) -> (r: String)
    ensures
        r@ == json_request(command_key@, command@, payload_key@, fields_view(payload@)),
{
    let fields: serde_json::Map<String, serde_json::Value> =
        payload.iter().map(|(k, v)| (k.clone(), serde_json::Value::String(v.clone()))).collect();
    let mut object = serde_json::Map::new();
    object.insert(command_key.to_string(), serde_json::Value::String(command.to_string()));
    object.insert(payload_key.to_string(), serde_json::Value::Object(fields));
    serde_json::Value::Object(object).to_string()
}

/// Relies on `serde_json::from_str` into a `serde_json::Value`: the status
/// string and the data field of a reply object, under the given keys.
#[verifier::external_body]
fn reply_fields(text: &str, status_key: &str, data_key: &str) -> (r: Option<(String, Option<String>)>)
    ensures
        r matches Some(f) ==> json_reply(text@, status_key@, data_key@) == Some((f.0@, match f.1 {
            Some(d) => Some(d@),
            None => None,
        })),
        r is None ==> json_reply(text@, status_key@, data_key@) is None,
{
    let value: serde_json::Value = serde_json::from_str(text).ok()?;
    let status = match value.get(status_key) {
        Some(serde_json::Value::String(s)) => s.clone(),
        _ => return None,
    };
    let data = match value.get(data_key) {
        None | Some(serde_json::Value::Null) => None,
        Some(serde_json::Value::String(s)) => Some(s.clone()),
        Some(other) => Some(other.to_string()),
    };
    Some((status, data))
}

fn field(name: &str, value: &String) -> (r: (String, String))
    ensures
        r.0@ == name@,
        r.1@ == value@,
{
    (owned(name), value.clone())
}

/// Encodes a request for the search service's socket.
pub fn encode_search_request(req: &SearchRequest) -> (r: String)
    ensures
        r@ == json_request("command"@, command_of(*req), "payload"@, payload_of(*req)),
{
    let (command, payload): (&str, Vec<(String, String)>) = match req {
        SearchRequest::CreateIndex { index_id } => ("create_index", vec![field("index_id", index_id)]),
        SearchRequest::DeleteIndex { index_id } => ("delete_index", vec![field("index_id", index_id)]),
        SearchRequest::Add { index_id, file_path, content } => (
            "add_document",
            vec![field("index_id", index_id), field("file_path", file_path), field("content", content)],
        ),
        SearchRequest::Remove { index_id, file_path } => (
            "remove_document",
            vec![field("index_id", index_id), field("file_path", file_path)],
        ),
        SearchRequest::Query { index_id, query_text } => (
            "query",
            vec![field("index_id", index_id), field("query_text", query_text)],
        ),
    };
    proof {
        assert(fields_view(payload@) =~= payload_of(*req));
    }
    request_json("command", command, "payload", &payload)
}

/// What a reply means: its data on `ok`; a search failure carrying the data
/// (or a stock message) on `error`; a search failure on anything else.
pub open spec fn reply_outcome(reply: Option<(Seq<char>, Option<Seq<char>>)>) -> Result<Option<Seq<char>>, Seq<char>> {
    match reply {
        Some((status, data)) => if status == "ok"@ {
            Ok(data)
        } else if status == "error"@ {
            Err(match data {
                Some(d) => d,
                None => "unknown error"@,
            })
        } else {
            Err("malformed reply"@)
        },
        None => Err("malformed reply"@),
    }
}

/// Decodes a reply of the search service.
pub fn decode_search_reply(text: &str) -> (r: Result<Option<String>, FuseLlmError>)
    ensures
        reply_outcome(json_reply(text@, "status"@, "data"@)) matches Ok(d) ==> (r matches Ok(x) && match x {
            Some(s) => d == Some(s@),
            None => d is None,
        }),
        reply_outcome(json_reply(text@, "status"@, "data"@)) matches Err(m) ==> (r matches Err(FuseLlmError::SearchFailure(s)) && s@ == m),
{
    match reply_fields(text, "status", "data") {
        None => Err(FuseLlmError::SearchFailure(owned("malformed reply"))),
        Some((status, data)) => {
            if same_text(status.as_str(), "ok") {
                Ok(data)
            } else if same_text(status.as_str(), "error") {
                Err(FuseLlmError::SearchFailure(match data {
                    Some(d) => d,
                    None => owned("unknown error"),
                }))
            } else {
                Err(FuseLlmError::SearchFailure(owned("malformed reply")))
            }
        },
    }
}

} // verus!
