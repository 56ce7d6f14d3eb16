//! The HTTP interface of the service: the bodies that requests carry, and the
//! status and body of each answer.
use vstd::prelude::*;
use crate::errors::{ConfigError, ConfigErrorView};
use crate::json::{Json, JsonValue, entries_view};
use crate::service::{Command, CommandView, reply_view};

verus! {

/// The query of a configuration read: the page's id.
pub struct PageQuery {
    pub id: String,
}

/// The body of a request that adds or edits a field.
pub struct FieldMutation {
    pub range_code: String,
    pub field: Json,
}

/// The body of a request that deletes a field.
pub struct DeleteFieldMutation {
    pub range_code: String,
    pub field_name: String,
}

impl FieldMutation {
    /// The request that adds the field.
    pub fn into_add_command(self) -> (r: Command)
        ensures
            r@ == CommandView::AddField(self.range_code@, self.field@),
    {
        Command::AddField { range_code: self.range_code, field: self.field }
    }

    /// The request that edits the field.
    pub fn into_edit_command(self) -> (r: Command)
        ensures
            r@ == CommandView::EditField(self.range_code@, self.field@),
    {
        Command::EditField { range_code: self.range_code, field: self.field }
    }
}

impl DeleteFieldMutation {
    /// The request that deletes the fields of the name.
    pub fn into_command(self) -> (r: Command)
        ensures
            r@ == CommandView::DeleteField(self.range_code@, self.field_name@),
    {
        Command::DeleteField { range_code: self.range_code, field_name: self.field_name }
    }
}

/// The operations of the HTTP interface.
#[derive(PartialEq, Eq, Structural, Clone, Copy, Debug)]
pub enum Endpoint {
    GetConfig,
    SyncToMongo,
    AddField,
    EditField,
    DeleteField,
}

/// The status and body of an answer.
pub struct HttpReply {
    pub status: u16,
    pub body: Json,
}

/// A document with one text member.
pub open spec fn single_text(key: Seq<char>, text: Seq<char>) -> JsonValue {
    JsonValue::Object(seq![(key, JsonValue::Str(text))])
}

/// The status of a failed operation.
pub open spec fn failure_status(endpoint: Endpoint) -> u16 {
    match endpoint {
        Endpoint::GetConfig => 404,
        Endpoint::SyncToMongo => 500,
        _ => 400,
    }
}

/// The message of a successful operation that returns no configuration.
pub open spec fn success_message(endpoint: Endpoint) -> Seq<char> {
    match endpoint {
        Endpoint::SyncToMongo => "Synced to MongoDB"@,
        Endpoint::AddField => "Field added"@,
        Endpoint::EditField => "Field updated"@,
        _ => "Field deleted"@,
    }
}

/// The status and body of the answer to an operation with this outcome: a
/// read answers with the configuration, the other operations with a message;
/// a failure answers with its message under `error`.
pub open spec fn http_reply_of(
    endpoint: Endpoint,
    outcome: Result<Option<JsonValue>, ConfigErrorView>,
) -> (u16, JsonValue) {
    match outcome {
        Err(e) => (failure_status(endpoint), single_text("error"@, e.message())),
        Ok(found) => match endpoint {
            Endpoint::GetConfig => (
                200,
                match found {
                    Some(c) => c,
                    None => JsonValue::Null,
                },
            ),
            _ => (200, single_text("message"@, success_message(endpoint))),
        },
    }
}

/// A document with one text member.
fn text_document(key: &str, text: String) -> (r: Json)
    ensures
        r@ == single_text(key@, text@),
{
    let mut m: Vec<(String, Json)> = Vec::new();
    m.push((key.to_owned(), Json::Str(text)));
    assert(entries_view(m@) =~= seq![(key@, JsonValue::Str(text@))]);
    Json::object(m)
}

/// The answer to an operation with this outcome.
pub fn http_reply(endpoint: Endpoint, outcome: Result<Option<Json>, ConfigError>) -> (r: HttpReply)
    ensures
        (r.status, r.body@) == http_reply_of(endpoint, reply_view(outcome)),
{
    match outcome {
        Err(e) => {
            let status: u16 = match endpoint {
                Endpoint::GetConfig => 404,
                Endpoint::SyncToMongo => 500,
                _ => 400,
            };
            HttpReply { status, body: text_document("error", e.message()) }
        },
        Ok(found) => match endpoint {
            Endpoint::GetConfig => HttpReply {
                status: 200,
                body: match found {
                    Some(c) => c,
                    None => Json::Null,
                },
            },
            Endpoint::SyncToMongo => HttpReply {
                status: 200,
                body: text_document("message", "Synced to MongoDB".to_owned()),
            },
            Endpoint::AddField => HttpReply {
                status: 200,
                body: text_document("message", "Field added".to_owned()),
            },
            Endpoint::EditField => HttpReply {
                status: 200,
                body: text_document("message", "Field updated".to_owned()),
            },
            Endpoint::DeleteField => HttpReply {
                status: 200,
                body: text_document("message", "Field deleted".to_owned()),
            },
        },
    }
}

/// A failed operation is never answered with status 200: a failed field
/// change is answered with 400, a failed read with 404, a failed sync with
/// 500; the body carries the failure's message under `error`.
pub proof fn law_failure_status(endpoint: Endpoint, e: ConfigErrorView)
    ensures
        http_reply_of(endpoint, Err(e)).0 != 200,
        endpoint == Endpoint::AddField || endpoint == Endpoint::EditField || endpoint
            == Endpoint::DeleteField ==> http_reply_of(endpoint, Err(e)).0 == 400,
        endpoint == Endpoint::GetConfig ==> http_reply_of(endpoint, Err(e)).0 == 404,
        endpoint == Endpoint::SyncToMongo ==> http_reply_of(endpoint, Err(e)).0 == 500,
        http_reply_of(endpoint, Err(e)).1 == JsonValue::Object(
            seq![("error"@, JsonValue::Str(e.message()))],
        ),
{
}

/// A successful operation is answered with status 200; a read answers with
/// the configuration it read.
pub proof fn law_success_status(endpoint: Endpoint, found: Option<JsonValue>)
    ensures
        http_reply_of(endpoint, Ok(found)).0 == 200,
        endpoint == Endpoint::GetConfig && found is Some ==> http_reply_of(endpoint, Ok(found)).1
            == found->0,
{
}

/// The message of each successful operation that returns no configuration.
pub proof fn law_success_messages()
    ensures
        http_reply_of(Endpoint::SyncToMongo, Ok(None)).1 == JsonValue::Object(
            seq![("message"@, JsonValue::Str("Synced to MongoDB"@))],
        ),
        http_reply_of(Endpoint::AddField, Ok(None)).1 == JsonValue::Object(
            seq![("message"@, JsonValue::Str("Field added"@))],
        ),
        http_reply_of(Endpoint::EditField, Ok(None)).1 == JsonValue::Object(
            seq![("message"@, JsonValue::Str("Field updated"@))],
        ),
        http_reply_of(Endpoint::DeleteField, Ok(None)).1 == JsonValue::Object(
            seq![("message"@, JsonValue::Str("Field deleted"@))],
        ),
{
}

} // verus!
