//! The tools that the service offers over MCP: their descriptions, the call
//! that a tool request stands for, and the answer to it.
use vstd::prelude::*;
use vstd::string::*;
use crate::errors::{ConfigError, ConfigErrorView};
use crate::json::{
    Json, JsonValue, entries_view, has_key, is_first_match, items_view, lemma_first_match_unique,
};
use crate::service::{Command, CommandView};
use crate::text::{json_text_of, render_json_text};

verus! {

/// Representation of an MCP Tool.
pub struct McpTool {
    pub name: String,
    pub description: String,
    pub input_schema: Json,
}

/// The mathematical value of an [`McpTool`].
pub struct McpToolView {
    pub name: Seq<char>,
    pub description: Seq<char>,
    pub input_schema: JsonValue,
}

impl View for McpTool {
    type V = McpToolView;

    open spec fn view(&self) -> McpToolView {
        McpToolView {
            name: self.name@,
            description: self.description@,
            input_schema: self.input_schema@,
        }
    }
}

/// A request to call a tool: its name and its arguments.
pub struct ToolCallRequest {
    pub name: String,
    pub arguments: Json,
}

/// The values of a sequence of tools.
pub open spec fn tools_view(tools: Seq<McpTool>) -> Seq<McpToolView> {
    Seq::new(tools.len(), |i: int| tools[i]@)
}

/// A schema that asks for a value of type `t`.
pub open spec fn type_schema(t: Seq<char>) -> JsonValue {
    JsonValue::Object(seq![("type"@, JsonValue::Str(t))])
}

/// The input schema of the tool that adds a field.
pub open spec fn add_field_schema() -> JsonValue {
    JsonValue::Object(
        seq![
            ("type"@, JsonValue::Str("object"@)),
            (
                "properties"@,
                JsonValue::Object(
                    seq![
                        ("page_id"@, type_schema("string"@)),
                        (
                            "range_code"@,
                            JsonValue::Object(
                                seq![
                                    ("type"@, JsonValue::Str("string"@)),
                                    (
                                        "enum"@,
                                        JsonValue::Array(
                                            seq![
                                                JsonValue::Str("view"@),
                                                JsonValue::Str("create"@),
                                                JsonValue::Str("update"@),
                                                JsonValue::Str("list"@),
                                            ],
                                        ),
                                    ),
                                ],
                            ),
                        ),
                        ("field"@, type_schema("object"@)),
                    ],
                ),
            ),
            (
                "required"@,
                JsonValue::Array(
                    seq![
                        JsonValue::Str("page_id"@),
                        JsonValue::Str("range_code"@),
                        JsonValue::Str("field"@),
                    ],
                ),
            ),
        ],
    )
}

/// The input schema of the tool that syncs a page to the store.
pub open spec fn sync_schema() -> JsonValue {
    JsonValue::Object(
        seq![
            ("type"@, JsonValue::Str("object"@)),
            ("properties"@, JsonValue::Object(seq![("page_id"@, type_schema("string"@))])),
            ("required"@, JsonValue::Array(seq![JsonValue::Str("page_id"@)])),
        ],
    )
}

/// The tools the service offers.
pub open spec fn available_tools() -> Seq<McpToolView> {
    seq![
        McpToolView {
            name: "add_field"@,
            description: "Add a field to a page configuration"@,
            input_schema: add_field_schema(),
        },
        McpToolView {
            name: "sync_to_mongo"@,
            description: "Sync current cached configuration to MongoDB"@,
            input_schema: sync_schema(),
        },
    ]
}

/// A tool as a document: its name, description and input schema.
pub open spec fn tool_json(t: McpToolView) -> JsonValue {
    JsonValue::Object(
        seq![
            ("name"@, JsonValue::Str(t.name)),
            ("description"@, JsonValue::Str(t.description)),
            ("input_schema"@, t.input_schema),
        ],
    )
}

/// The message that lists the tools.
pub open spec fn tools_list_json(tools: Seq<McpToolView>) -> JsonValue {
    JsonValue::Object(
        seq![
            ("type"@, JsonValue::Str("tools/list"@)),
            ("tools"@, JsonValue::Array(tools.map_values(|t: McpToolView| tool_json(t)))),
        ],
    )
}

/// A member named `key`.
fn member(key: &str, value: Json) -> (r: (String, Json))
    ensures
        r.0@ == key@,
        r.1@ == value@,
{
    (key.to_owned(), value)
}

/// A schema that asks for a value of type `t`.
fn typed(t: &str) -> (r: Json)
    ensures
        r@ == type_schema(t@),
{
    let mut m: Vec<(String, Json)> = Vec::new();
    m.push(member("type", Json::text(t)));
    assert(entries_view(m@) =~= seq![("type"@, JsonValue::Str(t@))]);
    Json::object(m)
}

/// The input schema of the tool that adds a field.
fn add_field_input_schema() -> (r: Json)
    ensures
        r@ == add_field_schema(),
{
    let mut codes: Vec<Json> = Vec::new();
    codes.push(Json::text("view"));
    codes.push(Json::text("create"));
    codes.push(Json::text("update"));
    codes.push(Json::text("list"));
    assert(items_view(codes@) =~= seq![
        JsonValue::Str("view"@),
        JsonValue::Str("create"@),
        JsonValue::Str("update"@),
        JsonValue::Str("list"@),
    ]);
    let codes = Json::array(codes);
    let mut range: Vec<(String, Json)> = Vec::new();
    range.push(member("type", Json::text("string")));
    range.push(member("enum", codes));
    assert(entries_view(range@) =~= seq![("type"@, JsonValue::Str("string"@)), ("enum"@, codes@)]);
    let range = Json::object(range);
    let mut props: Vec<(String, Json)> = Vec::new();
    props.push(member("page_id", typed("string")));
    props.push(member("range_code", range));
    props.push(member("field", typed("object")));
    assert(entries_view(props@) =~= seq![
        ("page_id"@, type_schema("string"@)),
        ("range_code"@, range@),
        ("field"@, type_schema("object"@)),
    ]);
    let props = Json::object(props);
    let mut required: Vec<Json> = Vec::new();
    required.push(Json::text("page_id"));
    required.push(Json::text("range_code"));
    required.push(Json::text("field"));
    assert(items_view(required@) =~= seq![
        JsonValue::Str("page_id"@),
        JsonValue::Str("range_code"@),
        JsonValue::Str("field"@),
    ]);
    let required = Json::array(required);
    let mut schema: Vec<(String, Json)> = Vec::new();
    schema.push(member("type", Json::text("object")));
    schema.push(member("properties", props));
    schema.push(member("required", required));
    assert(entries_view(schema@) =~= seq![
        ("type"@, JsonValue::Str("object"@)),
        ("properties"@, props@),
        ("required"@, required@),
    ]);
    Json::object(schema)
}

/// The input schema of the tool that syncs a page to the store.
fn sync_input_schema() -> (r: Json)
    ensures
        r@ == sync_schema(),
{
    let mut props: Vec<(String, Json)> = Vec::new();
    props.push(member("page_id", typed("string")));
    assert(entries_view(props@) =~= seq![("page_id"@, type_schema("string"@))]);
    let props = Json::object(props);
    let mut required: Vec<Json> = Vec::new();
    required.push(Json::text("page_id"));
    assert(items_view(required@) =~= seq![JsonValue::Str("page_id"@)]);
    let required = Json::array(required);
    let mut schema: Vec<(String, Json)> = Vec::new();
    schema.push(member("type", Json::text("object")));
    schema.push(member("properties", props));
    schema.push(member("required", required));
    assert(entries_view(schema@) =~= seq![
        ("type"@, JsonValue::Str("object"@)),
        ("properties"@, props@),
        ("required"@, required@),
    ]);
    Json::object(schema)
}

/// The tools the service offers.
pub fn list_available_tools() -> (r: Vec<McpTool>)
    ensures
        tools_view(r@) == available_tools(),
{
    let mut tools: Vec<McpTool> = Vec::new();
    tools.push(
        McpTool {
            name: "add_field".to_owned(),
            description: "Add a field to a page configuration".to_owned(),
            input_schema: add_field_input_schema(),
        },
    );
    tools.push(
        McpTool {
            name: "sync_to_mongo".to_owned(),
            description: "Sync current cached configuration to MongoDB".to_owned(),
            input_schema: sync_input_schema(),
        },
    );
    assert(tools_view(tools@) =~= available_tools());
    tools
}

impl McpTool {
    /// The tool as a document: its name, description and input schema.
    pub fn to_json(&self) -> (r: Json)
        ensures
            r@ == tool_json(self@),
    {
        let mut m: Vec<(String, Json)> = Vec::new();
        m.push(member("name", Json::Str(self.name.clone())));
        m.push(member("description", Json::Str(self.description.clone())));
        m.push(member("input_schema", self.input_schema.duplicate()));
        assert(entries_view(m@) =~= seq![
            ("name"@, JsonValue::Str(self.name@)),
            ("description"@, JsonValue::Str(self.description@)),
            ("input_schema"@, self.input_schema@),
        ]);
        Json::object(m)
    }
}

/// The message that lists `tools`.
pub fn tools_list_message(tools: &Vec<McpTool>) -> (r: Json)
    ensures
        r@ == tools_list_json(tools_view(tools@)),
{
    let ghost tv = tools_view(tools@);
    let mut items: Vec<Json> = Vec::new();
    let mut i: usize = 0;
    while i < tools.len()
        invariant
            i <= tools.len(),
            tv == tools_view(tools@),
            items@.len() == i,
            forall|j: int| 0 <= j < i ==> (#[trigger] items@[j])@ == tool_json(tv[j]),
        decreases tools.len() - i,
    {
        items.push(tools[i].to_json());
        i = i + 1;
    }
    assert(items_view(items@) =~= tv.map_values(|t: McpToolView| tool_json(t)));
    let items = Json::array(items);
    let mut m: Vec<(String, Json)> = Vec::new();
    m.push(member("type", Json::text("tools/list")));
    m.push(member("tools", items));
    assert(entries_view(m@) =~= seq![
        ("type"@, JsonValue::Str("tools/list"@)),
        ("tools"@, items@),
    ]);
    Json::object(m)
}

/// The message that announces the tools the service offers.
pub fn tools_list_event() -> (r: Json)
    ensures
        r@ == tools_list_json(available_tools()),
{
    let tools = list_available_tools();
    tools_list_message(&tools)
}

/// The text of the message that announces the tools the service offers, or
/// the message of the failure to write it.
pub fn tools_list_text() -> (r: Result<String, String>)
    ensures
        match r {
            Ok(t) => json_text_of(tools_list_json(available_tools())) == Ok::<
                Seq<char>,
                Seq<char>,
            >(t@),
            Err(m) => json_text_of(tools_list_json(available_tools())) == Err::<
                Seq<char>,
                Seq<char>,
            >(m@),
        },
{
    let message = tools_list_event();
    render_json_text(&message)
}

/// The tools a request can name.
#[derive(PartialEq, Eq, Structural, Clone, Copy, Debug)]
pub enum ToolKind {
    AddField,
    SyncToMongo,
    Unknown,
}

/// What a tool request asks for.
pub enum ToolCall {
    /// Add `field` to the range `range_code` of the page `page_id`.
    AddField { page_id: String, range_code: String, field: Json },
    /// Sync the page `page_id` to the store.
    SyncToMongo { page_id: String },
    /// A tool the service does not offer.
    Unknown,
}

/// The mathematical value of a [`ToolCall`].
pub enum ToolCallView {
    AddField(Seq<char>, Seq<char>, JsonValue),
    SyncToMongo(Seq<char>),
    Unknown,
}

impl View for ToolCall {
    type V = ToolCallView;

    open spec fn view(&self) -> ToolCallView {
        match self {
            ToolCall::AddField { page_id, range_code, field } => ToolCallView::AddField(
                page_id@,
                range_code@,
                field@,
            ),
            ToolCall::SyncToMongo { page_id } => ToolCallView::SyncToMongo(page_id@),
            ToolCall::Unknown => ToolCallView::Unknown,
        }
    }
}

/// The text argument `key`, or the empty text where it is missing or is not
/// a string.
pub open spec fn text_argument(arguments: JsonValue, key: Seq<char>) -> Seq<char> {
    match arguments.member(key) {
        Some(v) => match v.as_text() {
            Some(t) => t,
            None => Seq::empty(),
        },
        None => Seq::empty(),
    }
}

/// The document argument `key`, or an empty object where it is missing.
pub open spec fn document_argument(arguments: JsonValue, key: Seq<char>) -> JsonValue {
    match arguments.member(key) {
        Some(v) => v,
        None => JsonValue::Object(Seq::empty()),
    }
}

/// What a request to call the tool `name` with `arguments` asks for.
pub open spec fn tool_call_of(name: Seq<char>, arguments: JsonValue) -> ToolCallView {
    if name == "add_field"@ {
        ToolCallView::AddField(
            text_argument(arguments, "page_id"@),
            text_argument(arguments, "range_code"@),
            document_argument(arguments, "field"@),
        )
    } else if name == "sync_to_mongo"@ {
        ToolCallView::SyncToMongo(text_argument(arguments, "page_id"@))
    } else {
        ToolCallView::Unknown
    }
}

/// The text argument `key`, or the empty text.
fn text_arg(arguments: &Json, key: &str) -> (r: String)
    ensures
        r@ == text_argument(arguments@, key@),
{
    let k = key.to_owned();
    match arguments.get(&k) {
        Some(v) => match v.as_text() {
            Some(t) => t.clone(),
            None => String::new(),
        },
        None => String::new(),
    }
}

/// What a tool request asks for.
pub fn plan_tool_call(request: &ToolCallRequest) -> (r: ToolCall)
    ensures
        r@ == tool_call_of(request.name@, request.arguments@),
{
    let args = &request.arguments;
    if request.name == String::from_str("add_field") {
        let page_id = text_arg(args, "page_id");
        let range_code = text_arg(args, "range_code");
        let k = String::from_str("field");
        let field = match args.get(&k) {
            Some(v) => v.duplicate(),
            None => {
                let empty: Vec<(String, Json)> = Vec::new();
                assert(entries_view(empty@) =~= Seq::empty());
                Json::object(empty)
            },
        };
        ToolCall::AddField { page_id, range_code, field }
    } else if request.name == String::from_str("sync_to_mongo") {
        ToolCall::SyncToMongo { page_id: text_arg(args, "page_id") }
    } else {
        ToolCall::Unknown
    }
}

impl ToolCall {
    /// The tool the call names.
    pub fn kind(&self) -> (r: ToolKind)
        ensures
            r == (match self@ {
                ToolCallView::AddField(..) => ToolKind::AddField,
                ToolCallView::SyncToMongo(..) => ToolKind::SyncToMongo,
                ToolCallView::Unknown => ToolKind::Unknown,
            }),
    {
        match self {
            ToolCall::AddField { .. } => ToolKind::AddField,
            ToolCall::SyncToMongo { .. } => ToolKind::SyncToMongo,
            ToolCall::Unknown => ToolKind::Unknown,
        }
    }

    /// The page and the service request that the call stands for; nothing
    /// for a tool the service does not offer.
    pub fn into_request(self) -> (r: Option<(String, Command)>)
        ensures
            match self@ {
                ToolCallView::AddField(p, c, f) => r matches Some((page, command)) && page@ == p
                    && command@ == CommandView::AddField(c, f),
                ToolCallView::SyncToMongo(p) => r matches Some((page, command)) && page@ == p
                    && command@ == CommandView::SyncToMongo,
                ToolCallView::Unknown => r is None,
            },
    {
        match self {
            ToolCall::AddField { page_id, range_code, field } => Some(
                (page_id, Command::AddField { range_code, field }),
            ),
            ToolCall::SyncToMongo { page_id } => Some((page_id, Command::SyncToMongo)),
            ToolCall::Unknown => None,
        }
    }
}

/// The answer to a tool call: its status and message.
pub open spec fn tool_reply_json(kind: ToolKind, failure: Option<ConfigErrorView>) -> JsonValue {
    match kind {
        ToolKind::Unknown => status_json("error"@, "Tool not found"@),
        _ => match failure {
            Some(e) => status_json("error"@, e.message()),
            None => status_json(
                "success"@,
                if kind == ToolKind::AddField {
                    "Field added via MCP"@
                } else {
                    "Synced via MCP"@
                },
            ),
        },
    }
}

/// A status and a message as a document.
pub open spec fn status_json(status: Seq<char>, message: Seq<char>) -> JsonValue {
    JsonValue::Object(
        seq![("status"@, JsonValue::Str(status)), ("message"@, JsonValue::Str(message))],
    )
}

/// A status and a message as a document.
fn status_message(status: &str, message: String) -> (r: Json)
    ensures
        r@ == status_json(status@, message@),
{
    let mut m: Vec<(String, Json)> = Vec::new();
    m.push(member("status", Json::text(status)));
    m.push(member("message", Json::Str(message)));
    assert(entries_view(m@) =~= seq![
        ("status"@, JsonValue::Str(status@)),
        ("message"@, JsonValue::Str(message@)),
    ]);
    Json::object(m)
}

/// The answer to a call of the tool `kind` that failed with `failure`, or
/// succeeded where there is none.
pub fn tool_reply(kind: ToolKind, failure: Option<&ConfigError>) -> (r: Json)
    ensures
        r@ == tool_reply_json(
            kind,
            match failure {
                Some(e) => Some(e@),
                None => None,
            },
        ),
{
    match kind {
        ToolKind::Unknown => status_message("error", "Tool not found".to_owned()),
        _ => match failure {
            Some(e) => status_message("error", e.message()),
            None => match kind {
                ToolKind::AddField => status_message("success", "Field added via MCP".to_owned()),
                _ => status_message("success", "Synced via MCP".to_owned()),
            },
        },
    }
}

/// A call of a tool the service offers that failed is answered with status
/// `error` and the failure's message.
pub proof fn law_failed_tool_call_is_an_error(kind: ToolKind, e: ConfigErrorView)
    requires
        kind != ToolKind::Unknown,
    ensures
        tool_reply_json(kind, Some(e)) == JsonValue::Object(
            seq![("status"@, JsonValue::Str("error"@)), ("message"@, JsonValue::Str(e.message()))],
        ),
{
}

/// A tool call is answered with status `success` only when the tool is one
/// the service offers and there is no failure.
pub proof fn law_success_only_without_failure(kind: ToolKind, failure: Option<ConfigErrorView>)
    ensures
        tool_reply_json(kind, failure).member("status"@) == Some(JsonValue::Str("success"@))
            ==> failure is None && kind != ToolKind::Unknown,
{
    reveal_strlit("success");
    reveal_strlit("error");
    let r = tool_reply_json(kind, failure);
    match r {
        JsonValue::Object(o) => {
            assert(is_first_match(o, has_key("status"@), 0));
            lemma_first_match_unique(o, has_key("status"@), 0);
            if failure is Some || kind == ToolKind::Unknown {
                assert(o[0].1 == JsonValue::Str("error"@));
                assert("error"@.len() != "success"@.len());
            }
        },
        _ => {},
    }
}

/// A call without failure is answered with status `success` and the tool's
/// message; a call of a tool the service does not offer is answered with
/// status `error`, whatever else happened.
pub proof fn law_tool_answers(failure: Option<ConfigErrorView>)
    ensures
        tool_reply_json(ToolKind::AddField, None) == JsonValue::Object(
            seq![
                ("status"@, JsonValue::Str("success"@)),
                ("message"@, JsonValue::Str("Field added via MCP"@)),
            ],
        ),
        tool_reply_json(ToolKind::SyncToMongo, None) == JsonValue::Object(
            seq![
                ("status"@, JsonValue::Str("success"@)),
                ("message"@, JsonValue::Str("Synced via MCP"@)),
            ],
        ),
        tool_reply_json(ToolKind::Unknown, failure) == JsonValue::Object(
            seq![
                ("status"@, JsonValue::Str("error"@)),
                ("message"@, JsonValue::Str("Tool not found"@)),
            ],
        ),
{
}

} // verus!
