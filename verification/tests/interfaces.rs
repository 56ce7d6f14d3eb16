use page_config::errors::ConfigError;
use page_config::json::Json;
use page_config::mcp::{
    list_available_tools, plan_tool_call, tool_reply, tools_list_event, tools_list_text, ToolCall,
    ToolCallRequest, ToolKind,
};
use page_config::rest::{http_reply, DeleteFieldMutation, Endpoint, FieldMutation, PageQuery};
use page_config::service::Command;

fn s(t: &str) -> Json {
    Json::Str(t.to_string())
}

fn obj(members: Vec<(&str, Json)>) -> Json {
    Json::Object(members.into_iter().map(|(k, v)| (k.to_string(), v)).collect())
}

fn show(j: &Json) -> String {
    format!("{:?}", j)
}

#[test]
fn tools_are_listed() {
    let tools = list_available_tools();
    assert_eq!(tools.len(), 2);
    assert_eq!(tools[0].name, "add_field");
    assert_eq!(tools[0].description, "Add a field to a page configuration");
    assert_eq!(tools[1].name, "sync_to_mongo");
    assert_eq!(tools[1].description, "Sync current cached configuration to MongoDB");
    let sync_schema = obj(vec![
        ("type", s("object")),
        ("properties", obj(vec![("page_id", obj(vec![("type", s("string"))]))])),
        ("required", Json::Array(vec![s("page_id")])),
    ]);
    assert_eq!(show(&tools[1].input_schema), show(&sync_schema));
    let add_schema = obj(vec![
        ("type", s("object")),
        (
            "properties",
            obj(vec![
                ("page_id", obj(vec![("type", s("string"))])),
                (
                    "range_code",
                    obj(vec![
                        ("type", s("string")),
                        ("enum", Json::Array(vec![s("view"), s("create"), s("update"), s("list")])),
                    ]),
                ),
                ("field", obj(vec![("type", s("object"))])),
            ]),
        ),
        ("required", Json::Array(vec![s("page_id"), s("range_code"), s("field")])),
    ]);
    assert_eq!(show(&tools[0].input_schema), show(&add_schema));
}

#[test]
fn tools_list_message_names_tools() {
    let msg = tools_list_event();
    match msg {
        Json::Object(m) => {
            assert_eq!(m[0].0, "type");
            assert_eq!(show(&m[0].1), show(&s("tools/list")));
            assert_eq!(m[1].0, "tools");
            match &m[1].1 {
                Json::Array(items) => {
                    assert_eq!(items.len(), 2);
                    match &items[0] {
                        Json::Object(t) => {
                            assert_eq!(t[0].0, "name");
                            assert_eq!(show(&t[0].1), show(&s("add_field")));
                            assert_eq!(t[2].0, "input_schema");
                        }
                        _ => panic!("tool is not an object"),
                    }
                }
                _ => panic!("tools is not a list"),
            }
        }
        _ => panic!("message is not an object"),
    }
}

#[test]
fn add_field_call_takes_arguments() {
    let req = ToolCallRequest {
        name: "add_field".to_string(),
        arguments: obj(vec![
            ("page_id", s("p1")),
            ("range_code", s("list")),
            ("field", obj(vec![("field", s("a"))])),
        ]),
    };
    let call = plan_tool_call(&req);
    assert_eq!(call.kind(), ToolKind::AddField);
    match call.into_request() {
        Some((page, Command::AddField { range_code, field })) => {
            assert_eq!(page, "p1");
            assert_eq!(range_code, "list");
            assert_eq!(show(&field), show(&obj(vec![("field", s("a"))])));
        }
        _ => panic!("not an add request"),
    }
}

#[test]
fn add_field_call_defaults_missing_arguments() {
    let req = ToolCallRequest {
        name: "add_field".to_string(),
        arguments: obj(vec![("page_id", Json::Number("7".to_string()))]),
    };
    match plan_tool_call(&req) {
        ToolCall::AddField { page_id, range_code, field } => {
            assert_eq!(page_id, "");
            assert_eq!(range_code, "");
            assert_eq!(show(&field), show(&obj(vec![])));
        }
        _ => panic!("not an add call"),
    }
}

#[test]
fn sync_and_unknown_calls() {
    let req = ToolCallRequest { name: "sync_to_mongo".to_string(), arguments: obj(vec![("page_id", s("p9"))]) };
    match plan_tool_call(&req).into_request() {
        Some((page, Command::SyncToMongo)) => assert_eq!(page, "p9"),
        _ => panic!("not a sync request"),
    }
    let req = ToolCallRequest { name: "drop_db".to_string(), arguments: Json::Null };
    let call = plan_tool_call(&req);
    assert_eq!(call.kind(), ToolKind::Unknown);
    assert!(call.into_request().is_none());
}

#[test]
fn tool_replies() {
    let ok = obj(vec![("status", s("success")), ("message", s("Field added via MCP"))]);
    assert_eq!(show(&tool_reply(ToolKind::AddField, None)), show(&ok));
    let ok = obj(vec![("status", s("success")), ("message", s("Synced via MCP"))]);
    assert_eq!(show(&tool_reply(ToolKind::SyncToMongo, None)), show(&ok));
    let e = ConfigError::NotCached { page_id: "p".to_string() };
    let err = obj(vec![("status", s("error")), ("message", s("No configuration in cache for p"))]);
    assert_eq!(show(&tool_reply(ToolKind::SyncToMongo, Some(&e))), show(&err));
    let nf = obj(vec![("status", s("error")), ("message", s("Tool not found"))]);
    assert_eq!(show(&tool_reply(ToolKind::Unknown, None)), show(&nf));
}

#[test]
fn http_replies() {
    let r = http_reply(Endpoint::GetConfig, Ok(Some(obj(vec![("a", s("b"))]))));
    assert_eq!(r.status, 200);
    assert_eq!(show(&r.body), show(&obj(vec![("a", s("b"))])));
    let r = http_reply(Endpoint::GetConfig, Err(ConfigError::NotFound { page_id: "x".to_string() }));
    assert_eq!(r.status, 404);
    assert_eq!(show(&r.body), show(&obj(vec![("error", s("Configuration for x not found"))])));
    let r = http_reply(Endpoint::SyncToMongo, Ok(None));
    assert_eq!((r.status, show(&r.body)), (200, show(&obj(vec![("message", s("Synced to MongoDB"))]))));
    let r = http_reply(Endpoint::SyncToMongo, Err(ConfigError::Storage { message: "down".to_string() }));
    assert_eq!((r.status, show(&r.body)), (500, show(&obj(vec![("error", s("down"))]))));
    let r = http_reply(Endpoint::AddField, Ok(None));
    assert_eq!((r.status, show(&r.body)), (200, show(&obj(vec![("message", s("Field added"))]))));
    let r = http_reply(Endpoint::EditField, Ok(None));
    assert_eq!((r.status, show(&r.body)), (200, show(&obj(vec![("message", s("Field updated"))]))));
    let r = http_reply(Endpoint::DeleteField, Ok(None));
    assert_eq!((r.status, show(&r.body)), (200, show(&obj(vec![("message", s("Field deleted"))]))));
    let r = http_reply(Endpoint::EditField, Err(ConfigError::MissingFieldName));
    assert_eq!((r.status, show(&r.body)), (400, show(&obj(vec![("error", s("Missing field name"))]))));
}

#[test]
fn request_bodies_become_commands() {
    let q = PageQuery { id: "p".to_string() };
    assert_eq!(q.id, "p");
    let m = FieldMutation { range_code: "view".to_string(), field: obj(vec![]) };
    assert!(matches!(m.into_add_command(), Command::AddField { .. }));
    let m = FieldMutation { range_code: "view".to_string(), field: obj(vec![]) };
    assert!(matches!(m.into_edit_command(), Command::EditField { .. }));
    let d = DeleteFieldMutation { range_code: "list".to_string(), field_name: "a".to_string() };
    match d.into_command() {
        Command::DeleteField { range_code, field_name } => {
            assert_eq!(range_code, "list");
            assert_eq!(field_name, "a");
        }
        _ => panic!("not a delete"),
    }
}

#[test]
fn tools_list_text_is_compact_json() {
    let text = tools_list_text().ok().unwrap();
    assert!(text.starts_with(r#"{"tools":[{"description":"Add a field to a page configuration","input_schema":{"properties":"#));
    assert!(text.ends_with(r#""name":"sync_to_mongo"}],"type":"tools/list"}"#));
    assert!(text.contains(r#""enum":["view","create","update","list"]"#));
}
