use page_config::errors::ConfigError;
use page_config::fields::{accepts_new_field, add_field, delete_field, edit_field, FieldRange};
use page_config::json::Json;

fn s(t: &str) -> Json {
    Json::Str(t.to_string())
}

fn obj(members: Vec<(&str, Json)>) -> Json {
    Json::Object(members.into_iter().map(|(k, v)| (k.to_string(), v)).collect())
}

fn named_field(name: &str, label: &str) -> Json {
    obj(vec![("field", s(name)), ("label", s(label))])
}

fn show(j: &Json) -> String {
    format!("{:?}", j)
}

#[test]
fn range_codes_name_their_members() {
    assert_eq!(FieldRange::from_code("view"), Some(FieldRange::View));
    assert_eq!(FieldRange::from_code("create"), Some(FieldRange::Create));
    assert_eq!(FieldRange::from_code("update"), Some(FieldRange::Update));
    assert_eq!(FieldRange::from_code("list"), Some(FieldRange::List));
    assert_eq!(FieldRange::from_code("table"), None);
    assert_eq!(FieldRange::View.config_key(), "viewConfig");
    assert_eq!(FieldRange::Create.config_key(), "createFields");
    assert_eq!(FieldRange::Update.config_key(), "updateFields");
    assert_eq!(FieldRange::List.config_key(), "tableFields");
}

#[test]
fn add_field_creates_missing_range() {
    let config = obj(vec![("listApi", s("/api/list"))]);
    let out = add_field(config, "create", named_field("age", "Age")).ok().unwrap();
    let expected = obj(vec![
        ("listApi", s("/api/list")),
        ("createFields", Json::Array(vec![named_field("age", "Age")])),
    ]);
    assert_eq!(show(&out), show(&expected));
}

#[test]
fn add_field_to_empty_config() {
    let out = add_field(Json::Null, "list", named_field("id", "Id")).ok().unwrap();
    let expected = obj(vec![("tableFields", Json::Array(vec![named_field("id", "Id")]))]);
    assert_eq!(show(&out), show(&expected));
}

#[test]
fn add_field_appends_new_name() {
    let config = obj(vec![("updateFields", Json::Array(vec![named_field("a", "A")]))]);
    let out = add_field(config, "update", named_field("b", "B")).ok().unwrap();
    let expected = obj(vec![(
        "updateFields",
        Json::Array(vec![named_field("a", "A"), named_field("b", "B")]),
    )]);
    assert_eq!(show(&out), show(&expected));
}

#[test]
fn add_field_skips_duplicate_name() {
    let config = obj(vec![("updateFields", Json::Array(vec![named_field("a", "A")]))]);
    let out = add_field(config, "update", named_field("a", "Other")).ok().unwrap();
    let expected = obj(vec![("updateFields", Json::Array(vec![named_field("a", "A")]))]);
    assert_eq!(show(&out), show(&expected));
}

#[test]
fn add_field_twice_adds_once() {
    let config = obj(vec![]);
    let once = add_field(config, "view", named_field("x", "X")).ok().unwrap();
    let expected = show(&once);
    let twice = add_field(once, "view", named_field("x", "X")).ok().unwrap();
    assert_eq!(show(&twice), expected);
}

#[test]
fn add_unnamed_field_is_appended_each_time() {
    let unnamed = obj(vec![("label", s("No name"))]);
    let config = obj(vec![("viewConfig", Json::Array(vec![]))]);
    let once = add_field(config, "view", unnamed).ok().unwrap();
    let twice = add_field(once, "view", obj(vec![("label", s("No name"))])).ok().unwrap();
    match twice {
        Json::Object(m) => match &m[0].1 {
            Json::Array(items) => assert_eq!(items.len(), 2),
            _ => panic!("not a list"),
        },
        _ => panic!("not an object"),
    }
}

#[test]
fn add_field_refuses_non_list_member() {
    let config = obj(vec![("viewConfig", obj(vec![("columns", Json::Number("2".to_string()))]))]);
    let err = add_field(config, "view", named_field("a", "A")).err().unwrap();
    assert!(matches!(err, ConfigError::RangeNotList { .. }));
    assert_eq!(err.message(), "Range view does not hold a list of fields");
    let config = obj(vec![("tableFields", Json::Null)]);
    let err = add_field(config, "list", named_field("a", "A")).err().unwrap();
    assert_eq!(err.message(), "Range list does not hold a list of fields");
}

#[test]
fn add_field_rejects_unknown_range() {
    let err = add_field(obj(vec![]), "sidebar", named_field("a", "A")).err().unwrap();
    assert_eq!(err.message(), "Invalid range code: sidebar");
    assert!(matches!(err, ConfigError::InvalidRangeCode { .. }));
}

#[test]
fn add_field_needs_object_or_empty_config() {
    assert!(accepts_new_field(&obj(vec![]), "view"));
    assert!(accepts_new_field(&Json::Null, "view"));
    assert!(!accepts_new_field(&Json::Array(vec![]), "view"));
    assert!(!accepts_new_field(&s("text"), "list"));
    assert!(accepts_new_field(&s("text"), "nowhere"));
}

#[test]
fn edit_field_replaces_first_of_name() {
    let config = obj(vec![(
        "createFields",
        Json::Array(vec![named_field("a", "A"), named_field("b", "B"), named_field("a", "A2")]),
    )]);
    let out = edit_field(config, "create", named_field("a", "New")).ok().unwrap();
    let expected = obj(vec![(
        "createFields",
        Json::Array(vec![named_field("a", "New"), named_field("b", "B"), named_field("a", "A2")]),
    )]);
    assert_eq!(show(&out), show(&expected));
}

#[test]
fn edit_field_reports_missing_name() {
    let config = obj(vec![("createFields", Json::Array(vec![named_field("a", "A")]))]);
    let err = edit_field(config, "create", obj(vec![("label", s("L"))])).err().unwrap();
    assert_eq!(err.message(), "Missing field name");
}

#[test]
fn edit_field_reports_unknown_field() {
    let config = obj(vec![("createFields", Json::Array(vec![named_field("a", "A")]))]);
    let err = edit_field(config, "create", named_field("zz", "Z")).err().unwrap();
    assert_eq!(err.message(), "Field zz not found in create");
}

#[test]
fn edit_field_without_list_finds_nothing() {
    let config = obj(vec![("listApi", s("/x"))]);
    let err = edit_field(config, "view", named_field("a", "A")).err().unwrap();
    assert_eq!(err.message(), "Field a not found in view");
    let config = obj(vec![("viewConfig", obj(vec![]))]);
    let err = edit_field(config, "view", named_field("a", "A")).err().unwrap();
    assert_eq!(err.message(), "Field a not found in view");
    let err = edit_field(Json::Null, "update", named_field("b", "B")).err().unwrap();
    assert_eq!(err.message(), "Field b not found in update");
    let config = obj(vec![("listApi", s("/x"))]);
    let err = edit_field(config, "view", obj(vec![])).err().unwrap();
    assert_eq!(err.message(), "Missing field name");
}

#[test]
fn add_keeps_other_members_and_order() {
    let config = obj(vec![
        ("listApi", s("/l")),
        ("createFields", Json::Array(vec![named_field("a", "A"), named_field("b", "B")])),
        ("columns", Json::Number("3".to_string())),
    ]);
    let out = add_field(config, "create", named_field("c", "C")).ok().unwrap();
    let expected = obj(vec![
        ("listApi", s("/l")),
        (
            "createFields",
            Json::Array(vec![named_field("a", "A"), named_field("b", "B"), named_field("c", "C")]),
        ),
        ("columns", Json::Number("3".to_string())),
    ]);
    assert_eq!(show(&out), show(&expected));
}

#[test]
fn edit_field_rejects_unknown_range() {
    let err = edit_field(obj(vec![]), "", named_field("a", "A")).err().unwrap();
    assert_eq!(err.message(), "Invalid range code: ");
}

#[test]
fn delete_field_removes_every_match() {
    let config = obj(vec![(
        "tableFields",
        Json::Array(vec![named_field("a", "A"), named_field("b", "B"), named_field("a", "A2")]),
    )]);
    let out = delete_field(config, "list", "a").ok().unwrap();
    let expected = obj(vec![("tableFields", Json::Array(vec![named_field("b", "B")]))]);
    assert_eq!(show(&out), show(&expected));
    let again = delete_field(out, "list", "a").ok().unwrap();
    assert_eq!(show(&again), show(&expected));
}

#[test]
fn delete_field_keeps_unnamed_elements() {
    let config = obj(vec![(
        "tableFields",
        Json::Array(vec![obj(vec![("label", s("x"))]), named_field("a", "A")]),
    )]);
    let out = delete_field(config, "list", "a").ok().unwrap();
    let expected = obj(vec![("tableFields", Json::Array(vec![obj(vec![("label", s("x"))])]))]);
    assert_eq!(show(&out), show(&expected));
}

#[test]
fn delete_field_rejects_unknown_range() {
    let err = delete_field(Json::Null, "views", "a").err().unwrap();
    assert_eq!(err.message(), "Invalid range code: views");
}

#[test]
fn error_messages() {
    let e = ConfigError::NotFound { page_id: "p1".to_string() };
    assert_eq!(e.message(), "Configuration for p1 not found");
    let e = ConfigError::NotCached { page_id: "p1".to_string() };
    assert_eq!(e.message(), "No configuration in cache for p1");
    let e = ConfigError::Storage { message: "connection refused".to_string() };
    assert_eq!(e.message(), "connection refused");
}

#[test]
fn json_helpers() {
    let doc = obj(vec![("field", s("name")), ("n", Json::Number("3".to_string()))]);
    assert_eq!(page_config::json::element_name(&doc).map(|x| x.as_str()), Some("name"));
    let copy = doc.duplicate();
    assert_eq!(show(&copy), show(&doc));
    assert!(doc.get(&"n".to_string()).is_some());
    assert!(doc.get(&"m".to_string()).is_none());
    assert!(Json::text("t").as_text().is_some());
}

#[test]
fn changes_keep_keys_distinct() {
    let config = obj(vec![("viewConfig", Json::Array(vec![])), ("listApi", s("/l"))]);
    let out = add_field(config, "view", named_field("a", "A")).ok().unwrap();
    let out = add_field(out, "list", named_field("b", "B")).ok().unwrap();
    let out = add_field(out, "list", named_field("c", "C")).ok().unwrap();
    let out = edit_field(out, "list", named_field("b", "B2")).ok().unwrap();
    let out = delete_field(out, "view", "a").ok().unwrap();
    match out {
        Json::Object(members) => {
            let keys: Vec<&str> = members.iter().map(|(k, _)| k.as_str()).collect();
            assert_eq!(keys, vec!["viewConfig", "listApi", "tableFields"]);
        }
        _ => panic!("not an object"),
    }
}
