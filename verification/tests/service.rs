use page_config::errors::ConfigError;
use page_config::json::Json;
use page_config::service::{cache_key, Action, Command, Event, Session};
use std::collections::HashMap;

struct Stores {
    cache: HashMap<String, String>,
    store: HashMap<String, Json>,
    fail_cache_writes: bool,
}

impl Stores {
    fn new() -> Stores {
        Stores { cache: HashMap::new(), store: HashMap::new(), fail_cache_writes: false }
    }

    fn cache_text(&mut self, page: &str, text: &str) {
        self.cache.insert(page.to_string(), text.to_string());
    }
}

fn serve(stores: &mut Stores, page: &str, command: Command) -> Result<Option<Json>, ConfigError> {
    let (mut session, mut action) = Session::begin(page.to_string(), command);
    let mut steps = 0;
    loop {
        steps += 1;
        assert!(steps <= 6, "a request asks for at most five actions");
        let event = match action {
            Action::Reply { outcome } => {
                assert!(session.is_finished());
                return outcome;
            }
            Action::ReadCache { page_id } => Event::CacheRead { text: stores.cache.get(&page_id).cloned() },
            Action::ReadStore { page_id } => Event::StoreRead {
                config: stores.store.get(&page_id).map(|j| j.duplicate()),
            },
            Action::WriteCache { page_id, text } => {
                if stores.fail_cache_writes {
                    Event::Failed { message: "cache is read-only".to_string() }
                } else {
                    stores.cache.insert(page_id, text);
                    Event::Written
                }
            }
            Action::SaveStore { page_id, config } => {
                stores.store.insert(page_id, config);
                Event::Written
            }
        };
        assert!(session.can_step(&event));
        let (next, next_action) = session.step(event);
        session = next;
        action = next_action;
    }
}

fn s(t: &str) -> Json {
    Json::Str(t.to_string())
}

fn obj(members: Vec<(&str, Json)>) -> Json {
    Json::Object(members.into_iter().map(|(k, v)| (k.to_string(), v)).collect())
}

fn show(j: &Json) -> String {
    format!("{:?}", j)
}

fn field(name: &str) -> Json {
    obj(vec![("field", s(name))])
}

#[test]
fn cache_key_prefixes_page_id() {
    assert_eq!(cache_key("orders"), "pageconfig:orders");
    assert_eq!(cache_key(""), "pageconfig:");
}

#[test]
fn get_serves_cached_copy() {
    let mut st = Stores::new();
    st.cache_text("p", r#"{"listApi":"/cached","columns":2}"#);
    st.store.insert("p".to_string(), obj(vec![("listApi", s("/stored"))]));
    let got = serve(&mut st, "p", Command::GetConfig).ok().unwrap().unwrap();
    let expected = obj(vec![("columns", Json::Number("2".to_string())), ("listApi", s("/cached"))]);
    assert_eq!(show(&got), show(&expected));
}

#[test]
fn get_reads_through_store_into_cache() {
    let mut st = Stores::new();
    st.store.insert("p".to_string(), obj(vec![("listApi", s("/stored")), ("n", Json::Number("1.5".to_string()))]));
    let got = serve(&mut st, "p", Command::GetConfig).ok().unwrap().unwrap();
    assert_eq!(show(&got), show(&obj(vec![("listApi", s("/stored")), ("n", Json::Number("1.5".to_string()))])));
    assert_eq!(st.cache.get("p").unwrap(), r#"{"listApi":"/stored","n":1.5}"#);
}

#[test]
fn unreadable_cache_text_is_a_storage_failure() {
    let mut st = Stores::new();
    st.cache_text("p", "not json");
    let err = serve(&mut st, "p", Command::GetConfig).err().unwrap();
    assert!(matches!(err, ConfigError::Storage { .. }));
    assert_eq!(err.message(), "expected ident at line 1 column 2");
    let err = serve(&mut st, "p", Command::SyncToMongo).err().unwrap();
    assert!(matches!(err, ConfigError::Storage { .. }));
    assert!(st.store.is_empty());
}

#[test]
fn unwritable_number_is_a_storage_failure() {
    let mut st = Stores::new();
    st.store.insert("p".to_string(), obj(vec![("n", Json::Number("not a number".to_string()))]));
    let err = serve(&mut st, "p", Command::GetConfig).err().unwrap();
    assert!(matches!(err, ConfigError::Storage { .. }));
    assert!(st.cache.is_empty());
}

#[test]
fn get_missing_page_is_not_found() {
    let mut st = Stores::new();
    let err = serve(&mut st, "nope", Command::GetConfig).err().unwrap();
    assert_eq!(err.message(), "Configuration for nope not found");
    assert!(st.cache.is_empty());
}

#[test]
fn sync_copies_cache_to_store() {
    let mut st = Stores::new();
    st.cache_text("p", r#"{"listApi":"/new"}"#);
    st.store.insert("p".to_string(), obj(vec![("listApi", s("/old"))]));
    let out = serve(&mut st, "p", Command::SyncToMongo).ok().unwrap();
    assert!(out.is_none());
    assert_eq!(show(st.store.get("p").unwrap()), show(&obj(vec![("listApi", s("/new"))])));
    let got = serve(&mut st, "p", Command::GetConfig).ok().unwrap().unwrap();
    assert_eq!(show(&got), show(&obj(vec![("listApi", s("/new"))])));
}

#[test]
fn sync_without_cache_is_refused() {
    let mut st = Stores::new();
    st.store.insert("p".to_string(), obj(vec![]));
    let err = serve(&mut st, "p", Command::SyncToMongo).err().unwrap();
    assert_eq!(err.message(), "No configuration in cache for p");
    assert!(st.cache.is_empty());
}

#[test]
fn added_field_is_read_back() {
    let mut st = Stores::new();
    st.store.insert("p".to_string(), obj(vec![]));
    let cmd = Command::AddField { range_code: "create".to_string(), field: field("age") };
    assert!(serve(&mut st, "p", cmd).ok().unwrap().is_none());
    assert_eq!(st.cache.get("p").unwrap(), r#"{"createFields":[{"field":"age"}]}"#);
    let got = serve(&mut st, "p", Command::GetConfig).ok().unwrap().unwrap();
    assert_eq!(show(&got), show(&obj(vec![("createFields", Json::Array(vec![field("age")]))])));
    assert_eq!(show(st.store.get("p").unwrap()), show(&obj(vec![])));
}

#[test]
fn edited_and_deleted_fields_are_read_back() {
    let mut st = Stores::new();
    st.cache_text("p", r#"{"viewConfig":[{"field":"a"},{"field":"b"}]}"#);
    let edited = obj(vec![("field", s("b")), ("label", s("Bee"))]);
    let cmd = Command::EditField { range_code: "view".to_string(), field: edited };
    assert!(serve(&mut st, "p", cmd).is_ok());
    let cmd = Command::DeleteField { range_code: "view".to_string(), field_name: "a".to_string() };
    assert!(serve(&mut st, "p", cmd).is_ok());
    assert_eq!(st.cache.get("p").unwrap(), r#"{"viewConfig":[{"field":"b","label":"Bee"}]}"#);
    let got = serve(&mut st, "p", Command::GetConfig).ok().unwrap().unwrap();
    let expected = obj(vec![(
        "viewConfig",
        Json::Array(vec![obj(vec![("field", s("b")), ("label", s("Bee"))])]),
    )]);
    assert_eq!(show(&got), show(&expected));
}

#[test]
fn refused_change_only_reads_through() {
    let mut st = Stores::new();
    st.store.insert("p".to_string(), obj(vec![("listApi", s("/a"))]));
    let cmd = Command::AddField { range_code: "menu".to_string(), field: field("x") };
    let err = serve(&mut st, "p", cmd).err().unwrap();
    assert_eq!(err.message(), "Invalid range code: menu");
    assert_eq!(st.cache.get("p").unwrap(), r#"{"listApi":"/a"}"#);
}

#[test]
fn change_of_missing_page_is_not_found() {
    let mut st = Stores::new();
    let cmd = Command::DeleteField { range_code: "view".to_string(), field_name: "a".to_string() };
    let err = serve(&mut st, "ghost", cmd).err().unwrap();
    assert_eq!(err.message(), "Configuration for ghost not found");
}

#[test]
fn storage_failure_is_reported() {
    let mut st = Stores::new();
    st.store.insert("p".to_string(), obj(vec![]));
    st.fail_cache_writes = true;
    let err = serve(&mut st, "p", Command::GetConfig).err().unwrap();
    assert_eq!(err.message(), "cache is read-only");
    assert!(matches!(err, ConfigError::Storage { .. }));
}

#[test]
fn add_to_list_config_cannot_step() {
    let (session, _) = Session::begin(
        "p".to_string(),
        Command::AddField { range_code: "view".to_string(), field: field("a") },
    );
    let event = Event::CacheRead { text: Some("[]".to_string()) };
    assert!(!session.can_step(&event));
    assert!(!session.can_step(&Event::Written));
    assert!(session.can_step(&Event::CacheRead { text: None }));
    assert!(session.can_step(&Event::CacheRead { text: Some("{}".to_string()) }));
    assert!(session.can_step(&Event::CacheRead { text: Some("[".to_string()) }));
    assert_eq!(session.page_id(), "p");
}

#[test]
fn add_to_non_list_range_is_refused_and_not_written() {
    let mut st = Stores::new();
    st.cache_text("p", r#"{"viewConfig":{"layout":"grid"}}"#);
    let cmd = Command::AddField { range_code: "view".to_string(), field: field("x") };
    let err = serve(&mut st, "p", cmd).err().unwrap();
    assert_eq!(err.message(), "Range view does not hold a list of fields");
    assert_eq!(st.cache.get("p").unwrap(), r#"{"viewConfig":{"layout":"grid"}}"#);
}

#[test]
fn edit_without_range_is_refused() {
    let mut st = Stores::new();
    st.cache_text("p", "{}");
    let cmd = Command::EditField { range_code: "list".to_string(), field: field("x") };
    let err = serve(&mut st, "p", cmd).err().unwrap();
    assert_eq!(err.message(), "Field x not found in list");
}
