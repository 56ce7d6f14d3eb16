//! The decisions of the configuration service, one request at a time.
//!
//! A request is a [`Session`] that asks for one storage action at a time: it
//! reads a page's configuration, kept there as JSON text, from the cache
//! (Redis) first and from the store (MongoDB) where the cache misses, fills
//! the cache from the store, applies a field change, writes the result back
//! to the cache, or copies the cached configuration to the store. Whoever runs a session performs each
//! action and hands its result back as an [`Event`], until the session
//! replies.
use vstd::prelude::*;
use vstd::string::*;
use crate::errors::{ConfigError, ConfigErrorView};
use crate::fields::{
    accepts_new_field, add_field, add_field_outcome, can_add_field, delete_field,
    delete_field_outcome, edit_field, edit_field_outcome,
};
use crate::json::{Json, JsonValue};
use crate::text::{json_text_of, json_text_value, parse_json_text, render_json_text};

verus! {

/// The cache key under which a page's configuration is kept.
pub open spec fn cache_key_of(page_id: Seq<char>) -> Seq<char> {
    "pageconfig:"@ + page_id
}

/// The cache key under which a page's configuration is kept.
pub fn cache_key(page_id: &str) -> (key: String)
    ensures
        key@ == cache_key_of(page_id@),
{
    String::from_str("pageconfig:").concat(page_id)
}

/// A request to the configuration service about one page.
pub enum Command {
    /// Read the page's configuration.
    GetConfig,
    /// Copy the cached configuration to the store.
    SyncToMongo,
    /// Add a field to a range.
    AddField { range_code: String, field: Json },
    /// Replace the field of the same name in a range.
    EditField { range_code: String, field: Json },
    /// Remove the fields of a name from a range.
    DeleteField { range_code: String, field_name: String },
}

/// The mathematical value of a [`Command`].
pub enum CommandView {
    GetConfig,
    SyncToMongo,
    AddField(Seq<char>, JsonValue),
    EditField(Seq<char>, JsonValue),
    DeleteField(Seq<char>, Seq<char>),
}

impl View for Command {
    type V = CommandView;

    open spec fn view(&self) -> CommandView {
        match self {
            Command::GetConfig => CommandView::GetConfig,
            Command::SyncToMongo => CommandView::SyncToMongo,
            Command::AddField { range_code, field } => CommandView::AddField(range_code@, field@),
            Command::EditField { range_code, field } => CommandView::EditField(
                range_code@,
                field@,
            ),
            Command::DeleteField { range_code, field_name } => CommandView::DeleteField(
                range_code@,
                field_name@,
            ),
        }
    }
}

/// Where a session stands.
pub enum Stage {
    /// Waiting for the cache's answer.
    ReadingCache,
    /// Waiting for the store's answer.
    ReadingStore,
    /// Waiting for the cache to take the configuration read from the store.
    FillingCache { config: Json },
    /// Waiting for the store to take the cached configuration.
    SavingStore,
    /// Waiting for the cache to take the changed configuration.
    WritingCache,
    /// The session has replied.
    Finished,
}

/// The mathematical value of a [`Stage`].
pub enum StageView {
    ReadingCache,
    ReadingStore,
    FillingCache(JsonValue),
    SavingStore,
    WritingCache,
    Finished,
}

impl View for Stage {
    type V = StageView;

    open spec fn view(&self) -> StageView {
        match self {
            Stage::ReadingCache => StageView::ReadingCache,
            Stage::ReadingStore => StageView::ReadingStore,
            Stage::FillingCache { config } => StageView::FillingCache(config@),
            Stage::SavingStore => StageView::SavingStore,
            Stage::WritingCache => StageView::WritingCache,
            Stage::Finished => StageView::Finished,
        }
    }
}

/// What a session asks of whoever runs it.
pub enum Action {
    /// Read the page's configuration from the cache.
    ReadCache { page_id: String },
    /// Read the page's configuration from the store.
    ReadStore { page_id: String },
    /// Write the page's configuration, as JSON text, to the cache.
    WriteCache { page_id: String, text: String },
    /// Save the page's configuration in the store.
    SaveStore { page_id: String, config: Json },
    /// Answer the request: the configuration read, nothing, or the failure.
    Reply { outcome: Result<Option<Json>, ConfigError> },
}

/// The value of what a request replies.
pub open spec fn reply_view(outcome: Result<Option<Json>, ConfigError>) -> Result<
    Option<JsonValue>,
    ConfigErrorView,
> {
    match outcome {
        Ok(Some(c)) => Ok(Some(c@)),
        Ok(None) => Ok(None),
        Err(e) => Err(e@),
    }
}

/// The mathematical value of an [`Action`].
pub enum ActionView {
    ReadCache(Seq<char>),
    ReadStore(Seq<char>),
    WriteCache(Seq<char>, Seq<char>),
    SaveStore(Seq<char>, JsonValue),
    Reply(Result<Option<JsonValue>, ConfigErrorView>),
}

impl View for Action {
    type V = ActionView;

    open spec fn view(&self) -> ActionView {
        match self {
            Action::ReadCache { page_id } => ActionView::ReadCache(page_id@),
            Action::ReadStore { page_id } => ActionView::ReadStore(page_id@),
            Action::WriteCache { page_id, text } => ActionView::WriteCache(page_id@, text@),
            Action::SaveStore { page_id, config } => ActionView::SaveStore(page_id@, config@),
            Action::Reply { outcome } => ActionView::Reply(reply_view(*outcome)),
        }
    }
}

/// What came of the action that a session asked for.
pub enum Event {
    /// The cache answered, with the configuration's JSON text where it holds
    /// one.
    CacheRead { text: Option<String> },
    /// The store answered, with the configuration where it holds one.
    StoreRead { config: Option<Json> },
    /// The write or the save is done.
    Written,
    /// The cache or the store failed.
    Failed { message: String },
}

/// The mathematical value of an [`Event`].
pub enum EventView {
    CacheRead(Option<Seq<char>>),
    StoreRead(Option<JsonValue>),
    Written,
    Failed(Seq<char>),
}

impl View for Event {
    type V = EventView;

    open spec fn view(&self) -> EventView {
        match self {
            Event::CacheRead { text } => EventView::CacheRead(
                match text {
                    Some(t) => Some(t@),
                    None => None,
                },
            ),
            Event::StoreRead { config } => EventView::StoreRead(
                match config {
                    Some(c) => Some(c@),
                    None => None,
                },
            ),
            Event::Written => EventView::Written,
            Event::Failed { message } => EventView::Failed(message@),
        }
    }
}

/// One request about one page, and where it stands.
pub struct Session {
    page_id: String,
    command: Command,
    stage: Stage,
}

/// The mathematical value of a [`Session`].
pub struct SessionView {
    pub page_id: Seq<char>,
    pub command: CommandView,
    pub stage: StageView,
}

impl View for Session {
    type V = SessionView;

    closed spec fn view(&self) -> SessionView {
        SessionView { page_id: self.page_id@, command: self.command@, stage: self.stage@ }
    }
}

impl SessionView {
    /// The same request at another stage.
    pub open spec fn at(self, stage: StageView) -> SessionView {
        SessionView { stage, ..self }
    }
}

/// The outcome of a command on the page's configuration: a field change
/// gives the changed configuration or its failure; the other commands leave
/// the configuration as it is.
pub open spec fn change_outcome(command: CommandView, config: JsonValue) -> Result<
    JsonValue,
    ConfigErrorView,
> {
    match command {
        CommandView::AddField(code, field) => add_field_outcome(config, code, field),
        CommandView::EditField(code, field) => edit_field_outcome(config, code, field),
        CommandView::DeleteField(code, name) => delete_field_outcome(config, code, name),
        _ => Ok(config),
    }
}

/// A command is defined on a configuration: adding a field needs an object
/// or an empty configuration where the range code is valid.
pub open spec fn command_defined(command: CommandView, config: JsonValue) -> bool {
    match command {
        CommandView::AddField(code, _) => can_add_field(config, code),
        _ => true,
    }
}

/// The first session at the start of a request, and the action it asks for.
pub open spec fn begin_spec(page_id: Seq<char>, command: CommandView) -> (SessionView, ActionView) {
    (
        SessionView { page_id, command, stage: StageView::ReadingCache },
        ActionView::ReadCache(page_id),
    )
}

/// What a session does once the page's configuration is at hand and in the
/// cache: a read replies with it; a field change writes the text of the
/// changed configuration to the cache, or replies with its failure, or with
/// the failure to write the text.
pub open spec fn loaded_spec(s: SessionView, config: JsonValue) -> (SessionView, ActionView) {
    match s.command {
        CommandView::GetConfig => (
            s.at(StageView::Finished),
            ActionView::Reply(Ok(Some(config))),
        ),
        _ => match change_outcome(s.command, config) {
            Ok(changed) => match json_text_of(changed) {
                Ok(text) => (
                    s.at(StageView::WritingCache),
                    ActionView::WriteCache(s.page_id, text),
                ),
                Err(m) => (
                    s.at(StageView::Finished),
                    ActionView::Reply(Err(ConfigErrorView::Storage(m))),
                ),
            },
            Err(e) => (s.at(StageView::Finished), ActionView::Reply(Err(e))),
        },
    }
}

/// The event is one that the session waits for.
pub open spec fn expects(s: SessionView, e: EventView) -> bool {
    match e {
        EventView::Failed(_) => !(s.stage is Finished),
        EventView::CacheRead(_) => s.stage is ReadingCache,
        EventView::StoreRead(_) => s.stage is ReadingStore,
        EventView::Written => s.stage is FillingCache || s.stage is SavingStore
            || s.stage is WritingCache,
    }
}

/// The configuration that the session applies its command to on this event.
pub open spec fn config_loaded_by(s: SessionView, e: EventView) -> Option<JsonValue> {
    match (s.stage, e) {
        (StageView::ReadingCache, EventView::CacheRead(Some(t))) => match s.command {
            CommandView::SyncToMongo => None,
            _ => match json_text_value(t) {
                Ok(c) => Some(c),
                Err(_) => None,
            },
        },
        (StageView::FillingCache(c), EventView::Written) => Some(c),
        _ => None,
    }
}

/// The session can take the event: it waits for it, and its command is
/// defined on the configuration that the event brings.
pub open spec fn can_step_spec(s: SessionView, e: EventView) -> bool {
    &&& expects(s, e)
    &&& config_loaded_by(s, e) matches Some(c) ==> command_defined(s.command, c)
}

/// The next session and the action it asks for, after an event.
pub open spec fn next_spec(s: SessionView, e: EventView) -> (SessionView, ActionView) {
    match e {
        EventView::Failed(m) => (
            s.at(StageView::Finished),
            ActionView::Reply(Err(ConfigErrorView::Storage(m))),
        ),
        _ => match s.stage {
            StageView::ReadingCache => match e {
                EventView::CacheRead(Some(t)) => match json_text_value(t) {
                    Err(m) => (
                        s.at(StageView::Finished),
                        ActionView::Reply(Err(ConfigErrorView::Storage(m))),
                    ),
                    Ok(c) => match s.command {
                        CommandView::SyncToMongo => (
                            s.at(StageView::SavingStore),
                            ActionView::SaveStore(s.page_id, c),
                        ),
                        _ => loaded_spec(s, c),
                    },
                },
                _ => match s.command {
                    CommandView::SyncToMongo => (
                        s.at(StageView::Finished),
                        ActionView::Reply(Err(ConfigErrorView::NotCached(s.page_id))),
                    ),
                    _ => (s.at(StageView::ReadingStore), ActionView::ReadStore(s.page_id)),
                },
            },
            StageView::ReadingStore => match e {
                EventView::StoreRead(Some(c)) => match json_text_of(c) {
                    Ok(text) => (
                        s.at(StageView::FillingCache(c)),
                        ActionView::WriteCache(s.page_id, text),
                    ),
                    Err(m) => (
                        s.at(StageView::Finished),
                        ActionView::Reply(Err(ConfigErrorView::Storage(m))),
                    ),
                },
                _ => (
                    s.at(StageView::Finished),
                    ActionView::Reply(Err(ConfigErrorView::NotFound(s.page_id))),
                ),
            },
            StageView::FillingCache(c) => loaded_spec(s, c),
            _ => (s.at(StageView::Finished), ActionView::Reply(Ok(None))),
        },
    }
}

impl Command {
    /// Whether the command is defined on `config`.
    pub fn is_defined_on(&self, config: &Json) -> (r: bool)
        ensures
            r == command_defined(self@, config@),
    {
        match self {
            Command::AddField { range_code, field: _ } => accepts_new_field(
                config,
                range_code.as_str(),
            ),
            _ => true,
        }
    }

    /// Applies a field change to `config`.
    fn apply(&self, config: Json) -> (r: Result<Json, ConfigError>)
        requires
            command_defined(self@, config@),
        ensures
            match r {
                Ok(c) => change_outcome(self@, config@) == Ok::<
                    JsonValue,
                    ConfigErrorView,
                >(c@),
                Err(e) => change_outcome(self@, config@) == Err::<JsonValue, ConfigErrorView>(
                    e@,
                ),
            },
    {
        match self {
            Command::AddField { range_code, field } => add_field(
                config,
                range_code.as_str(),
                field.duplicate(),
            ),
            Command::EditField { range_code, field } => edit_field(
                config,
                range_code.as_str(),
                field.duplicate(),
            ),
            Command::DeleteField { range_code, field_name } => delete_field(
                config,
                range_code.as_str(),
                field_name.as_str(),
            ),
            _ => Ok(config),
        }
    }
}

impl Session {
    /// Starts a request about `page_id`; the first action reads the cache.
    pub fn begin(page_id: String, command: Command) -> (r: (Session, Action))
        ensures
            (r.0@, r.1@) == begin_spec(page_id@, command@),
    {
        let key = page_id.clone();
        (Session { page_id, command, stage: Stage::ReadingCache }, Action::ReadCache { page_id: key })
    }

    /// The page the request is about.
    pub fn page_id(&self) -> (r: &String)
        ensures
            r@ == self@.page_id,
    {
        &self.page_id
    }

    /// Whether the session has replied.
    pub fn is_finished(&self) -> (r: bool)
        ensures
            r == (self@.stage is Finished),
    {
        match self.stage {
            Stage::Finished => true,
            _ => false,
        }
    }

    /// Whether the session can take `event`.
    pub fn can_step(&self, event: &Event) -> (r: bool)
        ensures
            r == can_step_spec(self@, event@),
    {
        match (&self.stage, event) {
            (Stage::Finished, _) => false,
            (_, Event::Failed { message: _ }) => true,
            (Stage::ReadingCache, Event::CacheRead { text }) => match text {
                Some(t) => match self.command {
                    Command::SyncToMongo => true,
                    _ => match parse_json_text(t.as_str()) {
                        Ok(c) => self.command.is_defined_on(&c),
                        Err(_) => true,
                    },
                },
                None => true,
            },
            (Stage::ReadingStore, Event::StoreRead { config: _ }) => true,
            (Stage::FillingCache { config }, Event::Written) => self.command.is_defined_on(config),
            (Stage::SavingStore, Event::Written) => true,
            (Stage::WritingCache, Event::Written) => true,
            _ => false,
        }
    }

    /// The configuration is at hand and in the cache: reply with it, or apply
    /// the field change and write its result to the cache.
    fn loaded(page_id: String, command: Command, config: Json) -> (r: (Session, Action))
        requires
            command_defined(command@, config@),
        ensures
            (r.0@, r.1@) == loaded_spec(
                SessionView { page_id: page_id@, command: command@, stage: StageView::Finished },
                config@,
            ),
    {
        match command {
            Command::GetConfig => (
                Session { page_id, command, stage: Stage::Finished },
                Action::Reply { outcome: Ok(Some(config)) },
            ),
            _ => {
                let outcome = command.apply(config);
                match outcome {
                    Ok(changed) => match render_json_text(&changed) {
                        Ok(text) => {
                            let key = page_id.clone();
                            (
                                Session { page_id, command, stage: Stage::WritingCache },
                                Action::WriteCache { page_id: key, text },
                            )
                        },
                        Err(message) => (
                            Session { page_id, command, stage: Stage::Finished },
                            Action::Reply { outcome: Err(ConfigError::Storage { message }) },
                        ),
                    },
                    Err(e) => (
                        Session { page_id, command, stage: Stage::Finished },
                        Action::Reply { outcome: Err(e) },
                    ),
                }
            },
        }
    }

    /// Takes the result of the last action, and gives the next session and
    /// the action it asks for.
    pub fn step(self, event: Event) -> (r: (Session, Action))
        requires
            can_step_spec(self@, event@),
        ensures
            (r.0@, r.1@) == next_spec(self@, event@),
    {
        let Session { page_id, command, stage } = self;
        match event {
            Event::Failed { message } => (
                Session { page_id, command, stage: Stage::Finished },
                Action::Reply { outcome: Err(ConfigError::Storage { message }) },
            ),
            Event::CacheRead { text } => match text {
                Some(t) => match parse_json_text(t.as_str()) {
                    Err(message) => (
                        Session { page_id, command, stage: Stage::Finished },
                        Action::Reply { outcome: Err(ConfigError::Storage { message }) },
                    ),
                    Ok(c) => match command {
                        Command::SyncToMongo => {
                            let key = page_id.clone();
                            (
                                Session { page_id, command, stage: Stage::SavingStore },
                                Action::SaveStore { page_id: key, config: c },
                            )
                        },
                        _ => Session::loaded(page_id, command, c),
                    },
                },
                None => match command {
                    Command::SyncToMongo => {
                        let key = page_id.clone();
                        (
                            Session { page_id, command, stage: Stage::Finished },
                            Action::Reply { outcome: Err(ConfigError::NotCached { page_id: key }) },
                        )
                    },
                    _ => {
                        let key = page_id.clone();
                        (
                            Session { page_id, command, stage: Stage::ReadingStore },
                            Action::ReadStore { page_id: key },
                        )
                    },
                },
            },
            Event::StoreRead { config } => match config {
                Some(c) => match render_json_text(&c) {
                    Ok(text) => {
                        let key = page_id.clone();
                        (
                            Session { page_id, command, stage: Stage::FillingCache { config: c } },
                            Action::WriteCache { page_id: key, text },
                        )
                    },
                    Err(message) => (
                        Session { page_id, command, stage: Stage::Finished },
                        Action::Reply { outcome: Err(ConfigError::Storage { message }) },
                    ),
                },
                None => {
                    let key = page_id.clone();
                    (
                        Session { page_id, command, stage: Stage::Finished },
                        Action::Reply { outcome: Err(ConfigError::NotFound { page_id: key }) },
                    )
                },
            },
            Event::Written => match stage {
                Stage::FillingCache { config } => Session::loaded(page_id, command, config),
                _ => (
                    Session { page_id, command, stage: Stage::Finished },
                    Action::Reply { outcome: Ok(None) },
                ),
            },
        }
    }
}

} // verus!
