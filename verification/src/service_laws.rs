//! What a request does to the cache and the store, and what it replies, when
//! whoever runs the session performs each action faithfully.
use vstd::prelude::*;
use crate::errors::ConfigErrorView;
use crate::json::JsonValue;
use crate::service::{
    ActionView, CommandView, EventView, SessionView, begin_spec, can_step_spec,
    change_outcome, command_defined, next_spec,
};
use crate::text::{json_text_of, json_text_value};

verus! {

/// The contents of the cache, page by page as JSON text, and of the store,
/// page by page as documents.
pub struct Stores {
    pub cache: Map<Seq<char>, Seq<char>>,
    pub store: Map<Seq<char>, JsonValue>,
}

/// What a reply says: the configuration read, nothing, or the failure.
pub type ReplyView = Result<Option<JsonValue>, ConfigErrorView>;

/// The optional value of a page in a map.
pub open spec fn lookup<V>(m: Map<Seq<char>, V>, page: Seq<char>) -> Option<V> {
    if m.contains_key(page) {
        Some(m[page])
    } else {
        None
    }
}

/// Performs an action that is not a reply on the stores, and gives the event
/// that reports it.
pub open spec fn perform(w: Stores, a: ActionView) -> (Stores, EventView) {
    match a {
        ActionView::ReadCache(p) => (w, EventView::CacheRead(lookup(w.cache, p))),
        ActionView::ReadStore(p) => (w, EventView::StoreRead(lookup(w.store, p))),
        ActionView::WriteCache(p, t) => (Stores { cache: w.cache.insert(p, t), ..w }, EventView::Written),
        ActionView::SaveStore(p, c) => (Stores { store: w.store.insert(p, c), ..w }, EventView::Written),
        ActionView::Reply(_) => (w, EventView::Written),
    }
}

/// Runs a session for at most `fuel` actions: the stores at the end, and the
/// reply if it came. A run stops without a reply where the session cannot
/// take the event.
pub open spec fn run(s: SessionView, a: ActionView, w: Stores, fuel: nat) -> (Stores, Option<ReplyView>)
    decreases fuel,
{
    match a {
        ActionView::Reply(r) => (w, Some(r)),
        _ => if fuel == 0 {
            (w, None)
        } else {
            let (w2, e) = perform(w, a);
            if !can_step_spec(s, e) {
                (w2, None)
            } else {
                let (s2, a2) = next_spec(s, e);
                run(s2, a2, w2, (fuel - 1) as nat)
            }
        },
    }
}

/// Serves a whole request about `page` against the stores.
pub open spec fn serve(page: Seq<char>, command: CommandView, w: Stores) -> (Stores, Option<ReplyView>) {
    let (s, a) = begin_spec(page, command);
    run(s, a, w, 5)
}

/// Reading the page as a request does: the cache's text read as a document,
/// else the store's document, whose text then fills the cache; the stores
/// after the read and the configuration, or the failure.
pub open spec fn read_page(w: Stores, page: Seq<char>) -> Result<(Stores, JsonValue), ConfigErrorView> {
    if w.cache.contains_key(page) {
        match json_text_value(w.cache[page]) {
            Ok(c) => Ok((w, c)),
            Err(m) => Err(ConfigErrorView::Storage(m)),
        }
    } else if w.store.contains_key(page) {
        match json_text_of(w.store[page]) {
            Ok(t) => Ok((Stores { cache: w.cache.insert(page, t), ..w }, w.store[page])),
            Err(m) => Err(ConfigErrorView::Storage(m)),
        }
    } else {
        Err(ConfigErrorView::NotFound(page))
    }
}

/// The reply of a request that gives back the document that `text` reads as.
pub open spec fn reply_with_text(text: Seq<char>) -> ReplyView {
    match json_text_value(text) {
        Ok(d) => Ok(Some(d)),
        Err(m) => Err(ConfigErrorView::Storage(m)),
    }
}

/// A command that changes the fields of a configuration.
pub open spec fn is_field_change(command: CommandView) -> bool {
    command is AddField || command is EditField || command is DeleteField
}

/// Reading a configuration serves the document that the cache's text reads
/// as, else reads the store's copy through into the cache; a page in neither
/// is not found. A failure changes nothing.
pub proof fn law_get_config(page: Seq<char>, w: Stores)
    ensures
        serve(page, CommandView::GetConfig, w) == (match read_page(w, page) {
            Ok((w2, c)) => (w2, Some(Ok::<Option<JsonValue>, ConfigErrorView>(Some(c)))),
            Err(e) => (w, Some(Err::<Option<JsonValue>, ConfigErrorView>(e))),
        }),
{
    reveal_with_fuel(run, 6);
}

/// Syncing saves in the store the document that the cache's text reads as; a
/// page missing from the cache is refused, and a failure changes nothing.
pub proof fn law_sync_to_mongo(page: Seq<char>, w: Stores)
    ensures
        serve(page, CommandView::SyncToMongo, w) == (if w.cache.contains_key(page) {
            match json_text_value(w.cache[page]) {
                Ok(c) => (
                    Stores { store: w.store.insert(page, c), ..w },
                    Some(Ok::<Option<JsonValue>, ConfigErrorView>(None)),
                ),
                Err(m) => (w, Some(Err::<Option<JsonValue>, ConfigErrorView>(ConfigErrorView::Storage(m)))),
            }
        } else {
            (w, Some(Err::<Option<JsonValue>, ConfigErrorView>(ConfigErrorView::NotCached(page))))
        }),
{
    reveal_with_fuel(run, 6);
}

/// A field change reads the configuration as a read does, then writes the
/// text of the changed configuration to the cache and replies with nothing; a
/// change that fails replies with its failure and writes nothing more than
/// the read did; the store is never written.
pub proof fn law_field_change(page: Seq<char>, command: CommandView, w: Stores)
    requires
        is_field_change(command),
        read_page(w, page) matches Ok((_, c)) ==> command_defined(command, c),
    ensures
        serve(page, command, w) == (match read_page(w, page) {
            Err(e) => (w, Some(Err::<Option<JsonValue>, ConfigErrorView>(e))),
            Ok((w2, c)) => match change_outcome(command, c) {
                Err(e) => (w2, Some(Err::<Option<JsonValue>, ConfigErrorView>(e))),
                Ok(changed) => match json_text_of(changed) {
                    Ok(t) => (
                        Stores { cache: w2.cache.insert(page, t), store: w.store },
                        Some(Ok::<Option<JsonValue>, ConfigErrorView>(None)),
                    ),
                    Err(m) => (w2, Some(Err::<Option<JsonValue>, ConfigErrorView>(ConfigErrorView::Storage(m)))),
                },
            },
        }),
{
    reveal_with_fuel(run, 6);
}

/// After a field change succeeds, the cache holds the text of the changed
/// configuration, and a read gives back the document that this text reads as
/// and changes nothing.
pub proof fn law_read_after_change(page: Seq<char>, command: CommandView, w: Stores)
    requires
        is_field_change(command),
        read_page(w, page) matches Ok((_, c)) ==> command_defined(command, c),
        serve(page, command, w).1 == Some(Ok::<Option<JsonValue>, ConfigErrorView>(None)),
    ensures
        read_page(w, page) is Ok,
        change_outcome(command, read_page(w, page)->Ok_0.1) is Ok,
        json_text_of(change_outcome(command, read_page(w, page)->Ok_0.1)->Ok_0) is Ok,
        ({
            let text = json_text_of(change_outcome(command, read_page(w, page)->Ok_0.1)->Ok_0)->Ok_0;
            let w2 = serve(page, command, w).0;
            &&& w2.cache[page] == text
            &&& serve(page, CommandView::GetConfig, w2) == (w2, Some(reply_with_text(text)))
        }),
{
    law_field_change(page, command, w);
    let w2 = serve(page, command, w).0;
    law_get_config(page, w2);
}

/// A refused field change leaves the stores as a read of the page leaves them.
pub proof fn law_refused_change_writes_nothing(page: Seq<char>, command: CommandView, w: Stores)
    requires
        is_field_change(command),
        read_page(w, page) matches Ok((_, c)) ==> command_defined(command, c),
        serve(page, command, w).1 matches Some(Err(_)),
    ensures
        serve(page, command, w).0 == serve(page, CommandView::GetConfig, w).0,
{
    law_field_change(page, command, w);
    law_get_config(page, w);
}

/// A sync followed by a read of the page gives back what the cache's text
/// reads as, and the store then holds the same.
pub proof fn law_sync_then_get(page: Seq<char>, w: Stores)
    requires
        w.cache.contains_key(page),
        json_text_value(w.cache[page]) is Ok,
    ensures
        ({
            let c = json_text_value(w.cache[page])->Ok_0;
            let w2 = serve(page, CommandView::SyncToMongo, w).0;
            &&& w2.store[page] == c
            &&& serve(page, CommandView::GetConfig, w2) == (
                w2,
                Some(Ok::<Option<JsonValue>, ConfigErrorView>(Some(c))),
            )
        }),
{
    law_sync_to_mongo(page, w);
    let w2 = serve(page, CommandView::SyncToMongo, w).0;
    law_get_config(page, w2);
}

/// Every request gets its reply within five storage actions.
pub proof fn law_every_request_replies(page: Seq<char>, command: CommandView, w: Stores)
    requires
        read_page(w, page) matches Ok((_, c)) ==> command_defined(command, c),
    ensures
        serve(page, command, w).1 is Some,
{
    match command {
        CommandView::GetConfig => law_get_config(page, w),
        CommandView::SyncToMongo => law_sync_to_mongo(page, w),
        _ => law_field_change(page, command, w),
    }
}

/// A failure reported for any action of a session, the save to the store
/// included, ends the request with that failure as its reply, never with
/// success.
pub proof fn law_failure_ends_request(s: SessionView, m: Seq<char>)
    requires
        can_step_spec(s, EventView::Failed(m)),
    ensures
        next_spec(s, EventView::Failed(m)).0.stage is Finished,
        next_spec(s, EventView::Failed(m)).1 == ActionView::Reply(
            Err::<Option<JsonValue>, ConfigErrorView>(ConfigErrorView::Storage(m)),
        ),
        !(next_spec(s, EventView::Failed(m)).1 matches ActionView::Reply(Ok(_))),
{
}

/// A sync whose save to the store fails replies with that failure.
pub proof fn law_sync_save_failure(page: Seq<char>, text: Seq<char>, m: Seq<char>)
    requires
        json_text_value(text) is Ok,
    ensures
        ({
            let (s1, a1) = begin_spec(page, CommandView::SyncToMongo);
            let (s2, a2) = next_spec(s1, EventView::CacheRead(Some(text)));
            &&& a1 == ActionView::ReadCache(page)
            &&& a2 == ActionView::SaveStore(page, json_text_value(text)->Ok_0)
            &&& can_step_spec(s2, EventView::Failed(m))
            &&& next_spec(s2, EventView::Failed(m)).1 == ActionView::Reply(
                Err::<Option<JsonValue>, ConfigErrorView>(ConfigErrorView::Storage(m)),
            )
        }),
{
}

} // verus!
