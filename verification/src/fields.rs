//! Field ranges of a page configuration, and the changes to the fields of a
//! range: adding a field, editing one, deleting one.
use vstd::prelude::*;
use vstd::string::*;
use crate::errors::{ConfigError, ConfigErrorView, outcome_view};
use crate::json::{
    Json, JsonValue, element_name, entries_view, field_name, find_member, first_match,
    has_key, is_first_match, items_view, lemma_entries_view_push, lemma_entries_view_update,
    lemma_first_match_none, lemma_first_match_unique, lemma_items_view_push,
    lemma_items_view_update, lemma_object_view, lemma_array_view, named,
};

verus! {

/// The ranges of a page configuration that hold lists of fields.
#[derive(PartialEq, Eq, Structural, Clone, Copy, Debug)]
pub enum FieldRange {
    View,
    Create,
    Update,
    List,
}

/// The range that a range code names, if any.
pub open spec fn range_of(code: Seq<char>) -> Option<FieldRange> {
    if code == "view"@ {
        Some(FieldRange::View)
    } else if code == "create"@ {
        Some(FieldRange::Create)
    } else if code == "update"@ {
        Some(FieldRange::Update)
    } else if code == "list"@ {
        Some(FieldRange::List)
    } else {
        None
    }
}

impl FieldRange {
    /// The member of the configuration that holds the range's fields.
    pub open spec fn key(self) -> Seq<char> {
        match self {
            FieldRange::View => "viewConfig"@,
            FieldRange::Create => "createFields"@,
            FieldRange::Update => "updateFields"@,
            FieldRange::List => "tableFields"@,
        }
    }

    /// The range that `code` names, if any.
    pub fn from_code(code: &str) -> (r: Option<FieldRange>)
        ensures
            r == range_of(code@),
    {
        let c = code.to_owned();
        if c == String::from_str("view") {
            Some(FieldRange::View)
        } else if c == String::from_str("create") {
            Some(FieldRange::Create)
        } else if c == String::from_str("update") {
            Some(FieldRange::Update)
        } else if c == String::from_str("list") {
            Some(FieldRange::List)
        } else {
            None
        }
    }

    /// The member of the configuration that holds the range's fields.
    pub fn config_key(&self) -> (k: String)
        ensures
            k@ == self.key(),
    {
        match self {
            FieldRange::View => String::from_str("viewConfig"),
            FieldRange::Create => String::from_str("createFields"),
            FieldRange::Update => String::from_str("updateFields"),
            FieldRange::List => String::from_str("tableFields"),
        }
    }
}

/// Some element of `items` carries the name `name`.
pub open spec fn has_named(items: Seq<JsonValue>, name: Seq<char>) -> bool {
    exists|j: int| 0 <= j < items.len() && #[trigger] field_name(items[j]) == Some(name)
}

/// The element test: an element that does not carry the name `name`.
pub open spec fn unnamed(name: Seq<char>) -> spec_fn(JsonValue) -> bool {
    |v: JsonValue| field_name(v) != Some(name)
}

/// The name under which a new field is checked for duplicates: its own
/// name, or the empty text where it has none.
pub open spec fn new_field_name(field: JsonValue) -> Seq<char> {
    match field_name(field) {
        Some(n) => n,
        None => Seq::empty(),
    }
}

/// The configuration after `field` is added under the member `key`; `code`
/// is the range code that names `key`. A list that already holds a field of
/// the same name is left as it is; a missing member is created holding the
/// field alone; an empty configuration becomes an object with that member; a
/// member that is not a list is refused.
pub open spec fn added(config: JsonValue, key: Seq<char>, code: Seq<char>, field: JsonValue) -> Result<
    JsonValue,
    ConfigErrorView,
> {
    match config {
        JsonValue::Object(entries) => match first_match(entries, has_key(key)) {
            Some(i) => match entries[i].1 {
                JsonValue::Array(items) => Ok(
                    if has_named(items, new_field_name(field)) {
                        config
                    } else {
                        JsonValue::Object(
                            entries.update(i, (entries[i].0, JsonValue::Array(items.push(field)))),
                        )
                    },
                ),
                _ => Err(ConfigErrorView::RangeNotList(code)),
            },
            None => Ok(JsonValue::Object(entries.push((key, JsonValue::Array(seq![field]))))),
        },
        JsonValue::Null => Ok(JsonValue::Object(seq![(key, JsonValue::Array(seq![field]))])),
        _ => Ok(config),
    }
}

/// The refusal to edit where there is no list of fields: the field carries
/// no name, or no field of its name is there.
pub open spec fn no_field_to_edit(code: Seq<char>, field: JsonValue) -> ConfigErrorView {
    match field_name(field) {
        None => ConfigErrorView::MissingFieldName,
        Some(n) => ConfigErrorView::FieldNotFound(n, code),
    }
}

/// The configuration after the field of the same name as `field` is replaced
/// by it under the member `key`; `code` is the range code that names `key`.
/// Where the member is missing, or is not a list, there is no field to edit.
pub open spec fn edited(config: JsonValue, key: Seq<char>, code: Seq<char>, field: JsonValue) -> Result<
    JsonValue,
    ConfigErrorView,
> {
    match config {
        JsonValue::Object(entries) => match first_match(entries, has_key(key)) {
            Some(i) => match entries[i].1 {
                JsonValue::Array(items) => match field_name(field) {
                    None => Err(ConfigErrorView::MissingFieldName),
                    Some(n) => match first_match(items, named(n)) {
                        Some(j) => Ok(
                            JsonValue::Object(
                                entries.update(
                                    i,
                                    (entries[i].0, JsonValue::Array(items.update(j, field))),
                                ),
                            ),
                        ),
                        None => Err(ConfigErrorView::FieldNotFound(n, code)),
                    },
                },
                _ => Err(no_field_to_edit(code, field)),
            },
            None => Err(no_field_to_edit(code, field)),
        },
        _ => Err(no_field_to_edit(code, field)),
    }
}

/// The configuration after every field named `name` is removed from the list
/// under the member `key`; other fields keep their order. A member that is
/// missing, or is not a list, is left as it is.
pub open spec fn deleted(config: JsonValue, key: Seq<char>, name: Seq<char>) -> JsonValue {
    match config {
        JsonValue::Object(entries) => match first_match(entries, has_key(key)) {
            Some(i) => match entries[i].1 {
                JsonValue::Array(items) => JsonValue::Object(
                    entries.update(i, (entries[i].0, JsonValue::Array(items.filter(unnamed(name))))),
                ),
                _ => config,
            },
            None => config,
        },
        _ => config,
    }
}

/// Adding a field is defined on a configuration that is an object or empty,
/// wherever the range code is valid.
pub open spec fn can_add_field(config: JsonValue, code: Seq<char>) -> bool {
    range_of(code) is Some ==> (config is Object || config is Null)
}

/// The outcome of adding `field` to the range that `code` names.
pub open spec fn add_field_outcome(config: JsonValue, code: Seq<char>, field: JsonValue) -> Result<
    JsonValue,
    ConfigErrorView,
> {
    match range_of(code) {
        None => Err(ConfigErrorView::InvalidRangeCode(code)),
        Some(r) => added(config, r.key(), code, field),
    }
}

/// The outcome of editing `field` in the range that `code` names.
pub open spec fn edit_field_outcome(config: JsonValue, code: Seq<char>, field: JsonValue) -> Result<
    JsonValue,
    ConfigErrorView,
> {
    match range_of(code) {
        None => Err(ConfigErrorView::InvalidRangeCode(code)),
        Some(r) => edited(config, r.key(), code, field),
    }
}

/// The outcome of deleting the fields named `name` from the range that
/// `code` names.
pub open spec fn delete_field_outcome(config: JsonValue, code: Seq<char>, name: Seq<char>) -> Result<
    JsonValue,
    ConfigErrorView,
> {
    match range_of(code) {
        None => Err(ConfigErrorView::InvalidRangeCode(code)),
        Some(r) => Ok(deleted(config, r.key(), name)),
    }
}

/// Filtering a sequence with one more element.
pub proof fn lemma_filter_push(s: Seq<JsonValue>, p: spec_fn(JsonValue) -> bool, e: JsonValue)
    ensures
        s.push(e).filter(p) == (if p(e) {
            s.filter(p).push(e)
        } else {
            s.filter(p)
        }),
{
    reveal(Seq::filter);
    assert(s.push(e).drop_last() =~= s);
}

/// Whether some element of `items` carries the name `name`.
pub fn contains_named(items: &Vec<Json>, name: &String) -> (r: bool)
    ensures
        r == has_named(items_view(items@), name@),
{
    let ghost iv = items_view(items@);
    let mut i: usize = 0;
    while i < items.len()
        invariant
            i <= items.len(),
            iv == items_view(items@),
            forall|j: int| 0 <= j < i ==> #[trigger] field_name(iv[j]) != Some(name@),
        decreases items.len() - i,
    {
        let n = element_name(&items[i]);
        match n {
            Some(n) => {
                if *n == *name {
                    assert(field_name(iv[i as int]) == Some(name@));
                    return true;
                }
            },
            None => {},
        }
        assert(field_name(iv[i as int]) != Some(name@));
        i = i + 1;
    }
    false
}

/// The first position of an element of `items` that carries the name `name`.
pub fn position_named(items: &Vec<Json>, name: &String) -> (r: Option<usize>)
    ensures
        match r {
            Some(j) => first_match(items_view(items@), named(name@)) == Some(j as int),
            None => first_match(items_view(items@), named(name@)) is None,
        },
{
    let ghost iv = items_view(items@);
    let mut i: usize = 0;
    while i < items.len()
        invariant
            i <= items.len(),
            iv == items_view(items@),
            forall|j: int| 0 <= j < i ==> !named(name@)(#[trigger] iv[j]),
        decreases items.len() - i,
    {
        let n = element_name(&items[i]);
        match n {
            Some(n) => {
                if *n == *name {
                    proof {
                        assert(is_first_match(iv, named(name@), i as int));
                        lemma_first_match_unique(iv, named(name@), i as int);
                    }
                    return Some(i);
                }
            },
            None => {},
        }
        assert(!named(name@)(iv[i as int]));
        i = i + 1;
    }
    proof {
        lemma_first_match_none(iv, named(name@));
    }
    None
}

/// The elements of `items` that do not carry the name `name`, in order.
pub fn retain_unnamed(items: Vec<Json>, name: &String) -> (r: Vec<Json>)
    ensures
        items_view(r@) == items_view(items@).filter(unnamed(name@)),
{
    let ghost orig = items_view(items@);
    let ghost mut k: int = 0;
    let mut rest = items;
    let mut kept: Vec<Json> = Vec::new();
    proof {
        assert(orig.take(0) =~= Seq::<JsonValue>::empty());
        reveal(Seq::filter);
        assert(items_view(kept@) =~= orig.take(0).filter(unnamed(name@)));
        assert(items_view(rest@) =~= orig.skip(0));
    }
    while rest.len() > 0
        invariant
            0 <= k <= orig.len(),
            rest@.len() + k == orig.len(),
            items_view(rest@) == orig.skip(k),
            items_view(kept@) == orig.take(k).filter(unnamed(name@)),
        decreases rest.len(),
    {
        let ghost before = rest@;
        let e = rest.remove(0);
        proof {
            assert(items_view(before).len() == before.len());
            assert(items_view(before)[0] == e@);
            assert(orig[k] == e@);
            assert(items_view(rest@) =~= items_view(before).drop_first());
            assert(orig.skip(k + 1) =~= orig.skip(k).drop_first());
        }
        let keep = match element_name(&e) {
            Some(n) => !(*n == *name),
            None => true,
        };
        let ghost kept_before = kept@;
        if keep {
            kept.push(e);
            proof {
                lemma_items_view_push(kept_before, e);
            }
        }
        proof {
            assert(orig.take(k + 1) =~= orig.take(k).push(orig[k]));
            lemma_filter_push(orig.take(k), unnamed(name@), orig[k]);
            k = k + 1;
        }
    }
    proof {
        assert(orig.take(k) =~= orig);
    }
    kept
}

/// Adds `field` under the member `key` of a configuration that is an object
/// or empty.
fn insert_field(config: Json, key: String, code: &str, field: Json) -> (r: Result<Json, ConfigError>)
    requires
        config@ is Object || config@ is Null,
    ensures
        outcome_view(r) == added(config@, key@, code@, field@),
{
    let ghost cv = config@;
    match config {
        Json::Object(entries) => {
            let mut entries = entries;
            proof {
                lemma_object_view(entries);
            }
            let ghost ev = entries_view(entries@);
            match find_member(&entries, &key) {
                Some(i) => {
                    let ghost before = entries@;
                    let (k, v) = entries.remove(i);
                    match v {
                        Json::Array(items) => {
                            let mut items = items;
                            proof {
                                lemma_array_view(items);
                            }
                            let name: String = match element_name(&field) {
                                Some(n) => n.clone(),
                                None => String::new(),
                            };
                            assert(name@ == new_field_name(field@));
                            let present = contains_named(&items, &name);
                            let ghost items_before = items@;
                            if !present {
                                items.push(field);
                                proof {
                                    lemma_items_view_push(items_before, field);
                                }
                            }
                            let ghost items_final = items;
                            proof {
                                lemma_array_view(items_final);
                            }
                            entries.insert(i, (k, Json::Array(items)));
                            proof {
                                assert(entries@ =~= before.update(i as int, (k, Json::Array(items_final))));
                                lemma_entries_view_update(before, i as int, (k, Json::Array(items_final)));
                                lemma_object_view(entries);
                                if present {
                                    assert(ev.update(i as int, ev[i as int]) =~= ev);
                                }
                                assert(Ok::<JsonValue, ConfigErrorView>(Json::Object(entries)@) == added(cv, key@, code@, field@));
                            }
                            Ok(Json::Object(entries))
                        },
                        _ => Err(ConfigError::RangeNotList { range_code: code.to_owned() }),
                    }
                },
                None => {
                    let mut arr: Vec<Json> = Vec::new();
                    arr.push(field);
                    let ghost before = entries@;
                    proof {
                        lemma_array_view(arr);
                        assert(items_view(arr@) =~= seq![field@]);
                    }
                    let ghost arr_final = arr;
                    entries.push((key, Json::Array(arr)));
                    proof {
                        lemma_entries_view_push(before, (key, Json::Array(arr_final)));
                        lemma_object_view(entries);
                    }
                    Ok(Json::Object(entries))
                },
            }
        },
        _ => {
            let mut arr: Vec<Json> = Vec::new();
            arr.push(field);
            proof {
                lemma_array_view(arr);
                assert(items_view(arr@) =~= seq![field@]);
            }
            let ghost arr_final = arr;
            let mut entries: Vec<(String, Json)> = Vec::new();
            entries.push((key, Json::Array(arr)));
            proof {
                lemma_object_view(entries);
                assert(entries_view(entries@) =~= seq![(key@, Json::Array(arr_final)@)]);
            }
            Ok(Json::Object(entries))
        },
    }
}

/// The refusal to edit `field` where the range holds no list of fields.
fn missing_range_error(code: &str, field: &Json) -> (e: ConfigError)
    ensures
        e@ == no_field_to_edit(code@, field@),
{
    match element_name(field) {
        None => ConfigError::MissingFieldName,
        Some(n) => ConfigError::FieldNotFound { field_name: n.clone(), range_code: code.to_owned() },
    }
}

/// Replaces, under the member `key`, the field of the same name as `field`.
fn replace_field(config: Json, key: String, code: &str, field: Json) -> (r: Result<Json, ConfigError>)
    ensures
        outcome_view(r) == edited(config@, key@, code@, field@),
{
    match config {
        Json::Object(entries) => {
            let mut entries = entries;
            proof {
                lemma_object_view(entries);
            }
            match find_member(&entries, &key) {
                Some(i) => {
                    let ghost before = entries@;
                    let (k, v) = entries.remove(i);
                    match v {
                        Json::Array(items) => {
                            let mut items = items;
                            proof {
                                lemma_array_view(items);
                            }
                            let name: String = match element_name(&field) {
                                Some(n) => n.clone(),
                                None => {
                                    return Err(ConfigError::MissingFieldName);
                                },
                            };
                            match position_named(&items, &name) {
                                Some(j) => {
                                    let ghost items_before = items@;
                                    items.set(j, field);
                                    let ghost items_final = items;
                                    proof {
                                        lemma_items_view_update(items_before, j as int, field);
                                        lemma_array_view(items_final);
                                    }
                                    entries.insert(i, (k, Json::Array(items)));
                                    proof {
                                        assert(entries@ =~= before.update(
                                            i as int,
                                            (k, Json::Array(items_final)),
                                        ));
                                        lemma_entries_view_update(
                                            before,
                                            i as int,
                                            (k, Json::Array(items_final)),
                                        );
                                        lemma_object_view(entries);
                                    }
                                    Ok(Json::Object(entries))
                                },
                                None => Err(
                                    ConfigError::FieldNotFound {
                                        field_name: name,
                                        range_code: code.to_owned(),
                                    },
                                ),
                            }
                        },
                        _ => Err(missing_range_error(code, &field)),
                    }
                },
                None => Err(missing_range_error(code, &field)),
            }
        },
        _ => Err(missing_range_error(code, &field)),
    }
}

/// Removes, under the member `key`, every field named `name`.
fn remove_fields(config: Json, key: String, name: &String) -> (r: Json)
    ensures
        r@ == deleted(config@, key@, name@),
{
    match config {
        Json::Object(entries) => {
            let mut entries = entries;
            proof {
                lemma_object_view(entries);
            }
            match find_member(&entries, &key) {
                Some(i) => {
                    let ghost before = entries@;
                    let (k, v) = entries.remove(i);
                    match v {
                        Json::Array(items) => {
                            proof {
                                lemma_array_view(items);
                            }
                            let kept = retain_unnamed(items, name);
                            let ghost kept_final = kept;
                            proof {
                                lemma_array_view(kept_final);
                            }
                            entries.insert(i, (k, Json::Array(kept)));
                            proof {
                                assert(entries@ =~= before.update(
                                    i as int,
                                    (k, Json::Array(kept_final)),
                                ));
                                lemma_entries_view_update(
                                    before,
                                    i as int,
                                    (k, Json::Array(kept_final)),
                                );
                                lemma_object_view(entries);
                            }
                            Json::Object(entries)
                        },
                        other => {
                            entries.insert(i, (k, other));
                            proof {
                                assert(entries@ =~= before);
                                lemma_object_view(entries);
                            }
                            Json::Object(entries)
                        },
                    }
                },
                None => Json::Object(entries),
            }
        },
        other => other,
    }
}

/// Whether adding a field to the range that `range_code` names is defined on
/// `config`: the configuration must be an object or empty where the code is
/// valid.
pub fn accepts_new_field(config: &Json, range_code: &str) -> (r: bool)
    ensures
        r == can_add_field(config@, range_code@),
{
    match FieldRange::from_code(range_code) {
        None => true,
        Some(_) => match config {
            Json::Object(_) => true,
            Json::Null => true,
            _ => false,
        },
    }
}

/// Adds `field` to the range of `config` that `range_code` names, unless a
/// field of the same name is there already; a range that holds something
/// other than a list of fields is refused.
pub fn add_field(config: Json, range_code: &str, field: Json) -> (r: Result<Json, ConfigError>)
    requires
        can_add_field(config@, range_code@),
    ensures
        outcome_view(r) == add_field_outcome(config@, range_code@, field@),
{
    match FieldRange::from_code(range_code) {
        None => Err(ConfigError::InvalidRangeCode { range_code: range_code.to_owned() }),
        Some(range) => {
            let key = range.config_key();
            insert_field(config, key, range_code, field)
        },
    }
}

/// Replaces, in the range of `config` that `range_code` names, the field of
/// the same name as `field`; where the range holds no list with such a field,
/// there is nothing to edit and the edit is refused.
pub fn edit_field(config: Json, range_code: &str, field: Json) -> (r: Result<Json, ConfigError>)
    ensures
        outcome_view(r) == edit_field_outcome(config@, range_code@, field@),
{
    match FieldRange::from_code(range_code) {
        None => Err(ConfigError::InvalidRangeCode { range_code: range_code.to_owned() }),
        Some(range) => {
            let key = range.config_key();
            replace_field(config, key, range_code, field)
        },
    }
}

/// Removes, from the range of `config` that `range_code` names, every field
/// named `field_name`.
pub fn delete_field(config: Json, range_code: &str, field_name: &str) -> (r: Result<
    Json,
    ConfigError,
>)
    ensures
        outcome_view(r) == delete_field_outcome(config@, range_code@, field_name@),
{
    match FieldRange::from_code(range_code) {
        None => Err(ConfigError::InvalidRangeCode { range_code: range_code.to_owned() }),
        Some(range) => {
            let key = range.config_key();
            let name = field_name.to_owned();
            Ok(remove_fields(config, key, &name))
        },
    }
}

} // verus!
