//! What holds of the field changes across calls: they keep a configuration
//! well formed, adding a named field twice adds it once, deleting twice
//! deletes once, a field that was added or edited is found again, adding
//! keeps names distinct and old fields in order, and every other member of
//! the configuration keeps its value.
use vstd::prelude::*;
use crate::errors::ConfigErrorView;
use crate::fields::{
    added, add_field_outcome, can_add_field, deleted, delete_field_outcome, edited,
    edit_field_outcome, has_named, lemma_filter_push, new_field_name, range_of, unnamed,
    FieldRange,
};
use crate::json::{
    JsonValue, field_name, first_match, has_key, is_first_match,
    lemma_first_match_exists, lemma_first_match_none, lemma_first_match_unique, named,
};

verus! {

/// Two sequences on whose elements a test agrees have the same first match.
pub proof fn lemma_first_match_congruent<A>(s1: Seq<A>, s2: Seq<A>, p: spec_fn(A) -> bool)
    requires
        s1.len() == s2.len(),
        forall|j: int| 0 <= j < s1.len() ==> p(#[trigger] s1[j]) == p(s2[j]),
    ensures
        first_match(s1, p) == first_match(s2, p),
{
    match first_match(s1, p) {
        Some(m) => {
            assert(is_first_match(s1, p, m));
            assert(p(s2[m]));
            assert forall|j: int| 0 <= j < m implies !p(#[trigger] s2[j]) by {
                assert(!p(s1[j]));
            }
            assert(is_first_match(s2, p, m));
            lemma_first_match_unique(s2, p, m);
        },
        None => {
            assert forall|j: int| 0 <= j < s2.len() implies !p(#[trigger] s2[j]) by {
                if p(s1[j]) {
                    lemma_first_match_exists(s1, p, j);
                }
            }
            lemma_first_match_none(s2, p);
        },
    }
}

/// A missing key occurs in no member.
pub proof fn lemma_no_first_key(entries: Seq<(Seq<char>, JsonValue)>, key: Seq<char>)
    requires
        first_match(entries, has_key(key)) is None,
    ensures
        forall|j: int| 0 <= j < entries.len() ==> (#[trigger] entries[j]).0 != key,
{
    assert forall|j: int| 0 <= j < entries.len() implies (#[trigger] entries[j]).0 != key by {
        if entries[j].0 == key {
            assert(has_key(key)(entries[j]));
            lemma_first_match_exists(entries, has_key(key), j);
        }
    }
}

/// The first member of a key, after a member keeps its key and takes a new
/// value, is where it was.
pub proof fn lemma_first_key_after_update(
    entries: Seq<(Seq<char>, JsonValue)>,
    i: int,
    v: JsonValue,
    key: Seq<char>,
)
    requires
        0 <= i < entries.len(),
    ensures
        first_match(entries.update(i, (entries[i].0, v)), has_key(key)) == first_match(
            entries,
            has_key(key),
        ),
{
    let u = entries.update(i, (entries[i].0, v));
    assert forall|j: int| 0 <= j < entries.len() implies has_key(key)(#[trigger] entries[j])
        == has_key(key)(u[j]) by {}
    lemma_first_match_congruent(entries, u, has_key(key));
}

/// Filtering twice with one test filters once.
pub proof fn lemma_filter_idempotent(s: Seq<JsonValue>, p: spec_fn(JsonValue) -> bool)
    ensures
        s.filter(p).filter(p) == s.filter(p),
    decreases s.len(),
{
    reveal(Seq::filter);
    if s.len() > 0 {
        let sub = s.drop_last();
        lemma_filter_idempotent(sub, p);
        assert(s =~= sub.push(s.last()));
        lemma_filter_push(sub, p, s.last());
        if p(s.last()) {
            lemma_filter_push(sub.filter(p), p, s.last());
        }
    }
}

/// Adding a field keeps the keys of a configuration distinct.
pub proof fn law_add_field_keeps_keys_distinct(config: JsonValue, code: Seq<char>, field: JsonValue)
    requires
        config.wf(),
        can_add_field(config, code),
        add_field_outcome(config, code, field) is Ok,
    ensures
        add_field_outcome(config, code, field)->Ok_0.wf(),
{
    let key = range_of(code)->0.key();
    match config {
        JsonValue::Object(entries) => match first_match(entries, has_key(key)) {
            Some(i) => {
                assert(is_first_match(entries, has_key(key), i));
            },
            None => {
                lemma_no_first_key(entries, key);
                let e = entries.push((key, JsonValue::Array(seq![field])));
                assert forall|a: int, b: int|
                    0 <= a < e.len() && 0 <= b < e.len() && a != b implies #[trigger] e[a].0
                    != #[trigger] e[b].0 by {
                    if a < entries.len() && b < entries.len() {
                        assert(entries[a].0 != entries[b].0);
                    } else if a < entries.len() {
                        assert(entries[a].0 != key);
                    } else {
                        assert(entries[b].0 != key);
                    }
                }
            },
        },
        _ => {},
    }
}

/// Editing a field keeps the keys of a configuration distinct.
pub proof fn law_edit_field_keeps_keys_distinct(config: JsonValue, code: Seq<char>, field: JsonValue)
    requires
        config.wf(),
        edit_field_outcome(config, code, field) is Ok,
    ensures
        edit_field_outcome(config, code, field)->Ok_0.wf(),
{
    let key = range_of(code)->0.key();
    match config {
        JsonValue::Object(entries) => match first_match(entries, has_key(key)) {
            Some(i) => {
                assert(is_first_match(entries, has_key(key), i));
            },
            None => {},
        },
        _ => {},
    }
}

/// Deleting fields keeps the keys of a configuration distinct.
pub proof fn law_delete_field_keeps_keys_distinct(config: JsonValue, code: Seq<char>, name: Seq<char>)
    requires
        config.wf(),
        delete_field_outcome(config, code, name) is Ok,
    ensures
        delete_field_outcome(config, code, name)->Ok_0.wf(),
{
    let key = range_of(code)->0.key();
    match config {
        JsonValue::Object(entries) => match first_match(entries, has_key(key)) {
            Some(i) => {
                assert(is_first_match(entries, has_key(key), i));
            },
            None => {},
        },
        _ => {},
    }
}

/// Adding a field that carries a name a second time changes nothing more.
pub proof fn law_add_named_field_twice(config: JsonValue, code: Seq<char>, field: JsonValue)
    requires
        can_add_field(config, code),
        field_name(field) is Some,
    ensures
        add_field_outcome(config, code, field) matches Ok(once) ==> add_field_outcome(
            once,
            code,
            field,
        ) == Ok::<JsonValue, ConfigErrorView>(once),
{
    if let Some(r) = range_of(code) {
        let key = r.key();
        let n = new_field_name(field);
        assert(named(n)(field));
        match config {
            JsonValue::Object(entries) => match first_match(entries, has_key(key)) {
                Some(i) => {
                    assert(is_first_match(entries, has_key(key), i));
                    match entries[i].1 {
                        JsonValue::Array(items) => {
                            if !has_named(items, n) {
                                let grown = items.push(field);
                                lemma_first_key_after_update(
                                    entries,
                                    i,
                                    JsonValue::Array(grown),
                                    key,
                                );
                                assert(field_name(grown[items.len() as int]) == Some(n));
                                assert(has_named(grown, n));
                            }
                        },
                        _ => {},
                    }
                },
                None => {
                    lemma_no_first_key(entries, key);
                    let e = entries.push((key, JsonValue::Array(seq![field])));
                    let at = entries.len() as int;
                    assert(is_first_match(e, has_key(key), at));
                    lemma_first_match_unique(e, has_key(key), at);
                    assert(field_name(seq![field][0]) == Some(n));
                    assert(has_named(seq![field], n));
                },
            },
            JsonValue::Null => {
                let e = seq![(key, JsonValue::Array(seq![field]))];
                assert(is_first_match(e, has_key(key), 0));
                lemma_first_match_unique(e, has_key(key), 0);
                assert(field_name(seq![field][0]) == Some(n));
                assert(has_named(seq![field], n));
            },
            _ => {},
        }
    }
}

/// After a field is added, the range holds a list with a field of its name.
pub proof fn law_added_field_is_present(config: JsonValue, code: Seq<char>, field: JsonValue)
    requires
        can_add_field(config, code),
        add_field_outcome(config, code, field) is Ok,
        field_name(field) is Some,
    ensures
        add_field_outcome(config, code, field) matches Ok(once) && once.member(
            range_of(code)->0.key(),
        ) matches Some(JsonValue::Array(items)) && has_named(items, field_name(field)->0),
{
    law_add_named_field_twice(config, code, field);
    let key = range_of(code)->0.key();
    let n = field_name(field)->0;
    match config {
        JsonValue::Object(entries) => match first_match(entries, has_key(key)) {
            Some(i) => {
                assert(is_first_match(entries, has_key(key), i));
                match entries[i].1 {
                    JsonValue::Array(items) => {
                        if !has_named(items, n) {
                            let grown = items.push(field);
                            lemma_first_key_after_update(entries, i, JsonValue::Array(grown), key);
                            assert(field_name(grown[items.len() as int]) == Some(n));
                        }
                    },
                    _ => {},
                }
            },
            None => {
                lemma_no_first_key(entries, key);
                let e = entries.push((key, JsonValue::Array(seq![field])));
                let at = entries.len() as int;
                assert(is_first_match(e, has_key(key), at));
                lemma_first_match_unique(e, has_key(key), at);
                assert(field_name(seq![field][0]) == Some(n));
            },
        },
        JsonValue::Null => {
            let e = seq![(key, JsonValue::Array(seq![field]))];
            assert(is_first_match(e, has_key(key), 0));
            lemma_first_match_unique(e, has_key(key), 0);
            assert(field_name(seq![field][0]) == Some(n));
        },
        _ => {},
    }
}

/// Deleting the fields of a name a second time changes nothing more.
pub proof fn law_delete_field_twice(config: JsonValue, code: Seq<char>, name: Seq<char>)
    ensures
        delete_field_outcome(config, code, name) matches Ok(once) ==> delete_field_outcome(
            once,
            code,
            name,
        ) == Ok::<JsonValue, ConfigErrorView>(once),
{
    if let Some(r) = range_of(code) {
        let key = r.key();
        match config {
            JsonValue::Object(entries) => match first_match(entries, has_key(key)) {
                Some(i) => {
                    assert(is_first_match(entries, has_key(key), i));
                    match entries[i].1 {
                        JsonValue::Array(items) => {
                            let kept = items.filter(unnamed(name));
                            lemma_first_key_after_update(entries, i, JsonValue::Array(kept), key);
                            lemma_filter_idempotent(items, unnamed(name));
                            let e = entries.update(i, (entries[i].0, JsonValue::Array(kept)));
                            assert(e.update(i, (e[i].0, JsonValue::Array(kept))) =~= e);
                        },
                        _ => {},
                    }
                },
                None => {},
            },
            _ => {},
        }
    }
}

/// After the fields of a name are deleted, the range holds none of that name.
pub proof fn law_deleted_field_is_absent(config: JsonValue, code: Seq<char>, name: Seq<char>)
    requires
        delete_field_outcome(config, code, name) is Ok,
    ensures
        delete_field_outcome(config, code, name)->Ok_0.member(range_of(code)->0.key()) matches Some(
            JsonValue::Array(items),
        ) ==> !has_named(items, name),
{
    broadcast use vstd::seq_lib::group_filter_ensures;
    let key = range_of(code)->0.key();
    match config {
        JsonValue::Object(entries) => match first_match(entries, has_key(key)) {
            Some(i) => {
                assert(is_first_match(entries, has_key(key), i));
                match entries[i].1 {
                    JsonValue::Array(items) => {
                        let kept = items.filter(unnamed(name));
                        lemma_first_key_after_update(entries, i, JsonValue::Array(kept), key);
                        assert forall|j: int| 0 <= j < kept.len() implies #[trigger] field_name(
                            kept[j],
                        ) != Some(name) by {
                            assert(unnamed(name)(kept[j]));
                        }
                    },
                    _ => {},
                }
            },
            None => {},
        },
        _ => {},
    }
}

/// A field is edited only where the range holds a list with a field of its
/// name; after it is edited, the first field of its name in the range is the
/// field itself, and the range holds as many fields as before.
pub proof fn law_edited_field_is_found(config: JsonValue, code: Seq<char>, field: JsonValue)
    requires
        edit_field_outcome(config, code, field) is Ok,
    ensures
        ({
            let key = range_of(code)->0.key();
            let n = field_name(field)->0;
            &&& field_name(field) is Some
            &&& config.member(key) matches Some(JsonValue::Array(before))
            &&& edit_field_outcome(config, code, field)->Ok_0.member(key) matches Some(
                JsonValue::Array(after),
            )
            &&& after.len() == before.len()
            &&& first_match(after, named(n)) matches Some(j) && after[j] == field
        }),
{
    let key = range_of(code)->0.key();
    match config {
        JsonValue::Object(entries) => match first_match(entries, has_key(key)) {
            Some(i) => {
                assert(is_first_match(entries, has_key(key), i));
                match entries[i].1 {
                    JsonValue::Array(items) => {
                        let n = field_name(field)->0;
                        let j = first_match(items, named(n))->0;
                        assert(is_first_match(items, named(n), j));
                        let after = items.update(j, field);
                        lemma_first_key_after_update(entries, i, JsonValue::Array(after), key);
                        assert(is_first_match(after, named(n), j));
                        lemma_first_match_unique(after, named(n), j);
                    },
                    _ => {},
                }
            },
            None => {},
        },
        _ => {},
    }
}

/// The fields of a list that carry names carry distinct names.
pub open spec fn names_distinct(items: Seq<JsonValue>) -> bool {
    forall|a: int, b: int|
        0 <= a < items.len() && 0 <= b < items.len() && a != b && field_name(items[a]) is Some
            ==> #[trigger] field_name(items[a]) != #[trigger] field_name(items[b])
}

/// A member other than the one that took a new value keeps its value.
pub proof fn lemma_member_after_update(
    entries: Seq<(Seq<char>, JsonValue)>,
    i: int,
    v: JsonValue,
    key: Seq<char>,
    k: Seq<char>,
)
    requires
        first_match(entries, has_key(key)) == Some(i),
        k != key,
    ensures
        JsonValue::Object(entries.update(i, (entries[i].0, v))).member(k) == JsonValue::Object(
            entries,
        ).member(k),
{
    assert(is_first_match(entries, has_key(key), i));
    lemma_first_key_after_update(entries, i, v, k);
    match first_match(entries, has_key(k)) {
        Some(m) => {
            assert(is_first_match(entries, has_key(k), m));
            assert(m != i);
        },
        None => {},
    }
}

/// Appending a member of another key keeps the value of a key.
pub proof fn lemma_member_after_push(
    entries: Seq<(Seq<char>, JsonValue)>,
    e: (Seq<char>, JsonValue),
    k: Seq<char>,
)
    requires
        e.0 != k,
    ensures
        JsonValue::Object(entries.push(e)).member(k) == JsonValue::Object(entries).member(k),
{
    let p = entries.push(e);
    match first_match(entries, has_key(k)) {
        Some(m) => {
            assert(is_first_match(entries, has_key(k), m));
            assert(is_first_match(p, has_key(k), m));
            lemma_first_match_unique(p, has_key(k), m);
        },
        None => {
            lemma_no_first_key(entries, k);
            assert forall|j: int| 0 <= j < p.len() implies !has_key(k)(#[trigger] p[j]) by {
                if j < entries.len() {
                    assert(p[j] == entries[j]);
                }
            }
            lemma_first_match_none(p, has_key(k));
        },
    }
}

/// Adding a named field to a list whose names are distinct keeps them
/// distinct, and keeps the list's old fields first and in order.
pub proof fn law_add_keeps_names_distinct_and_order(
    config: JsonValue,
    code: Seq<char>,
    field: JsonValue,
)
    requires
        can_add_field(config, code),
        add_field_outcome(config, code, field) is Ok,
        field_name(field) is Some,
        config.member(range_of(code)->0.key()) matches Some(JsonValue::Array(items))
            ==> names_distinct(items),
    ensures
        ({
            let key = range_of(code)->0.key();
            &&& add_field_outcome(config, code, field)->Ok_0.member(key) matches Some(
                JsonValue::Array(after),
            )
            &&& names_distinct(after)
            &&& config.member(key) matches Some(JsonValue::Array(before)) ==> before.len()
                <= after.len() && after.subrange(0, before.len() as int) == before
        }),
{
    let key = range_of(code)->0.key();
    let n = field_name(field)->0;
    assert(new_field_name(field) == n);
    match config {
        JsonValue::Object(entries) => match first_match(entries, has_key(key)) {
            Some(i) => {
                assert(is_first_match(entries, has_key(key), i));
                match entries[i].1 {
                    JsonValue::Array(items) => {
                        if has_named(items, n) {
                            assert(items.subrange(0, items.len() as int) =~= items);
                        } else {
                            let grown = items.push(field);
                            lemma_first_key_after_update(entries, i, JsonValue::Array(grown), key);
                            assert(grown.subrange(0, items.len() as int) =~= items);
                            assert forall|a: int, b: int|
                                0 <= a < grown.len() && 0 <= b < grown.len() && a != b
                                    && field_name(grown[a]) is Some implies #[trigger] field_name(
                                grown[a],
                            ) != #[trigger] field_name(grown[b]) by {
                                if a < items.len() && b < items.len() {
                                    assert(field_name(items[a]) != field_name(items[b]));
                                } else if a < items.len() {
                                    assert(field_name(items[a]) != Some(n));
                                } else {
                                    assert(field_name(items[b]) != Some(n));
                                }
                            }
                        }
                    },
                    _ => {},
                }
            },
            None => {
                lemma_no_first_key(entries, key);
                let e = entries.push((key, JsonValue::Array(seq![field])));
                let at = entries.len() as int;
                assert(is_first_match(e, has_key(key), at));
                lemma_first_match_unique(e, has_key(key), at);
            },
        },
        JsonValue::Null => {
            let e = seq![(key, JsonValue::Array(seq![field]))];
            assert(is_first_match(e, has_key(key), 0));
            lemma_first_match_unique(e, has_key(key), 0);
        },
        _ => {},
    }
}

/// Adding a field leaves every other member of the configuration as it was.
pub proof fn law_add_keeps_other_members(
    config: JsonValue,
    code: Seq<char>,
    field: JsonValue,
    k: Seq<char>,
)
    requires
        can_add_field(config, code),
        add_field_outcome(config, code, field) is Ok,
        k != range_of(code)->0.key(),
    ensures
        add_field_outcome(config, code, field)->Ok_0.member(k) == config.member(k),
{
    let key = range_of(code)->0.key();
    match config {
        JsonValue::Object(entries) => match first_match(entries, has_key(key)) {
            Some(i) => {
                match entries[i].1 {
                    JsonValue::Array(items) => {
                        if !has_named(items, new_field_name(field)) {
                            lemma_member_after_update(
                                entries,
                                i,
                                JsonValue::Array(items.push(field)),
                                key,
                                k,
                            );
                        }
                    },
                    _ => {},
                }
            },
            None => {
                lemma_member_after_push(entries, (key, JsonValue::Array(seq![field])), k);
            },
        },
        JsonValue::Null => {
            let e: Seq<(Seq<char>, JsonValue)> = Seq::empty();
            assert(e.push((key, JsonValue::Array(seq![field]))) =~= seq![
                (key, JsonValue::Array(seq![field])),
            ]);
            lemma_member_after_push(e, (key, JsonValue::Array(seq![field])), k);
            lemma_first_match_none(e, has_key(k));
        },
        _ => {},
    }
}

/// Editing a field leaves every other member of the configuration as it was.
pub proof fn law_edit_keeps_other_members(
    config: JsonValue,
    code: Seq<char>,
    field: JsonValue,
    k: Seq<char>,
)
    requires
        edit_field_outcome(config, code, field) is Ok,
        k != range_of(code)->0.key(),
    ensures
        edit_field_outcome(config, code, field)->Ok_0.member(k) == config.member(k),
{
    let key = range_of(code)->0.key();
    match config {
        JsonValue::Object(entries) => match first_match(entries, has_key(key)) {
            Some(i) => {
                match entries[i].1 {
                    JsonValue::Array(items) => {
                        let n = field_name(field)->0;
                        let j = first_match(items, named(n))->0;
                        lemma_member_after_update(
                            entries,
                            i,
                            JsonValue::Array(items.update(j, field)),
                            key,
                            k,
                        );
                    },
                    _ => {},
                }
            },
            None => {},
        },
        _ => {},
    }
}

/// Deleting fields leaves every other member of the configuration as it was.
pub proof fn law_delete_keeps_other_members(
    config: JsonValue,
    code: Seq<char>,
    name: Seq<char>,
    k: Seq<char>,
)
    requires
        delete_field_outcome(config, code, name) is Ok,
        k != range_of(code)->0.key(),
    ensures
        delete_field_outcome(config, code, name)->Ok_0.member(k) == config.member(k),
{
    let key = range_of(code)->0.key();
    match config {
        JsonValue::Object(entries) => match first_match(entries, has_key(key)) {
            Some(i) => {
                match entries[i].1 {
                    JsonValue::Array(items) => {
                        lemma_member_after_update(
                            entries,
                            i,
                            JsonValue::Array(items.filter(unnamed(name))),
                            key,
                            k,
                        );
                    },
                    _ => {},
                }
            },
            None => {},
        },
        _ => {},
    }
}

/// Deleting the fields named `name` keeps every other field of the range, in
/// order: the list after the delete is the list before with exactly the
/// fields whose name is `name` left out. A field of another name, or with no
/// name, is still there, and no field named `name` is.
pub proof fn law_delete_keeps_other_fields(config: JsonValue, code: Seq<char>, name: Seq<char>)
    requires
        delete_field_outcome(config, code, name) is Ok,
        config.member(range_of(code)->0.key()) matches Some(JsonValue::Array(_)),
    ensures
        ({
            let key = range_of(code)->0.key();
            &&& config.member(key) matches Some(JsonValue::Array(before))
            &&& delete_field_outcome(config, code, name)->Ok_0.member(key) matches Some(
                JsonValue::Array(after),
            )
            &&& after == before.filter(|v: JsonValue| field_name(v) != Some(name))
            &&& forall|i: int|
                0 <= i < before.len() && field_name(before[i]) != Some(name) ==> after.contains(
                    #[trigger] before[i],
                )
            &&& forall|j: int| 0 <= j < after.len() ==> field_name(#[trigger] after[j]) != Some(name)
        }),
{
    broadcast use vstd::seq_lib::group_filter_ensures;
    let key = range_of(code)->0.key();
    let p = |v: JsonValue| field_name(v) != Some(name);
    assert(unnamed(name) =~= p);
    match config {
        JsonValue::Object(entries) => match first_match(entries, has_key(key)) {
            Some(i) => {
                assert(is_first_match(entries, has_key(key), i));
                match entries[i].1 {
                    JsonValue::Array(items) => {
                        let kept = items.filter(p);
                        lemma_first_key_after_update(entries, i, JsonValue::Array(kept), key);
                        assert forall|j: int| 0 <= j < items.len() && field_name(items[j]) != Some(
                            name,
                        ) implies kept.contains(#[trigger] items[j]) by {
                            assert(p(items[j]));
                            items.lemma_filter_contains(p, j);
                        }
                        assert forall|j: int| 0 <= j < kept.len() implies field_name(
                            #[trigger] kept[j],
                        ) != Some(name) by {
                            items.lemma_filter_pred(p, j);
                        }
                    },
                    _ => {},
                }
            },
            None => {},
        },
        _ => {},
    }
}

/// An edit replaces the first field whose name is exactly the edited field's
/// name: every field before it has another name, the replaced field had that
/// name, and every other field is as it was.
pub proof fn law_edit_replaces_first_exact_match(config: JsonValue, code: Seq<char>, field: JsonValue)
    requires
        edit_field_outcome(config, code, field) is Ok,
    ensures
        ({
            let key = range_of(code)->0.key();
            let n = field_name(field)->0;
            &&& field_name(field) is Some
            &&& config.member(key) matches Some(JsonValue::Array(before))
            &&& edit_field_outcome(config, code, field)->Ok_0.member(key) matches Some(
                JsonValue::Array(after),
            )
            &&& exists|j: int|
                0 <= j < before.len() && field_name(#[trigger] before[j]) == Some(n) && (forall|
                    i: int,
                | 0 <= i < j ==> field_name(#[trigger] before[i]) != Some(n)) && after
                    == before.update(j, field)
        }),
{
    law_edited_field_is_found(config, code, field);
    let key = range_of(code)->0.key();
    match config {
        JsonValue::Object(entries) => match first_match(entries, has_key(key)) {
            Some(i) => {
                assert(is_first_match(entries, has_key(key), i));
                match entries[i].1 {
                    JsonValue::Array(items) => {
                        let n = field_name(field)->0;
                        let j = first_match(items, named(n))->0;
                        assert(is_first_match(items, named(n), j));
                        let after = items.update(j, field);
                        lemma_first_key_after_update(entries, i, JsonValue::Array(after), key);
                        assert forall|k: int| 0 <= k < j implies field_name(#[trigger] items[k])
                            != Some(n) by {
                            assert(!named(n)(items[k]));
                        }
                        assert(field_name(items[j]) == Some(n));
                    },
                    _ => {},
                }
            },
            None => {},
        },
        _ => {},
    }
}

/// Where the range holds a list and the field carries a name, the edit
/// succeeds exactly when some field of the list has exactly that name, and
/// is refused as not found otherwise.
pub proof fn law_edit_refused_only_without_exact_match(
    config: JsonValue,
    code: Seq<char>,
    field: JsonValue,
)
    requires
        range_of(code) is Some,
        config.member(range_of(code)->0.key()) matches Some(JsonValue::Array(_)),
        field_name(field) is Some,
    ensures
        ({
            let key = range_of(code)->0.key();
            let n = field_name(field)->0;
            config.member(key) matches Some(JsonValue::Array(before)) && (edit_field_outcome(
                config,
                code,
                field,
            ) is Ok <==> exists|i: int|
                0 <= i < before.len() && field_name(#[trigger] before[i]) == Some(n)) && (
            edit_field_outcome(config, code, field) is Err ==> edit_field_outcome(
                config,
                code,
                field,
            ) == Err::<JsonValue, ConfigErrorView>(ConfigErrorView::FieldNotFound(n, code)))
        }),
{
    let key = range_of(code)->0.key();
    let n = field_name(field)->0;
    match config {
        JsonValue::Object(entries) => match first_match(entries, has_key(key)) {
            Some(i) => {
                assert(is_first_match(entries, has_key(key), i));
                match entries[i].1 {
                    JsonValue::Array(items) => {
                        if exists|k: int| 0 <= k < items.len() && field_name(#[trigger] items[k])
                            == Some(n) {
                            let k = choose|k: int|
                                0 <= k < items.len() && field_name(#[trigger] items[k]) == Some(n);
                            assert(named(n)(items[k]));
                            lemma_first_match_exists(items, named(n), k);
                        } else {
                            assert forall|k: int| 0 <= k < items.len() implies !named(n)(
                                #[trigger] items[k],
                            ) by {}
                            lemma_first_match_none(items, named(n));
                        }
                        match first_match(items, named(n)) {
                            Some(j) => {
                                assert(is_first_match(items, named(n), j));
                                assert(field_name(items[j]) == Some(n));
                            },
                            None => {},
                        }
                    },
                    _ => {},
                }
            },
            None => {},
        },
        _ => {},
    }
}

/// Adding a named field to a list appends it at the end exactly when no
/// field of the list has exactly its name; otherwise the list stays as it
/// was.
pub proof fn law_add_appends_exactly_when_name_is_new(
    config: JsonValue,
    code: Seq<char>,
    field: JsonValue,
)
    requires
        can_add_field(config, code),
        range_of(code) is Some,
        config.member(range_of(code)->0.key()) matches Some(JsonValue::Array(_)),
        field_name(field) is Some,
    ensures
        ({
            let key = range_of(code)->0.key();
            let n = field_name(field)->0;
            &&& config.member(key) matches Some(JsonValue::Array(before))
            &&& add_field_outcome(config, code, field) is Ok
            &&& add_field_outcome(config, code, field)->Ok_0.member(key) matches Some(
                JsonValue::Array(after),
            )
            &&& after == (if exists|i: int|
                0 <= i < before.len() && field_name(#[trigger] before[i]) == Some(n) {
                before
            } else {
                before.push(field)
            })
        }),
{
    let key = range_of(code)->0.key();
    let n = field_name(field)->0;
    assert(new_field_name(field) == n);
    match config {
        JsonValue::Object(entries) => match first_match(entries, has_key(key)) {
            Some(i) => {
                assert(is_first_match(entries, has_key(key), i));
                match entries[i].1 {
                    JsonValue::Array(items) => {
                        if !has_named(items, n) {
                            lemma_first_key_after_update(
                                entries,
                                i,
                                JsonValue::Array(items.push(field)),
                                key,
                            );
                        }
                    },
                    _ => {},
                }
            },
            None => {},
        },
        _ => {},
    }
}

/// The four range codes, and the members that hold their fields; every other
/// code is refused.
pub proof fn law_range_codes(code: Seq<char>)
    ensures
        range_of("view"@) == Some(FieldRange::View) && FieldRange::View.key() == "viewConfig"@,
        range_of("create"@) == Some(FieldRange::Create) && FieldRange::Create.key()
            == "createFields"@,
        range_of("update"@) == Some(FieldRange::Update) && FieldRange::Update.key()
            == "updateFields"@,
        range_of("list"@) == Some(FieldRange::List) && FieldRange::List.key() == "tableFields"@,
        code != "view"@ && code != "create"@ && code != "update"@ && code != "list"@
            ==> range_of(code) is None,
{
    reveal_strlit("view");
    reveal_strlit("create");
    reveal_strlit("update");
    reveal_strlit("list");
    assert("create"@[0] != "view"@[0]);
    assert("update"@[0] != "view"@[0] && "update"@[0] != "create"@[0]);
    assert("list"@[0] != "view"@[0] && "list"@[0] != "create"@[0] && "list"@[0] != "update"@[0]);
}

} // verus!
