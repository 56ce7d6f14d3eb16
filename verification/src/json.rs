//! JSON documents as the library holds them: a tree of plain values, with a
//! mathematical view that the contracts speak of.
use vstd::prelude::*;

verus! {

/// A JSON document.
///
/// Numbers are kept as their decimal text, objects as their members in
/// order (a well-formed object names each key once, see [`JsonValue::wf`]).
#[derive(Debug)]
pub enum Json {
    Null,
    Bool(bool),
    Number(String),
    Str(String),
    Array(Vec<Json>),
    Object(Vec<(String, Json)>),
}

/// The mathematical value of a [`Json`] document.
pub enum JsonValue {
    Null,
    Bool(bool),
    Number(Seq<char>),
    Str(Seq<char>),
    Array(Seq<JsonValue>),
    Object(Seq<(Seq<char>, JsonValue)>),
}

/// The value of a document, member by member and item by item.
pub open spec fn json_view(j: Json) -> JsonValue
    decreases j,
{
    match j {
        Json::Null => JsonValue::Null,
        Json::Bool(b) => JsonValue::Bool(b),
        Json::Number(n) => JsonValue::Number(n@),
        Json::Str(s) => JsonValue::Str(s@),
        Json::Array(items) => JsonValue::Array(
            Seq::new(
                items@.len(),
                |i: int|
                    if 0 <= i < items@.len() {
                        json_view(items@[i])
                    } else {
                        JsonValue::Null
                    },
            ),
        ),
        Json::Object(entries) => JsonValue::Object(
            Seq::new(
                entries@.len(),
                |i: int|
                    if 0 <= i < entries@.len() {
                        (entries@[i].0@, json_view(entries@[i].1))
                    } else {
                        (Seq::empty(), JsonValue::Null)
                    },
            ),
        ),
    }
}

impl View for Json {
    type V = JsonValue;

    open spec fn view(&self) -> JsonValue {
        json_view(*self)
    }
}

/// The values of a sequence of documents.
pub open spec fn items_view(items: Seq<Json>) -> Seq<JsonValue> {
    Seq::new(items.len(), |i: int| items[i]@)
}

/// The values of a sequence of object members.
pub open spec fn entries_view(entries: Seq<(String, Json)>) -> Seq<(Seq<char>, JsonValue)> {
    Seq::new(entries.len(), |i: int| (entries[i].0@, entries[i].1@))
}

/// The value of an optional borrowed document.
pub open spec fn opt_view(o: Option<&Json>) -> Option<JsonValue> {
    match o {
        Some(j) => Some(j@),
        None => None,
    }
}

/// The text of an optional borrowed string.
pub open spec fn opt_text(o: Option<&String>) -> Option<Seq<char>> {
    match o {
        Some(s) => Some(s@),
        None => None,
    }
}

/// `i` is the first position of `s` whose element satisfies `p`.
pub open spec fn is_first_match<A>(s: Seq<A>, p: spec_fn(A) -> bool, i: int) -> bool {
    &&& 0 <= i < s.len()
    &&& p(s[i])
    &&& forall|j: int| 0 <= j < i ==> !p(#[trigger] s[j])
}

/// The first position of `s` whose element satisfies `p`, if any.
pub open spec fn first_match<A>(s: Seq<A>, p: spec_fn(A) -> bool) -> Option<int> {
    if exists|i: int| is_first_match(s, p, i) {
        Some(choose|i: int| is_first_match(s, p, i))
    } else {
        None
    }
}

/// The first match is unique.
pub proof fn lemma_first_match_unique<A>(s: Seq<A>, p: spec_fn(A) -> bool, i: int)
    requires
        is_first_match(s, p, i),
    ensures
        first_match(s, p) == Some(i),
{
    let k = choose|k: int| is_first_match(s, p, k);
    assert(is_first_match(s, p, k));
    if k < i {
        assert(!p(s[k]));
    } else if i < k {
        assert(!p(s[i]));
    }
}

/// If no element satisfies `p`, there is no first match.
pub proof fn lemma_first_match_none<A>(s: Seq<A>, p: spec_fn(A) -> bool)
    requires
        forall|j: int| 0 <= j < s.len() ==> !p(#[trigger] s[j]),
    ensures
        first_match(s, p) is None,
{
}

/// Some element satisfies `p` exactly when there is a first match, and the
/// first match satisfies `p`.
pub proof fn lemma_first_match_exists<A>(s: Seq<A>, p: spec_fn(A) -> bool, i: int)
    requires
        0 <= i < s.len(),
        p(s[i]),
    ensures
        first_match(s, p) is Some,
        first_match(s, p)->0 <= i,
    decreases i,
{
    if exists|j: int| 0 <= j < i && p(#[trigger] s[j]) {
        let j = choose|j: int| 0 <= j < i && p(#[trigger] s[j]);
        lemma_first_match_exists(s, p, j);
    } else {
        assert(is_first_match(s, p, i));
        lemma_first_match_unique(s, p, i);
    }
}

/// The member test: a member whose key is `key`.
pub open spec fn has_key(key: Seq<char>) -> spec_fn((Seq<char>, JsonValue)) -> bool {
    |e: (Seq<char>, JsonValue)| e.0 == key
}

/// Every key of the object occurs once.
pub open spec fn keys_distinct(entries: Seq<(Seq<char>, JsonValue)>) -> bool {
    forall|i: int, j: int|
        0 <= i < entries.len() && 0 <= j < entries.len() && i != j ==> #[trigger] entries[i].0
            != #[trigger] entries[j].0
}

impl JsonValue {
    /// The member named `key` of an object; nothing for any other value.
    pub open spec fn member(self, key: Seq<char>) -> Option<JsonValue> {
        match self {
            JsonValue::Object(entries) => match first_match(entries, has_key(key)) {
                Some(i) => Some(entries[i].1),
                None => None,
            },
            _ => None,
        }
    }

    /// The text of a string; nothing for any other value.
    pub open spec fn as_text(self) -> Option<Seq<char>> {
        match self {
            JsonValue::Str(s) => Some(s),
            _ => None,
        }
    }

    /// At the top level, an object names each key once.
    pub open spec fn wf(self) -> bool {
        match self {
            JsonValue::Object(entries) => keys_distinct(entries),
            _ => true,
        }
    }
}

/// The name that a configuration element carries: the text of its member
/// `field`, where that member is a string.
pub open spec fn field_name(v: JsonValue) -> Option<Seq<char>> {
    match v.member("field"@) {
        Some(m) => m.as_text(),
        None => None,
    }
}

/// The element test: an element whose name is `name`.
pub open spec fn named(name: Seq<char>) -> spec_fn(JsonValue) -> bool {
    |v: JsonValue| field_name(v) == Some(name)
}

/// The value of an array is the sequence of its items' values.
pub proof fn lemma_array_view(items: Vec<Json>)
    ensures
        Json::Array(items)@ == JsonValue::Array(items_view(items@)),
{
    assert(items_view(items@) =~= match Json::Array(items)@ {
        JsonValue::Array(s) => s,
        _ => Seq::empty(),
    });
}

/// The value of an object is the sequence of its members' values.
pub proof fn lemma_object_view(entries: Vec<(String, Json)>)
    ensures
        Json::Object(entries)@ == JsonValue::Object(entries_view(entries@)),
{
    assert(entries_view(entries@) =~= match Json::Object(entries)@ {
        JsonValue::Object(s) => s,
        _ => Seq::empty(),
    });
}

/// Replacing a member replaces its value.
pub proof fn lemma_entries_view_update(s: Seq<(String, Json)>, i: int, e: (String, Json))
    requires
        0 <= i < s.len(),
    ensures
        entries_view(s.update(i, e)) == entries_view(s).update(i, (e.0@, e.1@)),
{
    assert(entries_view(s.update(i, e)) =~= entries_view(s).update(i, (e.0@, e.1@)));
}

/// Appending a member appends its value.
pub proof fn lemma_entries_view_push(s: Seq<(String, Json)>, e: (String, Json))
    ensures
        entries_view(s.push(e)) == entries_view(s).push((e.0@, e.1@)),
{
    assert(entries_view(s.push(e)) =~= entries_view(s).push((e.0@, e.1@)));
}

/// Replacing an item replaces its value.
pub proof fn lemma_items_view_update(s: Seq<Json>, i: int, e: Json)
    requires
        0 <= i < s.len(),
    ensures
        items_view(s.update(i, e)) == items_view(s).update(i, e@),
{
    assert(items_view(s.update(i, e)) =~= items_view(s).update(i, e@));
}

/// Appending an item appends its value.
pub proof fn lemma_items_view_push(s: Seq<Json>, e: Json)
    ensures
        items_view(s.push(e)) == items_view(s).push(e@),
{
    assert(items_view(s.push(e)) =~= items_view(s).push(e@));
}

/// Finds the first member of `entries` whose key is `key`.
pub fn find_member(entries: &Vec<(String, Json)>, key: &String) -> (r: Option<usize>)
    ensures
        match r {
            Some(i) => first_match(entries_view(entries@), has_key(key@)) == Some(i as int),
            None => first_match(entries_view(entries@), has_key(key@)) is None,
        },
{
    let ghost ev = entries_view(entries@);
    let mut i: usize = 0;
    while i < entries.len()
        invariant
            i <= entries.len(),
            ev == entries_view(entries@),
            forall|j: int| 0 <= j < i ==> !has_key(key@)(#[trigger] ev[j]),
        decreases entries.len() - i,
    {
        if entries[i].0 == *key {
            proof {
                assert(is_first_match(ev, has_key(key@), i as int));
                lemma_first_match_unique(ev, has_key(key@), i as int);
            }
            return Some(i);
        }
        i = i + 1;
    }
    proof {
        lemma_first_match_none(ev, has_key(key@));
    }
    None
}

impl Json {
    /// The member named `key`, where this document is an object that has one.
    pub fn get(&self, key: &String) -> (r: Option<&Json>)
        ensures
            opt_view(r) == self@.member(key@),
    {
        match self {
            Json::Object(entries) => {
                proof {
                    lemma_object_view(*entries);
                }
                match find_member(entries, key) {
                    Some(i) => Some(&entries[i].1),
                    None => None,
                }
            },
            _ => None,
        }
    }

    /// The text of this document, where it is a string.
    pub fn as_text(&self) -> (r: Option<&String>)
        ensures
            opt_text(r) == self@.as_text(),
    {
        match self {
            Json::Str(s) => Some(s),
            _ => None,
        }
    }

    /// An object document with the given members.
    pub fn object(entries: Vec<(String, Json)>) -> (r: Json)
        ensures
            r@ == JsonValue::Object(entries_view(entries@)),
    {
        proof {
            lemma_object_view(entries);
        }
        Json::Object(entries)
    }

    /// An array document with the given items.
    pub fn array(items: Vec<Json>) -> (r: Json)
        ensures
            r@ == JsonValue::Array(items_view(items@)),
    {
        proof {
            lemma_array_view(items);
        }
        Json::Array(items)
    }

    /// A string document holding `text`.
    pub fn text(text: &str) -> (r: Json)
        ensures
            r@ == JsonValue::Str(text@),
    {
        Json::Str(text.to_owned())
    }

    /// An independent copy of this document.
    pub fn duplicate(&self) -> (r: Json)
        ensures
            r@ == self@,
        decreases self,
    {
        match self {
            Json::Null => Json::Null,
            Json::Bool(b) => Json::Bool(*b),
            Json::Number(n) => Json::Number(n.clone()),
            Json::Str(s) => Json::Str(s.clone()),
            Json::Array(items) => {
                let mut out: Vec<Json> = Vec::new();
                let mut i: usize = 0;
                while i < items.len()
                    invariant
                        i <= items.len(),
                        *self == Json::Array(*items),
                        out@.len() == i,
                        forall|j: int| 0 <= j < i ==> (#[trigger] out@[j])@ == items@[j]@,
                    decreases items.len() - i,
                {
                    proof {
                        assert(decreases_to!(*self => (*self)->Array_0));
                        assert(decreases_to!(*items => items@));
                        assert(decreases_to!(items@ => items@[i as int]));
                        assert(decreases_to!(*self => items@[i as int]));
                    }
                    let c = items[i].duplicate();
                    out.push(c);
                    i = i + 1;
                }
                proof {
                    lemma_array_view(*items);
                    lemma_array_view(out);
                    assert(items_view(out@) =~= items_view(items@));
                }
                Json::Array(out)
            },
            Json::Object(entries) => {
                let mut out: Vec<(String, Json)> = Vec::new();
                let mut i: usize = 0;
                while i < entries.len()
                    invariant
                        i <= entries.len(),
                        *self == Json::Object(*entries),
                        out@.len() == i,
                        forall|j: int|
                            0 <= j < i ==> (#[trigger] out@[j]).0@ == entries@[j].0@ && out@[j].1@
                                == entries@[j].1@,
                    decreases entries.len() - i,
                {
                    proof {
                        assert(decreases_to!(*self => (*self)->Object_0));
                        assert(decreases_to!(*entries => entries@));
                        assert(decreases_to!(entries@ => entries@[i as int]));
                        assert(decreases_to!(entries@[i as int] => entries@[i as int].1));
                        assert(decreases_to!(*self => entries@[i as int].1));
                    }
                    let c = entries[i].1.duplicate();
                    let k = entries[i].0.clone();
                    out.push((k, c));
                    i = i + 1;
                }
                proof {
                    lemma_object_view(*entries);
                    lemma_object_view(out);
                    assert(entries_view(out@) =~= entries_view(entries@));
                }
                Json::Object(out)
            },
        }
    }
}

/// The name of a configuration element, where it has one.
pub fn element_name(element: &Json) -> (r: Option<&String>)
    ensures
        opt_text(r) == field_name(element@),
{
    let key = String::from_str("field");
    match element.get(&key) {
        Some(m) => m.as_text(),
        None => None,
    }
}

} // verus!
