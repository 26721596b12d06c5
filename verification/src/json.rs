//! A JSON document model for protocol payloads.
use vstd::prelude::*;

verus! {

/// A JSON number as the wire carries it.
#[derive(Debug, Clone, PartialEq, Eq)]
pub enum JsonNumber {
    Unsigned(u64),
    Signed(i64),
    /// A number with a fraction or exponent, kept in its textual form.
    Decimal(String),
}

/// A JSON value.
#[derive(Debug)]
pub enum JsonValue {
    Null,
    Bool(bool),
    Number(JsonNumber),
    Str(String),
    Array(Vec<JsonValue>),
    Object(Vec<(String, JsonValue)>),
}

/// Mathematical form of a JSON number.
pub enum NumberView {
    Unsigned(u64),
    Signed(i64),
    Decimal(Seq<char>),
}

/// Mathematical form of a JSON value.
pub enum Json {
    Null,
    Bool(bool),
    Number(NumberView),
    Str(Seq<char>),
    Array(Seq<Json>),
    Object(Seq<(Seq<char>, Json)>),
}

impl JsonNumber {
    pub open spec fn model(&self) -> NumberView {
        match self {
            JsonNumber::Unsigned(n) => NumberView::Unsigned(*n),
            JsonNumber::Signed(n) => NumberView::Signed(*n),
            JsonNumber::Decimal(s) => NumberView::Decimal(s@),
        }
    }
}

impl JsonValue {
    pub open spec fn model(&self) -> Json
        decreases self,
    {
        match self {
            JsonValue::Null => Json::Null,
            JsonValue::Bool(b) => Json::Bool(*b),
            JsonValue::Number(n) => Json::Number(n.model()),
            JsonValue::Str(s) => Json::Str(s@),
            JsonValue::Array(items) => Json::Array(
                Seq::new(items.len() as nat, |i: int| if 0 <= i < items.len() { items[i].model() } else { Json::Null }),
            ),
            JsonValue::Object(entries) => Json::Object(
                Seq::new(entries.len() as nat, |i: int| if 0 <= i < entries.len() { (entries[i].0@, entries[i].1.model()) } else { (Seq::empty(), Json::Null) }),
            ),
        }
    }
}

/// Mathematical form of the entries of an object.
pub open spec fn entries_model(v: Seq<(String, JsonValue)>) -> Seq<(Seq<char>, Json)> {
    Seq::new(v.len(), |i: int| (v[i].0@, v[i].1.model()))
}

/// Index of the first entry whose key is `key`.
pub open spec fn key_index(es: Seq<(Seq<char>, Json)>, key: Seq<char>) -> Option<int> {
    if exists|i: int| 0 <= i < es.len() && es[i].0 == key {
        Some(choose|i: int| 0 <= i < es.len() && es[i].0 == key && forall|j: int| 0 <= j < i ==> es[j].0 != key)
    } else {
        None
    }
}

/// The value stored under `key` in an object's entries (`Map::get`).
pub open spec fn lookup(es: Seq<(Seq<char>, Json)>, key: Seq<char>) -> Option<Json> {
    match key_index(es, key) {
        Some(i) => Some(es[i].1),
        None => None,
    }
}

/// The value under `key` when `j` is an object (`Value::get` with a string index).
pub open spec fn get(j: Json, key: Seq<char>) -> Option<Json> {
    match j {
        Json::Object(es) => lookup(es, key),
        _ => None,
    }
}

/// Inserting `key => value` into an object: an existing entry for the key is
/// replaced in place, otherwise the entry is appended (`Map::insert`).
pub open spec fn insert_entry(es: Seq<(Seq<char>, Json)>, key: Seq<char>, value: Json) -> Seq<
    (Seq<char>, Json),
> {
    match key_index(es, key) {
        Some(i) => es.update(i, (key, value)),
        None => es.push((key, value)),
    }
}

/// `Value::as_u64`.
pub open spec fn as_u64(j: Json) -> Option<u64> {
    match j {
        Json::Number(NumberView::Unsigned(n)) => Some(n),
        Json::Number(NumberView::Signed(n)) => if n >= 0 { Some(n as u64) } else { None },
        _ => None,
    }
}

/// `Value::as_str`.
pub open spec fn as_str(j: Json) -> Option<Seq<char>> {
    match j {
        Json::Str(s) => Some(s),
        _ => None,
    }
}

/// `Value::as_bool`.
pub open spec fn as_bool(j: Json) -> Option<bool> {
    match j {
        Json::Bool(b) => Some(b),
        _ => None,
    }
}

/// A JSON string value.
pub open spec fn jstr(s: Seq<char>) -> Json {
    Json::Str(s)
}

/// A JSON unsigned integer value.
pub open spec fn juint(n: u64) -> Json {
    Json::Number(NumberView::Unsigned(n))
}

proof fn lemma_object_model(v: Vec<(String, JsonValue)>)
    ensures
        JsonValue::Object(v).model() == Json::Object(entries_model(v@)),
{
    assert(JsonValue::Object(v).model()->Object_0 =~= entries_model(v@));
}

/// Index of the entry for `key` in an entry vector.
pub fn find_key(entries: &Vec<(String, JsonValue)>, key: &str) -> (r: Option<usize>)
    ensures
        r matches Some(i) ==> i < entries.len() && key_index(entries_model(entries@), key@) == Some(i as int),
        r is None ==> key_index(entries_model(entries@), key@) is None,
{
    let ghost es = entries_model(entries@);
    let mut i: usize = 0;
    while i < entries.len()
        invariant
            es == entries_model(entries@),
            i <= entries.len(),
            forall|j: int| 0 <= j < i ==> es[j].0 != key@,
        decreases entries.len() - i,
    {
        if crate::text::str_eq(entries[i].0.as_str(), key) {
            proof {
                assert(es[i as int].0 == key@);
                let k = choose|k: int|
                    0 <= k < es.len() && es[k].0 == key@ && forall|j: int| 0 <= j < k ==> es[j].0 != key@;
                assert(k == i);
            }
            return Some(i);
        }
        i = i + 1;
    }
    None
}

impl JsonValue {
    /// `Value::get` with a string index.
    pub fn get(&self, key: &str) -> (r: Option<&JsonValue>)
        ensures
            r matches Some(v) ==> get(self.model(), key@) == Some(v.model()),
            r is None ==> get(self.model(), key@) is None,
    {
        match self {
            JsonValue::Object(entries) => {
                proof {
                    lemma_object_model(*entries);
                }
                match find_key(entries, key) {
                    Some(i) => Some(&entries[i].1),
                    None => None,
                }
            },
            _ => None,
        }
    }

    /// `Value::as_str`.
    pub fn as_str(&self) -> (r: Option<&String>)
        ensures
            r matches Some(s) ==> as_str(self.model()) == Some(s@),
            r is None ==> as_str(self.model()) is None,
    {
        match self {
            JsonValue::Str(s) => Some(s),
            _ => None,
        }
    }

    /// `Value::as_u64`.
    pub fn as_u64(&self) -> (r: Option<u64>)
        ensures
            r == as_u64(self.model()),
    {
        match self {
            JsonValue::Number(JsonNumber::Unsigned(n)) => Some(*n),
            JsonValue::Number(JsonNumber::Signed(n)) => {
                if *n >= 0 {
                    Some(*n as u64)
                } else {
                    None
                }
            },
            _ => None,
        }
    }

    /// `Value::as_bool`.
    pub fn as_bool(&self) -> (r: Option<bool>)
        ensures
            r == as_bool(self.model()),
    {
        match self {
            JsonValue::Bool(b) => Some(*b),
            _ => None,
        }
    }

    /// A string value.
    pub fn text(s: &str) -> (r: JsonValue)
        ensures
            r.model() == Json::Str(s@),
    {
        JsonValue::Str(crate::text::owned(s))
    }

    /// An unsigned integer value.
    pub fn uint(n: u64) -> (r: JsonValue)
        ensures
            r.model() == juint(n),
    {
        JsonValue::Number(JsonNumber::Unsigned(n))
    }

    /// An empty object.
    pub fn empty_object() -> (r: JsonValue)
        ensures
            r.model() == Json::Object(Seq::empty()),
    {
        let v: Vec<(String, JsonValue)> = Vec::new();
        proof {
            lemma_object_model(v);
            assert(entries_model(v@) =~= Seq::empty());
        }
        JsonValue::Object(v)
    }

    /// An object with the given entries.
    pub fn object(entries: Vec<(String, JsonValue)>) -> (r: JsonValue)
        ensures
            r.model() == Json::Object(entries_model(entries@)),
    {
        proof {
            lemma_object_model(entries);
        }
        JsonValue::Object(entries)
    }
}

/// `Map::insert`: replaces the entry for `key` or appends a new one.
pub fn insert(entries: &mut Vec<(String, JsonValue)>, key: &str, value: JsonValue)
    ensures
        entries_model(final(entries)@) == insert_entry(entries_model(old(entries)@), key@, value.model()),
{
    let k = crate::text::owned(key);
    match find_key(entries, key) {
        Some(i) => {
            entries.set(i, (k, value));
            assert(entries_model(entries@) =~= insert_entry(entries_model(old(entries)@), key@, value.model()));
        },
        None => {
            entries.push((k, value));
            assert(entries_model(entries@) =~= insert_entry(entries_model(old(entries)@), key@, value.model()));
        },
    }
}

/// A copy of a JSON value.
#[verifier::loop_isolation(false)]
pub fn clone_value(v: &JsonValue) -> (r: JsonValue)
    ensures
        r.model() == v.model(),
    decreases v,
{
    match v {
        JsonValue::Null => JsonValue::Null,
        JsonValue::Bool(b) => JsonValue::Bool(*b),
        JsonValue::Number(JsonNumber::Unsigned(n)) => JsonValue::Number(
            JsonNumber::Unsigned(*n),
        ),
        JsonValue::Number(JsonNumber::Signed(n)) => JsonValue::Number(
            JsonNumber::Signed(*n),
        ),
        JsonValue::Number(JsonNumber::Decimal(s)) => JsonValue::Number(
            JsonNumber::Decimal(s.clone()),
        ),
        JsonValue::Str(s) => JsonValue::Str(s.clone()),
        JsonValue::Array(items) => {
            let mut out: Vec<JsonValue> = Vec::new();
            let mut i: usize = 0;
            while i < items.len()
                invariant
                    i <= items.len(),
                    out@.len() == i,
                    forall|j: int| 0 <= j < i ==> (#[trigger] out@[j]).model() == items@[j].model(),
                decreases items.len() - i,
            {
                proof {
                    assert(decreases_to!(*v => v->Array_0));
                    assert(decreases_to!(*items => items@));
                    assert(decreases_to!(items@ => items@[i as int]));
                }
                out.push(clone_value(&items[i]));
                i = i + 1;
            }
            let r = JsonValue::Array(out);
            assert(r.model()->Array_0 =~= v.model()->Array_0);
            r
        },
        JsonValue::Object(entries) => {
            let mut out: Vec<(String, JsonValue)> = Vec::new();
            let mut i: usize = 0;
            while i < entries.len()
                invariant
                    i <= entries.len(),
                    out@.len() == i,
                    forall|j: int|
                        0 <= j < i ==> (#[trigger] out@[j]).0@ == entries@[j].0@ && out@[j].1.model()
                            == entries@[j].1.model(),
                decreases entries.len() - i,
            {
                let k = entries[i].0.clone();
                proof {
                    assert(decreases_to!(*v => v->Object_0));
                    assert(decreases_to!(*entries => entries@));
                    assert(decreases_to!(entries@ => entries@[i as int]));
                    assert(decreases_to!(entries@[i as int] => entries@[i as int].1));
                }
                out.push((k, clone_value(&entries[i].1)));
                i = i + 1;
            }
            let r = JsonValue::Object(out);
            assert(r.model()->Object_0 =~= v.model()->Object_0);
            r
        },
    }
}

impl Clone for JsonValue {
    fn clone(&self) -> (r: JsonValue)
        ensures
            r.model() == self.model(),
    {
        clone_value(self)
    }
}

/// The first entry for `key` is the one found: an entry with the key and no
/// earlier entry with it is the one `key_index` picks.
pub proof fn lemma_key_index_at(es: Seq<(Seq<char>, Json)>, key: Seq<char>, j: int)
    requires
        0 <= j < es.len(),
        es[j].0 == key,
        forall|m: int| 0 <= m < j ==> es[m].0 != key,
    ensures
        key_index(es, key) == Some(j),
{
    let c = choose|i: int| 0 <= i < es.len() && es[i].0 == key && forall|m: int| 0 <= m < i ==> es[m].0 != key;
    assert(0 <= c < es.len() && es[c].0 == key && forall|m: int| 0 <= m < c ==> es[m].0 != key);
    if c < j {
        assert(es[c].0 != key);
    } else if c > j {
        assert(es[j].0 != key);
    }
}

/// What `key_index` finds: the first entry with the key, or no entry has it.
pub proof fn lemma_key_index_found(es: Seq<(Seq<char>, Json)>, key: Seq<char>)
    ensures
        key_index(es, key) matches Some(i) ==> 0 <= i < es.len() && es[i].0 == key && forall|m: int|
            0 <= m < i ==> es[m].0 != key,
        key_index(es, key) is None ==> forall|x: int| 0 <= x < es.len() ==> es[x].0 != key,
{
    if exists|x: int| 0 <= x < es.len() && es[x].0 == key {
        let w = choose|x: int| 0 <= x < es.len() && es[x].0 == key;
        lemma_first_index(es, key, w);
    }
}

proof fn lemma_first_index(es: Seq<(Seq<char>, Json)>, key: Seq<char>, w: int)
    requires
        0 <= w < es.len(),
        es[w].0 == key,
    ensures
        exists|i: int| 0 <= i < es.len() && es[i].0 == key && forall|m: int| 0 <= m < i ==> es[m].0 != key,
    decreases w,
{
    if exists|m: int| 0 <= m < w && es[m].0 == key {
        let m = choose|m: int| 0 <= m < w && es[m].0 == key;
        lemma_first_index(es, key, m);
    } else {
        assert(0 <= w < es.len() && es[w].0 == key && forall|m: int| 0 <= m < w ==> es[m].0 != key);
    }
}

proof fn lemma_lookup_update(es: Seq<(Seq<char>, Json)>, i: int, key: Seq<char>, value: Json, q: Seq<char>)
    requires
        key_index(es, key) == Some(i),
    ensures
        lookup(es.update(i, (key, value)), q) == if q == key {
            Some(value)
        } else {
            lookup(es, q)
        },
{
    lemma_key_index_found(es, key);
    let es2 = es.update(i, (key, value));
    if q == key {
        assert forall|m: int| 0 <= m < i implies es2[m].0 != key by {
            assert(es2[m] == es[m]);
        }
        lemma_key_index_at(es2, key, i);
    } else {
        lemma_key_index_found(es, q);
        match key_index(es, q) {
            Some(j) => {
                assert(j != i);
                assert forall|m: int| 0 <= m < j implies es2[m].0 != q by {
                    if m != i {
                        assert(es2[m] == es[m]);
                    }
                }
                assert(es2[j] == es[j]);
                lemma_key_index_at(es2, q, j);
            },
            None => {
                assert forall|x: int| 0 <= x < es2.len() implies es2[x].0 != q by {
                    if x != i {
                        assert(es2[x] == es[x]);
                    }
                }
                lemma_key_index_found(es2, q);
                if key_index(es2, q) is Some {
                    let j = key_index(es2, q)->Some_0;
                    assert(es2[j].0 == q);
                }
            },
        }
    }
}

proof fn lemma_lookup_push(es: Seq<(Seq<char>, Json)>, key: Seq<char>, value: Json, q: Seq<char>)
    requires
        key_index(es, key) is None,
    ensures
        lookup(es.push((key, value)), q) == if q == key {
            Some(value)
        } else {
            lookup(es, q)
        },
{
    lemma_key_index_found(es, key);
    let es2 = es.push((key, value));
    if q == key {
        assert forall|m: int| 0 <= m < es.len() implies es2[m].0 != key by {
            assert(es2[m] == es[m]);
        }
        lemma_key_index_at(es2, key, es.len() as int);
    } else {
        lemma_key_index_found(es, q);
        match key_index(es, q) {
            Some(j) => {
                assert forall|m: int| 0 <= m < j implies es2[m].0 != q by {
                    assert(es2[m] == es[m]);
                }
                assert(es2[j] == es[j]);
                lemma_key_index_at(es2, q, j);
            },
            None => {
                assert forall|x: int| 0 <= x < es2.len() implies es2[x].0 != q by {
                    if x < es.len() {
                        assert(es2[x] == es[x]);
                    }
                }
                lemma_key_index_found(es2, q);
                if key_index(es2, q) is Some {
                    let j = key_index(es2, q)->Some_0;
                    assert(es2[j].0 == q);
                }
            },
        }
    }
}

/// Reading an object after inserting `key => value`: the key gives the new
/// value and every other key what it gave before.
pub proof fn lemma_lookup_insert(es: Seq<(Seq<char>, Json)>, key: Seq<char>, value: Json, q: Seq<char>)
    ensures
        lookup(insert_entry(es, key, value), q) == if q == key {
            Some(value)
        } else {
            lookup(es, q)
        },
{
    match key_index(es, key) {
        Some(i) => lemma_lookup_update(es, i, key, value, q),
        None => lemma_lookup_push(es, key, value, q),
    }
}

} // verus!
