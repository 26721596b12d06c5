//! Local alarm state reported through the health extension.
//!
//! The store keeps its alarms ordered by identifier, the order in which a
//! `BTreeMap<String, String>` would hold them.
use crate::text::{chars_of, owned};
use vstd::prelude::*;

verus! {

/// Set while the socket is disconnected or the last connection attempt failed.
pub const DISCONNECTED_ALARM: &'static str = "link.disconnected";

/// Set when the runtime device state reports a firmware auto-revert.
pub const FIRMWARE_REVERTED_ALARM: &'static str = "link.firmware_reverted";

/// Set while a firmware update is running.
pub const UPDATE_IN_PROGRESS_ALARM: &'static str = "link.update_in_progress";

/// Lexicographic order of texts by character, the order of `String`'s `Ord`.
pub open spec fn text_lt(a: Seq<char>, b: Seq<char>) -> bool
    decreases a.len(),
{
    if a.len() == 0 {
        b.len() > 0
    } else if b.len() == 0 {
        false
    } else if a[0] != b[0] {
        a[0] < b[0]
    } else {
        text_lt(a.drop_first(), b.drop_first())
    }
}

/// Keys strictly increase along the sequence.
pub open spec fn sorted_keys(s: Seq<(Seq<char>, Seq<char>)>) -> bool {
    forall|i: int, j: int| 0 <= i < j < s.len() ==> text_lt(#[trigger] s[i].0, #[trigger] s[j].0)
}

/// The map that a sequence of (key, value) pairs denotes.
pub open spec fn pairs_map(s: Seq<(Seq<char>, Seq<char>)>) -> Map<Seq<char>, Seq<char>> {
    Map::new(
        |k: Seq<char>| exists|i: int| 0 <= i < s.len() && s[i].0 == k,
        |k: Seq<char>| s[pair_index(s, k)].1,
    )
}

/// Some position at which `k` occurs as a key.
pub open spec fn pair_index(s: Seq<(Seq<char>, Seq<char>)>, k: Seq<char>) -> int {
    choose|i: int| 0 <= i < s.len() && s[i].0 == k
}

/// The mathematical form of a list of string pairs.
pub open spec fn pairs_view(v: Seq<(String, String)>) -> Seq<(Seq<char>, Seq<char>)> {
    Seq::new(v.len(), |i: int| (v[i].0@, v[i].1@))
}

pub proof fn lemma_text_lt_irreflexive(a: Seq<char>)
    ensures
        !text_lt(a, a),
    decreases a.len(),
{
    if a.len() > 0 {
        lemma_text_lt_irreflexive(a.drop_first());
    }
}

pub proof fn lemma_text_lt_transitive(a: Seq<char>, b: Seq<char>, c: Seq<char>)
    requires
        text_lt(a, b),
        text_lt(b, c),
    ensures
        text_lt(a, c),
    decreases a.len(),
{
    if a.len() > 0 && b.len() > 0 && c.len() > 0 {
        if a[0] == b[0] && b[0] == c[0] {
            lemma_text_lt_transitive(a.drop_first(), b.drop_first(), c.drop_first());
        }
    }
}

pub proof fn lemma_text_lt_total(a: Seq<char>, b: Seq<char>)
    ensures
        a == b || text_lt(a, b) || text_lt(b, a),
    decreases a.len(),
{
    if a.len() > 0 && b.len() > 0 && a[0] == b[0] {
        lemma_text_lt_total(a.drop_first(), b.drop_first());
        if a.drop_first() == b.drop_first() {
            assert(a =~= seq![a[0]] + a.drop_first());
            assert(b =~= seq![b[0]] + b.drop_first());
        }
    } else if a.len() == 0 && b.len() == 0 {
        assert(a =~= b);
    }
}

proof fn lemma_map_at(s: Seq<(Seq<char>, Seq<char>)>, i: int)
    requires
        sorted_keys(s),
        0 <= i < s.len(),
    ensures
        pairs_map(s).contains_key(s[i].0),
        pairs_map(s)[s[i].0] == s[i].1,
{
    let k = s[i].0;
    assert(exists|j: int| 0 <= j < s.len() && s[j].0 == k);
    let c = pair_index(s, k);
    lemma_sorted_unique(s, c, i);
}

proof fn lemma_sorted_unique(s: Seq<(Seq<char>, Seq<char>)>, i: int, j: int)
    requires
        sorted_keys(s),
        0 <= i < s.len(),
        0 <= j < s.len(),
        s[i].0 == s[j].0,
    ensures
        i == j,
{
    if i < j {
        lemma_text_lt_irreflexive(s[i].0);
    } else if j < i {
        lemma_text_lt_irreflexive(s[i].0);
    }
}

/// Lexicographic comparison of two character vectors.
fn text_less(a: &Vec<char>, b: &Vec<char>) -> (r: bool)
    ensures
        r == text_lt(a@, b@),
{
    let mut i: usize = 0;
    assert(a@.skip(0) =~= a@);
    assert(b@.skip(0) =~= b@);
    while i < a.len() && i < b.len() && a[i] == b[i]
        invariant
            i <= a.len(),
            i <= b.len(),
            forall|j: int| 0 <= j < i ==> a@[j] == b@[j],
            text_lt(a@, b@) == text_lt(a@.skip(i as int), b@.skip(i as int)),
        decreases a.len() - i,
    {
        proof {
            let x = a@.skip(i as int);
            let y = b@.skip(i as int);
            assert(x.drop_first() =~= a@.skip(i + 1));
            assert(y.drop_first() =~= b@.skip(i + 1));
        }
        i = i + 1;
    }
    if i == a.len() {
        i < b.len()
    } else if i == b.len() {
        false
    } else {
        a[i] < b[i]
    }
}

/// A set of active alarms, keyed by alarm identifier.
pub struct AlarmStore {
    entries: Vec<(String, String)>,
}

impl AlarmStore {
    /// The alarms as identifier => description.
    pub closed spec fn view(&self) -> Map<Seq<char>, Seq<char>> {
        pairs_map(pairs_view(self.entries@))
    }

    /// Entries are held in strictly increasing identifier order.
    pub closed spec fn wf(&self) -> bool {
        sorted_keys(pairs_view(self.entries@))
    }

    /// An empty store.
    pub fn new() -> (s: AlarmStore)
        ensures
            s.wf(),
            s.view() == Map::<Seq<char>, Seq<char>>::empty(),
    {
        let s = AlarmStore { entries: Vec::new() };
        assert(s.view() =~= Map::<Seq<char>, Seq<char>>::empty());
        s
    }

    /// Position at which `id` is found or would be inserted.
    fn position(&self, id: &Vec<char>) -> (r: (usize, bool))
        requires
            self.wf(),
        ensures
            r.0 <= self.entries.len(),
            forall|j: int| 0 <= j < r.0 ==> text_lt(#[trigger] pairs_view(self.entries@)[j].0, id@),
            r.1 ==> r.0 < self.entries.len() && pairs_view(self.entries@)[r.0 as int].0 == id@,
            !r.1 ==> forall|j: int|
                r.0 <= j < self.entries.len() ==> text_lt(id@, #[trigger] pairs_view(self.entries@)[j].0),
    {
        let ghost s = pairs_view(self.entries@);
        let mut i: usize = 0;
        while i < self.entries.len()
            invariant
                s == pairs_view(self.entries@),
                sorted_keys(s),
                i <= self.entries.len(),
                forall|j: int| 0 <= j < i ==> text_lt(#[trigger] s[j].0, id@),
            decreases self.entries.len() - i,
        {
            let k = chars_of(self.entries[i].0.as_str());
            if !text_less(&k, id) {
                proof {
                    lemma_text_lt_total(k@, id@);
                }
                if text_less(id, &k) {
                    proof {
                        assert forall|j: int| i <= j < self.entries.len() implies text_lt(
                            id@,
                            #[trigger] s[j].0,
                        ) by {
                            if j > i {
                                assert(text_lt(s[i as int].0, s[j].0));
                                lemma_text_lt_transitive(id@, s[i as int].0, s[j].0);
                            }
                        }
                    }
                    return (i, false);
                } else {
                    return (i, true);
                }
            }
            i = i + 1;
        }
        (i, false)
    }

    proof fn lemma_view_at(&self, i: int)
        requires
            self.wf(),
            0 <= i < self.entries.len(),
        ensures
            self.view().contains_key(pairs_view(self.entries@)[i].0),
            self.view()[pairs_view(self.entries@)[i].0] == pairs_view(self.entries@)[i].1,
    {
        lemma_map_at(pairs_view(self.entries@), i);
    }

    /// Records or replaces the alarm `id` (`set`).
    pub fn set(&mut self, id: &str, description: &str)
        requires
            old(self).wf(),
        ensures
            final(self).wf(),
            final(self).view() == old(self).view().insert(id@, description@),
    {
        let key = chars_of(id);
        let (i, found) = self.position(&key);
        let ghost s0 = pairs_view(self.entries@);
        let ghost m0 = old(self).view().insert(id@, description@);
        if found {
            self.entries.set(i, (owned(id), owned(description)));
            let ghost s1 = pairs_view(self.entries@);
            proof {
                assert(s1 =~= s0.update(i as int, (id@, description@)));
                assert(sorted_keys(s1)) by {
                    assert forall|a: int, b: int| 0 <= a < b < s1.len() implies text_lt(
                        #[trigger] s1[a].0,
                        #[trigger] s1[b].0,
                    ) by {
                        assert(text_lt(s0[a].0, s0[b].0));
                    }
                }
                assert forall|k: Seq<char>|
                    (#[trigger] pairs_map(s1).contains_key(k) <==> m0.contains_key(k)) && (
                    pairs_map(s1).contains_key(k) ==> pairs_map(s1)[k] == m0[k]) by {
                    if k == id@ {
                        lemma_map_at(s1, i as int);
                    } else {
                        if pairs_map(s1).contains_key(k) {
                            let j = choose|j: int| 0 <= j < s1.len() && s1[j].0 == k;
                            lemma_map_at(s1, j);
                            lemma_map_at(s0, j);
                        }
                        if pairs_map(s0).contains_key(k) {
                            let j = choose|j: int| 0 <= j < s0.len() && s0[j].0 == k;
                            lemma_map_at(s1, j);
                        }
                    }
                }
                assert(pairs_map(s1) =~= m0);
            }
        } else {
            self.entries.insert(i, (owned(id), owned(description)));
            let ghost s1 = pairs_view(self.entries@);
            proof {
                assert(s1 =~= s0.insert(i as int, (id@, description@)));
                assert(sorted_keys(s1)) by {
                    assert forall|a: int, b: int| 0 <= a < b < s1.len() implies text_lt(
                        #[trigger] s1[a].0,
                        #[trigger] s1[b].0,
                    ) by {
                        if a < i && b < i {
                            assert(text_lt(s0[a].0, s0[b].0));
                        } else if a < i && b == i {
                        } else if a < i && b > i {
                            assert(text_lt(s0[a].0, s0[b - 1].0));
                        } else if a == i {
                        } else {
                            assert(text_lt(s0[a - 1].0, s0[b - 1].0));
                        }
                    }
                }
                assert forall|k: Seq<char>|
                    (#[trigger] pairs_map(s1).contains_key(k) <==> m0.contains_key(k)) && (
                    pairs_map(s1).contains_key(k) ==> pairs_map(s1)[k] == m0[k]) by {
                    if k == id@ {
                        lemma_map_at(s1, i as int);
                    } else {
                        if pairs_map(s1).contains_key(k) {
                            let j = choose|j: int| 0 <= j < s1.len() && s1[j].0 == k;
                            lemma_map_at(s1, j);
                            if j < i {
                                lemma_map_at(s0, j);
                            } else {
                                lemma_map_at(s0, j - 1);
                            }
                        }
                        if pairs_map(s0).contains_key(k) {
                            let j = choose|j: int| 0 <= j < s0.len() && s0[j].0 == k;
                            if j < i {
                                lemma_map_at(s1, j);
                            } else {
                                lemma_map_at(s1, j + 1);
                            }
                        }
                    }
                }
                assert(pairs_map(s1) =~= m0);
            }
        }
    }

    /// Removes the alarm `id` if it is set (`clear`).
    pub fn clear(&mut self, id: &str)
        requires
            old(self).wf(),
        ensures
            final(self).wf(),
            final(self).view() == old(self).view().remove(id@),
    {
        let key = chars_of(id);
        let (i, found) = self.position(&key);
        let ghost s0 = pairs_view(self.entries@);
        let ghost m0 = old(self).view().remove(id@);
        if found {
            self.entries.remove(i);
            let ghost s1 = pairs_view(self.entries@);
            proof {
                assert(s1 =~= s0.remove(i as int));
                assert(sorted_keys(s1)) by {
                    assert forall|a: int, b: int| 0 <= a < b < s1.len() implies text_lt(
                        #[trigger] s1[a].0,
                        #[trigger] s1[b].0,
                    ) by {
                        if b < i {
                            assert(text_lt(s0[a].0, s0[b].0));
                        } else if a < i {
                            assert(text_lt(s0[a].0, s0[b + 1].0));
                        } else {
                            assert(text_lt(s0[a + 1].0, s0[b + 1].0));
                        }
                    }
                }
                assert forall|k: Seq<char>|
                    (#[trigger] pairs_map(s1).contains_key(k) <==> m0.contains_key(k)) && (
                    pairs_map(s1).contains_key(k) ==> pairs_map(s1)[k] == m0[k]) by {
                    if pairs_map(s1).contains_key(k) {
                        let j = choose|j: int| 0 <= j < s1.len() && s1[j].0 == k;
                        lemma_map_at(s1, j);
                        if j < i {
                            lemma_map_at(s0, j);
                            if k == id@ {
                                lemma_sorted_unique(s0, j, i as int);
                            }
                        } else {
                            lemma_map_at(s0, j + 1);
                            if k == id@ {
                                lemma_sorted_unique(s0, j + 1, i as int);
                            }
                        }
                    }
                    if m0.contains_key(k) {
                        let j = choose|j: int| 0 <= j < s0.len() && s0[j].0 == k;
                        if j < i {
                            lemma_map_at(s1, j);
                        } else if j > i {
                            lemma_map_at(s1, j - 1);
                        }
                    }
                }
                assert(pairs_map(s1) =~= m0);
            }
        } else {
            proof {
                assert forall|j: int| 0 <= j < s0.len() implies #[trigger] s0[j].0 != id@ by {
                    lemma_text_lt_irreflexive(id@);
                }
                assert(self.view() =~= old(self).view().remove(id@));
            }
        }
    }

    /// The description of alarm `id`, if it is set (`get`).
    pub fn get(&self, id: &str) -> (r: Option<String>)
        requires
            self.wf(),
        ensures
            r is Some <==> self.view().contains_key(id@),
            r matches Some(d) ==> d@ == self.view()[id@],
    {
        let key = chars_of(id);
        let (i, found) = self.position(&key);
        if found {
            proof {
                self.lemma_view_at(i as int);
            }
            Some(self.entries[i].1.clone())
        } else {
            proof {
                let s = pairs_view(self.entries@);
                assert forall|j: int| 0 <= j < s.len() implies #[trigger] s[j].0 != id@ by {
                    lemma_text_lt_irreflexive(id@);
                }
            }
            None
        }
    }

    /// Whether alarm `id` is set (`is_set`).
    pub fn is_set(&self, id: &str) -> (r: bool)
        requires
            self.wf(),
        ensures
            r == self.view().contains_key(id@),
    {
        let key = chars_of(id);
        let (i, found) = self.position(&key);
        if !found {
            proof {
                let s = pairs_view(self.entries@);
                assert forall|j: int| 0 <= j < s.len() implies #[trigger] s[j].0 != id@ by {
                    lemma_text_lt_irreflexive(id@);
                }
            }
        } else {
            proof {
                self.lemma_view_at(i as int);
            }
        }
        found
    }

    /// All alarms in identifier order (`list`).
    pub fn list(&self) -> (r: Vec<(String, String)>)
        requires
            self.wf(),
        ensures
            sorted_keys(pairs_view(r@)),
            pairs_map(pairs_view(r@)) == self.view(),
    {
        let mut r: Vec<(String, String)> = Vec::new();
        let mut i: usize = 0;
        while i < self.entries.len()
            invariant
                i <= self.entries.len(),
                r@.len() == i,
                forall|j: int|
                    0 <= j < i ==> (#[trigger] r@[j]).0@ == self.entries@[j].0@ && r@[j].1@
                        == self.entries@[j].1@,
            decreases self.entries.len() - i,
        {
            let k = self.entries[i].0.clone();
            let d = self.entries[i].1.clone();
            r.push((k, d));
            i = i + 1;
        }
        assert(pairs_view(r@) =~= pairs_view(self.entries@));
        r
    }

    /// Same as `list`: the alarms as they stand now (`snapshot`).
    pub fn snapshot(&self) -> (r: Vec<(String, String)>)
        requires
            self.wf(),
        ensures
            sorted_keys(pairs_view(r@)),
            pairs_map(pairs_view(r@)) == self.view(),
    {
        self.list()
    }
}

impl Default for AlarmStore {
    /// An empty store.
    fn default() -> (s: AlarmStore)
        ensures
            s.wf(),
            s.view() == Map::<Seq<char>, Seq<char>>::empty(),
    {
        AlarmStore::new()
    }
}

/// Something that reports the active alarms as identifier and description
/// pairs, ordered by identifier.
pub trait AlarmSource {
    fn alarms(&self) -> Vec<(String, String)>;
}

impl AlarmSource for AlarmStore {
    /// The active alarms, ordered by identifier.
    fn alarms(&self) -> (r: Vec<(String, String)>)
        ensures
            pairs_map(pairs_view(r@)) == self.view(),
            self.wf() ==> sorted_keys(pairs_view(r@)),
    {
        let mut r: Vec<(String, String)> = Vec::new();
        let mut i: usize = 0;
        while i < self.entries.len()
            invariant
                i <= self.entries.len(),
                r@.len() == i,
                forall|j: int|
                    0 <= j < i ==> (#[trigger] r@[j]).0@ == self.entries@[j].0@ && r@[j].1@
                        == self.entries@[j].1@,
            decreases self.entries.len() - i,
        {
            let k = self.entries[i].0.clone();
            let d = self.entries[i].1.clone();
            r.push((k, d));
            i = i + 1;
        }
        assert(pairs_view(r@) =~= pairs_view(self.entries@));
        r
    }
}

/// An alarm reads back as it was last set, and a cleared alarm is not set;
/// other alarms are untouched by either.
pub proof fn lemma_alarm_read_back(m: Map<Seq<char>, Seq<char>>, id: Seq<char>, description: Seq<char>, other: Seq<char>)
    requires
        other != id,
    ensures
        m.insert(id, description).contains_key(id),
        m.insert(id, description)[id] == description,
        !m.remove(id).contains_key(id),
        m.insert(id, description).contains_key(other) == m.contains_key(other),
        m.remove(id).contains_key(other) == m.contains_key(other),
        m.contains_key(other) ==> m.insert(id, description)[other] == m[other],
{
}

} // verus!
