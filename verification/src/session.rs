//! The per-client session: a map from keys to string values, the part of the
//! cookie session that the handlers read and write.

use vstd::prelude::*;
use crate::text::str_eq;

verus! {

/// Key and value of one session entry, as character sequences.
pub open spec fn entry_view(e: (String, String)) -> (Seq<char>, Seq<char>) {
    (e.0@, e.1@)
}

/// The map that a list of distinct-keyed entries denotes.
pub open spec fn entries_map(s: Seq<(Seq<char>, Seq<char>)>) -> Map<Seq<char>, Seq<char>>
    decreases s.len(),
{
    if s.len() == 0 {
        Map::empty()
    } else {
        entries_map(s.drop_last()).insert(s.last().0, s.last().1)
    }
}

/// No key occurs twice.
pub open spec fn keys_distinct(s: Seq<(Seq<char>, Seq<char>)>) -> bool {
    forall|i: int, j: int| 0 <= i < j < s.len() ==> s[i].0 != s[j].0
}

/// A key is in the map exactly when an entry holds it, and (keys being
/// distinct) the map gives that entry's value.
proof fn lemma_entries_map(s: Seq<(Seq<char>, Seq<char>)>, k: Seq<char>)
    requires
        keys_distinct(s),
    ensures
        entries_map(s).contains_key(k) <==> exists|i: int| 0 <= i < s.len() && s[i].0 == k,
        forall|i: int| 0 <= i < s.len() && s[i].0 == k ==> entries_map(s)[k] == s[i].1,
    decreases s.len(),
{
    if s.len() > 0 {
        let t = s.drop_last();
        assert(keys_distinct(t));
        lemma_entries_map(t, k);
        if entries_map(s).contains_key(k) && s.last().0 != k {
            let i: int = choose|i: int| 0 <= i < t.len() && t[i].0 == k;
            assert(s[i].0 == k);
        }
        if exists|i: int| 0 <= i < s.len() && s[i].0 == k {
            let i: int = choose|i: int| 0 <= i < s.len() && s[i].0 == k;
            if i < s.len() - 1 {
                assert(t[i].0 == k);
            }
        }
    }
}

/// The session's key/value store.
pub struct SessionData {
    entries: Vec<(String, String)>,
}

impl SessionData {
    /// The entries as character sequences.
    pub closed spec fn pairs(&self) -> Seq<(Seq<char>, Seq<char>)> {
        self.entries@.map_values(|e: (String, String)| entry_view(e))
    }

    #[verifier::type_invariant]
    spec fn inv(&self) -> bool {
        keys_distinct(self.pairs())
    }

    /// An empty session.
    pub fn new() -> (s: SessionData)
        ensures
            s@ == Map::<Seq<char>, Seq<char>>::empty(),
    {
        let s = SessionData { entries: Vec::new() };
        assert(s.pairs() =~= Seq::<(Seq<char>, Seq<char>)>::empty());
        s
    }

    /// Where `key` is stored, if anywhere.
    fn find(&self, key: &str) -> (r: Option<usize>)
        ensures
            match r {
                Some(i) => i < self.pairs().len() && self.pairs()[i as int].0 == key@,
                None => forall|i: int| 0 <= i < self.pairs().len() ==> self.pairs()[i].0 != key@,
            },
    {
        let n: usize = self.entries.len();
        let mut i: usize = 0;
        while i < n
            invariant
                n == self.entries@.len(),
                i <= n,
                forall|j: int| 0 <= j < i ==> self.pairs()[j].0 != key@,
            decreases n - i,
        {
            if str_eq(self.entries[i].0.as_str(), key) {
                return Some(i);
            }
            i = i + 1;
        }
        None
    }

    /// The value stored under `key`.
    pub fn get(&self, key: &str) -> (r: Option<String>)
        ensures
            r.deep_view() == (if self@.contains_key(key@) {
                Some(self@[key@])
            } else {
                None
            }),
    {
        proof {
            use_type_invariant(self);
            lemma_entries_map(self.pairs(), key@);
        }
        match self.find(key) {
            Some(i) => Some(self.entries[i].1.clone()),
            None => None,
        }
    }

    /// Stores `value` under `key`, replacing what was there.
    pub fn insert(&mut self, key: &str, value: String)
        ensures
            final(self)@ == old(self)@.insert(key@, value@),
    {
        proof {
            use_type_invariant(&*self);
        }
        let ghost old_pairs = self.pairs();
        let found = self.find(key);
        let mut entries: Vec<(String, String)> = Vec::new();
        std::mem::swap(&mut entries, &mut self.entries);
        match found {
            Some(i) => {
                entries.set(i, (key.to_owned(), value));
            },
            None => {
                entries.push((key.to_owned(), value));
            },
        }
        let ghost new_pairs = entries@.map_values(|e: (String, String)| entry_view(e));
        assert(keys_distinct(new_pairs)) by {
            assert forall|a: int, b: int| 0 <= a < b < new_pairs.len() implies new_pairs[a].0
                != new_pairs[b].0 by {
                if found is None {
                    if b == old_pairs.len() {
                        assert(new_pairs[a] == old_pairs[a]);
                    } else {
                        assert(new_pairs[a] == old_pairs[a] && new_pairs[b] == old_pairs[b]);
                    }
                } else {
                    let i: int = found.unwrap() as int;
                    if a != i {
                        assert(new_pairs[a] == old_pairs[a]);
                    }
                    if b != i {
                        assert(new_pairs[b] == old_pairs[b]);
                    }
                }
            }
        }
        self.entries = entries;
        proof {
            assert(self.pairs() == new_pairs);
            assert forall|k: Seq<char>| true implies (#[trigger] self@.contains_key(k)
                == old(self)@.insert(key@, value@).contains_key(k)) && (self@.contains_key(k)
                ==> self@[k] == old(self)@.insert(key@, value@)[k]) by {
                lemma_entries_map(new_pairs, k);
                lemma_entries_map(old_pairs, k);
                if found is None {
                    if k == key@ {
                        assert(new_pairs[old_pairs.len() as int].0 == k);
                    } else {
                        if self@.contains_key(k) {
                            let j: int = choose|j: int| 0 <= j < new_pairs.len() && new_pairs[j].0 == k;
                            assert(old_pairs[j].0 == k);
                        }
                        if old(self)@.contains_key(k) {
                            let j: int = choose|j: int| 0 <= j < old_pairs.len() && old_pairs[j].0 == k;
                            assert(new_pairs[j] == old_pairs[j]);
                        }
                    }
                } else {
                    let i: int = found.unwrap() as int;
                    assert(new_pairs[i].0 == key@);
                    if k != key@ {
                        if self@.contains_key(k) {
                            let j: int = choose|j: int| 0 <= j < new_pairs.len() && new_pairs[j].0 == k;
                            assert(old_pairs[j] == new_pairs[j]);
                        }
                        if old(self)@.contains_key(k) {
                            let j: int = choose|j: int| 0 <= j < old_pairs.len() && old_pairs[j].0 == k;
                            assert(new_pairs[j] == old_pairs[j]);
                        }
                    }
                }
            }
            assert(self@ =~= old(self)@.insert(key@, value@));
        }
    }

    /// Removes `key` and returns the value it held.
    pub fn remove(&mut self, key: &str) -> (r: Option<String>)
        ensures
            final(self)@ == old(self)@.remove(key@),
            r.deep_view() == (if old(self)@.contains_key(key@) {
                Some(old(self)@[key@])
            } else {
                None
            }),
    {
        proof {
            use_type_invariant(&*self);
            lemma_entries_map(self.pairs(), key@);
        }
        let ghost old_pairs = self.pairs();
        match self.find(key) {
            None => {
                assert(self@ =~= old(self)@.remove(key@));
                None
            },
            Some(i) => {
                let mut entries: Vec<(String, String)> = Vec::new();
                std::mem::swap(&mut entries, &mut self.entries);
                let (_k, v) = entries.remove(i);
                let ghost new_pairs = entries@.map_values(|e: (String, String)| entry_view(e));
                assert(new_pairs =~= old_pairs.remove(i as int));
                assert(keys_distinct(new_pairs)) by {
                    assert forall|a: int, b: int| 0 <= a < b < new_pairs.len() implies new_pairs[a].0
                        != new_pairs[b].0 by {
                        if a < i {
                            if b < i {
                            } else {
                                assert(new_pairs[b] == old_pairs[b + 1]);
                            }
                        } else {
                            assert(new_pairs[a] == old_pairs[a + 1]);
                            assert(new_pairs[b] == old_pairs[b + 1]);
                        }
                    }
                }
                self.entries = entries;
                proof {
                    assert(self.pairs() == new_pairs);
                    assert forall|k: Seq<char>| true implies (#[trigger] self@.contains_key(k)
                        == old(self)@.remove(key@).contains_key(k)) && (self@.contains_key(k)
                        ==> self@[k] == old(self)@[k]) by {
                        lemma_entries_map(new_pairs, k);
                        lemma_entries_map(old_pairs, k);
                        if self@.contains_key(k) {
                            let j: int = choose|j: int| 0 <= j < new_pairs.len() && new_pairs[j].0 == k;
                            if j < i {
                                assert(old_pairs[j] == new_pairs[j]);
                            } else {
                                assert(old_pairs[j + 1] == new_pairs[j]);
                            }
                        }
                        if k != key@ && old(self)@.contains_key(k) {
                            let j: int = choose|j: int| 0 <= j < old_pairs.len() && old_pairs[j].0 == k;
                            if j < i {
                                assert(new_pairs[j] == old_pairs[j]);
                            } else {
                                assert(j != i);
                                assert(new_pairs[j - 1] == old_pairs[j]);
                            }
                        }
                    }
                    assert(self@ =~= old(self)@.remove(key@));
                }
                Some(v)
            },
        }
    }
}

/// A read gives back what the last write under the same key wrote, and a
/// write under another key does not change it.
pub proof fn lemma_read_after_write(
    s: Map<Seq<char>, Seq<char>>,
    key: Seq<char>,
    value: Seq<char>,
    other_key: Seq<char>,
    other_value: Seq<char>,
)
    ensures
        s.insert(key, value).contains_key(key),
        s.insert(key, value)[key] == value,
        key != other_key ==> s.insert(key, value).insert(other_key, other_value)[key] == value,
{
}

/// After a removal the key is absent, and every other key keeps its value.
pub proof fn lemma_remove_forgets(s: Map<Seq<char>, Seq<char>>, key: Seq<char>, other_key: Seq<char>)
    ensures
        !s.remove(key).contains_key(key),
        key != other_key ==> s.remove(key).contains_key(other_key) == s.contains_key(other_key),
        key != other_key && s.contains_key(other_key) ==> s.remove(key)[other_key] == s[other_key],
{
}

impl View for SessionData {
    type V = Map<Seq<char>, Seq<char>>;

    closed spec fn view(&self) -> Map<Seq<char>, Seq<char>> {
        entries_map(self.pairs())
    }
}

} // verus!
