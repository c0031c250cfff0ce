//! A small map from string keys to values, kept as a list of entries with
//! distinct keys. It stands for the JSON objects that requests and replies
//! carry, and for the table of session tokens.

use vstd::prelude::*;

verus! {

/// A finite map from `String` keys to values; inserting an existing key
/// replaces its value.
#[derive(Debug)]
pub struct StrMap<V> {
    entries: Vec<(String, V)>,
}

/// Whether entry `i` of `s` has the key `k`.
pub open spec fn has_key_at<V>(s: Seq<(String, V)>, i: int, k: Seq<char>) -> bool {
    0 <= i < s.len() && s[i].0@ == k
}

/// No two entries share a key.
pub open spec fn keys_distinct<V>(s: Seq<(String, V)>) -> bool {
    forall|i: int, j: int| 0 <= i < s.len() && 0 <= j < s.len() && i != j ==> s[i].0@ != s[j].0@
}

/// The map that a list of entries with distinct keys stands for.
pub open spec fn entries_map<V: View>(s: Seq<(String, V)>) -> Map<Seq<char>, V::V> {
    Map::new(
        |k: Seq<char>| exists|i: int| has_key_at(s, i, k),
        |k: Seq<char>| s[choose|i: int| has_key_at(s, i, k)].1@,
    )
}

impl<V> StrMap<V> {
    #[verifier::type_invariant]
    closed spec fn inv(self) -> bool {
        keys_distinct(self.entries@)
    }

    /// The keys of the entries, in the order the entries are held: first
    /// insertion first.
    pub closed spec fn keys(&self) -> Seq<Seq<char>> {
        self.entries@.map_values(|e: (String, V)| e.0@)
    }
}

impl<V: View> View for StrMap<V> {
    type V = Map<Seq<char>, V::V>;

    closed spec fn view(&self) -> Map<Seq<char>, V::V> {
        entries_map(self.entries@)
    }
}

/// In a list with distinct keys, the entry with key `k` at `i` gives the
/// map's value for `k`.
proof fn lemma_entry_value<V: View>(s: Seq<(String, V)>, i: int)
    requires
        keys_distinct(s),
        0 <= i < s.len(),
    ensures
        entries_map(s).contains_key(s[i].0@),
        entries_map(s)[s[i].0@] == s[i].1@,
{
    let k = s[i].0@;
    assert(has_key_at(s, i, k));
    let j = choose|j: int| has_key_at(s, j, k);
    assert(j == i);
}

impl<V: View> StrMap<V> {
    /// The empty map.
    pub fn new() -> (m: Self)
        ensures
            m@ == Map::<Seq<char>, V::V>::empty(),
            m.keys() == Seq::<Seq<char>>::empty(),
    {
        let m = StrMap { entries: Vec::new() };
        assert(m@ =~= Map::<Seq<char>, V::V>::empty());
        assert(m.keys() =~= Seq::<Seq<char>>::empty());
        m
    }

    /// The number of entries, which is the number of keys; each key of the
    /// map is held once.
    pub fn len(&self) -> (n: usize)
        ensures
            n == self.keys().len(),
            self.keys().no_duplicates(),
            self@.dom() == self.keys().to_set(),
            self@.dom().finite(),
            n == self@.dom().len(),
    {
        proof {
            use_type_invariant(self);
            let keys = self.keys();
            assert(keys.no_duplicates());
            assert(self@.dom() =~= keys.to_set()) by {
                assert forall|k: Seq<char>| self@.dom().contains(k) implies keys.to_set().contains(k) by {
                    let i = choose|i: int| has_key_at(self.entries@, i, k);
                    assert(keys[i] == k);
                }
                assert forall|k: Seq<char>| keys.to_set().contains(k) implies self@.dom().contains(k) by {
                    let i = choose|i: int| 0 <= i < keys.len() && keys[i] == k;
                    assert(has_key_at(self.entries@, i, k));
                }
            }
            keys.unique_seq_to_set();
            vstd::seq_lib::seq_to_set_is_finite(keys);
        }
        self.entries.len()
    }

    /// The position of the entry with key `key`, if any.
    fn find(&self, key: &String) -> (res: Option<usize>)
        ensures
            match res {
                Some(i) => i < self.entries@.len() && has_key_at(self.entries@, i as int, key@),
                None => !self@.contains_key(key@),
            },
    {
        let n = self.entries.len();
        for i in 0..n
            invariant
                n == self.entries@.len(),
                forall|j: int| 0 <= j < i ==> !has_key_at(self.entries@, j, key@),
        {
            if self.entries[i].0 == *key {
                return Some(i);
            }
        }
        None
    }

    /// The value stored under `key`, if any.
    pub fn get(&self, key: &str) -> (res: Option<&V>)
        ensures
            match res {
                Some(v) => self@.contains_key(key@) && self@[key@] == v@,
                None => !self@.contains_key(key@),
            },
    {
        proof {
            use_type_invariant(self);
        }
        let k = key.to_owned();
        match self.find(&k) {
            Some(i) => {
                proof {
                    lemma_entry_value(self.entries@, i as int);
                }
                Some(&self.entries[i].1)
            },
            None => None,
        }
    }

    /// Whether `key` has a value.
    pub fn contains_key(&self, key: &str) -> (res: bool)
        ensures
            res == self@.contains_key(key@),
    {
        self.get(key).is_some()
    }

    /// Stores `value` under `key`, replacing any value it had; a new key is
    /// added after the others.
    pub fn insert(&mut self, key: String, value: V)
        ensures
            final(self)@ == old(self)@.insert(key@, value@),
            old(self)@.contains_key(key@) ==> final(self).keys() == old(self).keys(),
            !old(self)@.contains_key(key@) ==> final(self).keys() == old(self).keys().push(key@),
    {
        proof {
            use_type_invariant(&*self);
        }
        let ghost old_map = self@;
        let pos = self.find(&key);
        let mut entries: Vec<(String, V)> = Vec::new();
        std::mem::swap(&mut entries, &mut self.entries);
        let ghost before = entries@;
        let ghost k = key@;
        let ghost v = value@;
        match pos {
            Some(i) => {
                entries.set(i, (key, value));
            },
            None => {
                proof {
                    assert forall|j: int| 0 <= j < before.len() implies !has_key_at(before, j, k) by {
                        if has_key_at(before, j, k) {
                            assert(old_map.contains_key(k));
                        }
                    }
                }
                entries.push((key, value));
            },
        }
        let ghost after = entries@;
        assert(keys_distinct(after)) by {
            assert forall|a: int, b: int|
                0 <= a < after.len() && 0 <= b < after.len() && a != b implies after[a].0@
                != after[b].0@ by {
                if pos is None {
                    if a < before.len() && b < before.len() {
                    } else if a < before.len() {
                        assert(!has_key_at(before, a, k));
                    } else {
                        assert(!has_key_at(before, b, k));
                    }
                }
            }
        }
        assert forall|key2: Seq<char>|
            #![trigger entries_map(after).contains_key(key2)]
            entries_map(after).contains_key(key2) == old_map.insert(k, v).contains_key(key2)
                && (entries_map(after).contains_key(key2) ==> entries_map(after)[key2]
                == old_map.insert(k, v)[key2]) by {
            if key2 == k {
                let j = after.len() - 1;
                if let Some(i) = pos {
                    lemma_entry_value(after, i as int);
                } else {
                    lemma_entry_value(after, j);
                }
            } else if entries_map(after).contains_key(key2) {
                let j = choose|j: int| has_key_at(after, j, key2);
                assert(has_key_at(before, j, key2));
                lemma_entry_value(after, j);
                lemma_entry_value(before, j);
            } else if old_map.contains_key(key2) {
                let j = choose|j: int| has_key_at(before, j, key2);
                assert(has_key_at(after, j, key2));
            }
        }
        assert(entries_map(after) =~= old_map.insert(k, v));
        let ghost old_keys = before.map_values(|e: (String, V)| e.0@);
        let ghost new_keys = after.map_values(|e: (String, V)| e.0@);
        proof {
            if pos is Some {
                assert(new_keys =~= old_keys);
            } else {
                assert(new_keys =~= old_keys.push(k));
            }
        }
        self.entries = entries;
    }

    /// The key and value of entry `i`, for walking the map.
    pub fn entry(&self, i: usize) -> (res: (&String, &V))
        requires
            i < self.keys().len(),
        ensures
            res.0@ == self.keys()[i as int],
            self@.contains_key(res.0@),
            self@[res.0@] == res.1@,
    {
        proof {
            use_type_invariant(self);
            lemma_entry_value(self.entries@, i as int);
        }
        (&self.entries[i].0, &self.entries[i].1)
    }
}

} // verus!
