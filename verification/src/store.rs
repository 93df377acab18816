//! The settings store as the engine sees it: a finite mapping from text keys
//! to text values. Whatever keeps the mapping durable lives outside this
//! library and copies rows in and out.

use vstd::prelude::*;
use vstd::string::*;

verus! {

/// One row of the store.
struct Entry {
    key: String,
    value: String,
}

/// A key-value mapping from text to text. No key is held twice.
pub struct SettingsStore {
    entries: Vec<Entry>,
}

impl View for SettingsStore {
    type V = Map<Seq<char>, Seq<char>>;

    closed spec fn view(&self) -> Map<Seq<char>, Seq<char>> {
        Map::new(
            |k: Seq<char>| self.has_key(k),
            |k: Seq<char>| self.entries[self.index_of(k)].value@,
        )
    }
}

impl SettingsStore {
    #[verifier::type_invariant]
    spec fn distinct_keys(self) -> bool {
        forall|i: int, j: int|
            0 <= i < j < self.entries.len() ==> self.entries[i].key@ != self.entries[j].key@
    }

    spec fn has_key(self, k: Seq<char>) -> bool {
        exists|i: int| 0 <= i < self.entries.len() && self.entries[i].key@ == k
    }

    spec fn index_of(self, k: Seq<char>) -> int {
        choose|i: int| 0 <= i < self.entries.len() && self.entries[i].key@ == k
    }

    /// An empty store.
    pub fn new() -> (s: SettingsStore)
        ensures
            s@ == Map::<Seq<char>, Seq<char>>::empty(),
    {
        let s = SettingsStore { entries: Vec::new() };
        assert(s@ =~= Map::<Seq<char>, Seq<char>>::empty());
        s
    }

    /// Where `key` is held, if anywhere.
    fn find(&self, key: &String) -> (r: Option<usize>)
        ensures
            match r {
                Some(i) => i < self.entries.len() && self.entries[i as int].key@ == key@
                    && self.has_key(key@) && self.index_of(key@) == i,
                None => !self.has_key(key@),
            },
    {
        proof {
            use_type_invariant(self);
        }
        let n: usize = self.entries.len();
        let mut i: usize = 0;
        while i < n
            invariant
                i <= n,
                n == self.entries.len(),
                self.distinct_keys(),
                forall|k: int| 0 <= k < i ==> self.entries[k].key@ != key@,
            decreases n - i,
        {
            if self.entries[i].key == *key {
                assert(self.has_key(key@));
                return Some(i);
            }
            i = i + 1;
        }
        None
    }

    /// The value stored under `key`.
    pub fn get(&self, key: &str) -> (r: Option<String>)
        ensures
            match r {
                Some(v) => self@.contains_key(key@) && self@[key@] == v@,
                None => !self@.contains_key(key@),
            },
    {
        let owned = String::from_str(key);
        match self.find(&owned) {
            Some(i) => Some(self.entries[i].value.clone()),
            None => None,
        }
    }

    /// Whether anything is stored under `key`.
    pub fn contains(&self, key: &str) -> (r: bool)
        ensures
            r == self@.contains_key(key@),
    {
        let owned = String::from_str(key);
        self.find(&owned).is_some()
    }

    /// Stores `value` under `key`, replacing what was there.
    pub fn set(&mut self, key: &str, value: &str)
        ensures
            final(self)@ == old(self)@.insert(key@, value@),
    {
        proof {
            use_type_invariant(&*self);
        }
        let owned = String::from_str(key);
        let found = self.find(&owned);
        let ghost before = *self;
        let mut entries: Vec<Entry> = Vec::new();
        core::mem::swap(&mut self.entries, &mut entries);
        match found {
            Some(i) => {
                entries.set(i, Entry { key: owned, value: String::from_str(value) });
                core::mem::swap(&mut self.entries, &mut entries);
                proof {
                    assert forall|k: Seq<char>| self.has_key(k) == (before.has_key(k) || k == key@) by {
                        if before.has_key(k) {
                            let j = before.index_of(k);
                            assert(self.entries[j].key@ == k);
                        }
                        if self.has_key(k) {
                            let j = self.index_of(k);
                            assert(before.entries[j].key@ == k);
                        }
                    }
                    assert forall|k: Seq<char>| self.has_key(k) implies #[trigger] self@[k] == before@.insert(
                        key@,
                        value@,
                    )[k] by {
                        let j = self.index_of(k);
                        assert(before.entries[j].key@ == k);
                        if k != key@ {
                            assert(before.has_key(k));
                            assert(before.index_of(k) == j);
                        }
                    }
                    assert(self@ =~= before@.insert(key@, value@));
                }
            },
            None => {
                entries.push(Entry { key: owned, value: String::from_str(value) });
                proof {
                    assert forall|i: int, j: int| 0 <= i < j < entries@.len() implies entries@[i].key@
                        != entries@[j].key@ by {
                        if j == before.entries.len() {
                            assert(!before.has_key(key@));
                        }
                    }
                }
                core::mem::swap(&mut self.entries, &mut entries);
                proof {
                    let last = before.entries.len() as int;
                    assert(self.entries[last].key@ == key@);
                    assert forall|k: Seq<char>| self.has_key(k) == (before.has_key(k) || k == key@) by {
                        if before.has_key(k) {
                            let j = before.index_of(k);
                            assert(self.entries[j].key@ == k);
                        }
                        if self.has_key(k) {
                            let j = self.index_of(k);
                            if j < last {
                                assert(before.entries[j].key@ == k);
                            }
                        }
                    }
                    assert forall|k: Seq<char>| self.has_key(k) implies #[trigger] self@[k] == before@.insert(
                        key@,
                        value@,
                    )[k] by {
                        let j = self.index_of(k);
                        if k != key@ {
                            assert(j < last);
                            assert(before.entries[j].key@ == k);
                            assert(before.has_key(k));
                            assert(before.index_of(k) == j);
                        } else {
                            assert(j == last);
                        }
                    }
                    assert(self@ =~= before@.insert(key@, value@));
                }
            },
        }
    }

    /// Every row as a key and its value, each key once.
    pub fn pairs(&self) -> (r: Vec<(String, String)>)
        ensures
            forall|i: int|
                0 <= i < r@.len() ==> self@.contains_key(#[trigger] r@[i].0@) && self@[r@[i].0@]
                    == r@[i].1@,
            forall|k: Seq<char>| #[trigger]
                self@.contains_key(k) ==> exists|i: int| 0 <= i < r@.len() && r@[i].0@ == k,
            forall|i: int, j: int| 0 <= i < j < r@.len() ==> r@[i].0@ != r@[j].0@,
    {
        proof {
            use_type_invariant(self);
        }
        let n: usize = self.entries.len();
        let mut out: Vec<(String, String)> = Vec::new();
        let mut i: usize = 0;
        while i < n
            invariant
                i <= n,
                n == self.entries.len(),
                out@.len() == i,
                forall|k: int|
                    0 <= k < i ==> (#[trigger] out@[k]).0@ == self.entries[k].key@ && out@[k].1@
                        == self.entries[k].value@,
            decreases n - i,
        {
            out.push((self.entries[i].key.clone(), self.entries[i].value.clone()));
            i = i + 1;
        }
        proof {
            assert forall|i: int| 0 <= i < out@.len() implies self@.contains_key(
                #[trigger] out@[i].0@,
            ) && self@[out@[i].0@] == out@[i].1@ by {
                let k = self.entries[i].key@;
                assert(out@[i].0@ == k);
                assert(self.has_key(k));
                assert(self.index_of(k) == i);
            }
            assert forall|k: Seq<char>| #[trigger] self@.contains_key(k) implies exists|i: int|
                0 <= i < out@.len() && out@[i].0@ == k by {
                let j = self.index_of(k);
                assert(out@[j].0@ == k);
            }
            assert forall|i: int, j: int| 0 <= i < j < out@.len() implies out@[i].0@ != out@[j].0@ by {
                assert(out@[i].0@ == self.entries[i].key@);
                assert(out@[j].0@ == self.entries[j].key@);
            }
        }
        out
    }
}

/// Reads the setting stored under `key`.
pub fn get_setting(store: &SettingsStore, key: &str) -> (r: Option<String>)
    ensures
        match r {
            Some(v) => store@.contains_key(key@) && store@[key@] == v@,
            None => !store@.contains_key(key@),
        },
{
    store.get(key)
}

/// Writes `value` under `key`. The write always lands, so the answer is
/// always `true`.
pub fn set_setting(store: &mut SettingsStore, key: &str, value: &str) -> (ok: bool)
    ensures
        ok,
        final(store)@ == old(store)@.insert(key@, value@),
{
    store.set(key, value);
    true
}

} // verus!
