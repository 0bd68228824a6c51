//! The application's key-value settings, kept in memory; reading and writing
//! the settings file is left to the caller.
use vstd::prelude::*;

use crate::text::str_eq;

verus! {

/// The map that a list of entries describes, a later entry winning over an
/// earlier one with the same key.
pub open spec fn map_of(entries: Seq<(String, String)>) -> Map<Seq<char>, Seq<char>>
    decreases entries.len(),
{
    if entries.len() == 0 {
        Map::empty()
    } else {
        map_of(entries.drop_last()).insert(entries.last().0@, entries.last().1@)
    }
}

pub open spec fn keys_unique(entries: Seq<(String, String)>) -> bool {
    forall|i: int, j: int|
        0 <= i < entries.len() && 0 <= j < entries.len() && i != j ==> entries[i].0@
            != entries[j].0@
}

/// Settings: string values by string key, and the file they are kept in.
#[derive(Debug)]
pub struct Config {
    entries: Vec<(String, String)>,
    path: String,
}

proof fn lemma_map_of_domain(entries: Seq<(String, String)>, k: Seq<char>)
    ensures
        map_of(entries).contains_key(k) <==> exists|i: int|
            0 <= i < entries.len() && entries[i].0@ == k,
    decreases entries.len(),
{
    if entries.len() > 0 {
        let init = entries.drop_last();
        lemma_map_of_domain(init, k);
        if map_of(entries).contains_key(k) && entries.last().0@ != k {
            let i = choose|i: int| 0 <= i < init.len() && init[i].0@ == k;
            assert(entries[i].0@ == k);
        }
        if exists|i: int| 0 <= i < entries.len() && entries[i].0@ == k {
            let i = choose|i: int| 0 <= i < entries.len() && entries[i].0@ == k;
            if i < entries.len() - 1 {
                assert(init[i].0@ == k);
            }
        }
    }
}

proof fn lemma_map_of_at(entries: Seq<(String, String)>, i: int)
    requires
        keys_unique(entries),
        0 <= i < entries.len(),
    ensures
        map_of(entries).contains_key(entries[i].0@),
        map_of(entries)[entries[i].0@] == entries[i].1@,
    decreases entries.len(),
{
    let init = entries.drop_last();
    if i < entries.len() - 1 {
        assert(init[i] == entries[i]);
        lemma_map_of_at(init, i);
    }
}

proof fn lemma_map_of_update(entries: Seq<(String, String)>, i: int, e: (String, String))
    requires
        keys_unique(entries),
        0 <= i < entries.len(),
        entries[i].0@ == e.0@,
    ensures
        keys_unique(entries.update(i, e)),
        map_of(entries.update(i, e)) == map_of(entries).insert(e.0@, e.1@),
    decreases entries.len(),
{
    let updated = entries.update(i, e);
    let init = entries.drop_last();
    if i < entries.len() - 1 {
        lemma_map_of_update(init, i, e);
        assert(updated.drop_last() =~= init.update(i, e));
        assert(map_of(updated) =~= map_of(entries).insert(e.0@, e.1@));
    } else {
        assert(updated.drop_last() =~= init);
        assert(map_of(updated) =~= map_of(entries).insert(e.0@, e.1@));
    }
}

impl Config {
    pub closed spec fn spec_entries(self) -> Seq<(String, String)> {
        self.entries@
    }

    /// Keys are unique among the entries.
    pub closed spec fn wf(self) -> bool {
        keys_unique(self.entries@)
    }

    /// The settings as a map.
    pub closed spec fn spec_map(self) -> Map<Seq<char>, Seq<char>> {
        map_of(self.entries@)
    }

    pub closed spec fn spec_path(self) -> Seq<char> {
        self.path@
    }

    /// No settings yet, to be kept in the file at `path`.
    pub fn new(path: String) -> (c: Config)
        ensures
            c.wf(),
            c.spec_map() == Map::<Seq<char>, Seq<char>>::empty(),
            c.spec_path() == path@,
    {
        Config { entries: Vec::new(), path }
    }

    /// The settings that `entries` describe, a later entry winning over an
    /// earlier one with the same key, to be kept in the file at `path`.
    pub fn from_entries(path: String, entries: &Vec<(String, String)>) -> (c: Config)
        ensures
            c.wf(),
            c.spec_map() == map_of(entries@),
            c.spec_path() == path@,
    {
        let mut c = Config::new(path);
        let mut i: usize = 0;
        while i < entries.len()
            invariant
                i <= entries@.len(),
                c.wf(),
                c.spec_map() == map_of(entries@.subrange(0, i as int)),
                c.spec_path() == path@,
            decreases entries@.len() - i,
        {
            let key = entries[i].0.clone();
            let value = entries[i].1.clone();
            c.set(key, value);
            assert(entries@.subrange(0, i + 1).drop_last() =~= entries@.subrange(0, i as int));
            i = i + 1;
        }
        assert(entries@.subrange(0, i as int) =~= entries@);
        c
    }

    /// The file that the settings are kept in.
    pub fn path(&self) -> (p: &str)
        ensures
            p@ == self.spec_path(),
    {
        self.path.as_str()
    }

    fn find(&self, key: &str) -> (r: Option<usize>)
        requires
            self.wf(),
        ensures
            r matches Some(i) ==> i < self.entries@.len() && self.entries@[i as int].0@ == key@,
            r is None ==> forall|i: int|
                0 <= i < self.entries@.len() ==> self.entries@[i].0@ != key@,
    {
        let mut i: usize = 0;
        while i < self.entries.len()
            invariant
                i <= self.entries@.len(),
                forall|k: int| 0 <= k < i ==> self.entries@[k].0@ != key@,
            decreases self.entries@.len() - i,
        {
            if str_eq(self.entries[i].0.as_str(), key) {
                return Some(i);
            }
            i = i + 1;
        }
        None
    }

    /// The value kept under `key`.
    pub fn get(&self, key: &str) -> (r: Option<&str>)
        requires
            self.wf(),
        ensures
            r is None <==> !self.spec_map().contains_key(key@),
            r matches Some(v) ==> v@ == self.spec_map()[key@],
    {
        proof {
            lemma_map_of_domain(self.entries@, key@);
        }
        match self.find(key) {
            Some(i) => {
                proof {
                    lemma_map_of_at(self.entries@, i as int);
                }
                Some(self.entries[i].1.as_str())
            },
            None => None,
        }
    }

    /// Keeps `value` under `key`, replacing what was there.
    pub fn set(&mut self, key: String, value: String)
        requires
            old(self).wf(),
        ensures
            final(self).wf(),
            final(self).spec_map() == old(self).spec_map().insert(key@, value@),
            final(self).spec_path() == old(self).spec_path(),
    {
        match self.find(key.as_str()) {
            Some(i) => {
                proof {
                    lemma_map_of_update(self.entries@, i as int, (key, value));
                }
                self.entries.set(i, (key, value));
            },
            None => {
                let ghost before = self.entries@;
                self.entries.push((key, value));
                proof {
                    assert(self.entries@.drop_last() =~= before);
                    assert(keys_unique(self.entries@));
                }
            },
        }
    }

    /// The entries, each key once, for writing the settings file.
    pub fn entries(&self) -> (r: &Vec<(String, String)>)
        ensures
            map_of(r@) == self.spec_map(),
            self.wf() ==> keys_unique(r@),
    {
        &self.entries
    }
}

} // verus!
