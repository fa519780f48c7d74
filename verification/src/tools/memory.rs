//! The persisted key-value memory: at most [`MAX_KEYS`] entries, `push`
//! appends to an entry line by line, and each entry maps to one markdown
//! file whose path this module computes. Reading and writing those files
//! happens at the process edge.

use vstd::prelude::*;
use vstd::string::StringExecFns;

use crate::brain::tools::memory::{
    lemma_absent_means_lookup_none, lemma_index_of_found, lemma_lookup_none_means_absent,
    lemma_update_at_is_mem_update, lemma_update_keeps_keys_distinct, spec_index_of,
    spec_mem_update,
};
use crate::strutil::str_eq;
use crate::tools::spec_lookup;

verus! {

/// The most entries the memory will hold.
pub const MAX_KEYS: usize = 100;

/// Stores, appends to and retrieves key-value pairs, up to [`MAX_KEYS`].
#[derive(Debug)]
pub struct MemoryTool {
    entries: Vec<(String, String)>,
}

impl View for MemoryTool {
    type V = Seq<(Seq<char>, Seq<char>)>;

    closed spec fn view(&self) -> Seq<(Seq<char>, Seq<char>)> {
        self.entries.deep_view()
    }
}

impl MemoryTool {
    /// No two entries share a key.
    pub open spec fn wf(&self) -> bool {
        forall|i: int, j: int|
            0 <= i < j < self@.len() ==> (#[trigger] self@[i]).0 != (#[trigger] self@[j]).0
    }

    /// An empty memory; the process edge refills it from the stored files.
    pub fn new() -> (r: MemoryTool)
        ensures
            r@ == Seq::<(Seq<char>, Seq<char>)>::empty(),
            r.wf(),
    {
        let r = MemoryTool { entries: Vec::new() };
        proof {
            assert(r@ =~= Seq::<(Seq<char>, Seq<char>)>::empty());
        }
        r
    }

    /// The position of `key` among the entries, if present.
    fn find_key(&self, key: &str) -> (r: Option<usize>)
        ensures
            r matches Some(i) ==> i < self@.len() && self@[i as int].0 == key@ && spec_lookup(
                self@,
                key@,
            ) == Some(self@[i as int].1) && (forall|j: int|
                0 <= j < i ==> (#[trigger] self@[j]).0 != key@),
            r is None ==> spec_lookup(self@, key@) is None,
    {
        let ghost full = self@;
        let n = self.entries.len();
        proof {
            assert(full.skip(0) =~= full);
        }
        for i in 0..n
            invariant
                n == self@.len(),
                full == self@,
                spec_lookup(full, key@) == spec_lookup(full.skip(i as int), key@),
                forall|j: int| 0 <= j < i ==> (#[trigger] full[j]).0 != key@,
        {
            proof {
                assert(full.skip(i as int).first() == full[i as int]);
                assert(full.skip(i as int).drop_first() =~= full.skip(i + 1));
            }
            if str_eq(self.entries[i].0.as_str(), key) {
                return Some(i);
            }
        }
        proof {
            assert(full.skip(n as int) =~= Seq::<(Seq<char>, Seq<char>)>::empty());
        }
        None
    }

    /// Replaces the entry at `i` with `(key, value)`, keeping its position.
    fn replace_at(&mut self, i: usize, key: &str, value: String)
        requires
            i < old(self)@.len(),
        ensures
            final(self)@ == old(self)@.update(i as int, (key@, value@)),
    {
        self.entries.remove(i);
        self.entries.insert(i, (String::from_str(key), value));
        proof {
            assert(self@ =~= old(self)@.update(i as int, (key@, value@)));
        }
    }

    /// Adds or updates one pair. A new key is refused once the memory is
    /// full; an existing key is rebound in place.
    pub fn add_memory(&mut self, key: &str, value: &str) -> (r: Result<(), String>)
        requires
            old(self).wf(),
        ensures
            final(self).wf(),
            spec_lookup(old(self)@, key@) is Some ==> r is Ok && final(self)@ == spec_mem_update(
                old(self)@,
                key@,
                value@,
            ),
            spec_lookup(old(self)@, key@) is None && old(self)@.len() >= MAX_KEYS ==> (
            r matches Err(e) && e@ == "Cannot add new key. Maximum 100 keys reached."@
                && final(self)@ == old(self)@),
            spec_lookup(old(self)@, key@) is None && old(self)@.len() < MAX_KEYS ==> r is Ok
                && final(self)@ == old(self)@.push((key@, value@)),
    {
        match self.find_key(key) {
            Some(i) => {
                self.replace_at(i, key, String::from_str(value));
                proof {
                    lemma_update_at_is_mem_update(old(self)@, i as int, key@, value@);
                    lemma_update_keeps_keys_distinct(old(self)@, i as int, key@, value@);
                }
                Ok(())
            },
            None => {
                if self.entries.len() >= MAX_KEYS {
                    return Err(String::from_str("Cannot add new key. Maximum 100 keys reached."));
                }
                self.entries.push((String::from_str(key), String::from_str(value)));
                proof {
                    assert(self@ =~= old(self)@.push((key@, value@)));
                    lemma_lookup_none_means_absent(old(self)@, key@);
                    assert forall|a: int, b: int| 0 <= a < b < self@.len() implies (
                    #[trigger] self@[a]).0 != (#[trigger] self@[b]).0 by {
                        if b < self@.len() - 1 {
                            assert(self@[a] == old(self)@[a] && self@[b] == old(self)@[b]);
                        } else {
                            assert(self@[a] == old(self)@[a]);
                        }
                    }
                }
                Ok(())
            },
        }
    }

    /// Appends `value` to the entry for `key`, separated by a newline, or
    /// creates the entry; a new key is refused once the memory is full.
    pub fn push_memory(&mut self, key: &str, value: &str) -> (r: Result<(), String>)
        requires
            old(self).wf(),
        ensures
            final(self).wf(),
            spec_lookup(old(self)@, key@) matches Some(existing) ==> r is Ok && final(self)@
                == spec_mem_update(old(self)@, key@, existing + "\n"@ + value@),
            spec_lookup(old(self)@, key@) is None && old(self)@.len() >= MAX_KEYS ==> (
            r matches Err(e) && e@ == "Cannot add new key. Maximum 100 keys reached."@
                && final(self)@ == old(self)@),
            spec_lookup(old(self)@, key@) is None && old(self)@.len() < MAX_KEYS ==> r is Ok
                && final(self)@ == old(self)@.push((key@, value@)),
    {
        match self.find_key(key) {
            Some(i) => {
                let mut joined = self.entries[i].1.clone();
                joined.append("\n");
                joined.append(value);
                self.replace_at(i, key, joined);
                proof {
                    lemma_update_at_is_mem_update(
                        old(self)@,
                        i as int,
                        key@,
                        old(self)@[i as int].1 + "\n"@ + value@,
                    );
                    lemma_update_keeps_keys_distinct(
                        old(self)@,
                        i as int,
                        key@,
                        old(self)@[i as int].1 + "\n"@ + value@,
                    );
                }
                Ok(())
            },
            None => {
                if self.entries.len() >= MAX_KEYS {
                    return Err(String::from_str("Cannot add new key. Maximum 100 keys reached."));
                }
                self.entries.push((String::from_str(key), String::from_str(value)));
                proof {
                    assert(self@ =~= old(self)@.push((key@, value@)));
                    lemma_lookup_none_means_absent(old(self)@, key@);
                    assert forall|a: int, b: int| 0 <= a < b < self@.len() implies (
                    #[trigger] self@[a]).0 != (#[trigger] self@[b]).0 by {
                        if b < self@.len() - 1 {
                            assert(self@[a] == old(self)@[a] && self@[b] == old(self)@[b]);
                        } else {
                            assert(self@[a] == old(self)@[a]);
                        }
                    }
                }
                Ok(())
            },
        }
    }

    /// The pairs for `key`, or every pair when no key is given.
    pub fn get_memory(&self, key: Option<&str>) -> (r: Vec<(String, String)>)
        requires
            self.wf(),
        ensures
            key matches Some(k) ==> r.deep_view() == match spec_lookup(self@, k@) {
                Some(v) => seq![(k@, v)],
                None => Seq::<(Seq<char>, Seq<char>)>::empty(),
            },
            key is None ==> r.deep_view() == self@,
    {
        match key {
            Some(k) => {
                let mut r: Vec<(String, String)> = Vec::new();
                match self.find_key(k) {
                    Some(i) => {
                        r.push((String::from_str(k), self.entries[i].1.clone()));
                        proof {
                            assert(r.deep_view() =~= seq![(k@, self@[i as int].1)]);
                        }
                    },
                    None => {
                        proof {
                            assert(r.deep_view() =~= Seq::<(Seq<char>, Seq<char>)>::empty());
                        }
                    },
                }
                r
            },
            None => {
                let mut r: Vec<(String, String)> = Vec::new();
                let n = self.entries.len();
                for i in 0..n
                    invariant
                        n == self@.len(),
                        r@.len() == i,
                        forall|j: int| 0 <= j < i ==> r@[j].0@ == self@[j].0 && r@[j].1@
                            == self@[j].1,
                {
                    r.push((self.entries[i].0.clone(), self.entries[i].1.clone()));
                }
                proof {
                    assert(r.deep_view() =~= self@);
                }
                r
            },
        }
    }

    /// The stored keys, in insertion order.
    pub fn get_keys(&self) -> (r: Vec<String>)
        ensures
            r.deep_view() == self@.map_values(|p: (Seq<char>, Seq<char>)| p.0),
    {
        let mut r: Vec<String> = Vec::new();
        let n = self.entries.len();
        for i in 0..n
            invariant
                n == self@.len(),
                r@.len() == i,
                forall|j: int| 0 <= j < i ==> r@[j]@ == self@[j].0,
        {
            r.push(self.entries[i].0.clone());
        }
        proof {
            assert(r.deep_view() =~= self@.map_values(|p: (Seq<char>, Seq<char>)| p.0));
        }
        r
    }

    /// Forgets the entry for `key`, or everything when no key is given.
    pub fn clear_memory(&mut self, key: Option<&str>)
        requires
            old(self).wf(),
        ensures
            final(self).wf(),
            key is None ==> final(self)@ == Seq::<(Seq<char>, Seq<char>)>::empty(),
            key matches Some(k) ==> final(self)@ == match spec_lookup(old(self)@, k@) {
                Some(_) => old(self)@.remove(spec_index_of(old(self)@, k@)),
                None => old(self)@,
            },
            key matches Some(k) ==> spec_lookup(final(self)@, k@) is None,
    {
        match key {
            Some(k) => {
                match self.find_key(k) {
                    Some(i) => {
                        self.entries.remove(i);
                        proof {
                            assert(self@ =~= old(self)@.remove(i as int));
                            lemma_remove_found_key(old(self)@, i as int, k@);
                        }
                    },
                    None => {},
                }
            },
            None => {
                self.entries.clear();
                proof {
                    assert(self@ =~= Seq::<(Seq<char>, Seq<char>)>::empty());
                }
            },
        }
    }

    /// The path of the markdown file one entry persists to.
    pub fn get_file_path(key: &str) -> (r: String)
        ensures
            r@ == "memory/"@ + key@ + ".md"@,
    {
        let mut r = String::from_str("memory/");
        r.append(key);
        r.append(".md");
        r
    }
}

/// Removing the first entry of a key removes that key entirely from a
/// well-formed memory, and is [`Seq::remove_value`] of that entry.
proof fn lemma_remove_found_key(entries: Seq<(Seq<char>, Seq<char>)>, i: int, key: Seq<char>)
    requires
        0 <= i < entries.len(),
        entries[i].0 == key,
        forall|a: int, b: int|
            0 <= a < b < entries.len() ==> (#[trigger] entries[a]).0 != (#[trigger] entries[b]).0,
        forall|j: int| 0 <= j < i ==> (#[trigger] entries[j]).0 != key,
    ensures
        spec_index_of(entries, key) == i,
        spec_lookup(entries.remove(i), key) is None,
        forall|a: int, b: int|
            0 <= a < b < entries.remove(i).len() ==> (#[trigger] entries.remove(i)[a]).0 != (
            #[trigger] entries.remove(i)[b]).0,
{
    assert(spec_index_of(entries, key) == i) by {
        lemma_index_of_found(entries, i, key);
    }
    let removed = entries.remove(i);
    assert forall|j: int| 0 <= j < removed.len() implies (#[trigger] removed[j]).0 != key by {
        if j < i {
            assert(removed[j] == entries[j]);
        } else {
            assert(removed[j] == entries[j + 1]);
        }
    }
    lemma_absent_means_lookup_none(removed, key);
    assert forall|a: int, b: int|
        0 <= a < b < removed.len() implies (#[trigger] removed[a]).0 != (
    #[trigger] removed[b]).0 by {
        let ea = if a < i {
            a
        } else {
            a + 1
        };
        let eb = if b < i {
            b
        } else {
            b + 1
        };
        assert(removed[a] == entries[ea]);
        assert(removed[b] == entries[eb]);
    }
}

} // verus!
