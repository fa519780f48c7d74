//! A bounded key-value memory: at most [`MAX_KEYS`] entries, updates in
//! place, insertion order kept. This module also proves the little theory
//! of first-match lookup that both memory variants share.

use vstd::prelude::*;
use vstd::string::StringExecFns;

use crate::strutil::{join_with, spec_join, str_eq};
use crate::tools::{spec_lookup, ToolArgs};

verus! {

/// The most entries the memory will hold.
pub const MAX_KEYS: usize = 100;

/// Key-value pairs with `key` bound anew to `value` at its old position.
pub open spec fn spec_mem_update(
    entries: Seq<(Seq<char>, Seq<char>)>,
    key: Seq<char>,
    value: Seq<char>,
) -> Seq<(Seq<char>, Seq<char>)>
    decreases entries.len(),
{
    if entries.len() == 0 {
        entries
    } else if entries.first().0 == key {
        seq![(key, value)] + entries.drop_first()
    } else {
        seq![entries.first()] + spec_mem_update(entries.drop_first(), key, value)
    }
}

/// The position of the first entry bound to `key`.
pub open spec fn spec_index_of(entries: Seq<(Seq<char>, Seq<char>)>, key: Seq<char>) -> int
    decreases entries.len(),
{
    if entries.len() == 0 {
        0
    } else if entries.first().0 == key {
        0
    } else {
        1 + spec_index_of(entries.drop_first(), key)
    }
}

/// Stores, retrieves and clears key-value pairs, up to [`MAX_KEYS`] of them.
#[derive(Debug)]
pub struct MemoryTool {
    entries: Vec<(String, String)>,
}

impl View for MemoryTool {
    type V = Seq<(Seq<char>, Seq<char>)>;

    closed spec fn view(&self) -> Seq<(Seq<char>, Seq<char>)> {
        self.entries.deep_view()
    }
}

impl MemoryTool {
    /// No two entries share a key.
    pub open spec fn wf(&self) -> bool {
        forall|i: int, j: int|
            0 <= i < j < self@.len() ==> (#[trigger] self@[i]).0 != (#[trigger] self@[j]).0
    }

    /// An empty memory.
    pub fn new() -> (r: MemoryTool)
        ensures
            r@ == Seq::<(Seq<char>, Seq<char>)>::empty(),
            r.wf(),
    {
        let r = MemoryTool { entries: Vec::new() };
        proof {
            assert(r@ =~= Seq::<(Seq<char>, Seq<char>)>::empty());
        }
        r
    }

    /// The position of `key` among the entries, if present.
    fn find_key(&self, key: &str) -> (r: Option<usize>)
        ensures
            r matches Some(i) ==> i < self@.len() && self@[i as int].0 == key@ && spec_lookup(
                self@,
                key@,
            ) == Some(self@[i as int].1) && (forall|j: int|
                0 <= j < i ==> (#[trigger] self@[j]).0 != key@),
            r is None ==> spec_lookup(self@, key@) is None,
    {
        let ghost full = self@;
        let n = self.entries.len();
        proof {
            assert(full.skip(0) =~= full);
        }
        for i in 0..n
            invariant
                n == self@.len(),
                full == self@,
                spec_lookup(full, key@) == spec_lookup(full.skip(i as int), key@),
                forall|j: int| 0 <= j < i ==> (#[trigger] full[j]).0 != key@,
        {
            proof {
                assert(full.skip(i as int).first() == full[i as int]);
                assert(full.skip(i as int).drop_first() =~= full.skip(i + 1));
            }
            if str_eq(self.entries[i].0.as_str(), key) {
                return Some(i);
            }
        }
        proof {
            assert(full.skip(n as int) =~= Seq::<(Seq<char>, Seq<char>)>::empty());
        }
        None
    }

    /// Replaces the entry at `i` with `(key, value)`, keeping its position.
    fn replace_at(&mut self, i: usize, key: &str, value: String)
        requires
            i < old(self)@.len(),
        ensures
            final(self)@ == old(self)@.update(i as int, (key@, value@)),
    {
        self.entries.remove(i);
        self.entries.insert(i, (String::from_str(key), value));
        proof {
            assert(self@ =~= old(self)@.update(i as int, (key@, value@)));
        }
    }

    /// Adds or updates one pair. A new key is refused once the memory is
    /// full; an existing key is rebound in place.
    pub fn add_memory(&mut self, key: &str, value: &str) -> (r: Result<(), String>)
        requires
            old(self).wf(),
        ensures
            final(self).wf(),
            spec_lookup(old(self)@, key@) is Some ==> r is Ok && final(self)@ == spec_mem_update(
                old(self)@,
                key@,
                value@,
            ),
            spec_lookup(old(self)@, key@) is None && old(self)@.len() >= MAX_KEYS ==> (
            r matches Err(e) && e@ == "Cannot add new key. Maximum 100 keys reached."@
                && final(self)@ == old(self)@),
            spec_lookup(old(self)@, key@) is None && old(self)@.len() < MAX_KEYS ==> r is Ok
                && final(self)@ == old(self)@.push((key@, value@)),
    {
        match self.find_key(key) {
            Some(i) => {
                self.replace_at(i, key, String::from_str(value));
                proof {
                    lemma_update_at_is_mem_update(old(self)@, i as int, key@, value@);
                    lemma_update_keeps_keys_distinct(old(self)@, i as int, key@, value@);
                }
                Ok(())
            },
            None => {
                if self.entries.len() >= MAX_KEYS {
                    return Err(String::from_str("Cannot add new key. Maximum 100 keys reached."));
                }
                self.entries.push((String::from_str(key), String::from_str(value)));
                proof {
                    assert(self@ =~= old(self)@.push((key@, value@)));
                    lemma_lookup_none_means_absent(old(self)@, key@);
                    assert forall|a: int, b: int| 0 <= a < b < self@.len() implies (
                    #[trigger] self@[a]).0 != (#[trigger] self@[b]).0 by {
                        if b < self@.len() - 1 {
                            assert(self@[a] == old(self)@[a] && self@[b] == old(self)@[b]);
                        } else {
                            assert(self@[a] == old(self)@[a]);
                        }
                    }
                }
                Ok(())
            },
        }
    }

    /// The pairs for `key`, or every pair when no key is given.
    pub fn get_memory(&self, key: Option<&str>) -> (r: Vec<(String, String)>)
        requires
            self.wf(),
        ensures
            key matches Some(k) ==> r.deep_view() == match spec_lookup(self@, k@) {
                Some(v) => seq![(k@, v)],
                None => Seq::<(Seq<char>, Seq<char>)>::empty(),
            },
            key is None ==> r.deep_view() == self@,
    {
        match key {
            Some(k) => {
                let mut r: Vec<(String, String)> = Vec::new();
                match self.find_key(k) {
                    Some(i) => {
                        r.push((String::from_str(k), self.entries[i].1.clone()));
                        proof {
                            assert(r.deep_view() =~= seq![(k@, self@[i as int].1)]);
                        }
                    },
                    None => {
                        proof {
                            assert(r.deep_view() =~= Seq::<(Seq<char>, Seq<char>)>::empty());
                        }
                    },
                }
                r
            },
            None => {
                let mut r: Vec<(String, String)> = Vec::new();
                let n = self.entries.len();
                for i in 0..n
                    invariant
                        n == self@.len(),
                        r@.len() == i,
                        forall|j: int| 0 <= j < i ==> r@[j].0@ == self@[j].0 && r@[j].1@
                            == self@[j].1,
                {
                    r.push((self.entries[i].0.clone(), self.entries[i].1.clone()));
                }
                proof {
                    assert(r.deep_view() =~= self@);
                }
                r
            },
        }
    }

    /// The stored keys, in insertion order.
    pub fn get_keys(&self) -> (r: Vec<String>)
        ensures
            r.deep_view() == self@.map_values(|p: (Seq<char>, Seq<char>)| p.0),
    {
        let mut r: Vec<String> = Vec::new();
        let n = self.entries.len();
        for i in 0..n
            invariant
                n == self@.len(),
                r@.len() == i,
                forall|j: int| 0 <= j < i ==> r@[j]@ == self@[j].0,
        {
            r.push(self.entries[i].0.clone());
        }
        proof {
            assert(r.deep_view() =~= self@.map_values(|p: (Seq<char>, Seq<char>)| p.0));
        }
        r
    }

    /// Forgets everything.
    pub fn clear_memory(&mut self)
        ensures
            final(self)@ == Seq::<(Seq<char>, Seq<char>)>::empty(),
            final(self).wf(),
    {
        self.entries.clear();
        proof {
            assert(self@ =~= Seq::<(Seq<char>, Seq<char>)>::empty());
        }
    }

    /// Runs one memory action on parsed arguments; the memory afterwards
    /// and the reported text are exactly [`spec_memory_run`] of the
    /// arguments.
    pub fn run(&mut self, args: &ToolArgs) -> (r: Result<String, String>)
        requires
            old(self).wf(),
        ensures
            final(self).wf(),
            final(self)@ == spec_memory_run(old(self)@, args@).0,
            r matches Ok(o) ==> (spec_memory_run(old(self)@, args@).1 matches Ok(v) && o@ == v),
            r matches Err(e) ==> (spec_memory_run(old(self)@, args@).1 matches Err(v) && e@ == v),
    {
        let action = match args.get("action") {
            Some(a) => a.clone(),
            None => {
                return Err(String::from_str("Missing or invalid 'action' parameter"));
            },
        };
        if str_eq(action.as_str(), "add") {
            let key = match args.get("key") {
                Some(k) => k.clone(),
                None => {
                    return Err(
                        String::from_str("Missing or invalid 'key' parameter for add action"),
                    );
                },
            };
            let value = match args.get("value") {
                Some(v) => v.clone(),
                None => {
                    return Err(
                        String::from_str("Missing or invalid 'value' parameter for add action"),
                    );
                },
            };
            match self.add_memory(key.as_str(), value.as_str()) {
                Ok(_) => Ok(String::from_str("Memory added/updated.")),
                Err(e) => Err(e),
            }
        } else if str_eq(action.as_str(), "get") {
            match args.get("key") {
                Some(k) => {
                    let key = k.clone();
                    match self.find_key(key.as_str()) {
                        Some(i) => {
                            let mut line = key.clone();
                            line.append(": ");
                            line.append(self.entries[i].1.as_str());
                            Ok(line)
                        },
                        None => Ok(String::from_str("(no entries)")),
                    }
                },
                None => {
                    if self.entries.len() == 0 {
                        return Ok(String::from_str("(no entries)"));
                    }
                    let mut lines: Vec<String> = Vec::new();
                    let n = self.entries.len();
                    for i in 0..n
                        invariant
                            n == self@.len(),
                            lines@.len() == i,
                            forall|j: int|
                                0 <= j < i ==> r_line(self@[j]) == (#[trigger] lines@[j])@,
                    {
                        let mut line = self.entries[i].0.clone();
                        line.append(": ");
                        line.append(self.entries[i].1.as_str());
                        lines.push(line);
                    }
                    proof {
                        assert(lines.deep_view() =~= self@.map_values(
                            |p: (Seq<char>, Seq<char>)| r_line(p),
                        ));
                    }
                    Ok(join_with(&lines, "\n"))
                },
            }
        } else if str_eq(action.as_str(), "get_keys") {
            let keys = self.get_keys();
            Ok(join_with(&keys, ", "))
        } else if str_eq(action.as_str(), "clear") {
            self.clear_memory();
            Ok(String::from_str("Memory cleared."))
        } else {
            Err(
                String::from_str(
                    "Invalid action specified. Use 'add', 'get', 'get_keys', or 'clear'.",
                ),
            )
        }
    }
}

/// How one stored pair reads in a `get` report.
pub open spec fn r_line(p: (Seq<char>, Seq<char>)) -> Seq<char> {
    p.0 + ": "@ + p.1
}

/// What one memory action does: the memory afterwards and the reported
/// line. An `add` stores or updates the pair (refusing a new key when
/// full), `get` reports one entry or all of them, `get_keys` lists the
/// keys, `clear` empties the memory, and anything else is refused.
pub open spec fn spec_memory_run(
    entries: Seq<(Seq<char>, Seq<char>)>,
    args: Seq<(Seq<char>, Seq<char>)>,
) -> (Seq<(Seq<char>, Seq<char>)>, Result<Seq<char>, Seq<char>>) {
    match spec_lookup(args, "action"@) {
        None => (entries, Err("Missing or invalid 'action' parameter"@)),
        Some(action) => {
            if action == "add"@ {
                match spec_lookup(args, "key"@) {
                    None => (entries, Err("Missing or invalid 'key' parameter for add action"@)),
                    Some(k) => match spec_lookup(args, "value"@) {
                        None => (
                            entries,
                            Err("Missing or invalid 'value' parameter for add action"@),
                        ),
                        Some(v) => {
                            if spec_lookup(entries, k) is Some {
                                (spec_mem_update(entries, k, v), Ok("Memory added/updated."@))
                            } else if entries.len() >= MAX_KEYS {
                                (entries, Err("Cannot add new key. Maximum 100 keys reached."@))
                            } else {
                                (entries.push((k, v)), Ok("Memory added/updated."@))
                            }
                        },
                    },
                }
            } else if action == "get"@ {
                match spec_lookup(args, "key"@) {
                    Some(k) => match spec_lookup(entries, k) {
                        Some(v) => (entries, Ok(k + ": "@ + v)),
                        None => (entries, Ok("(no entries)"@)),
                    },
                    None => {
                        if entries.len() == 0 {
                            (entries, Ok("(no entries)"@))
                        } else {
                            (
                                entries,
                                Ok(
                                    spec_join(
                                        entries.map_values(|p: (Seq<char>, Seq<char>)| r_line(p)),
                                        "\n"@,
                                    ),
                                ),
                            )
                        }
                    },
                }
            } else if action == "get_keys"@ {
                (
                    entries,
                    Ok(spec_join(entries.map_values(|p: (Seq<char>, Seq<char>)| p.0), ", "@)),
                )
            } else if action == "clear"@ {
                (Seq::empty(), Ok("Memory cleared."@))
            } else {
                (
                    entries,
                    Err("Invalid action specified. Use 'add', 'get', 'get_keys', or 'clear'."@),
                )
            }
        },
    }
}

/// A key that `spec_lookup` misses is held by no entry.
pub proof fn lemma_lookup_none_means_absent(entries: Seq<(Seq<char>, Seq<char>)>, key: Seq<char>)
    requires
        spec_lookup(entries, key) is None,
    ensures
        forall|i: int| 0 <= i < entries.len() ==> (#[trigger] entries[i]).0 != key,
    decreases entries.len(),
{
    if entries.len() > 0 {
        lemma_lookup_none_means_absent(entries.drop_first(), key);
        assert forall|i: int| 0 <= i < entries.len() implies (#[trigger] entries[i]).0 != key by {
            if i > 0 {
                assert(entries.drop_first()[i - 1] == entries[i]);
            }
        }
    }
}

/// A key held by no entry is one `spec_lookup` misses.
pub proof fn lemma_absent_means_lookup_none(entries: Seq<(Seq<char>, Seq<char>)>, key: Seq<char>)
    requires
        forall|j: int| 0 <= j < entries.len() ==> (#[trigger] entries[j]).0 != key,
    ensures
        spec_lookup(entries, key) is None,
    decreases entries.len(),
{
    if entries.len() > 0 {
        assert forall|j: int| 0 <= j < entries.drop_first().len() implies (
        #[trigger] entries.drop_first()[j]).0 != key by {
            assert(entries.drop_first()[j] == entries[j + 1]);
        }
        lemma_absent_means_lookup_none(entries.drop_first(), key);
    }
}

/// Updating the entry at the position of its own first match is exactly
/// [`spec_mem_update`].
pub proof fn lemma_update_at_is_mem_update(
    entries: Seq<(Seq<char>, Seq<char>)>,
    i: int,
    key: Seq<char>,
    value: Seq<char>,
)
    requires
        0 <= i < entries.len(),
        entries[i].0 == key,
        forall|j: int| 0 <= j < i ==> (#[trigger] entries[j]).0 != key,
    ensures
        entries.update(i, (key, value)) == spec_mem_update(entries, key, value),
    decreases entries.len(),
{
    if i == 0 {
        assert(entries.first().0 == key);
        assert(entries.update(0, (key, value)) =~= seq![(key, value)] + entries.drop_first());
    } else {
        assert(entries[0].0 != key);
        assert(entries.first().0 != key);
        assert forall|j: int| 0 <= j < i - 1 implies (#[trigger] entries.drop_first()[j]).0
            != key by {
            assert(entries.drop_first()[j] == entries[j + 1]);
        }
        assert(entries.drop_first()[i - 1] == entries[i]);
        lemma_update_at_is_mem_update(entries.drop_first(), i - 1, key, value);
        assert(entries.update(i, (key, value)) =~= seq![entries.first()]
            + entries.drop_first().update(i - 1, (key, value)));
    }
}

/// An in-place update of one entry's value keeps the keys pairwise
/// distinct.
pub proof fn lemma_update_keeps_keys_distinct(
    entries: Seq<(Seq<char>, Seq<char>)>,
    i: int,
    key: Seq<char>,
    value: Seq<char>,
)
    requires
        0 <= i < entries.len(),
        entries[i].0 == key,
        forall|a: int, b: int|
            0 <= a < b < entries.len() ==> (#[trigger] entries[a]).0 != (#[trigger] entries[b]).0,
    ensures
        forall|a: int, b: int|
            0 <= a < b < entries.update(i, (key, value)).len() ==> (#[trigger] entries.update(
                i,
                (key, value),
            )[a]).0 != (#[trigger] entries.update(i, (key, value))[b]).0,
{
    let updated = entries.update(i, (key, value));
    assert forall|a: int, b: int| 0 <= a < b < updated.len() implies (#[trigger] updated[a]).0 != (
    #[trigger] updated[b]).0 by {
        assert(updated[a].0 == entries[a].0);
        assert(updated[b].0 == entries[b].0);
    }
}

/// `spec_index_of` names the position of the first match.
pub proof fn lemma_index_of_found(entries: Seq<(Seq<char>, Seq<char>)>, i: int, key: Seq<char>)
    requires
        0 <= i < entries.len(),
        entries[i].0 == key,
        forall|j: int| 0 <= j < i ==> (#[trigger] entries[j]).0 != key,
    ensures
        spec_index_of(entries, key) == i,
    decreases entries.len(),
{
    if i > 0 {
        assert(entries[0].0 != key);
        assert(entries.first().0 != key);
        assert forall|j: int| 0 <= j < i - 1 implies (#[trigger] entries.drop_first()[j]).0
            != key by {
            assert(entries.drop_first()[j] == entries[j + 1]);
        }
        assert(entries.drop_first()[i - 1] == entries[i]);
        lemma_index_of_found(entries.drop_first(), i - 1, key);
    }
}

} // verus!
