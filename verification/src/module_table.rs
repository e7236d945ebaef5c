//! A table from module paths to what was resolved for them.
//!
//! `ModulePath` comes from another crate and tells Verus nothing about its
//! hash, so the table is a vector that is searched from the front. No path
//! occurs in it twice.

use vstd::prelude::*;

use wgsl_parse::syntax::ModulePath;

use crate::model::opt_string_view;
use crate::paths::same_module;

verus! {

/// One module: its path, its display name if it has one, and its text.
pub(crate) struct Entry {
    pub(crate) path: ModulePath,
    pub(crate) display_name: Option<String>,
    pub(crate) source: String,
}

/// A map from module paths to a display name and a source text.
pub(crate) struct ModuleTable {
    entries: Vec<Entry>,
}

impl ModuleTable {
    #[verifier::type_invariant]
    spec fn distinct_paths(self) -> bool {
        forall|i: int, j: int|
            0 <= i < j < self.entries@.len() ==> self.entries@[i].path != self.entries@[j].path
    }

    /// Whether `path` is the path of the entry at `i`.
    spec fn at(self, i: int, path: ModulePath) -> bool {
        0 <= i < self.entries@.len() && self.entries@[i].path == path
    }

    /// The table as a map: each path that has an entry, with the display name
    /// and the text of that entry.
    pub(crate) closed spec fn view(self) -> Map<ModulePath, (Option<Seq<char>>, Seq<char>)> {
        Map::new(
            |path: ModulePath| exists|i: int| self.at(i, path),
            |path: ModulePath|
                {
                    let i = choose|i: int| self.at(i, path);
                    (opt_string_view(self.entries@[i].display_name), self.entries@[i].source@)
                },
        )
    }

    /// An empty table.
    pub(crate) fn new() -> (table: Self)
        ensures
            table@ == Map::<ModulePath, (Option<Seq<char>>, Seq<char>)>::empty(),
    {
        let table = ModuleTable { entries: Vec::new() };
        assert(table@ =~= Map::empty());
        table
    }

    /// The index of the entry for `path`, if there is one.
    fn position(&self, path: &ModulePath) -> (found: Option<usize>)
        ensures
            match found {
                Some(i) => self.at(i as int, *path),
                None => forall|i: int| !self.at(i, *path),
            },
    {
        let mut i: usize = 0;
        while i < self.entries.len()
            invariant
                i <= self.entries@.len(),
                forall|k: int| 0 <= k < i ==> !self.at(k, *path),
            decreases self.entries@.len() - i,
        {
            if same_module(&self.entries[i].path, path) {
                return Some(i);
            }
            i += 1;
        }
        None
    }

    /// The entry for `path`, if there is one.
    pub(crate) fn get(&self, path: &ModulePath) -> (entry: Option<&Entry>)
        ensures
            match entry {
                Some(e) => self@.contains_key(*path) && self@[*path] == (
                    opt_string_view(e.display_name),
                    e.source@,
                ),
                None => !self@.contains_key(*path),
            },
    {
        proof {
            use_type_invariant(self);
        }
        match self.position(path) {
            Some(i) => {
                assert(self.at(i as int, *path));
                let ghost k = choose|k: int| self.at(k, *path);
                assert(k == i);
                Some(&self.entries[i])
            },
            None => None,
        }
    }

    /// Sets the entry for `path`, in place of the one it had, if any.
    pub(crate) fn insert(&mut self, path: ModulePath, display_name: Option<String>, source: String)
        ensures
            final(self)@ == old(self)@.insert(path, (opt_string_view(display_name), source@)),
    {
        proof {
            use_type_invariant(&*self);
        }
        let ghost before = *self;
        let found = self.position(&path);
        let entry = Entry { path, display_name, source };
        let mut entries: Vec<Entry> = Vec::new();
        std::mem::swap(&mut entries, &mut self.entries);
        match found {
            Some(i) => {
                entries.set(i, entry);
            },
            None => {
                entries.push(entry);
            },
        }
        assert forall|a: int, b: int| 0 <= a < b < entries@.len() implies entries@[a].path
            != entries@[b].path by {
            if found is None && b == before.entries@.len() {
                assert(!before.at(a, path));
            }
        }
        self.entries = entries;
        proof {
            let after = *self;
            let value = (opt_string_view(display_name), source@);
            assert forall|p: ModulePath|
                after@.contains_key(p) <==> (p == path || before@.contains_key(p)) by {
                if after@.contains_key(p) && p != path {
                    let i = choose|i: int| after.at(i, p);
                    assert(before.at(i, p));
                }
                if p == path {
                    match found {
                        Some(i) => {
                            assert(after.at(i as int, p));
                        },
                        None => {
                            assert(after.at(before.entries@.len() as int, p));
                        },
                    }
                } else if before@.contains_key(p) {
                    let i = choose|i: int| before.at(i, p);
                    assert(after.at(i, p));
                }
            }
            assert forall|p: ModulePath| after@.contains_key(p) && p != path implies after@[p]
                == before@[p] by {
                let i = choose|i: int| after.at(i, p);
                let j = choose|j: int| before.at(j, p);
                assert(before.at(i, p));
                assert(i == j);
            }
            assert(after@ =~= before@.insert(path, value));
        }
    }
}

} // verus!
