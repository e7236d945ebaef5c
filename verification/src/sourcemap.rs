//! Looking up where compiled code came from.

use vstd::hash_map::StringHashMap;
use vstd::prelude::*;

use wgsl_parse::syntax::ModulePath;

use crate::model::{decl_view, opt_str_view, opt_string_view, SourceMapView};
use crate::module_table::ModuleTable;

verus! {

/// A lookup from compiled code back to its source: from a mangled name to
/// the module and the declaration it stands for, and from a module to its
/// text and its display name.
///
/// A source map makes error messages readable: it tells which file, which
/// declaration and which piece of text an error in the compiled output
/// belongs to. None of the four lookups fails; what is not known is `None`.
pub trait SourceMap {
    /// Get the module path and declaration name from a mangled name.
    fn get_decl(&self, decl: &str) -> Option<(&ModulePath, &str)>;

    /// Get a module contents.
    fn get_source(&self, path: &ModulePath) -> Option<&str>;

    /// Get a module display name.
    fn get_display_name(&self, path: &ModulePath) -> Option<&str>;

    /// Get the default module contents. A source map has none unless it says
    /// otherwise.
    fn get_default_source(&self) -> (found: Option<&str>)
        default_ensures
            found is None,
    {
        None
    }
}

/// Basic implementation of [`SourceMap`]: a store in memory.
pub struct BasicSourceMap {
    mappings: StringHashMap<(ModulePath, String)>,
    sources: ModuleTable,
    default_source: Option<String>,
}

impl View for BasicSourceMap {
    type V = SourceMapView;

    closed spec fn view(&self) -> SourceMapView {
        SourceMapView {
            decls: self.mappings@.map_values(|v: (ModulePath, String)| (v.0, v.1@)),
            sources: self.sources@,
            default_source: opt_string_view(self.default_source),
        }
    }
}

impl BasicSourceMap {
    /// A store with no entry and no default text.
    pub fn new() -> (map: Self)
        ensures
            map@ == SourceMapView::empty(),
    {
        let map = BasicSourceMap {
            mappings: StringHashMap::new(),
            sources: ModuleTable::new(),
            default_source: None,
        };
        assert(map@.decls =~= Map::empty());
        map
    }

    /// Records that the mangled name `decl` stands for the declaration `item`
    /// of the module at `path`. An earlier entry for `decl` is replaced.
    pub fn add_decl(&mut self, decl: String, path: ModulePath, item: String)
        ensures
            final(self)@ == old(self)@.add_decl(decl@, path, item@),
    {
        self.mappings.insert(decl, (path, item));
        assert(self@.decls =~= old(self)@.decls.insert(decl@, (path, item@)));
    }

    /// Records the display name and the text of the module at `file`. An
    /// earlier entry for `file` is replaced.
    pub fn add_source(&mut self, file: ModulePath, name: Option<String>, source: String)
        ensures
            final(self)@ == old(self)@.add_source(file, opt_string_view(name), source@),
    {
        self.sources.insert(file, name, source);
    }

    /// Sets the default text.
    pub fn set_default_source(&mut self, source: String)
        ensures
            final(self)@ == old(self)@.set_default_source(source@),
    {
        self.default_source = Some(source);
    }
}

impl Default for BasicSourceMap {
    /// A store with no entry and no default text.
    fn default() -> (map: Self)
        ensures
            map@ == SourceMapView::empty(),
    {
        BasicSourceMap::new()
    }
}

impl SourceMap for BasicSourceMap {
    fn get_decl(&self, decl: &str) -> (found: Option<(&ModulePath, &str)>)
        ensures
            decl_view(found) == self@.get_decl(decl@),
    {
        match self.mappings.get(decl) {
            Some(entry) => Some((&entry.0, entry.1.as_str())),
            None => None,
        }
    }

    fn get_source(&self, path: &ModulePath) -> (found: Option<&str>)
        ensures
            opt_str_view(found) == self@.get_source(*path),
    {
        match self.sources.get(path) {
            Some(entry) => Some(entry.source.as_str()),
            None => None,
        }
    }

    fn get_display_name(&self, path: &ModulePath) -> (found: Option<&str>)
        ensures
            opt_str_view(found) == self@.get_display_name(*path),
    {
        match self.sources.get(path) {
            Some(entry) => match &entry.display_name {
                Some(name) => Some(name.as_str()),
                None => None,
            },
            None => None,
        }
    }

    fn get_default_source(&self) -> (found: Option<&str>)
        ensures
            opt_str_view(found) == self@.get_default_source(),
    {
        match &self.default_source {
            Some(source) => Some(source.as_str()),
            None => None,
        }
    }
}

/// An optional source map: one that is there answers itself, one that is not
/// there finds nothing.
impl<T: SourceMap> SourceMap for Option<T> {
    fn get_decl(&self, decl: &str) -> (found: Option<(&ModulePath, &str)>)
        ensures
            match self {
                Some(map) => call_ensures(T::get_decl, (map, decl), found),
                None => found is None,
            },
    {
        match self {
            Some(map) => map.get_decl(decl),
            None => None,
        }
    }

    fn get_source(&self, path: &ModulePath) -> (found: Option<&str>)
        ensures
            match self {
                Some(map) => call_ensures(T::get_source, (map, path), found),
                None => found is None,
            },
    {
        match self {
            Some(map) => map.get_source(path),
            None => None,
        }
    }

    fn get_display_name(&self, path: &ModulePath) -> (found: Option<&str>)
        ensures
            match self {
                Some(map) => call_ensures(T::get_display_name, (map, path), found),
                None => found is None,
            },
    {
        match self {
            Some(map) => map.get_display_name(path),
            None => None,
        }
    }

    fn get_default_source(&self) -> (found: Option<&str>)
        ensures
            match self {
                Some(map) => call_ensures(T::get_default_source, (map,), found),
                None => found is None,
            },
    {
        match self {
            Some(map) => map.get_default_source(),
            None => None,
        }
    }
}

/// This [`SourceMap`] knows nothing: every lookup returns `None`.
///
/// It is for a caller that has to hand over a source map and does not want
/// one.
pub struct NoSourceMap;

impl SourceMap for NoSourceMap {
    fn get_decl(&self, _decl: &str) -> (found: Option<(&ModulePath, &str)>)
        ensures
            found is None,
    {
        None
    }

    fn get_source(&self, _path: &ModulePath) -> (found: Option<&str>)
        ensures
            found is None,
    {
        None
    }

    fn get_display_name(&self, _path: &ModulePath) -> (found: Option<&str>)
        ensures
            found is None,
    {
        None
    }

    fn get_default_source(&self) -> (found: Option<&str>)
        ensures
            found is None,
    {
        None
    }
}

/// An absent source map answers `get_decl` as `NoSourceMap` does: whatever
/// the one returns and whatever the other returns are equal, and `None`.
pub proof fn lemma_absent_get_decl<T: SourceMap>(
    absent: &Option<T>,
    decl: &str,
    from_absent: Option<(&ModulePath, &str)>,
    from_null: Option<(&ModulePath, &str)>,
)
    requires
        absent is None,
        call_ensures(<Option<T> as SourceMap>::get_decl, (absent, decl), from_absent),
        call_ensures(<NoSourceMap as SourceMap>::get_decl, (&NoSourceMap, decl), from_null),
    ensures
        from_absent == from_null,
        from_absent is None,
{
}

/// An absent source map answers `get_source` as `NoSourceMap` does: whatever
/// the one returns and whatever the other returns are equal, and `None`.
pub proof fn lemma_absent_get_source<T: SourceMap>(
    absent: &Option<T>,
    path: &ModulePath,
    from_absent: Option<&str>,
    from_null: Option<&str>,
)
    requires
        absent is None,
        call_ensures(<Option<T> as SourceMap>::get_source, (absent, path), from_absent),
        call_ensures(<NoSourceMap as SourceMap>::get_source, (&NoSourceMap, path), from_null),
    ensures
        from_absent == from_null,
        from_absent is None,
{
}

/// An absent source map answers `get_display_name` as `NoSourceMap` does:
/// whatever the one returns and whatever the other returns are equal, and
/// `None`.
pub proof fn lemma_absent_get_display_name<T: SourceMap>(
    absent: &Option<T>,
    path: &ModulePath,
    from_absent: Option<&str>,
    from_null: Option<&str>,
)
    requires
        absent is None,
        call_ensures(<Option<T> as SourceMap>::get_display_name, (absent, path), from_absent),
        call_ensures(<NoSourceMap as SourceMap>::get_display_name, (&NoSourceMap, path), from_null),
    ensures
        from_absent == from_null,
        from_absent is None,
{
}

/// An absent source map answers `get_default_source` as `NoSourceMap` does:
/// whatever the one returns and whatever the other returns are equal, and
/// `None`.
pub proof fn lemma_absent_get_default_source<T: SourceMap>(
    absent: &Option<T>,
    from_absent: Option<&str>,
    from_null: Option<&str>,
)
    requires
        absent is None,
        call_ensures(<Option<T> as SourceMap>::get_default_source, (absent,), from_absent),
        call_ensures(<NoSourceMap as SourceMap>::get_default_source, (&NoSourceMap,), from_null),
    ensures
        from_absent == from_null,
        from_absent is None,
{
}

} // verus!
