//! Recording a source map while a compiler runs.

use std::borrow::Cow;
use std::path::PathBuf;

use vstd::prelude::*;

use wgsl_parse::syntax::ModulePath;
use wgsl_parse::syntax::TypeExpression;

use crate::mangle::Mangler;
use crate::model::{opt_string_view, Event, SourceMapView};
use crate::paths::clone_module_path;
use crate::resolve::{ResolveError, Resolver};
use crate::sourcemap::{BasicSourceMap, SourceMap};

verus! {

/// Generate a source map by keeping track of loaded files and mangled
/// identifiers.
///
/// A `SourceMapper` stands between a compiler and its [`Resolver`] and
/// [`Mangler`]: it hands every call on to the real ones, returns what they
/// return, and keeps a record of it. Call [`SourceMapper::finish`] to get the
/// source map once the compiler is done.
///
/// The two calls that record, `resolve_source` and `mangle`, take `&mut self`:
/// the record is owned by the mapper and written by nobody else. The real
/// resolver and mangler are only borrowed, and never changed.
pub struct SourceMapper<'a, R: Resolver + ?Sized, M: Mangler + ?Sized> {
    root: &'a ModulePath,
    resolver: &'a R,
    mangler: &'a M,
    sourcemap: BasicSourceMap,
}

impl<'a, R: Resolver + ?Sized, M: Mangler + ?Sized> View for SourceMapper<'a, R, M> {
    type V = SourceMapView;

    /// What has been recorded so far.
    closed spec fn view(&self) -> SourceMapView {
        self.sourcemap@
    }
}

impl<'a, R: Resolver + ?Sized, M: Mangler + ?Sized> SourceMapper<'a, R, M> {
    /// While recording, the store has no default text.
    #[verifier::type_invariant]
    spec fn recording(self) -> bool {
        self.sourcemap@.default_source is None
    }

    /// The root module.
    pub closed spec fn spec_root(&self) -> &'a ModulePath {
        self.root
    }

    /// The resolver that this mapper forwards to.
    pub closed spec fn spec_resolver(&self) -> &'a R {
        self.resolver
    }

    /// The mangler that this mapper forwards to.
    pub closed spec fn spec_mangler(&self) -> &'a M {
        self.mangler
    }

    /// Whether `other` has the root, the resolver and the mangler of this one.
    pub open spec fn same_setup(&self, other: &Self) -> bool {
        &&& self.spec_root() == other.spec_root()
        &&& self.spec_resolver() == other.spec_resolver()
        &&& self.spec_mangler() == other.spec_mangler()
    }

    /// Create a new `SourceMapper` from a mangler and a resolver.
    pub fn new(root: &'a ModulePath, resolver: &'a R, mangler: &'a M) -> (mapper: Self)
        ensures
            mapper.spec_root() == root,
            mapper.spec_resolver() == resolver,
            mapper.spec_mangler() == mangler,
            mapper@ == SourceMapView::empty(),
    {
        SourceMapper { root, resolver, mangler, sourcemap: BasicSourceMap::new() }
    }

    /// The root module.
    #[verifier::when_used_as_spec(spec_root)]
    pub fn root(&self) -> (root: &'a ModulePath)
        ensures
            root == self.spec_root(),
    {
        self.root
    }

    /// The resolver that this mapper forwards to.
    #[verifier::when_used_as_spec(spec_resolver)]
    pub fn resolver(&self) -> (resolver: &'a R)
        ensures
            resolver == self.spec_resolver(),
    {
        self.resolver
    }

    /// The mangler that this mapper forwards to.
    #[verifier::when_used_as_spec(spec_mangler)]
    pub fn mangler(&self) -> (mangler: &'a M)
        ensures
            mangler == self.spec_mangler(),
    {
        self.mangler
    }

    /// Records that the module at `path` was resolved to `source`, under the
    /// display name `display_name`.
    pub fn record_source(&mut self, path: &ModulePath, display_name: Option<String>, source: &str)
        ensures
            final(self)@ == old(self)@.record(
                Event::Resolved {
                    path: *path,
                    display_name: opt_string_view(display_name),
                    source: source@,
                },
            ),
            final(self).same_setup(old(self)),
    {
        proof {
            use_type_invariant(&*self);
        }
        let mut sourcemap = BasicSourceMap::new();
        std::mem::swap(&mut sourcemap, &mut self.sourcemap);
        sourcemap.add_source(clone_module_path(path), display_name, source.to_owned());
        self.sourcemap = sourcemap;
    }

    /// Records that the declaration `item` of the module at `path` was
    /// renamed to `mangled`.
    pub fn record_decl(&mut self, mangled: &str, path: &ModulePath, item: &str)
        ensures
            final(self)@ == old(self)@.record(
                Event::Mangled { mangled: mangled@, path: *path, item: item@ },
            ),
            final(self).same_setup(old(self)),
    {
        proof {
            use_type_invariant(&*self);
        }
        let mut sourcemap = BasicSourceMap::new();
        std::mem::swap(&mut sourcemap, &mut self.sourcemap);
        sourcemap.add_decl(mangled.to_owned(), clone_module_path(path), item.to_owned());
        self.sourcemap = sourcemap;
    }

    /// Try to resolve a source file identified by a module path.
    ///
    /// The result is the one that the real resolver gave for `path`. Where it
    /// is a text, the text is recorded for `path`, with the display name that
    /// the real resolver gave for `path`. Where it is an error, nothing is
    /// recorded.
    pub fn resolve_source(&mut self, path: &ModulePath) -> (res: Result<Cow<'a, str>, ResolveError>)
        ensures
            call_ensures(R::resolve_source, (old(self).spec_resolver(), path), res),
            match res {
                Ok(source) => exists|name: Option<String>|
                    {
                        &&& call_ensures(R::display_name, (old(self).spec_resolver(), path), name)
                        &&& final(self)@ == old(self)@.record(
                            Event::Resolved {
                                path: *path,
                                display_name: opt_string_view(name),
                                source: source@,
                            },
                        )
                    },
                Err(_) => final(self)@ == old(self)@,
            },
            res matches Ok(source) ==> final(self)@.get_source(*path) == Some(source@),
            final(self).same_setup(old(self)),
    {
        let res = self.resolver.resolve_source(path);
        match &res {
            Ok(source) => {
                let name = self.resolver.display_name(path);
                let ghost recorded = name;
                match source {
                    Cow::Borrowed(text) => self.record_source(path, name, text),
                    Cow::Owned(text) => self.record_source(path, name, text.as_str()),
                }
                assert(call_ensures(R::display_name, (old(self).spec_resolver(), path), recorded));
            },
            Err(_) => {},
        }
        res
    }

    /// The display name that the real resolver gives for `path`. Nothing is
    /// recorded.
    pub fn display_name(&self, path: &ModulePath) -> (name: Option<String>)
        ensures
            call_ensures(R::display_name, (self.spec_resolver(), path), name),
    {
        self.resolver.display_name(path)
    }

    /// The file that the real resolver gives for `path`. Nothing is recorded.
    pub fn fs_path(&self, path: &ModulePath) -> (file: Option<PathBuf>)
        ensures
            call_ensures(R::fs_path, (self.spec_resolver(), path), file),
    {
        self.resolver.fs_path(path)
    }

    /// The name that the real mangler gives to the declaration `item` of the
    /// module at `path`. It is recorded as standing for that declaration.
    pub fn mangle(&mut self, path: &ModulePath, item: &str) -> (res: String)
        ensures
            call_ensures(M::mangle, (old(self).spec_mangler(), path, item), res),
            final(self)@ == old(self)@.record(
                Event::Mangled { mangled: res@, path: *path, item: item@ },
            ),
            final(self)@.get_decl(res@) == Some((*path, item@)),
            final(self).same_setup(old(self)),
    {
        let res = self.mangler.mangle(path, item);
        self.record_decl(res.as_str(), path, item);
        res
    }

    /// What the real mangler makes of the mangled name `mangled`. The record
    /// is neither read nor written.
    pub fn unmangle(&self, mangled: &str) -> (res: Option<(ModulePath, String)>)
        ensures
            call_ensures(M::unmangle, (self.spec_mangler(), mangled), res),
    {
        self.mangler.unmangle(mangled)
    }

    /// The name that the real mangler gives to a variant of the generic
    /// declaration `item`. Nothing is recorded.
    pub fn mangle_types(&self, item: &str, variant: u32, types: &[TypeExpression]) -> (res: String)
        ensures
            call_ensures(M::mangle_types, (self.spec_mangler(), item, variant, types), res),
    {
        self.mangler.mangle_types(item, variant, types)
    }

    /// Consume this and return a [`BasicSourceMap`].
    ///
    /// The map holds what was recorded. Its default text is the text recorded
    /// for the root module; it has none where the root module was not
    /// resolved.
    pub fn finish(self) -> (map: BasicSourceMap)
        ensures
            map@ == self@.finish(*self.spec_root()),
            map@.decls == self@.decls,
            map@.sources == self@.sources,
            map@.get_default_source() == self@.get_source(*self.spec_root()),
    {
        proof {
            use_type_invariant(&self);
        }
        let mut sourcemap = self.sourcemap;
        let text = match sourcemap.get_source(self.root) {
            Some(source) => Some(source.to_owned()),
            None => None,
        };
        if let Some(source) = text {
            sourcemap.set_default_source(source);
        }
        sourcemap
    }
}

} // verus!
