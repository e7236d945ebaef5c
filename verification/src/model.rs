//! What a source map holds, as mathematics.
//!
//! [`SourceMapView`] is the view of a store: two maps and an optional default
//! text. The functions on it say what each operation of a store means.
//! [`replay`] builds the view that a sequence of recorded [`Event`]s leaves
//! behind, and the proof functions at the end of this file state what can be
//! read back from such a view.

use vstd::prelude::*;

use wgsl_parse::syntax::ModulePath;

verus! {

/// The view of an optional string.
pub open spec fn opt_string_view(s: Option<String>) -> Option<Seq<char>> {
    match s {
        Some(s) => Some(s@),
        None => None,
    }
}

/// The view of an optional string slice.
pub open spec fn opt_str_view(s: Option<&str>) -> Option<Seq<char>> {
    match s {
        Some(s) => Some(s@),
        None => None,
    }
}

/// The view of what `get_decl` hands out.
pub open spec fn decl_view(found: Option<(&ModulePath, &str)>) -> Option<(ModulePath, Seq<char>)> {
    match found {
        Some((path, item)) => Some((*path, item@)),
        None => None,
    }
}

/// The contents of a source map.
#[verifier::ext_equal]
pub struct SourceMapView {
    /// From a mangled name to the module and the name of the declaration.
    pub decls: Map<Seq<char>, (ModulePath, Seq<char>)>,
    /// From a module to its display name, if it has one, and its text.
    pub sources: Map<ModulePath, (Option<Seq<char>>, Seq<char>)>,
    /// The text to show when an error belongs to no module.
    pub default_source: Option<Seq<char>>,
}

/// Something that a compiler did and that a source map keeps.
pub enum Event {
    /// The module at `path` was resolved to `source`.
    Resolved { path: ModulePath, display_name: Option<Seq<char>>, source: Seq<char> },
    /// The declaration `item` of the module at `path` was renamed to `mangled`.
    Mangled { mangled: Seq<char>, path: ModulePath, item: Seq<char> },
}

impl Event {
    /// Whether this event resolved the module at `path`.
    pub open spec fn resolves(self, path: ModulePath) -> bool {
        self matches Event::Resolved { path: p, .. } && p == path
    }

    /// Whether this event gave out the mangled name `mangled`.
    pub open spec fn mangles_to(self, mangled: Seq<char>) -> bool {
        self matches Event::Mangled { mangled: m, .. } && m == mangled
    }

    /// Whether this event mangled a declaration of the module at `path`.
    pub open spec fn mangles_in(self, path: ModulePath) -> bool {
        self matches Event::Mangled { path: p, .. } && p == path
    }
}

impl SourceMapView {
    /// The source map with no entry and no default text.
    pub open spec fn empty() -> Self {
        SourceMapView { decls: Map::empty(), sources: Map::empty(), default_source: None }
    }

    /// This map, with `decl` leading to `item` in the module at `path`.
    pub open spec fn add_decl(self, decl: Seq<char>, path: ModulePath, item: Seq<char>) -> Self {
        SourceMapView { decls: self.decls.insert(decl, (path, item)), ..self }
    }

    /// This map, with `name` and `source` as what is known of the module at `file`.
    pub open spec fn add_source(
        self,
        file: ModulePath,
        name: Option<Seq<char>>,
        source: Seq<char>,
    ) -> Self {
        SourceMapView { sources: self.sources.insert(file, (name, source)), ..self }
    }

    /// This map, with `source` as its default text.
    pub open spec fn set_default_source(self, source: Seq<char>) -> Self {
        SourceMapView { default_source: Some(source), ..self }
    }

    /// The module and the declaration that `decl` stands for.
    pub open spec fn get_decl(self, decl: Seq<char>) -> Option<(ModulePath, Seq<char>)> {
        if self.decls.contains_key(decl) {
            Some(self.decls[decl])
        } else {
            None
        }
    }

    /// The text of the module at `path`.
    pub open spec fn get_source(self, path: ModulePath) -> Option<Seq<char>> {
        if self.sources.contains_key(path) {
            Some(self.sources[path].1)
        } else {
            None
        }
    }

    /// The display name of the module at `path`.
    pub open spec fn get_display_name(self, path: ModulePath) -> Option<Seq<char>> {
        if self.sources.contains_key(path) {
            self.sources[path].0
        } else {
            None
        }
    }

    /// The default text.
    pub open spec fn get_default_source(self) -> Option<Seq<char>> {
        self.default_source
    }

    /// This map after `event`.
    pub open spec fn record(self, event: Event) -> Self {
        match event {
            Event::Resolved { path, display_name, source } => self.add_source(
                path,
                display_name,
                source,
            ),
            Event::Mangled { mangled, path, item } => self.add_decl(mangled, path, item),
        }
    }

    /// This map as it is handed out when recording ends: the text of the
    /// module at `root`, if it has one, becomes the default text.
    pub open spec fn finish(self, root: ModulePath) -> Self {
        match self.get_source(root) {
            Some(source) => self.set_default_source(source),
            None => self,
        }
    }
}

/// The source map that `events`, recorded in this order into an empty map,
/// leave behind.
pub open spec fn replay(events: Seq<Event>) -> SourceMapView
    decreases events.len(),
{
    if events.len() == 0 {
        SourceMapView::empty()
    } else {
        replay(events.drop_last()).record(events.last())
    }
}

/// Recording one more event is replaying one more event.
pub proof fn lemma_replay_push(events: Seq<Event>, event: Event)
    ensures
        replay(events.push(event)) == replay(events).record(event),
{
    assert(events.push(event).drop_last() =~= events);
}

/// A mangled name leads to the declaration that it was last given to: if
/// the event at `i` gave `mangled` to `item` of the module at `path`, and no
/// later event gave out `mangled` again, `get_decl` finds that module and that
/// declaration.
pub proof fn lemma_recorded_decl_is_found(
    events: Seq<Event>,
    i: int,
    mangled: Seq<char>,
    path: ModulePath,
    item: Seq<char>,
)
    requires
        0 <= i < events.len(),
        events[i] == (Event::Mangled { mangled, path, item }),
        forall|j: int| i < j < events.len() ==> !events[j].mangles_to(mangled),
    ensures
        replay(events).get_decl(mangled) == Some((path, item)),
    decreases events.len(),
{
    if i < events.len() - 1 {
        assert(!events.last().mangles_to(mangled));
        lemma_recorded_decl_is_found(events.drop_last(), i, mangled, path, item);
    }
}

/// A module leads to what it was last resolved to: if the event at `i`
/// resolved the module at `path` to `source` under `display_name`, and no
/// later event resolved that module again, `get_source` finds `source` and
/// `get_display_name` finds `display_name`.
pub proof fn lemma_resolved_source_is_found(
    events: Seq<Event>,
    i: int,
    path: ModulePath,
    display_name: Option<Seq<char>>,
    source: Seq<char>,
)
    requires
        0 <= i < events.len(),
        events[i] == (Event::Resolved { path, display_name, source }),
        forall|j: int| i < j < events.len() ==> !events[j].resolves(path),
    ensures
        replay(events).get_source(path) == Some(source),
        replay(events).get_display_name(path) == display_name,
    decreases events.len(),
{
    if i < events.len() - 1 {
        assert(!events.last().resolves(path));
        lemma_resolved_source_is_found(events.drop_last(), i, path, display_name, source);
    }
}

/// A module that was never resolved has no text and no display name.
pub proof fn lemma_unresolved_module_is_absent(events: Seq<Event>, path: ModulePath)
    requires
        forall|j: int| 0 <= j < events.len() ==> !events[j].resolves(path),
    ensures
        replay(events).get_source(path) is None,
        replay(events).get_display_name(path) is None,
    decreases events.len(),
{
    if events.len() > 0 {
        assert(!events.last().resolves(path));
        lemma_unresolved_module_is_absent(events.drop_last(), path);
    }
}

/// A name that no event gave out leads to no declaration.
pub proof fn lemma_unrecorded_name_is_absent(events: Seq<Event>, mangled: Seq<char>)
    requires
        forall|j: int| 0 <= j < events.len() ==> !events[j].mangles_to(mangled),
    ensures
        replay(events).get_decl(mangled) is None,
    decreases events.len(),
{
    if events.len() > 0 {
        assert(!events.last().mangles_to(mangled));
        lemma_unrecorded_name_is_absent(events.drop_last(), mangled);
    }
}

/// No mangled name leads into a module of which no declaration was mangled.
pub proof fn lemma_unmangled_module_is_absent(
    events: Seq<Event>,
    path: ModulePath,
    mangled: Seq<char>,
)
    requires
        forall|j: int| 0 <= j < events.len() ==> !events[j].mangles_in(path),
    ensures
        replay(events).get_decl(mangled) matches Some(found) ==> found.0 != path,
    decreases events.len(),
{
    if events.len() > 0 {
        assert(!events.last().mangles_in(path));
        lemma_unmangled_module_is_absent(events.drop_last(), path, mangled);
    }
}

/// Events set no default text.
pub proof fn lemma_replay_has_no_default(events: Seq<Event>)
    ensures
        replay(events).get_default_source() is None,
    decreases events.len(),
{
    if events.len() > 0 {
        lemma_replay_has_no_default(events.drop_last());
    }
}

/// A module has a text exactly if some event resolved it.
pub proof fn lemma_source_iff_resolved(events: Seq<Event>, path: ModulePath)
    ensures
        replay(events).get_source(path) is Some <==> exists|j: int|
            0 <= j < events.len() && #[trigger] events[j].resolves(path),
    decreases events.len(),
{
    if events.len() > 0 {
        let front = events.drop_last();
        lemma_source_iff_resolved(front, path);
        if events.last().resolves(path) {
            assert(events[events.len() - 1].resolves(path));
        } else if replay(front).get_source(path) is Some {
            let j = choose|j: int| 0 <= j < front.len() && #[trigger] front[j].resolves(path);
            assert(events[j].resolves(path));
        } else {
            assert forall|j: int| 0 <= j < events.len() implies !#[trigger] events[j].resolves(
                path,
            ) by {
                if j < front.len() {
                    assert(front[j] == events[j]);
                }
            }
        }
    }
}

/// When recording ends, the default text is the text of the root module:
/// there is one exactly if some event resolved the root module, and then it
/// is the text that `get_source` finds for it. Nothing else changes.
pub proof fn lemma_finish_sets_default(events: Seq<Event>, root: ModulePath)
    ensures
        replay(events).finish(root).get_default_source() == replay(events).get_source(root),
        replay(events).finish(root).get_default_source() is Some <==> exists|j: int|
            0 <= j < events.len() && #[trigger] events[j].resolves(root),
        replay(events).finish(root).decls == replay(events).decls,
        replay(events).finish(root).sources == replay(events).sources,
{
    lemma_replay_has_no_default(events);
    lemma_source_iff_resolved(events, root);
}

/// Resolving a module twice to the same text, under the same display name,
/// leaves what resolving it once leaves.
pub proof fn lemma_resolving_again_changes_nothing(
    map: SourceMapView,
    path: ModulePath,
    display_name: Option<Seq<char>>,
    source: Seq<char>,
)
    ensures
        map.add_source(path, display_name, source).add_source(path, display_name, source)
            == map.add_source(path, display_name, source),
{
    let once = map.add_source(path, display_name, source);
    assert(once.add_source(path, display_name, source).sources =~= once.sources);
}

/// Resolving a module a second time to another text leaves only the second:
/// the map is the one that the second resolution alone would have left.
pub proof fn lemma_resolving_again_overwrites(
    map: SourceMapView,
    path: ModulePath,
    first_name: Option<Seq<char>>,
    first: Seq<char>,
    second_name: Option<Seq<char>>,
    second: Seq<char>,
)
    ensures
        map.add_source(path, first_name, first).add_source(path, second_name, second)
            == map.add_source(path, second_name, second),
        map.add_source(path, first_name, first).add_source(
            path,
            second_name,
            second,
        ).get_source(path) == Some(second),
        map.add_source(path, first_name, first).add_source(
            path,
            second_name,
            second,
        ).get_display_name(path) == second_name,
{
    let twice = map.add_source(path, first_name, first).add_source(path, second_name, second);
    assert(twice.sources =~= map.add_source(path, second_name, second).sources);
}

} // verus!
