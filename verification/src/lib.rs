//! Source maps for a module-aware shader compiler.
//!
//! A compiler that merges several modules into one output renames their
//! declarations and rewrites their text. A source map leads from that output
//! back to what the user wrote: from a mangled name to the module and the
//! declaration it stands for, and from a module to its display name and its
//! source text.
//!
//! * [`SourceMap`] is the read-only lookup, with [`BasicSourceMap`] as the
//!   store in memory, [`NoSourceMap`] as the lookup that knows nothing, and an
//!   implementation for `Option` of a lookup.
//! * [`SourceMapper`] stands between a compiler and its [`Resolver`] and
//!   [`Mangler`]: it forwards every call and records what came back.
//! * [`SourceMapView`] is what a store holds, as two maps and an optional
//!   text, and [`replay`] is the view that a sequence of recorded [`Event`]s
//!   leaves behind. The proof functions of [`model`] say what can be read back
//!   from it.

pub mod mangle;
pub mod mapper;
pub mod model;
pub mod module_table;
pub mod paths;
pub mod resolve;
pub mod sourcemap;

pub use mangle::Mangler;
pub use mapper::SourceMapper;
pub use model::{decl_view, opt_str_view, opt_string_view, replay, Event, SourceMapView};
pub use resolve::{ResolveError, Resolver};
pub use sourcemap::{BasicSourceMap, NoSourceMap, SourceMap};
