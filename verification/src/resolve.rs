//! Finding the text of a module.

use std::borrow::Cow;
use std::path::PathBuf;

use vstd::prelude::*;

use wgsl_parse::syntax::ModulePath;

verus! {

/// Declares `std::path::PathBuf`, so that it can stand in signatures and
/// fields. Nothing inside it is visible to Verus, and nothing is claimed of it.
#[verifier::external_type_specification]
#[verifier::external_body]
pub struct ExPathBuf(std::path::PathBuf);

/// Why the text of a module could not be had.
#[derive(Debug, PartialEq, Eq)]
pub enum ResolveError {
    /// No file at this place; the second field says why.
    FileNotFound(PathBuf, String),
    /// No module under this path; the second field says why.
    ModuleNotFound(ModulePath, String),
    /// Any other failure, with its message.
    Error(String),
}

/// What turns a module path into the text of the module. A compiler calls it
/// for every module that it loads.
///
/// Nothing is promised of what an implementation returns.
pub trait Resolver {
    /// Try to resolve a source file identified by a module path.
    fn resolve_source<'a>(&'a self, path: &ModulePath) -> Result<Cow<'a, str>, ResolveError>;

    /// The name under which the module at `path` is shown to the user, if it
    /// has one: a file name, most often.
    fn display_name(&self, path: &ModulePath) -> Option<String>;

    /// The file that holds the module at `path`, if it lies in a file.
    fn fs_path(&self, path: &ModulePath) -> Option<PathBuf>;
}

} // verus!
