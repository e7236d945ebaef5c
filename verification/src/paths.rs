//! The identity of a module.
//!
//! A module is named by a [`ModulePath`] of the `wgsl_parse` crate. This
//! library never looks inside one: it compares two paths and copies a path,
//! and both go through the two functions below, whose contracts are taken on
//! trust from the derived impls of `ModulePath`.

use vstd::prelude::*;

use wgsl_parse::syntax::ModulePath;

verus! {

/// Declares `wgsl_parse::syntax::ModulePath`, so that it can stand in
/// signatures and fields. Nothing inside it is visible to Verus.
#[verifier::external_type_specification]
#[verifier::external_body]
pub struct ExModulePath(wgsl_parse::syntax::ModulePath);

/// Calls `==` of `ModulePath`, which is derived: it holds exactly when both
/// paths have the same origin and the same components, and a path holds
/// nothing else. The contract takes that for equality of the two values.
#[verifier::external_body]
pub(crate) fn same_module(a: &ModulePath, b: &ModulePath) -> (same: bool)
    ensures
        same == (*a == *b),
{
    a == b
}

/// Calls `clone` of `ModulePath`, which is derived: the copy has the origin
/// and the components of the path it was made from. The contract says that
/// the two are equal.
#[verifier::external_body]
pub(crate) fn clone_module_path(path: &ModulePath) -> (copy: ModulePath)
    ensures
        copy == *path,
{
    path.clone()
}

} // verus!
