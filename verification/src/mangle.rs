//! Renaming declarations for the compiled output.

use vstd::prelude::*;

use wgsl_parse::syntax::ModulePath;
use wgsl_parse::syntax::TypeExpression;

verus! {

/// Declares `wgsl_parse::syntax::TypeExpression`, so that it can stand in
/// signatures. Nothing inside it is visible to Verus, and nothing is claimed
/// of it: this library only hands such values on.
#[verifier::external_type_specification]
#[verifier::external_body]
pub struct ExTypeExpression(wgsl_parse::syntax::TypeExpression);

/// What gives each declaration the name that it has in the compiled output,
/// so that declarations of the same name in two modules do not collide.
///
/// Nothing is promised of what an implementation returns.
pub trait Mangler {
    /// The name in the compiled output of the declaration `item` of the
    /// module at `path`.
    fn mangle(&self, path: &ModulePath, item: &str) -> String;

    /// The module and the declaration that a mangled name stands for, where
    /// the name itself tells.
    fn unmangle(&self, mangled: &str) -> Option<(ModulePath, String)>;

    /// The name in the compiled output of one variant of the generic
    /// declaration `item`, made with the type arguments `types`.
    fn mangle_types(&self, item: &str, variant: u32, types: &[TypeExpression]) -> String;
}

} // verus!
