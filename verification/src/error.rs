//! The error kind raised by this crate's own logic.

use vstd::prelude::*;

verus! {

/// Failure to resolve a package identifier: the identifier lacks the `@`
/// separating the package name from its version, either at the top level
/// (unscoped) or after the scope segment (scoped).
#[derive(Clone, Copy, Debug, PartialEq, Eq, Structural)]
pub enum Error {
    /// The identifier has no `@` where `name@version` was expected.
    NoAtInPackageIdentifier,
}

impl Error {
    /// A human-readable description of the error.
    pub fn message(&self) -> (r: String)
        ensures
            r@ == "no '@' in package identifier"@,
    {
        String::from_str("no '@' in package identifier")
    }
}

} // verus!
