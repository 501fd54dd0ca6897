//! Translation of package-manager lockfile entries into declarative fetch
//! descriptors: a closed set of fetch strategies, the derivation of a
//! canonical npm tarball URL from a package identifier and an optional
//! registry override, and the rendering of a resolved strategy into a
//! build-description fragment.

pub mod chars;
pub mod error;
pub mod fetcher;
pub mod laws;
