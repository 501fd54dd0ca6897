//! The fetch-strategy model and the npm URL resolution algorithm.
//!
//! A [`Fetcher`] describes how a package's source artifact is obtained; the
//! resolution algorithm derives the canonical registry tarball URL from an
//! npm-style package identifier and an optional registry override.

use vstd::prelude::*;
use vstd::string::{StrSliceExecFns, StringExecFns};

use crate::chars::{find_char, first_index_of, str_ends_with, has_suffix};
use crate::error::Error;

verus! {

/// A fetch strategy for one package: exactly one variant is active, all of
/// its fields are mandatory, and the value never changes after construction.
#[derive(Clone, Debug, PartialEq, Eq, PartialOrd, Ord, Hash)]
pub enum Fetcher {
    /// Retrieve a single file by direct download.
    FetchUrl {
        /// The url to fetch the package from.
        url: String,
        /// The integrity digest of the downloaded bytes.
        hash: String,
    },
    /// Clone a git repository at a specific revision.
    FetchGit {
        /// The url of the repository.
        url: String,
        /// The commit ref to fetch; an opaque identifier.
        rev: String,
        /// The integrity digest of the downloaded results.
        hash: String,
    },
    /// Clone a GitHub-hosted repository by owner, repository and revision.
    FetchGitHub {
        /// The owner of the repository.
        owner: String,
        /// The repository to fetch.
        repo: String,
        /// The git ref to fetch; an opaque identifier.
        rev: String,
        /// The integrity digest of the downloaded results.
        hash: String,
    },
    /// Fetch and unpack an archive URL.
    FetchTarball {
        /// The url of the archive.
        url: String,
        /// The integrity digest of the downloaded results.
        hash: String,
    },
    /// No network fetch: copy a local filesystem path verbatim.
    CopyToStore {
        /// The path to copy to the store.
        path: String,
    },
}

/// The default npm registry base URL.
pub open spec fn default_registry() -> Seq<char> {
    "https://registry.npmjs.org/"@
}

/// The view of an optional registry override.
pub open spec fn registry_view(registry_path: Option<&str>) -> Option<Seq<char>> {
    match registry_path {
        Some(p) => Some(p@),
        None => None,
    }
}

/// An override that is a complete, already-resolved tarball URL: present,
/// non-empty, and ending in `.tgz`.
pub open spec fn is_tgz_override(registry: Option<Seq<char>>) -> bool {
    match registry {
        Some(p) => p.len() > 0 && has_suffix(p, ".tgz"@),
        None => false,
    }
}

/// A registry override normalized to end with exactly one added `/` when it
/// does not already end with one.
pub open spec fn normalized_base(p: Seq<char>) -> Seq<char> {
    if p.last() == '/' {
        p
    } else {
        p + "/"@
    }
}

/// The registry base URL in effect: the normalized override when present and
/// non-empty, the default registry otherwise.
pub open spec fn base_url_spec(registry: Option<Seq<char>>) -> Seq<char> {
    match registry {
        Some(p) => if p.len() > 0 {
            normalized_base(p)
        } else {
            default_registry()
        },
        None => default_registry(),
    }
}

/// The tarball URL of an unscoped package: `{base}{name}/-/{name}-{ver}.tgz`.
pub open spec fn unscoped_tarball(base: Seq<char>, name: Seq<char>, ver: Seq<char>) -> Seq<char> {
    base + name + "/-/"@ + name + "-"@ + ver + ".tgz"@
}

/// The tarball URL of a scoped package:
/// `{base}{user}/{name}/-/{name}-{ver}.tgz`.
pub open spec fn scoped_tarball(
    base: Seq<char>,
    user: Seq<char>,
    name: Seq<char>,
    ver: Seq<char>,
) -> Seq<char> {
    base + user + "/"@ + name + "/-/"@ + name + "-"@ + ver + ".tgz"@
}

/// The resolved download URL for `ident` under `registry`, or `None` when the
/// identifier lacks the `@` separating name from version.
///
/// Precedence: a `.tgz` override is returned verbatim; otherwise the
/// identifier is split on its first `/` (scope, if any) and the remainder on
/// its first `@` (name versus version), and the tarball URL is assembled on
/// the base URL in effect.
pub open spec fn npm_url_spec(ident: Seq<char>, registry: Option<Seq<char>>) -> Option<Seq<char>> {
    if is_tgz_override(registry) {
        registry
    } else {
        let base = base_url_spec(registry);
        let slash: int = first_index_of(ident, '/');
        if slash == -1 {
            let at: int = first_index_of(ident, '@');
            if at == -1 {
                None
            } else {
                Some(unscoped_tarball(
                    base,
                    ident.subrange(0, at),
                    ident.subrange(at + 1, ident.len() as int),
                ))
            }
        } else {
            let user = ident.subrange(0, slash);
            let rest = ident.subrange(slash + 1, ident.len() as int);
            let at: int = first_index_of(rest, '@');
            if at == -1 {
                None
            } else {
                Some(scoped_tarball(
                    base,
                    user,
                    rest.subrange(0, at),
                    rest.subrange(at + 1, rest.len() as int),
                ))
            }
        }
    }
}

/// The text a fetcher renders to: each variant substitutes its fields into
/// its own fixed template, a fragment that invokes the corresponding fetch
/// primitive.
pub open spec fn render_spec(f: Fetcher) -> Seq<char> {
    match f {
        Fetcher::FetchUrl { url, hash } => "pkgs.fetchurl { url = \""@ + url@ + "\"; hash = \""@
            + hash@ + "\"; }"@,
        Fetcher::FetchGit { url, rev, hash } => "pkgs.fetchgit { url = \""@ + url@
            + "\"; rev = \""@ + rev@ + "\"; hash = \""@ + hash@ + "\"; }"@,
        Fetcher::FetchGitHub { owner, repo, rev, hash } => "pkgs.fetchFromGitHub { owner = \""@
            + owner@ + "\"; repo = \""@ + repo@ + "\"; rev = \""@ + rev@ + "\"; hash = \""@ + hash@
            + "\"; }"@,
        Fetcher::FetchTarball { url, hash } => "pkgs.fetchTarball { url = \""@ + url@
            + "\"; hash = \""@ + hash@ + "\"; }"@,
        Fetcher::CopyToStore { path } => "builtins.path { path = \""@ + path@ + "\"; }"@,
    }
}

impl Fetcher {
    /// Initialize a fetcher from an npm identifier and its integrity hash,
    /// optionally using a custom registry path.
    ///
    /// The URL is derived by [`Fetcher::to_npm_url`]; the result wraps it and
    /// the caller-supplied hash into a [`Fetcher::FetchUrl`].
    pub fn new_npm_package(ident: &str, hash: String, registry_path: Option<&str>) -> (r: Result<
        Self,
        Error,
    >)
        ensures
            match r {
                Ok(f) => match f {
                    Fetcher::FetchUrl { url, hash: h } => npm_url_spec(
                        ident@,
                        registry_view(registry_path),
                    ) == Some(url@) && h == hash,
                    _ => false,
                },
                Err(e) => npm_url_spec(ident@, registry_view(registry_path)) is None && e
                    == Error::NoAtInPackageIdentifier,
            },
    {
        let url = match Self::to_npm_url(ident, registry_path) {
            Ok(url) => url,
            Err(e) => {
                return Err(e);
            },
        };
        Ok(Fetcher::FetchUrl { url, hash })
    }

    /// Produce the URL needed to fetch a package from the npm api.
    ///
    /// A non-empty `registry_path` ending in `.tgz` is returned verbatim;
    /// otherwise the package path is appended to the registry base URL in
    /// effect. An identifier without the `@` separating name from version is
    /// rejected.
    pub fn to_npm_url(ident: &str, registry_path: Option<&str>) -> (r: Result<String, Error>)
        ensures
            match r {
                Ok(url) => npm_url_spec(ident@, registry_view(registry_path)) == Some(url@),
                Err(e) => npm_url_spec(ident@, registry_view(registry_path)) is None && e
                    == Error::NoAtInPackageIdentifier,
            },
    {
        // A full tarball URL override is used directly.
        if let Some(path) = registry_path {
            if !path.is_empty() && str_ends_with(path, ".tgz") {
                return Ok(path.to_owned());
            }
        }
        // The base registry URL: the override, normalized to end with a
        // slash, or the default registry.
        let base: String = match registry_path {
            Some(url) => {
                if url.is_empty() {
                    String::from_str("https://registry.npmjs.org/")
                } else {
                    let n: usize = url.unicode_len();
                    if url.get_char(n - 1) == '/' {
                        url.to_owned()
                    } else {
                        let mut b = url.to_owned();
                        b.append("/");
                        b
                    }
                }
            },
            None => String::from_str("https://registry.npmjs.org/"),
        };
        proof {
            assert(base@ == base_url_spec(registry_view(registry_path)));
        }
        let n: usize = ident.unicode_len();
        match find_char(ident, '/') {
            None => {
                // Unscoped: the whole identifier is `name@ver`.
                match find_char(ident, '@') {
                    None => Err(Error::NoAtInPackageIdentifier),
                    Some(at) => {
                        let name = ident.substring_char(0, at);
                        let ver = ident.substring_char(at + 1, n);
                        let mut out = base;
                        out.append(name);
                        out.append("/-/");
                        out.append(name);
                        out.append("-");
                        out.append(ver);
                        out.append(".tgz");
                        proof {
                            assert(out@ =~= unscoped_tarball(
                                base_url_spec(registry_view(registry_path)),
                                ident@.subrange(0, at as int),
                                ident@.subrange(at + 1, ident@.len() as int),
                            ));
                        }
                        Ok(out)
                    },
                }
            },
            Some(slash) => {
                // Scoped: `user/name@ver`.
                let user = ident.substring_char(0, slash);
                let rest = ident.substring_char(slash + 1, n);
                let m: usize = rest.unicode_len();
                match find_char(rest, '@') {
                    None => Err(Error::NoAtInPackageIdentifier),
                    Some(at) => {
                        let name = rest.substring_char(0, at);
                        let ver = rest.substring_char(at + 1, m);
                        let mut out = base;
                        out.append(user);
                        out.append("/");
                        out.append(name);
                        out.append("/-/");
                        out.append(name);
                        out.append("-");
                        out.append(ver);
                        out.append(".tgz");
                        proof {
                            let rest_spec = ident@.subrange(slash + 1, ident@.len() as int);
                            assert(out@ =~= scoped_tarball(
                                base_url_spec(registry_view(registry_path)),
                                ident@.subrange(0, slash as int),
                                rest_spec.subrange(0, at as int),
                                rest_spec.subrange(at + 1, rest_spec.len() as int),
                            ));
                        }
                        Ok(out)
                    },
                }
            },
        }
    }

    /// Render this fetcher into its build-description fragment.
    ///
    /// Every variant has exactly one associated template, and the output is a
    /// pure function of the fetcher's fields: identical values always render
    /// to identical text.
    pub fn render(&self) -> (r: String)
        ensures
            r@ == render_spec(*self),
    {
        match self {
            Fetcher::FetchUrl { url, hash } => {
                let mut out = String::from_str("pkgs.fetchurl { url = \"");
                out.append(url.as_str());
                out.append("\"; hash = \"");
                out.append(hash.as_str());
                out.append("\"; }");
                proof {
                    assert(out@ =~= render_spec(*self));
                }
                out
            },
            Fetcher::FetchGit { url, rev, hash } => {
                let mut out = String::from_str("pkgs.fetchgit { url = \"");
                out.append(url.as_str());
                out.append("\"; rev = \"");
                out.append(rev.as_str());
                out.append("\"; hash = \"");
                out.append(hash.as_str());
                out.append("\"; }");
                proof {
                    assert(out@ =~= render_spec(*self));
                }
                out
            },
            Fetcher::FetchGitHub { owner, repo, rev, hash } => {
                let mut out = String::from_str("pkgs.fetchFromGitHub { owner = \"");
                out.append(owner.as_str());
                out.append("\"; repo = \"");
                out.append(repo.as_str());
                out.append("\"; rev = \"");
                out.append(rev.as_str());
                out.append("\"; hash = \"");
                out.append(hash.as_str());
                out.append("\"; }");
                proof {
                    assert(out@ =~= render_spec(*self));
                }
                out
            },
            Fetcher::FetchTarball { url, hash } => {
                let mut out = String::from_str("pkgs.fetchTarball { url = \"");
                out.append(url.as_str());
                out.append("\"; hash = \"");
                out.append(hash.as_str());
                out.append("\"; }");
                proof {
                    assert(out@ =~= render_spec(*self));
                }
                out
            },
            Fetcher::CopyToStore { path } => {
                let mut out = String::from_str("builtins.path { path = \"");
                out.append(path.as_str());
                out.append("\"; }");
                proof {
                    assert(out@ =~= render_spec(*self));
                }
                out
            },
        }
    }
}

} // verus!
