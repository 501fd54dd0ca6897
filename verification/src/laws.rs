//! The laws of resolution and rendering, stated and proved over the spec
//! functions that the executable contracts use.

use vstd::prelude::*;

use crate::chars::{
    first_index_of, has_suffix, lacks_char, lemma_first_index_absent, lemma_first_index_found,
    lemma_first_index_range,
};
use crate::fetcher::{
    base_url_spec, default_registry, is_tgz_override, npm_url_spec, render_spec, scoped_tarball,
    unscoped_tarball, Fetcher,
};

verus! {

/// When `c` occurs in neither part, it occurs nowhere in the concatenation.
proof fn lemma_lacks_concat(a: Seq<char>, b: Seq<char>, c: char)
    requires
        lacks_char(a, c),
        lacks_char(b, c),
    ensures
        lacks_char(a + b, c),
{
    assert forall|i: int| 0 <= i < (a + b).len() implies (a + b)[i] != c by {
        if i < a.len() {
            assert((a + b)[i] == a[i]);
        } else {
            assert((a + b)[i] == b[i - a.len()]);
        }
    }
}

/// In `a + [c] + b` with `c` absent from `a`, the first `c` stands at
/// `a.len()`, and the splits on either side of it are `a` and `b`.
proof fn lemma_split_at_separator(a: Seq<char>, c: char, b: Seq<char>)
    requires
        lacks_char(a, c),
    ensures
        first_index_of(a + seq![c] + b, c) == a.len(),
        (a + seq![c] + b).subrange(0, a.len() as int) == a,
        (a + seq![c] + b).subrange(a.len() as int + 1, (a + seq![c] + b).len() as int) == b,
{
    let s = a + seq![c] + b;
    assert forall|j: int| 0 <= j < a.len() implies s[j] != c by {
        assert(s[j] == a[j]);
    }
    assert(s[a.len() as int] == c);
    lemma_first_index_found(s, c, a.len() as int);
    assert(s.subrange(0, a.len() as int) =~= a);
    assert(s.subrange(a.len() as int + 1, s.len() as int) =~= b);
}

/// With no registry override, an unscoped identifier `name@ver` resolves to
/// `https://registry.npmjs.org/{name}/-/{name}-{ver}.tgz`.
pub proof fn lemma_unscoped_default_resolution(name: Seq<char>, ver: Seq<char>)
    requires
        lacks_char(name, '/'),
        lacks_char(name, '@'),
        lacks_char(ver, '/'),
    ensures
        npm_url_spec(name + seq!['@'] + ver, None) == Some(
            unscoped_tarball(default_registry(), name, ver),
        ),
{
    let ident = name + seq!['@'] + ver;
    lemma_lacks_concat(name, seq!['@'], '/');
    lemma_lacks_concat(name + seq!['@'], ver, '/');
    lemma_first_index_absent(ident, '/');
    lemma_split_at_separator(name, '@', ver);
}

/// With no registry override, a scoped identifier `@scope/name@ver` resolves
/// to `https://registry.npmjs.org/@scope/name/-/name-{ver}.tgz`.
pub proof fn lemma_scoped_default_resolution(scope: Seq<char>, name: Seq<char>, ver: Seq<char>)
    requires
        lacks_char(scope, '/'),
        lacks_char(name, '/'),
        lacks_char(name, '@'),
        lacks_char(ver, '/'),
    ensures
        npm_url_spec(seq!['@'] + scope + seq!['/'] + name + seq!['@'] + ver, None) == Some(
            scoped_tarball(default_registry(), seq!['@'] + scope, name, ver),
        ),
{
    let user = seq!['@'] + scope;
    let rest = name + seq!['@'] + ver;
    let ident = seq!['@'] + scope + seq!['/'] + name + seq!['@'] + ver;
    assert(ident =~= user + seq!['/'] + rest);
    assert(lacks_char(user, '/')) by {
        assert(forall|i: int| 0 <= i < scope.len() ==> user[i + 1] == scope[i]);
    }
    lemma_split_at_separator(user, '/', rest);
    lemma_split_at_separator(name, '@', ver);
}

/// A non-empty registry override ending in `.tgz` is the resolved URL,
/// byte for byte, whatever the identifier holds.
pub proof fn lemma_tgz_override_verbatim(ident: Seq<char>, p: Seq<char>)
    requires
        p.len() > 0,
        has_suffix(p, ".tgz"@),
    ensures
        npm_url_spec(ident, Some(p)) == Some(p),
{
}

/// A registry override already ending in `/` is used unchanged as the base
/// URL; one without a trailing `/` gains exactly one.
pub proof fn lemma_base_url_normalization(p: Seq<char>)
    requires
        p.len() > 0,
    ensures
        p.last() == '/' ==> base_url_spec(Some(p)) == p,
        p.last() != '/' ==> base_url_spec(Some(p)) == p.push('/'),
{
    reveal_strlit("/");
    if p.last() != '/' {
        assert(p + "/"@ =~= p.push('/'));
    }
}

/// An identifier with no `@` anywhere fails to resolve under any override
/// that is not a complete `.tgz` URL: no URL is produced.
pub proof fn lemma_no_at_fails(ident: Seq<char>, registry: Option<Seq<char>>)
    requires
        lacks_char(ident, '@'),
        !is_tgz_override(registry),
    ensures
        npm_url_spec(ident, registry) is None,
{
    lemma_first_index_range(ident, '/');
    let slash: int = first_index_of(ident, '/');
    if slash == -1 {
        lemma_first_index_absent(ident, '@');
    } else {
        let rest = ident.subrange(slash + 1, ident.len() as int);
        assert forall|i: int| 0 <= i < rest.len() implies rest[i] != '@' by {
            assert(rest[i] == ident[slash + 1 + i]);
        }
        lemma_first_index_absent(rest, '@');
    }
}

/// Rendering is deterministic: two renderings of the same fetcher value are
/// the same text.
pub proof fn lemma_render_deterministic(f: Fetcher, r1: Seq<char>, r2: Seq<char>)
    requires
        r1 == render_spec(f),
        r2 == render_spec(f),
    ensures
        r1 == r2,
{
}

/// Holds when the two fetchers are the same fetch strategy (the same
/// variant), whatever their fields.
pub open spec fn same_variant(f1: Fetcher, f2: Fetcher) -> bool {
    match (f1, f2) {
        (Fetcher::FetchUrl { .. }, Fetcher::FetchUrl { .. }) => true,
        (Fetcher::FetchGit { .. }, Fetcher::FetchGit { .. }) => true,
        (Fetcher::FetchGitHub { .. }, Fetcher::FetchGitHub { .. }) => true,
        (Fetcher::FetchTarball { .. }, Fetcher::FetchTarball { .. }) => true,
        (Fetcher::CopyToStore { .. }, Fetcher::CopyToStore { .. }) => true,
        _ => false,
    }
}

/// Every rendered fragment is longer than its template's discriminating
/// positions, and carries its template's characters there.
proof fn lemma_render_prefix(f: Fetcher)
    ensures
        render_spec(f).len() > 10,
        f matches Fetcher::FetchUrl { .. } ==> render_spec(f)[0] == 'p' && render_spec(f)[10]
            == 'u',
        f matches Fetcher::FetchGit { .. } ==> render_spec(f)[0] == 'p' && render_spec(f)[10]
            == 'g',
        f matches Fetcher::FetchGitHub { .. } ==> render_spec(f)[0] == 'p' && render_spec(f)[10]
            == 'F',
        f matches Fetcher::FetchTarball { .. } ==> render_spec(f)[0] == 'p' && render_spec(f)[10]
            == 'T',
        f matches Fetcher::CopyToStore { .. } ==> render_spec(f)[0] == 'b' && render_spec(f)[10]
            == 'a',
{
    reveal_strlit("pkgs.fetchurl { url = \"");
    reveal_strlit("pkgs.fetchgit { url = \"");
    reveal_strlit("pkgs.fetchFromGitHub { owner = \"");
    reveal_strlit("pkgs.fetchTarball { url = \"");
    reveal_strlit("builtins.path { path = \"");
}

/// Templates do not overlap: fetchers of different variants never render to
/// the same text.
pub proof fn lemma_render_distinct(f1: Fetcher, f2: Fetcher)
    requires
        !same_variant(f1, f2),
    ensures
        render_spec(f1) != render_spec(f2),
{
    lemma_render_prefix(f1);
    lemma_render_prefix(f2);
    if render_spec(f1) == render_spec(f2) {
        assert(render_spec(f1)[0] == render_spec(f2)[0]);
        assert(render_spec(f1)[10] == render_spec(f2)[10]);
    }
}

} // verus!
