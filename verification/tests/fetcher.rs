use bun2nix::error::Error;
use bun2nix::fetcher::Fetcher;

#[test]
fn scoped_package_default_registry() {
    assert_eq!(
        Fetcher::to_npm_url("@alloc/quick-lru@5.2.0", None).unwrap(),
        "https://registry.npmjs.org/@alloc/quick-lru/-/quick-lru-5.2.0.tgz"
    );
}

#[test]
fn scoped_package_custom_registry_with_slash() {
    assert_eq!(
        Fetcher::to_npm_url("@alloc/quick-lru@5.2.0", Some("https://npm.pkg.github.com/")).unwrap(),
        "https://npm.pkg.github.com/@alloc/quick-lru/-/quick-lru-5.2.0.tgz"
    );
}

#[test]
fn unscoped_package_custom_registry_without_slash() {
    assert_eq!(
        Fetcher::to_npm_url("lodash@4.17.21", Some("https://npm.example.com")).unwrap(),
        "https://npm.example.com/lodash/-/lodash-4.17.21.tgz"
    );
}

#[test]
fn tgz_override_returned_verbatim() {
    assert_eq!(
        Fetcher::to_npm_url(
            "lodash@4.17.21",
            Some("https://npm.pkg.github.com/lodash/-/lodash-4.17.21.tgz")
        )
        .unwrap(),
        "https://npm.pkg.github.com/lodash/-/lodash-4.17.21.tgz"
    );
}

#[test]
fn tgz_override_ignores_malformed_identifier() {
    assert_eq!(
        Fetcher::to_npm_url("not-an-identifier", Some("https://cache.example.com/pkg.tgz"))
            .unwrap(),
        "https://cache.example.com/pkg.tgz"
    );
}

#[test]
fn unscoped_package_default_registry() {
    assert_eq!(
        Fetcher::to_npm_url("lodash@4.17.21", None).unwrap(),
        "https://registry.npmjs.org/lodash/-/lodash-4.17.21.tgz"
    );
}

#[test]
fn empty_registry_override_means_default() {
    assert_eq!(
        Fetcher::to_npm_url("lodash@4.17.21", Some("")).unwrap(),
        "https://registry.npmjs.org/lodash/-/lodash-4.17.21.tgz"
    );
}

#[test]
fn missing_at_fails_unscoped() {
    assert_eq!(
        Fetcher::to_npm_url("lodash-no-version", None),
        Err(Error::NoAtInPackageIdentifier)
    );
}

#[test]
fn missing_at_fails_scoped() {
    assert_eq!(
        Fetcher::to_npm_url("@scope/name-no-version", None),
        Err(Error::NoAtInPackageIdentifier)
    );
}

#[test]
fn missing_at_fails_empty_identifier() {
    assert_eq!(Fetcher::to_npm_url("", None), Err(Error::NoAtInPackageIdentifier));
}

#[test]
fn version_holds_everything_after_first_at() {
    assert_eq!(
        Fetcher::to_npm_url("pkg@1.0.0-beta@2", None).unwrap(),
        "https://registry.npmjs.org/pkg/-/pkg-1.0.0-beta@2.tgz"
    );
}

#[test]
fn new_npm_package_wraps_url_and_hash() {
    let fetcher = Fetcher::new_npm_package("pkg@1.0.0", "sha256-abc".to_string(), None).unwrap();
    assert_eq!(
        fetcher,
        Fetcher::FetchUrl {
            url: "https://registry.npmjs.org/pkg/-/pkg-1.0.0.tgz".to_string(),
            hash: "sha256-abc".to_string(),
        }
    );
}

#[test]
fn new_npm_package_propagates_identifier_error() {
    assert_eq!(
        Fetcher::new_npm_package("pkg-no-version", "sha256-abc".to_string(), None),
        Err(Error::NoAtInPackageIdentifier)
    );
}

#[test]
fn render_fetch_url_exact_text() {
    let fetcher = Fetcher::FetchUrl { url: "u".to_string(), hash: "h".to_string() };
    assert_eq!(fetcher.render(), "pkgs.fetchurl { url = \"u\"; hash = \"h\"; }");
}

#[test]
fn render_copy_to_store_exact_text() {
    let fetcher = Fetcher::CopyToStore { path: "./pkg".to_string() };
    assert_eq!(fetcher.render(), "builtins.path { path = \"./pkg\"; }");
}

#[test]
fn render_is_deterministic() {
    let fetcher = Fetcher::FetchGitHub {
        owner: "o".to_string(),
        repo: "r".to_string(),
        rev: "deadbeef".to_string(),
        hash: "sha256-xyz".to_string(),
    };
    assert_eq!(fetcher.render(), fetcher.render());
    assert_eq!(fetcher.clone().render(), fetcher.render());
}

#[test]
fn render_templates_do_not_overlap() {
    let url = "u".to_string();
    let hash = "h".to_string();
    let rendered = vec![
        Fetcher::FetchUrl { url: url.clone(), hash: hash.clone() }.render(),
        Fetcher::FetchGit { url: url.clone(), rev: "r".to_string(), hash: hash.clone() }.render(),
        Fetcher::FetchGitHub {
            owner: "u".to_string(),
            repo: "u".to_string(),
            rev: "r".to_string(),
            hash: hash.clone(),
        }
        .render(),
        Fetcher::FetchTarball { url: url.clone(), hash: hash.clone() }.render(),
        Fetcher::CopyToStore { path: "u".to_string() }.render(),
    ];
    for i in 0..rendered.len() {
        for j in 0..rendered.len() {
            if i != j {
                assert_ne!(rendered[i], rendered[j]);
            }
        }
    }
}

#[test]
fn fetchers_are_equal_iff_fields_are_equal() {
    let a = Fetcher::FetchUrl { url: "u".to_string(), hash: "h".to_string() };
    let b = Fetcher::FetchUrl { url: "u".to_string(), hash: "h".to_string() };
    let c = Fetcher::FetchUrl { url: "u".to_string(), hash: "other".to_string() };
    let d = Fetcher::FetchTarball { url: "u".to_string(), hash: "h".to_string() };
    assert_eq!(a, b);
    assert_ne!(a, c);
    assert_ne!(a, d);
}

#[test]
fn fetchers_order_and_hash_support_dedup() {
    let a = Fetcher::FetchUrl { url: "u".to_string(), hash: "h".to_string() };
    let b = Fetcher::CopyToStore { path: "p".to_string() };
    let mut sorted = vec![b.clone(), a.clone(), a.clone()];
    sorted.sort();
    sorted.dedup();
    assert_eq!(sorted.len(), 2);
    let mut set = std::collections::HashSet::new();
    set.insert(a.clone());
    set.insert(a.clone());
    set.insert(b.clone());
    assert_eq!(set.len(), 2);
}

#[test]
fn error_message_text() {
    assert_eq!(Error::NoAtInPackageIdentifier.message(), "no '@' in package identifier");
}
