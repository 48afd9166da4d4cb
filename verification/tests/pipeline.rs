use fetch_npm_deps::hash::get_ideal_hash;
use fetch_npm_deps::lockfile::{normalize, PackageLock};
use fetch_npm_deps::pkgs::{OldPackage, Package, PackageMap};
use fetch_npm_deps::resolver::get_hosted_git_url;
use fetch_npm_deps::urlparts::{get_initial_url, UrlOrString, UrlParts};
use fetch_npm_deps::PrefetchError;

fn parts(s: &str) -> UrlParts {
    let u = url::Url::parse(s).unwrap();
    UrlParts {
        text: u.as_str().to_string(),
        scheme: u.scheme().to_string(),
        username: u.username().to_string(),
        host: u.host_str().map(|h| h.to_string()),
        path: u.path().to_string(),
        fragment: u.fragment().map(|f| f.to_string()),
    }
}

#[test]
fn hosted_git_urls() {
    for (input, expected) in [
        (
            "git+ssh://git@github.com/castlabs/electron-releases.git#fc5f78d046e8d7cdeb66345a2633c383ab41f525",
            Some("https://codeload.github.com/castlabs/electron-releases/tar.gz/fc5f78d046e8d7cdeb66345a2633c383ab41f525"),
        ),
        (
            "https://user@github.com/foo/bar#fix/bug",
            Some("https://codeload.github.com/foo/bar/tar.gz/fix/bug"),
        ),
        (
            "https://github.com/eligrey/classList.js/archive/1.2.20180112.tar.gz",
            None,
        ),
        (
            "git+ssh://bitbucket.org/foo/bar#branch",
            Some("https://bitbucket.org/foo/bar/get/branch.tar.gz"),
        ),
        (
            "ssh://git@gitlab.com/foo/bar.git#fix/bug",
            Some("https://gitlab.com/foo/bar/repository/archive.tar.gz?ref=fix/bug"),
        ),
        (
            "git+ssh://git.sr.ht/~foo/bar#branch",
            Some("https://git.sr.ht/~foo/bar/archive/branch.tar.gz"),
        ),
    ] {
        assert_eq!(
            get_hosted_git_url(&parts(input)),
            expected.map(String::from)
        );
    }
}

#[test]
fn ideal_hashes() {
    for (input, expected) in [
        ("sha512-foo sha1-bar", Some("sha512-foo")),
        ("sha1-bar md5-foo", Some("sha1-bar")),
        ("sha1-bar", Some("sha1-bar")),
        ("sha512-foo", Some("sha512-foo")),
        ("foo-bar sha1-bar", Some("sha1-bar")),
        ("foo-bar baz-foo", None),
    ] {
        assert_eq!(get_ideal_hash(input).ok(), expected.map(String::from));
    }
}

#[test]
fn git_shorthand_v1() {
    let old = vec![(
        String::from("sqlite3"),
        OldPackage {
            version: UrlOrString::Url(parts(
                "github:mapbox/node-sqlite3#593c9d498be2510d286349134537e3bf89401c4a",
            )),
            resolved: None,
            integrity: None,
            dependencies: None,
        },
    )];

    let initial_url = get_initial_url();

    let new = fetch_npm_deps::pkgs::to_new_packages(old, &initial_url);

    assert_eq!(new.len(), 1, "new packages map should contain 1 value");
    assert_eq!(
        *new.package_at(0),
        Package {
            resolved: Some(UrlOrString::Url(parts(
                "git+ssh://git@github.com/mapbox/node-sqlite3.git#593c9d498be2510d286349134537e3bf89401c4a"
            ))),
            integrity: None,
        }
    );
}

#[test]
fn git_shorthand_key_embeds_rewritten_url() {
    let old = vec![(
        String::from("sqlite3"),
        OldPackage {
            version: UrlOrString::Url(parts(
                "github:mapbox/node-sqlite3#593c9d498be2510d286349134537e3bf89401c4a",
            )),
            resolved: None,
            integrity: Some(String::from("sha512-abc")),
            dependencies: None,
        },
    )];
    let new = fetch_npm_deps::pkgs::to_new_packages(old, &get_initial_url());
    assert_eq!(new.len(), 1);
    assert_eq!(
        new.key_at(0),
        "sqlite3-git+ssh://git@github.com/mapbox/node-sqlite3.git#593c9d498be2510d286349134537e3bf89401c4a"
    );
    assert_eq!(
        new.package_at(0).integrity.as_deref(),
        Some("sha512-abc"),
        "integrity passes through unchanged"
    );
}

#[test]
fn plain_versions_keep_their_resolved_field() {
    let old = vec![(
        String::from("lodash"),
        OldPackage {
            version: UrlOrString::Text(String::from("4.17.21")),
            resolved: Some(UrlOrString::Url(parts(
                "https://registry.npmjs.org/lodash/-/lodash-4.17.21.tgz",
            ))),
            integrity: Some(String::from("sha512-xyz")),
            dependencies: None,
        },
    )];
    let new = fetch_npm_deps::pkgs::to_new_packages(old, &get_initial_url());
    assert_eq!(new.len(), 1);
    assert_eq!(new.key_at(0), "lodash-4.17.21");
    assert_eq!(
        new.package_at(0).resolved,
        Some(UrlOrString::Url(parts(
            "https://registry.npmjs.org/lodash/-/lodash-4.17.21.tgz"
        )))
    );
    assert_eq!(new.package_at(0).integrity.as_deref(), Some("sha512-xyz"));
}

#[test]
fn nested_children_are_flattened_into_the_same_map() {
    let child = OldPackage {
        version: UrlOrString::Text(String::from("2.0.0")),
        resolved: Some(UrlOrString::Url(parts("https://registry.npmjs.org/b/-/b-2.0.0.tgz"))),
        integrity: None,
        dependencies: None,
    };
    let parent = OldPackage {
        version: UrlOrString::Text(String::from("1.0.0")),
        resolved: Some(UrlOrString::Url(parts("https://registry.npmjs.org/a/-/a-1.0.0.tgz"))),
        integrity: None,
        dependencies: Some(vec![(String::from("b"), child)]),
    };
    let new = fetch_npm_deps::pkgs::to_new_packages(
        vec![(String::from("a"), parent)],
        &get_initial_url(),
    );
    assert_eq!(new.len(), 2);
    assert_eq!(new.key_at(0), "a-1.0.0");
    assert_eq!(new.key_at(1), "b-2.0.0");
}

#[test]
fn colliding_keys_keep_the_last_write() {
    let mk = |url: &str| OldPackage {
        version: UrlOrString::Text(String::from("1.0.0")),
        resolved: Some(UrlOrString::Url(parts(url))),
        integrity: None,
        dependencies: None,
    };
    let old = vec![
        (String::from("a"), mk("https://example.com/first.tgz")),
        (String::from("a"), mk("https://example.com/second.tgz")),
    ];
    let new = fetch_npm_deps::pkgs::to_new_packages(old, &get_initial_url());
    assert_eq!(new.len(), 1);
    assert_eq!(
        new.package_at(0).resolved,
        Some(UrlOrString::Url(parts("https://example.com/second.tgz")))
    );
}

#[test]
fn unknown_lockfile_version_fails_before_anything_else() {
    let lock = PackageLock { version: 99, dependencies: None, packages: Some(PackageMap::new()) };
    match normalize(lock) {
        Err(e) => assert_eq!(e, PrefetchError::UnsupportedSchema { version: 99 }),
        Ok(_) => panic!("schema 99 must be rejected"),
    }
}

#[test]
fn schema_three_passes_the_flat_map_through() {
    let mut m = PackageMap::new();
    m.insert(
        String::from("node_modules/a"),
        Package {
            resolved: Some(UrlOrString::Url(parts("https://example.com/a.tgz"))),
            integrity: None,
        },
    );
    let lock = PackageLock { version: 3, dependencies: None, packages: Some(m) };
    let out = normalize(lock).unwrap().unwrap();
    assert_eq!(out.len(), 1);
    assert_eq!(out.key_at(0), "node_modules/a");
}

#[test]
fn version_one_without_dependencies_yields_no_map() {
    let lock = PackageLock { version: 1, dependencies: None, packages: None };
    assert!(matches!(normalize(lock), Ok(None)));
}

#[test]
fn github_url_without_commit_is_fetched_as_is() {
    assert_eq!(get_hosted_git_url(&parts("https://github.com/foo/bar")), None);
    assert_eq!(
        get_hosted_git_url(&parts("https://github.com/foo/bar/tree")),
        None
    );
}

#[test]
fn ambiguous_integrity_is_an_error() {
    assert_eq!(
        get_ideal_hash("foo-bar baz-foo"),
        Err(PrefetchError::AmbiguousDigest)
    );
    assert_eq!(get_ideal_hash("md5-solo").ok().as_deref(), Some("md5-solo"));
}

#[test]
fn url_or_string_displays_its_original_text() {
    let u = UrlOrString::Url(parts("https://example.com/x.tgz"));
    assert_eq!(u.to_text(), "https://example.com/x.tgz");
    let s = UrlOrString::Text(String::from("file:../local"));
    assert_eq!(s.to_text(), "file:../local");
}

#[test]
fn github_tree_paths_take_the_commit_from_the_path() {
    assert_eq!(
        get_hosted_git_url(&parts("https://github.com/foo/bar/tree/abc123")),
        Some(String::from("https://codeload.github.com/foo/bar/tar.gz/abc123"))
    );
    assert_eq!(
        get_hosted_git_url(&parts("https://github.com/foo/bar.git#abc123")),
        Some(String::from("https://codeload.github.com/foo/bar/tar.gz/abc123"))
    );
}

#[test]
fn provider_skip_conditions_fetch_the_original_url() {
    assert_eq!(
        get_hosted_git_url(&parts("https://bitbucket.org/foo/bar/get/branch.tar.gz#x")),
        None
    );
    assert_eq!(
        get_hosted_git_url(&parts("https://gitlab.com/foo/~/bar#x")),
        None
    );
    assert_eq!(
        get_hosted_git_url(&parts("https://gitlab.com/foo/bar/repository/archive.tar.gz#x")),
        None
    );
    assert_eq!(
        get_hosted_git_url(&parts("https://git.sr.ht/~foo/bar/archive/x.tar.gz#x")),
        None
    );
    assert_eq!(
        get_hosted_git_url(&parts("https://example.com/foo/bar#x")),
        None,
        "unrecognized hosts are fetched as-is"
    );
    assert_eq!(
        get_hosted_git_url(&parts("ftp://github.com/foo/bar#x")),
        None,
        "unrecognized schemes are fetched as-is"
    );
}
