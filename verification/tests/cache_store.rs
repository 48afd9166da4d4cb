use base64::Engine;
use fetch_npm_deps::cache::Cache;
use fetch_npm_deps::pkgs::{Package, PackageMap};
use fetch_npm_deps::plan::plan_fetches;
use fetch_npm_deps::urlparts::{UrlOrString, UrlParts};
use fetch_npm_deps::PrefetchError;
use sha2::Digest;

fn parts(s: &str) -> UrlParts {
    let u = url::Url::parse(s).unwrap();
    UrlParts {
        text: u.as_str().to_string(),
        scheme: u.scheme().to_string(),
        username: u.username().to_string(),
        host: u.host_str().map(|h| h.to_string()),
        path: u.path().to_string(),
        fragment: u.fragment().map(|f| f.to_string()),
    }
}

fn hex(bytes: &[u8]) -> String {
    let mut s = String::new();
    for b in bytes {
        s.push_str(&format!("{b:02x}"));
    }
    s
}

#[test]
fn put_computes_the_real_sha512_digest_and_blob_path() {
    let cache = Cache::new(String::from("out/_cacache"));
    let data = b"hello world";
    let digest = sha2::Sha512::digest(data);
    let expected = format!(
        "sha512-{}",
        base64::engine::general_purpose::STANDARD.encode(digest)
    );
    let plan = cache
        .put_plan("some:key", "https://example.com/x.tgz", data, Some(&expected), 7)
        .unwrap();
    assert_eq!(plan.digest, expected);
    let h = hex(&digest);
    assert_eq!(
        plan.content_path,
        format!("out/_cacache/content-v2/sha512/{}/{}/{}", &h[0..2], &h[2..4], &h[4..])
    );
}

#[test]
fn put_without_declared_digest_defaults_to_sha512() {
    let cache = Cache::new(String::from("out/_cacache"));
    let data = b"payload";
    let plan = cache
        .put_plan("k", "https://example.com/p.tgz", data, None, 0)
        .unwrap();
    let digest = sha2::Sha512::digest(data);
    assert_eq!(
        plan.digest,
        format!("sha512-{}", base64::engine::general_purpose::STANDARD.encode(digest))
    );
}

#[test]
fn put_honors_a_declared_sha1_digest() {
    let cache = Cache::new(String::from("out/_cacache"));
    let data = b"old style";
    let digest = sha1::Sha1::digest(data);
    let expected = format!(
        "sha1-{}",
        base64::engine::general_purpose::STANDARD.encode(digest)
    );
    let plan = cache
        .put_plan("k", "https://example.com/o.tgz", data, Some(&expected), 0)
        .unwrap();
    assert_eq!(plan.digest, expected);
    let h = hex(&digest);
    assert_eq!(
        plan.content_path,
        format!("out/_cacache/content-v2/sha1/{}/{}/{}", &h[0..2], &h[2..4], &h[4..])
    );
}

#[test]
fn index_record_has_the_request_cache_shape() {
    let cache = Cache::new(String::from("root"));
    let data = b"abc";
    let plan = cache
        .put_plan("make-fetch-happen:request-cache:https://e.com/a.tgz", "https://e.com/a.tgz", data, None, 123)
        .unwrap();
    let key_hash = hex(&sha2::Sha256::digest(
        b"make-fetch-happen:request-cache:https://e.com/a.tgz",
    ));
    assert_eq!(
        plan.index_path,
        format!(
            "root/index-v5/{}/{}/{}",
            &key_hash[0..2],
            &key_hash[2..4],
            &key_hash[4..]
        )
    );
    let json = format!(
        "{{\"key\":\"make-fetch-happen:request-cache:https://e.com/a.tgz\",\"integrity\":\"{}\",\"time\":123,\"size\":3,\"metadata\":{{\"url\":\"https://e.com/a.tgz\"}}}}",
        plan.digest
    );
    let line_hash = hex(&sha1::Sha1::digest(json.as_bytes()));
    assert_eq!(plan.index_line, format!("\n{line_hash}\t{json}"));
}

#[test]
fn put_is_idempotent_across_timestamps() {
    let cache = Cache::new(String::from("root"));
    let data = b"same bytes";
    let p1 = cache
        .put_plan("k", "https://example.com/a.tgz", data, None, 1)
        .unwrap();
    let p2 = cache
        .put_plan("k", "https://example.com/a.tgz", data, None, 2)
        .unwrap();
    assert_eq!(p1.digest, p2.digest, "both calls return the same digest");
    assert_eq!(p1.content_path, p2.content_path, "one content blob");
    assert_eq!(p1.index_path, p2.index_path, "one index bucket, two records");
    assert_ne!(p1.index_line, p2.index_line, "each call appends its own record");
}

#[test]
fn put_with_a_mismatched_digest_fails_and_writes_nothing() {
    let cache = Cache::new(String::from("root"));
    let r = cache.put_plan(
        "k",
        "https://example.com/a.tgz",
        b"actual bytes",
        Some("sha512-AAAA"),
        0,
    );
    assert_eq!(r.unwrap_err(), PrefetchError::IntegrityMismatch);
}

#[test]
fn put_with_an_unknown_algorithm_fails() {
    let cache = Cache::new(String::from("root"));
    let r = cache.put_plan("k", "https://example.com/a.tgz", b"bytes", Some("md5-xyz"), 0);
    assert_eq!(r.unwrap_err(), PrefetchError::UnsupportedAlgorithm);
}

#[test]
fn plan_skips_unresolved_and_empty_entries_and_namespaces_keys() {
    let mut m = PackageMap::new();
    m.insert(
        String::from("node_modules/a"),
        Package {
            resolved: Some(UrlOrString::Url(parts("https://example.com/a.tgz"))),
            integrity: Some(String::from("sha512-foo")),
        },
    );
    m.insert(
        String::from("node_modules/b"),
        Package { resolved: None, integrity: None },
    );
    m.insert(
        String::from(""),
        Package {
            resolved: Some(UrlOrString::Url(parts("https://example.com/empty.tgz"))),
            integrity: None,
        },
    );
    m.insert(
        String::from("node_modules/c"),
        Package {
            resolved: Some(UrlOrString::Text(String::from("workspace:*"))),
            integrity: None,
        },
    );
    let targets = plan_fetches(&m);
    assert_eq!(targets.len(), 1);
    assert_eq!(targets[0].key, "node_modules/a");
    assert_eq!(targets[0].url, "https://example.com/a.tgz");
    assert_eq!(
        targets[0].cache_key,
        "make-fetch-happen:request-cache:https://example.com/a.tgz"
    );
    assert_eq!(targets[0].integrity.as_deref(), Some("sha512-foo"));
}

#[test]
fn plan_substitutes_the_hosted_git_tarball_url() {
    let mut m = PackageMap::new();
    m.insert(
        String::from("node_modules/bar"),
        Package {
            resolved: Some(UrlOrString::Url(parts("git+ssh://bitbucket.org/foo/bar#branch"))),
            integrity: None,
        },
    );
    let targets = plan_fetches(&m);
    assert_eq!(targets.len(), 1);
    assert_eq!(targets[0].url, "https://bitbucket.org/foo/bar/get/branch.tar.gz");
    assert_eq!(
        targets[0].cache_key,
        "make-fetch-happen:request-cache:https://bitbucket.org/foo/bar/get/branch.tar.gz"
    );
}

#[test]
fn end_to_end_schema_three_plans_one_fetch_and_one_cache_entry() {
    let mut m = PackageMap::new();
    m.insert(
        String::from("node_modules/a"),
        Package {
            resolved: Some(UrlOrString::Url(parts("https://example.com/a.tgz"))),
            integrity: None,
        },
    );
    m.insert(
        String::from("node_modules/local"),
        Package { resolved: None, integrity: None },
    );
    let lock = fetch_npm_deps::lockfile::PackageLock {
        version: 3,
        dependencies: None,
        packages: Some(m),
    };
    let map = fetch_npm_deps::lockfile::normalize(lock).unwrap().unwrap();

    let targets = plan_fetches(&map);
    assert_eq!(targets.len(), 1, "only the resolvable package is fetched");
    assert_eq!(targets[0].url, "https://example.com/a.tgz");

    let body = b"tarball bytes";
    let cache = Cache::new(String::from("out/_cacache"));
    let plan = cache
        .put_plan(&targets[0].cache_key, &targets[0].url, body, None, 42)
        .unwrap();
    assert!(plan.content_path.starts_with("out/_cacache/content-v2/sha512/"));
    assert!(plan.index_path.starts_with("out/_cacache/index-v5/"));
    assert!(plan.index_line.contains(&plan.digest));
}
