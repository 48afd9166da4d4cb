//! Decides which packages of the canonical map are fetched, from where, and
//! under which cache key; the HTTP transfer itself is the caller's.
use vstd::prelude::*;

verus! {

use vstd::string::StringExecFns;
use crate::pkgs::PackageMap;
use crate::pkgs::PackageV;
use crate::resolver::get_hosted_git_url;
use crate::resolver::spec_hosted_git_url;
use crate::urlparts::UrlOrString;
use crate::urlparts::UrlOrTextV;
use crate::urlparts::UrlPartsV;

/// One package to fetch: its dependency key, the URL actually downloaded,
/// the cache key its record is indexed under, and its raw integrity field.
#[derive(Debug)]
pub struct FetchTarget {
    pub key: String,
    pub url: String,
    pub cache_key: String,
    pub integrity: Option<String>,
}

/// The mathematical value of a `FetchTarget`.
pub ghost struct FetchTargetV {
    pub key: Seq<char>,
    pub url: Seq<char>,
    pub cache_key: Seq<char>,
    pub integrity: Option<Seq<char>>,
}

impl View for FetchTarget {
    type V = FetchTargetV;

    open spec fn view(&self) -> FetchTargetV {
        FetchTargetV {
            key: self.key@,
            url: self.url@,
            cache_key: self.cache_key@,
            integrity: match self.integrity {
                Some(ref s) => Some(s@),
                None => None,
            },
        }
    }
}

/// The URL a resolved package is downloaded from: the hosted-git tarball
/// rewrite when one applies, the resolved URL's own text otherwise.
pub open spec fn download_url(u: UrlPartsV) -> Seq<char> {
    match spec_hosted_git_url(u) {
        Some(t) => t,
        None => u.text,
    }
}

/// The target planned for one entry, if it is fetched at all: entries with
/// an empty key or without a URL-typed `resolved` are skipped.
pub open spec fn spec_target(key: Seq<char>, p: PackageV) -> Option<FetchTargetV> {
    if key.len() == 0 {
        None
    } else {
        match p.resolved {
            Some(UrlOrTextV::Url(u)) => {
                let dl = download_url(u);
                Some(
                    FetchTargetV {
                        key: key,
                        url: dl,
                        cache_key: "make-fetch-happen:request-cache:"@ + dl,
                        integrity: p.integrity,
                    },
                )
            },
            _ => None,
        }
    }
}

/// The targets for the entries at or after position `i`, in map order.
pub open spec fn spec_targets(entries: Seq<(Seq<char>, PackageV)>, i: int) -> Seq<FetchTargetV>
    decreases entries.len() - i,
{
    if i >= entries.len() {
        Seq::<FetchTargetV>::empty()
    } else {
        let rest = spec_targets(entries, i + 1);
        match spec_target(entries[i].0, entries[i].1) {
            Some(t) => seq![t] + rest,
            None => rest,
        }
    }
}

/// Enumerates the canonical map into the list of packages to fetch.
pub fn plan_fetches(map: &PackageMap) -> (r: Vec<FetchTarget>)
    ensures
        r@.map_values(|t: FetchTarget| t@) == spec_targets(map@, 0),
{
    let n = map.len();
    let mut r: Vec<FetchTarget> = Vec::new();
    let mut i: usize = 0;
    while i < n
        invariant
            i <= n,
            n == map@.len(),
            r@.map_values(|t: FetchTarget| t@) + spec_targets(map@, i as int) == spec_targets(
                map@,
                0,
            ),
        decreases n - i,
    {
        let key = map.key_at(i);
        let p = map.package_at(i);
        if !key.as_str().is_empty() {
            match &p.resolved {
                Some(UrlOrString::Url(u)) => {
                    let dl = match get_hosted_git_url(u) {
                        Some(t) => t,
                        None => u.text.clone(),
                    };
                    let mut ck = String::from_str("make-fetch-happen:request-cache:");
                    ck.append(dl.as_str());
                    let ghost prev = r@.map_values(|t: FetchTarget| t@);
                    let tgt = FetchTarget {
                        key: key.clone(),
                        url: dl,
                        cache_key: ck,
                        integrity: match &p.integrity {
                            Some(s) => Some(s.clone()),
                            None => None,
                        },
                    };
                    proof {
                        assert(spec_target(map@[i as int].0, map@[i as int].1) == Some(tgt@));
                    }
                    r.push(tgt);
                    proof {
                        assert(r@.map_values(|t: FetchTarget| t@) =~= prev.push(
                            spec_target(map@[i as int].0, map@[i as int].1)->Some_0,
                        ));
                        assert(r@.map_values(|t: FetchTarget| t@) + spec_targets(map@, i + 1)
                            =~= prev + spec_targets(map@, i as int));
                    }
                },
                _ => {
                    proof {
                        assert(spec_target(map@[i as int].0, map@[i as int].1) is None);
                    }
                },
            }
        } else {
            proof {
                assert(spec_target(map@[i as int].0, map@[i as int].1) is None);
            }
        }
        i += 1;
    }
    r
}

} // verus!
