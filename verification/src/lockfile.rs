//! Normalizes the two lockfile schema generations into the one canonical
//! dependency map.
use vstd::prelude::*;

verus! {

use crate::PrefetchError;
use crate::pkgs::OldPackage;
use crate::pkgs::PackageMap;
use crate::pkgs::PackageV;
use crate::pkgs::flat_nodes;
use crate::pkgs::to_new_packages;
use crate::pkgs::upsert;
use crate::urlparts::UrlOrString;
use crate::urlparts::UrlOrTextV;
use crate::urlparts::UrlPartsV;
use crate::urlparts::get_initial_url;
use crate::urlparts::initial_url_v;
use crate::urlparts::rewritten_version;
use crate::urlparts::shorthand_host;
use crate::urlparts::spec_rewrite;
use crate::urlparts::text_of;

/// A parsed lockfile: its schema generation and whichever dependency listing
/// that generation carries.
pub struct PackageLock {
    pub version: u8,
    pub dependencies: Option<Vec<(String, OldPackage)>>,
    pub packages: Option<PackageMap>,
}

/// Whether a `lockfileVersion` is one of the known generations.
pub open spec fn schema_known(version: u8) -> bool {
    version == 1 || version == 2 || version == 3
}

/// Normalizes a lockfile into the canonical flat map: the legacy nested tree
/// is flattened (schema 1), the flat listing is taken as-is (schema 2 and 3),
/// and any other schema fails before anything else happens.
pub fn normalize(lock: PackageLock) -> (r: Result<Option<PackageMap>, PrefetchError>)
    ensures
        !schema_known(lock.version) ==> r == Err::<Option<PackageMap>, PrefetchError>(
            PrefetchError::UnsupportedSchema { version: lock.version },
        ),
        lock.version == 1 ==> (match lock.dependencies {
            Some(deps) => r matches Ok(Some(m)) && m.wf() && m@ == flat_nodes(
                Seq::<(Seq<char>, PackageV)>::empty(),
                deps@,
                initial_url_v(),
            ),
            None => r matches Ok(None),
        }),
        lock.version == 2 || lock.version == 3 ==> r == Ok::<Option<PackageMap>, PrefetchError>(
            lock.packages,
        ),
{
    if lock.version == 1 {
        match lock.dependencies {
            Some(deps) => {
                let initial_url = get_initial_url();
                Ok(Some(to_new_packages(deps, &initial_url)))
            },
            None => Ok(None),
        }
    } else if lock.version == 2 || lock.version == 3 {
        Ok(lock.packages)
    } else {
        Err(PrefetchError::UnsupportedSchema { version: lock.version })
    }
}

/// Law: flattening a single git-shorthand dependency with no children yields
/// exactly one entry; its key is the name, a dash, and the rewritten URL's
/// text; its `resolved` is the rewritten URL itself; its integrity passes
/// through unchanged.
pub proof fn lemma_git_shorthand_single(
    name: String,
    pkg: OldPackage,
    init: UrlPartsV,
    u: UrlPartsV,
    host: Seq<char>,
)
    requires
        pkg.dependencies is None,
        pkg.version@ == UrlOrTextV::Url(u),
        shorthand_host(u.scheme) == Some(host),
    ensures
        ({
            let entries = flat_nodes(
                Seq::<(Seq<char>, PackageV)>::empty(),
                seq![(name, pkg)],
                init,
            );
            let rewritten = spec_rewrite(u, init, host);
            entries.len() == 1 && entries[0].0 == name@ + "-"@ + rewritten.text && entries[0].1
                == (PackageV {
                resolved: Some(UrlOrTextV::Url(rewritten)),
                integrity: match pkg.integrity {
                    Some(s) => Some(s@),
                    None => None,
                },
            })
        }),
{
    let nodes = seq![(name, pkg)];
    let empty = Seq::<(Seq<char>, PackageV)>::empty();
    let rewritten = spec_rewrite(u, init, host);
    let v2 = rewritten_version(pkg.version@, init);
    assert(v2 == UrlOrTextV::Url(rewritten));
    assert(nodes.drop_first() =~= Seq::<(String, OldPackage)>::empty());
    let key = name@ + "-"@ + rewritten.text;
    let pv = PackageV {
        resolved: Some(UrlOrTextV::Url(rewritten)),
        integrity: match pkg.integrity {
            Some(s) => Some(s@),
            None => None,
        },
    };
    let acc1 = upsert(empty, key, pv);
    assert(text_of(v2) == rewritten.text);
    assert(nodes[0].0 == name && nodes[0].1 == pkg);
    assert(flat_nodes(acc1, nodes.drop_first(), init) == acc1);
    assert(flat_nodes(empty, nodes, init) == flat_nodes(acc1, nodes.drop_first(), init));
    assert(upsert(empty, key, pv) =~= seq![(key, pv)]);
}

} // verus!
