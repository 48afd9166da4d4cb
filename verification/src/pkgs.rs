//! The canonical dependency map and the legacy-schema flattener that fills
//! it from the nested dependency tree.
use vstd::prelude::*;

verus! {

use vstd::string::StringExecFns;
use crate::text::str_eq;
use crate::urlparts::UrlOrString;
use crate::urlparts::UrlOrTextV;
use crate::urlparts::UrlParts;
use crate::urlparts::UrlPartsV;
use crate::urlparts::rewrite_version;
use crate::urlparts::rewritten_version;
use crate::urlparts::text_of;

/// One normalized package: where it is fetched from and the digests its
/// content must match.
#[derive(Debug)]
pub struct Package {
    pub resolved: Option<UrlOrString>,
    pub integrity: Option<String>,
}

/// The mathematical value of a `Package`.
pub ghost struct PackageV {
    pub resolved: Option<UrlOrTextV>,
    pub integrity: Option<Seq<char>>,
}

impl View for Package {
    type V = PackageV;

    open spec fn view(&self) -> PackageV {
        PackageV {
            resolved: match self.resolved {
                Some(ref v) => Some(v@),
                None => None,
            },
            integrity: match self.integrity {
                Some(ref s) => Some(s@),
                None => None,
            },
        }
    }
}

impl Clone for Package {
    fn clone(&self) -> (r: Self)
        ensures
            r@ == self@,
    {
        Package {
            resolved: match &self.resolved {
                Some(v) => Some(v.clone()),
                None => None,
            },
            integrity: match &self.integrity {
                Some(s) => Some(s.clone()),
                None => None,
            },
        }
    }
}

impl PartialEq for Package {
    fn eq(&self, other: &Package) -> (r: bool) {
        let res_eq = match (&self.resolved, &other.resolved) {
            (Some(a), Some(b)) => a == b,
            (None, None) => true,
            _ => false,
        };
        let int_eq = match (&self.integrity, &other.integrity) {
            (Some(a), Some(b)) => str_eq(a.as_str(), b.as_str()),
            (None, None) => true,
            _ => false,
        };
        res_eq && int_eq
    }
}

impl vstd::std_specs::cmp::PartialEqSpecImpl for Package {
    open spec fn obeys_eq_spec() -> bool {
        true
    }

    open spec fn eq_spec(&self, other: &Package) -> bool {
        self@ == other@
    }
}

impl Eq for Package {

}

/// One node of the legacy nested dependency tree.
#[derive(Debug)]
pub struct OldPackage {
    pub version: UrlOrString,
    pub resolved: Option<UrlOrString>,
    pub integrity: Option<String>,
    pub dependencies: Option<Vec<(String, OldPackage)>>,
}

/// The first position at or after `i` whose key is `k`, or -1.
pub open spec fn find_key(s: Seq<(Seq<char>, PackageV)>, k: Seq<char>, i: int) -> int
    decreases s.len() - i,
{
    if i >= s.len() {
        -1
    } else if s[i].0 == k {
        i
    } else {
        find_key(s, k, i + 1)
    }
}

/// Map insertion over an entry sequence: replace the entry holding `k`, or
/// append one.
pub open spec fn upsert(
    s: Seq<(Seq<char>, PackageV)>,
    k: Seq<char>,
    p: PackageV,
) -> Seq<(Seq<char>, PackageV)> {
    let j = find_key(s, k, 0);
    if j == -1 {
        s.push((k, p))
    } else {
        s.update(j, (k, p))
    }
}

/// The canonical flat dependency map: insertion-ordered entries with unique
/// keys, last write winning.
#[derive(Debug)]
pub struct PackageMap {
    entries: Vec<(String, Package)>,
}

impl View for PackageMap {
    type V = Seq<(Seq<char>, PackageV)>;

    closed spec fn view(&self) -> Seq<(Seq<char>, PackageV)> {
        self.entries@.map_values(|e: (String, Package)| (e.0@, e.1@))
    }
}

impl PackageMap {
    /// Keys are pairwise distinct.
    pub open spec fn wf(&self) -> bool {
        forall|i: int, j: int| 0 <= i < j < self@.len() ==> self@[i].0 != self@[j].0
    }

    pub fn new() -> (r: PackageMap)
        ensures
            r@ == Seq::<(Seq<char>, PackageV)>::empty(),
            r.wf(),
    {
        let r = PackageMap { entries: Vec::new() };
        proof {
            assert(r@ =~= Seq::<(Seq<char>, PackageV)>::empty());
        }
        r
    }

    pub fn len(&self) -> (r: usize)
        ensures
            r == self@.len(),
    {
        self.entries.len()
    }

    pub fn key_at(&self, i: usize) -> (r: &String)
        requires
            i < self@.len(),
        ensures
            r@ == self@[i as int].0,
    {
        &self.entries[i].0
    }

    pub fn package_at(&self, i: usize) -> (r: &Package)
        requires
            i < self@.len(),
        ensures
            r@ == self@[i as int].1,
    {
        &self.entries[i].1
    }

    pub fn insert(&mut self, key: String, p: Package)
        requires
            old(self).wf(),
        ensures
            final(self).wf(),
            final(self)@ == upsert(old(self)@, key@, p@),
    {
        let ghost orig = old(self)@;
        let mut i: usize = 0;
        while i < self.entries.len()
            invariant
                orig == old(self)@,
                self@ == orig,
                self.wf(),
                i <= self@.len(),
                self@.len() == self.entries@.len(),
                find_key(orig, key@, 0) == find_key(orig, key@, i as int),
                forall|j: int| 0 <= j < i ==> orig[j].0 != key@,
            decreases self@.len() - i,
        {
            proof {
                assert(orig[i as int].0 == self.entries@[i as int].0@);
            }
            if str_eq(self.entries[i].0.as_str(), key.as_str()) {
                self.entries.set(i, (key, p));
                proof {
                    assert(find_key(orig, key@, i as int) == i);
                    assert(self@ =~= orig.update(i as int, (key@, p@)));
                    assert forall|a: int, b: int| 0 <= a < b < self@.len() implies self@[a].0
                        != self@[b].0 by {
                        assert(orig[a].0 == if a == i {
                            orig[a].0
                        } else {
                            self@[a].0
                        });
                    }
                }
                return ;
            }
            i += 1;
        }
        self.entries.push((key, p));
        proof {
            assert(find_key(orig, key@, orig.len() as int) == -1);
            assert(self@ =~= orig.push((key@, p@)));
        }
    }
}

/// The flattened entries after processing `nodes` (a slice of sibling
/// (name, node) pairs) against accumulated entries `acc`: each node adds its
/// own `"<name>-<version>"` entry, then its children's, left to right.
pub open spec fn flat_nodes(
    acc: Seq<(Seq<char>, PackageV)>,
    nodes: Seq<(String, OldPackage)>,
    init: UrlPartsV,
) -> Seq<(Seq<char>, PackageV)>
    decreases nodes,
{
    if nodes.len() == 0 {
        acc
    } else {
        let name = nodes[0].0;
        let pkg = nodes[0].1;
        let v2 = rewritten_version(pkg.version@, init);
        let key = name@ + "-"@ + text_of(v2);
        let pv = PackageV {
            resolved: if v2 is Url {
                Some(v2)
            } else {
                match pkg.resolved {
                    Some(r) => Some(r@),
                    None => None,
                }
            },
            integrity: match pkg.integrity {
                Some(s) => Some(s@),
                None => None,
            },
        };
        let acc1 = upsert(acc, key, pv);
        let acc2 = match pkg.dependencies {
            Some(deps) => flat_nodes(acc1, deps@, init),
            None => acc1,
        };
        flat_nodes(acc2, nodes.drop_first(), init)
    }
}

fn add_packages(m: &mut PackageMap, nodes: Vec<(String, OldPackage)>, initial_url: &UrlParts)
    requires
        old(m).wf(),
    ensures
        final(m).wf(),
        final(m)@ == flat_nodes(old(m)@, nodes@, initial_url@),
    decreases nodes@,
{
    let ghost nodes0 = nodes@;
    let mut nodes = nodes;
    if nodes.len() == 0 {
        return ;
    }
    let (name, pkg) = nodes.remove(0);
    proof {
        assert(nodes@ =~= nodes0.drop_first());
        assert((name, pkg) == nodes0[0]);
    }
    let OldPackage { version, resolved, integrity, dependencies } = pkg;
    let v2 = rewrite_version(version, initial_url);
    let text = v2.to_text();
    let mut key = name;
    key.append("-");
    key.append(text.as_str());
    let is_url = match &v2 {
        UrlOrString::Url(_) => true,
        UrlOrString::Text(_) => false,
    };
    let newp = Package {
        resolved: if is_url {
            Some(v2)
        } else {
            resolved
        },
        integrity,
    };
    m.insert(key, newp);
    if let Some(deps) = dependencies {
        add_packages(m, deps, initial_url);
    }
    add_packages(m, nodes, initial_url);
}

/// Recursively flattens the legacy nested dependency tree into the canonical
/// flat map, rewriting git-shorthand version specifiers along the way.
pub fn to_new_packages(
    old_packages: Vec<(String, OldPackage)>,
    initial_url: &UrlParts,
) -> (r: PackageMap)
    ensures
        r.wf(),
        r@ == flat_nodes(Seq::<(Seq<char>, PackageV)>::empty(), old_packages@, initial_url@),
{
    let mut m = PackageMap::new();
    add_packages(&mut m, old_packages, initial_url);
    m
}

} // verus!
