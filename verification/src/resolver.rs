//! Rewrites a resolved dependency URL pointing at a recognized code-hosting
//! service into the concrete tarball-download URL for that service.
use vstd::prelude::*;

verus! {

use vstd::string::StrSliceExecFns;
use vstd::string::StringExecFns;
use crate::text::has_substring;
use crate::text::is_prefix;
use crate::text::is_suffix;
use crate::text::split_seq;
use crate::text::split_str;
use crate::text::str_contains;
use crate::text::str_ends_with;
use crate::text::str_eq;
use crate::text::str_starts_with;
use crate::urlparts::UrlParts;
use crate::urlparts::UrlPartsV;

/// The URL schemes under which a hosted-git rewrite is attempted at all.
pub open spec fn scheme_recognized(s: Seq<char>) -> bool {
    s == "git"@ || s == "http"@ || s == "git+ssh"@ || s == "git+https"@ || s == "ssh"@ || s
        == "https"@
}

/// A project segment with a trailing `.git` stripped.
pub open spec fn strip_git(p: Seq<char>) -> Seq<char> {
    if is_suffix(".git"@, p) {
        p.subrange(0, p.len() - ".git"@.len())
    } else {
        p
    }
}

/// The tarball URL for a `github.com` repository path. The commit comes from
/// the fragment when the path has two segments, from the fourth segment when
/// the third is `tree`; any other third segment, or a missing commit, means
/// the URL is fetched as-is.
pub open spec fn spec_github(segs: Seq<Seq<char>>, frag: Option<Seq<char>>) -> Option<Seq<char>> {
    if segs.len() < 2 {
        None
    } else {
        let user = segs[0];
        let project = strip_git(segs[1]);
        if segs.len() == 2 {
            match frag {
                Some(c) => Some(
                    "https://codeload.github.com/"@ + user + "/"@ + project + "/tar.gz/"@ + c,
                ),
                None => None,
            }
        } else if segs[2] == "tree"@ {
            if segs.len() >= 4 {
                Some(
                    "https://codeload.github.com/"@ + user + "/"@ + project + "/tar.gz/"@
                        + segs[3],
                )
            } else {
                None
            }
        } else {
            None
        }
    }
}

/// The tarball URL for a `bitbucket.org` repository path; a third segment
/// equal to `get` means the URL is already a tarball link.
pub open spec fn spec_bitbucket(segs: Seq<Seq<char>>, frag: Option<Seq<char>>) -> Option<
    Seq<char>,
> {
    if segs.len() < 2 {
        None
    } else if segs.len() >= 3 && segs[2] == "get"@ {
        None
    } else {
        match frag {
            Some(c) => Some(
                "https://bitbucket.org/"@ + segs[0] + "/"@ + strip_git(segs[1]) + "/get/"@ + c
                    + ".tar.gz"@,
            ),
            None => None,
        }
    }
}

/// The tarball URL for a `gitlab.com` repository path; paths containing
/// `/~/` or `/archive.tar.gz` are left alone.
pub open spec fn spec_gitlab(
    path_tail: Seq<char>,
    segs: Seq<Seq<char>>,
    frag: Option<Seq<char>>,
) -> Option<Seq<char>> {
    if has_substring(path_tail, "/~/"@) || has_substring(path_tail, "/archive.tar.gz"@) {
        None
    } else if segs.len() < 2 {
        None
    } else {
        match frag {
            Some(c) => Some(
                "https://gitlab.com/"@ + segs[0] + "/"@ + strip_git(segs[1])
                    + "/repository/archive.tar.gz?ref="@ + c,
            ),
            None => None,
        }
    }
}

/// The tarball URL for a `git.sr.ht` repository path; a third segment equal
/// to `archive` means the URL is already a tarball link.
pub open spec fn spec_srht(segs: Seq<Seq<char>>, frag: Option<Seq<char>>) -> Option<Seq<char>> {
    if segs.len() < 2 {
        None
    } else if segs.len() >= 3 && segs[2] == "archive"@ {
        None
    } else {
        match frag {
            Some(c) => Some(
                "https://git.sr.ht/"@ + segs[0] + "/"@ + strip_git(segs[1]) + "/archive/"@ + c
                    + ".tar.gz"@,
            ),
            None => None,
        }
    }
}

/// The hosted-git tarball URL for `u`, or `None` when `u` is to be fetched
/// unchanged: unrecognized scheme or host, no path segments, or a
/// provider-specific skip condition.
pub open spec fn spec_hosted_git_url(u: UrlPartsV) -> Option<Seq<char>> {
    if !scheme_recognized(u.scheme) {
        None
    } else if !is_prefix("/"@, u.path) {
        None
    } else {
        match u.host {
            None => None,
            Some(h) => {
                let tail = u.path.subrange("/"@.len() as int, u.path.len() as int);
                let segs = split_seq(tail, '/');
                if h == "github.com"@ {
                    spec_github(segs, u.fragment)
                } else if h == "bitbucket.org"@ {
                    spec_bitbucket(segs, u.fragment)
                } else if h == "gitlab.com"@ {
                    spec_gitlab(tail, segs, u.fragment)
                } else if h == "git.sr.ht"@ {
                    spec_srht(segs, u.fragment)
                } else {
                    None
                }
            },
        }
    }
}

fn strip_dot_git(p: &str) -> (r: String)
    ensures
        r@ == strip_git(p@),
{
    if str_ends_with(p, ".git") {
        proof {
            reveal_strlit(".git");
        }
        let n = p.unicode_len();
        String::from_str(p.substring_char(0, n - 4))
    } else {
        String::from_str(p)
    }
}

fn glue7(a: &str, b: &str, c: &str, d: &str, e: &str, f: &str, g: &str) -> (r: String)
    ensures
        r@ == a@ + b@ + c@ + d@ + e@ + f@ + g@,
{
    let mut s = String::from_str(a);
    s.append(b);
    s.append(c);
    s.append(d);
    s.append(e);
    s.append(f);
    s.append(g);
    proof {
        assert(s@ =~= a@ + b@ + c@ + d@ + e@ + f@ + g@);
    }
    s
}

fn glue6(a: &str, b: &str, c: &str, d: &str, e: &str, f: &str) -> (r: String)
    ensures
        r@ == a@ + b@ + c@ + d@ + e@ + f@,
{
    let mut s = String::from_str(a);
    s.append(b);
    s.append(c);
    s.append(d);
    s.append(e);
    s.append(f);
    proof {
        assert(s@ =~= a@ + b@ + c@ + d@ + e@ + f@);
    }
    s
}

pub fn get_hosted_git_url(url: &UrlParts) -> (r: Option<String>)
    ensures
        match r {
            Some(s) => spec_hosted_git_url(url@) == Some(s@),
            None => spec_hosted_git_url(url@) is None,
        },
{
    let sch = url.scheme.as_str();
    if !(str_eq(sch, "git") || str_eq(sch, "http") || str_eq(sch, "git+ssh") || str_eq(
        sch,
        "git+https",
    ) || str_eq(sch, "ssh") || str_eq(sch, "https")) {
        return None;
    }
    if !str_starts_with(url.path.as_str(), "/") {
        return None;
    }
    let host = match &url.host {
        Some(h) => h.as_str(),
        None => {
            return None;
        },
    };
    proof {
        reveal_strlit("/");
    }
    let n = url.path.as_str().unicode_len();
    let tail = url.path.as_str().substring_char(1, n);
    let segs = split_str(tail, '/');
    proof {
        assert(segs.deep_view() == split_seq(
            url@.path.subrange("/"@.len() as int, url@.path.len() as int),
            '/',
        ));
    }
    if str_eq(host, "github.com") {
        if segs.len() < 2 {
            return None;
        }
        let project = strip_dot_git(segs[1].as_str());
        if segs.len() == 2 {
            match &url.fragment {
                Some(c) => Some(
                    glue6(
                        "https://codeload.github.com/",
                        segs[0].as_str(),
                        "/",
                        project.as_str(),
                        "/tar.gz/",
                        c.as_str(),
                    ),
                ),
                None => None,
            }
        } else if str_eq(segs[2].as_str(), "tree") {
            if segs.len() >= 4 {
                Some(
                    glue6(
                        "https://codeload.github.com/",
                        segs[0].as_str(),
                        "/",
                        project.as_str(),
                        "/tar.gz/",
                        segs[3].as_str(),
                    ),
                )
            } else {
                None
            }
        } else {
            None
        }
    } else if str_eq(host, "bitbucket.org") {
        if segs.len() < 2 {
            return None;
        }
        if segs.len() >= 3 && str_eq(segs[2].as_str(), "get") {
            return None;
        }
        let project = strip_dot_git(segs[1].as_str());
        match &url.fragment {
            Some(c) => Some(
                glue7(
                    "https://bitbucket.org/",
                    segs[0].as_str(),
                    "/",
                    project.as_str(),
                    "/get/",
                    c.as_str(),
                    ".tar.gz",
                ),
            ),
            None => None,
        }
    } else if str_eq(host, "gitlab.com") {
        if str_contains(tail, "/~/") || str_contains(tail, "/archive.tar.gz") {
            return None;
        }
        if segs.len() < 2 {
            return None;
        }
        let project = strip_dot_git(segs[1].as_str());
        match &url.fragment {
            Some(c) => Some(
                glue6(
                    "https://gitlab.com/",
                    segs[0].as_str(),
                    "/",
                    project.as_str(),
                    "/repository/archive.tar.gz?ref=",
                    c.as_str(),
                ),
            ),
            None => None,
        }
    } else if str_eq(host, "git.sr.ht") {
        if segs.len() < 2 {
            return None;
        }
        if segs.len() >= 3 && str_eq(segs[2].as_str(), "archive") {
            return None;
        }
        let project = strip_dot_git(segs[1].as_str());
        match &url.fragment {
            Some(c) => Some(
                glue7(
                    "https://git.sr.ht/",
                    segs[0].as_str(),
                    "/",
                    project.as_str(),
                    "/archive/",
                    c.as_str(),
                    ".tar.gz",
                ),
            ),
            None => None,
        }
    } else {
        None
    }
}

} // verus!
