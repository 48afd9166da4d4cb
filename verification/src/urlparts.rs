//! A parsed-URL model: the components the pipeline reads, held as plain
//! strings, plus the canonical text the parser produced for display.
use vstd::prelude::*;

verus! {

use vstd::string::StringExecFns;
use crate::text::is_prefix;
use crate::text::is_suffix;
use crate::text::str_eq;
use crate::text::str_ends_with;
use crate::text::str_starts_with;

/// The components of a parsed URL. `text` is the parser's canonical
/// serialization of the whole URL, kept so that display reproduces it.
#[derive(Debug)]
pub struct UrlParts {
    pub text: String,
    pub scheme: String,
    pub username: String,
    pub host: Option<String>,
    pub path: String,
    pub fragment: Option<String>,
}

/// The mathematical value of a `UrlParts`.
pub ghost struct UrlPartsV {
    pub text: Seq<char>,
    pub scheme: Seq<char>,
    pub username: Seq<char>,
    pub host: Option<Seq<char>>,
    pub path: Seq<char>,
    pub fragment: Option<Seq<char>>,
}

impl View for UrlParts {
    type V = UrlPartsV;

    open spec fn view(&self) -> UrlPartsV {
        UrlPartsV {
            text: self.text@,
            scheme: self.scheme@,
            username: self.username@,
            host: match self.host {
                Some(h) => Some(h@),
                None => None,
            },
            path: self.path@,
            fragment: match self.fragment {
                Some(f) => Some(f@),
                None => None,
            },
        }
    }
}

impl Clone for UrlParts {
    fn clone(&self) -> (r: Self)
        ensures
            r@ == self@,
    {
        UrlParts {
            text: self.text.clone(),
            scheme: self.scheme.clone(),
            username: self.username.clone(),
            host: match &self.host {
                Some(h) => Some(h.clone()),
                None => None,
            },
            path: self.path.clone(),
            fragment: match &self.fragment {
                Some(f) => Some(f.clone()),
                None => None,
            },
        }
    }
}

impl PartialEq for UrlParts {
    fn eq(&self, other: &UrlParts) -> (r: bool) {
        let host_eq = match (&self.host, &other.host) {
            (Some(a), Some(b)) => str_eq(a.as_str(), b.as_str()),
            (None, None) => true,
            _ => false,
        };
        let frag_eq = match (&self.fragment, &other.fragment) {
            (Some(a), Some(b)) => str_eq(a.as_str(), b.as_str()),
            (None, None) => true,
            _ => false,
        };
        host_eq && frag_eq && str_eq(self.text.as_str(), other.text.as_str()) && str_eq(
            self.scheme.as_str(),
            other.scheme.as_str(),
        ) && str_eq(self.username.as_str(), other.username.as_str()) && str_eq(
            self.path.as_str(),
            other.path.as_str(),
        )
    }
}

impl vstd::std_specs::cmp::PartialEqSpecImpl for UrlParts {
    open spec fn obeys_eq_spec() -> bool {
        true
    }

    open spec fn eq_spec(&self, other: &UrlParts) -> bool {
        self@ == other@
    }
}

impl Eq for UrlParts {

}

/// A lockfile field that is sometimes a parsed URL, sometimes an arbitrary
/// string; the two cases display differently and are never collapsed.
#[derive(Debug)]
pub enum UrlOrString {
    Url(UrlParts),
    Text(String),
}

/// The mathematical value of a `UrlOrString`.
pub ghost enum UrlOrTextV {
    Url(UrlPartsV),
    Text(Seq<char>),
}

impl View for UrlOrString {
    type V = UrlOrTextV;

    open spec fn view(&self) -> UrlOrTextV {
        match self {
            UrlOrString::Url(u) => UrlOrTextV::Url(u@),
            UrlOrString::Text(s) => UrlOrTextV::Text(s@),
        }
    }
}

impl Clone for UrlOrString {
    fn clone(&self) -> (r: Self)
        ensures
            r@ == self@,
    {
        match self {
            UrlOrString::Url(u) => UrlOrString::Url(u.clone()),
            UrlOrString::Text(s) => UrlOrString::Text(s.clone()),
        }
    }
}

impl PartialEq for UrlOrString {
    fn eq(&self, other: &UrlOrString) -> (r: bool) {
        match (self, other) {
            (UrlOrString::Url(a), UrlOrString::Url(b)) => a == b,
            (UrlOrString::Text(a), UrlOrString::Text(b)) => str_eq(a.as_str(), b.as_str()),
            _ => false,
        }
    }
}

impl vstd::std_specs::cmp::PartialEqSpecImpl for UrlOrString {
    open spec fn obeys_eq_spec() -> bool {
        true
    }

    open spec fn eq_spec(&self, other: &UrlOrString) -> bool {
        self@ == other@
    }
}

impl Eq for UrlOrString {

}

/// What displaying a `UrlOrString` yields: the canonical URL text for the
/// URL case, the original string for the string case.
pub open spec fn text_of(v: UrlOrTextV) -> Seq<char> {
    match v {
        UrlOrTextV::Url(u) => u.text,
        UrlOrTextV::Text(s) => s,
    }
}

impl UrlOrString {
    pub fn to_text(&self) -> (r: String)
        ensures
            r@ == text_of(self@),
    {
        match self {
            UrlOrString::Url(u) => u.text.clone(),
            UrlOrString::Text(s) => s.clone(),
        }
    }
}

/// The fixed placeholder base URL whose host the shorthand rewrite replaces.
pub open spec fn initial_url_v() -> UrlPartsV {
    UrlPartsV {
        text: "git+ssh://git@a.b"@,
        scheme: "git+ssh"@,
        username: "git"@,
        host: Some("a.b"@),
        path: Seq::<char>::empty(),
        fragment: None,
    }
}

pub fn get_initial_url() -> (r: UrlParts)
    ensures
        r@ == initial_url_v(),
{
    UrlParts {
        text: String::from_str("git+ssh://git@a.b"),
        scheme: String::from_str("git+ssh"),
        username: String::from_str("git"),
        host: Some(String::from_str("a.b")),
        path: String::new(),
        fragment: None,
    }
}

/// The real host a shorthand scheme stands for, if the scheme is one of the
/// recognized providers.
pub open spec fn shorthand_host(scheme: Seq<char>) -> Option<Seq<char>> {
    if scheme == "github"@ {
        Some("github.com"@)
    } else if scheme == "bitbucket"@ {
        Some("bitbucket.org"@)
    } else if scheme == "gitlab"@ {
        Some("gitlab.com"@)
    } else {
        None
    }
}

/// The canonical Git remote a shorthand URL is rewritten to: the placeholder
/// base with the provider's host, the shorthand's path (suffixed `.git` when
/// missing, given a leading slash), and the shorthand's fragment.
pub open spec fn spec_rewrite(u: UrlPartsV, init: UrlPartsV, host: Seq<char>) -> UrlPartsV {
    let p1 = if is_suffix(".git"@, u.path) {
        u.path
    } else {
        u.path + ".git"@
    };
    let p2 = if is_prefix("/"@, p1) {
        p1
    } else {
        "/"@ + p1
    };
    let text = init.scheme + "://"@ + init.username + "@"@ + host + p2 + (match u.fragment {
        Some(f) => "#"@ + f,
        None => Seq::<char>::empty(),
    });
    UrlPartsV {
        text: text,
        scheme: init.scheme,
        username: init.username,
        host: Some(host),
        path: p2,
        fragment: u.fragment,
    }
}

/// A version specifier after shorthand rewriting: a URL with a recognized
/// shorthand scheme becomes the rewritten Git remote; all else is unchanged.
pub open spec fn rewritten_version(version: UrlOrTextV, init: UrlPartsV) -> UrlOrTextV {
    match version {
        UrlOrTextV::Url(u) => match shorthand_host(u.scheme) {
            Some(h) => UrlOrTextV::Url(spec_rewrite(u, init, h)),
            None => UrlOrTextV::Url(u),
        },
        UrlOrTextV::Text(s) => UrlOrTextV::Text(s),
    }
}

fn rewrite_to_host(u: &UrlParts, init: &UrlParts, host: &str) -> (r: UrlParts)
    ensures
        r@ == spec_rewrite(u@, init@, host@),
{
    let mut path = u.path.clone();
    if !str_ends_with(path.as_str(), ".git") {
        path.append(".git");
    }
    let p2 = if str_starts_with(path.as_str(), "/") {
        path
    } else {
        let mut p = String::from_str("/");
        p.append(path.as_str());
        p
    };
    let mut text = init.scheme.clone();
    text.append("://");
    text.append(init.username.as_str());
    text.append("@");
    text.append(host);
    text.append(p2.as_str());
    if let Some(f) = &u.fragment {
        text.append("#");
        text.append(f.as_str());
    }
    let r = UrlParts {
        text: text,
        scheme: init.scheme.clone(),
        username: init.username.clone(),
        host: Some(String::from_str(host)),
        path: p2,
        fragment: match &u.fragment {
            Some(f) => Some(f.clone()),
            None => None,
        },
    };
    proof {
        assert(r@.text =~= spec_rewrite(u@, init@, host@).text);
    }
    r
}

pub fn rewrite_version(version: UrlOrString, init: &UrlParts) -> (r: UrlOrString)
    ensures
        r@ == rewritten_version(version@, init@),
{
    match version {
        UrlOrString::Url(u) => {
            if str_eq(u.scheme.as_str(), "github") {
                UrlOrString::Url(rewrite_to_host(&u, init, "github.com"))
            } else if str_eq(u.scheme.as_str(), "bitbucket") {
                UrlOrString::Url(rewrite_to_host(&u, init, "bitbucket.org"))
            } else if str_eq(u.scheme.as_str(), "gitlab") {
                UrlOrString::Url(rewrite_to_host(&u, init, "gitlab.com"))
            } else {
                UrlOrString::Url(u)
            }
        },
        UrlOrString::Text(s) => UrlOrString::Text(s),
    }
}

} // verus!
