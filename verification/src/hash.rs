//! Picks one canonical integrity digest out of a multi-digest string.
use vstd::prelude::*;

verus! {

use crate::PrefetchError;
use crate::text::first_with_prefix;
use crate::text::ws_tokens;
use crate::text::split_whitespace_str;
use crate::text::str_starts_with;

/// The digest the pipeline trusts: a lone token is taken as-is; among several
/// tokens the first `sha512-` one wins, then the first `sha1-` one; anything
/// else is ambiguous.
pub open spec fn spec_ideal_hash(s: Seq<char>) -> Option<Seq<char>> {
    let ts = ws_tokens(s);
    if ts.len() == 1 {
        Some(ts[0])
    } else {
        match first_with_prefix(ts, "sha512-"@, 0) {
            Some(h) => Some(h),
            None => first_with_prefix(ts, "sha1-"@, 0),
        }
    }
}

fn find_prefixed(ts: &Vec<String>, p: &str) -> (r: Option<String>)
    ensures
        match r {
            Some(x) => first_with_prefix(ts.deep_view(), p@, 0) == Some(x@),
            None => first_with_prefix(ts.deep_view(), p@, 0) is None,
        },
{
    let mut i: usize = 0;
    while i < ts.len()
        invariant
            i <= ts@.len(),
            first_with_prefix(ts.deep_view(), p@, 0) == first_with_prefix(
                ts.deep_view(),
                p@,
                i as int,
            ),
        decreases ts@.len() - i,
    {
        proof {
            assert(ts.deep_view()[i as int] == ts@[i as int]@);
        }
        if str_starts_with(ts[i].as_str(), p) {
            return Some(ts[i].clone());
        }
        i += 1;
    }
    None
}

pub fn get_ideal_hash(integrity: &str) -> (r: Result<String, PrefetchError>)
    ensures
        match spec_ideal_hash(integrity@) {
            Some(h) => r matches Ok(x) && x@ == h,
            None => r == Err::<String, PrefetchError>(PrefetchError::AmbiguousDigest),
        },
{
    let split = split_whitespace_str(integrity);
    if split.len() == 1 {
        proof {
            assert(split.deep_view()[0] == split@[0]@);
        }
        Ok(split[0].clone())
    } else {
        match find_prefixed(&split, "sha512-") {
            Some(h) => Ok(h),
            None => match find_prefixed(&split, "sha1-") {
                Some(h) => Ok(h),
                None => Err(PrefetchError::AmbiguousDigest),
            },
        }
    }
}

} // verus!
