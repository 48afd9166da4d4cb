//! Prefetches the tarballs an npm lockfile declares and lays them out in the
//! on-disk cache format the npm offline installer expects.
use vstd::prelude::*;

pub mod text;
pub mod urlparts;
pub mod resolver;
pub mod hash;
pub mod pkgs;
pub mod lockfile;
pub mod cache;
pub mod plan;

verus! {

/// The failures the pipeline can report; each aborts the whole run.
#[derive(Debug, Clone, Copy, PartialEq, Eq, Structural)]
pub enum PrefetchError {
    /// The lockfile's `lockfileVersion` is none of the known generations.
    UnsupportedSchema { version: u8 },
    /// An integrity field offers several digests and none is preferred.
    AmbiguousDigest,
    /// A declared digest names a hash algorithm the cache cannot compute.
    UnsupportedAlgorithm,
    /// The fetched bytes hash to something other than the declared digest.
    IntegrityMismatch,
}

} // verus!
