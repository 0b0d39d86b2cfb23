//! The capability a cache wraps: something that can actually run a
//! process.  An implementation is injected when the caching runner is
//! constructed; nothing is assumed of it, so everything the cache
//! guarantees holds whatever an executor returns.

use vstd::prelude::*;

use crate::model::{FallibleProcessResultWithPlatform, MultiPlatformProcess, Process};

verus! {

pub trait CommandRunner {
    /// Run the request and produce its result, or fail.  A failure here —
    /// unlike any cache-internal failure — is fatal to the surrounding run.
    fn run(&mut self, req: &MultiPlatformProcess) -> Result<
        FallibleProcessResultWithPlatform,
        String,
    >;

    /// Name the single execution request compatible with this runner, if
    /// any; used only to describe the request.
    fn extract_compatible_request(&self, req: &MultiPlatformProcess) -> Option<Process>;
}

} // verus!
