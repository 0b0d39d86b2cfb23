//! The data model: requests, results, digests, errors, and the
//! observability counters that a run reports into.

use vstd::prelude::*;

verus! {

/// The platform a process ran on, recorded with every cached result.
#[derive(Clone, Copy, Debug, PartialEq, Eq, Structural)]
pub enum Platform {
    Darwin,
    Linux,
}

/// Controls which outcomes of a process are cache-eligible.
///
/// `Successful` is the default scope: only results with exit code 0 are
/// written to or served from the cache.  `Always` makes every outcome
/// eligible, failures included.
#[derive(Clone, Copy, Debug, PartialEq, Eq, Structural)]
pub enum ProcessCacheScope {
    Successful,
    Always,
}

/// Where a result came from: a fresh execution, or this local cache.
#[derive(Clone, Copy, Debug, PartialEq, Eq, Structural)]
pub enum ProcessResultSource {
    RanLocally,
    HitLocally,
}

/// A fixed-size (256-bit) content digest, held as four 64-bit words.
#[derive(Clone, Copy, Debug, PartialEq, Eq, Structural)]
pub struct Fingerprint {
    pub w0: u64,
    pub w1: u64,
    pub w2: u64,
    pub w3: u64,
}

/// A reference into the content-addressed store: a fingerprint of the
/// content plus its size in bytes.
#[derive(Clone, Copy, Debug, PartialEq, Eq, Structural)]
pub struct Digest {
    pub hash: Fingerprint,
    pub size_bytes: u64,
}

/// Static execution metadata that is part of the cache key: two logically
/// identical requests under different metadata must not share an entry.
#[derive(Clone, Debug)]
pub struct ProcessMetadata {
    pub instance_name: Option<String>,
    pub cache_key_gen_version: Option<String>,
}

/// One concrete execution request for one platform constraint.
#[derive(Clone, Debug)]
pub struct Process {
    pub argv: Vec<String>,
    pub platform_constraint: Option<Platform>,
    pub cache_scope: ProcessCacheScope,
}

/// A request as handed to a runner: one `Process` variant per platform
/// constraint it may run under.
#[derive(Clone, Debug)]
pub struct MultiPlatformProcess(pub Vec<Process>);

/// Timing metadata recorded with a result, and the tag saying where the
/// result came from.
#[derive(Clone, Copy, Debug, PartialEq, Eq)]
pub struct ProcessResultMetadata {
    pub total_elapsed_ms: Option<u64>,
    pub source: ProcessResultSource,
}

/// The outcome of running a process: its exit code, digests of its stdout,
/// stderr and output directory tree, and metadata.
#[derive(Clone, Copy, Debug, PartialEq, Eq)]
pub struct FallibleProcessResultWithPlatform {
    pub stdout_digest: Digest,
    pub stderr_digest: Digest,
    pub exit_code: i32,
    pub output_directory: Digest,
    pub platform: Platform,
    pub metadata: ProcessResultMetadata,
}

/// Everything that can go wrong inside the cache layer itself.  None of
/// these ever fails a run: read-side errors degrade to a miss and
/// write-side errors are dropped after being counted.
#[derive(Clone, Copy, Debug, PartialEq, Eq, Structural)]
pub enum CacheError {
    /// The durable store's read path failed.
    StoreReadFailed,
    /// The durable store's write path failed.
    StoreWriteFailed,
    /// A stored entry did not decode as a cache entry.
    DeserializeError,
    /// A stored entry decoded, but its action-result record was absent.
    MissingActionResult,
    /// A digest referenced by a stored result is not present locally.
    ContentMissing(Digest),
}

/// Counters for the cache's observable behaviour.
#[derive(Clone, Copy, Debug, PartialEq, Eq)]
pub struct WorkunitStore {
    pub local_cache_requests: u64,
    pub local_cache_requests_cached: u64,
    pub local_cache_requests_uncached: u64,
    pub local_cache_read_errors: u64,
    pub local_cache_write_errors: u64,
    pub local_cache_total_time_saved_ms: u64,
}

/// The per-run observability context, passed explicitly through every call.
#[derive(Clone, Copy, Debug, PartialEq, Eq)]
pub struct Context {
    pub workunit_store: WorkunitStore,
}

impl WorkunitStore {
    pub fn new() -> (s: WorkunitStore)
        ensures
            s == (WorkunitStore {
                local_cache_requests: 0u64,
                local_cache_requests_cached: 0u64,
                local_cache_requests_uncached: 0u64,
                local_cache_read_errors: 0u64,
                local_cache_write_errors: 0u64,
                local_cache_total_time_saved_ms: 0u64,
            }),
    {
        WorkunitStore {
            local_cache_requests: 0,
            local_cache_requests_cached: 0,
            local_cache_requests_uncached: 0,
            local_cache_read_errors: 0,
            local_cache_write_errors: 0,
            local_cache_total_time_saved_ms: 0,
        }
    }
}

impl Context {
    pub fn new() -> (c: Context)
        ensures
            c == (Context {
                workunit_store: WorkunitStore {
                    local_cache_requests: 0u64,
                    local_cache_requests_cached: 0u64,
                    local_cache_requests_uncached: 0u64,
                    local_cache_read_errors: 0u64,
                    local_cache_write_errors: 0u64,
                    local_cache_total_time_saved_ms: 0u64,
                },
            }),
    {
        Context { workunit_store: WorkunitStore::new() }
    }
}

/// What a counter increment means: one more, held at the top when the
/// counter is saturated.
pub open spec fn spec_inc(x: u64) -> u64 {
    if x == u64::MAX {
        x
    } else {
        (x + 1) as u64
    }
}

/// Bump a counter without overflowing.
pub fn bump(x: u64) -> (r: u64)
    ensures
        r == spec_inc(x),
{
    if x == u64::MAX {
        x
    } else {
        x + 1
    }
}

pub open spec fn spec_sat_add(a: u64, b: u64) -> u64 {
    if a + b > u64::MAX {
        u64::MAX
    } else {
        (a + b) as u64
    }
}

/// Add to a counter without overflowing.
pub fn sat_add(a: u64, b: u64) -> (r: u64)
    ensures
        r == spec_sat_add(a, b),
{
    if a > u64::MAX - b {
        u64::MAX
    } else {
        a + b
    }
}

/// How much time serving a result from the cache saved, if any: the
/// result's own recorded duration less the time the lookup took.
pub open spec fn spec_time_saved(total_elapsed_ms: Option<u64>, lookup_elapsed_ms: u64) -> Option<
    u64,
> {
    match total_elapsed_ms {
        Some(t) => if t > lookup_elapsed_ms {
            Some((t - lookup_elapsed_ms) as u64)
        } else {
            None
        },
        None => None,
    }
}

impl ProcessResultMetadata {
    /// The time serving this result from the cache saved over the recorded
    /// execution, if the lookup was faster and a duration was recorded.
    pub fn time_saved_from_cache(&self, lookup_elapsed_ms: u64) -> (r: Option<u64>)
        ensures
            r == spec_time_saved(self.total_elapsed_ms, lookup_elapsed_ms),
    {
        match self.total_elapsed_ms {
            Some(t) => if t > lookup_elapsed_ms {
                Some(t - lookup_elapsed_ms)
            } else {
                None
            },
            None => None,
        }
    }
}

/// The cache policy: a result may be written to the cache, and a stored
/// result may be served from it, exactly when it succeeded or the scope
/// caches failures too.
pub open spec fn spec_eligible(exit_code: i32, scope: ProcessCacheScope) -> bool {
    exit_code == 0 || scope == ProcessCacheScope::Always
}

/// Executable form of the cache policy; read and write eligibility both go
/// through this one predicate.
pub fn eligible(exit_code: i32, scope: ProcessCacheScope) -> (r: bool)
    ensures
        r == spec_eligible(exit_code, scope),
{
    exit_code == 0 || scope == ProcessCacheScope::Always
}

} // verus!
