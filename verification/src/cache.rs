//! The caching runner: a decorator around an executor that serves
//! previously observed results for identical requests.
//!
//! A run derives the request's fingerprint, attempts a cache read, and on
//! an eligible, fully reachable stored result returns it without executing.
//! In every other case — a miss, an ineligible stored result, or any
//! read-side error — it falls through to the underlying executor, whose own
//! failure is the only failure a run ever surfaces.  Eligible fresh results
//! are written back; a failed write is counted and otherwise ignored.

use vstd::prelude::*;

use crate::clock;
use crate::codec::{
    decode_entry, encode_entry, spec_decode_entry, spec_encode_entry, CacheRecord,
};
use crate::digest::spec_digest;
use crate::model::{
    bump, eligible, sat_add, spec_eligible, spec_inc, CacheError, Context,
    FallibleProcessResultWithPlatform, Fingerprint, MultiPlatformProcess, Platform, Process,
    ProcessCacheScope, ProcessMetadata, ProcessResultMetadata, ProcessResultSource,
};
use crate::runner;
use crate::store::{ByteStore, FileStore};

verus! {

/// The scope governing one multi-platform request: failures are cached when
/// any of its variants asks for that.
pub open spec fn spec_write_failures(req: MultiPlatformProcess) -> bool {
    exists|i: int|
        0 <= i < req.0@.len() && req.0@[i].cache_scope == ProcessCacheScope::Always
}

pub open spec fn spec_scope(req: MultiPlatformProcess) -> ProcessCacheScope {
    if spec_write_failures(req) {
        ProcessCacheScope::Always
    } else {
        ProcessCacheScope::Successful
    }
}

/// The scope of a request: `Always` exactly when some variant requests it.
pub fn request_scope(req: &MultiPlatformProcess) -> (s: ProcessCacheScope)
    ensures
        s == spec_scope(*req),
{
    let n = req.0.len();
    let mut i: usize = 0;
    while i < n
        invariant
            i <= n,
            n == req.0@.len(),
            forall|j: int|
                0 <= j < i ==> (#[trigger] req.0@[j]).cache_scope != ProcessCacheScope::Always,
        decreases n - i,
    {
        if req.0[i].cache_scope == ProcessCacheScope::Always {
            return ProcessCacheScope::Always;
        }
        i = i + 1;
    }
    proof {
        assert(!spec_write_failures(*req));
    }
    ProcessCacheScope::Successful
}

/// The record persisted for a result: its exit code, digests and timing,
/// with the cached flag set.
pub open spec fn spec_record_of(res: FallibleProcessResultWithPlatform) -> CacheRecord {
    CacheRecord {
        exit_code: res.exit_code,
        output_directory: res.output_directory,
        stdout_digest: res.stdout_digest,
        stderr_digest: res.stderr_digest,
        total_elapsed_ms: res.metadata.total_elapsed_ms,
        cached_result: true,
    }
}

/// The result a stored record reconstructs to, tagged as served from this
/// local cache.
pub open spec fn spec_result_of(platform: Platform, rec: CacheRecord) ->
    FallibleProcessResultWithPlatform {
    FallibleProcessResultWithPlatform {
        stdout_digest: rec.stdout_digest,
        stderr_digest: rec.stderr_digest,
        exit_code: rec.exit_code,
        output_directory: rec.output_directory,
        platform,
        metadata: ProcessResultMetadata {
            total_elapsed_ms: rec.total_elapsed_ms,
            source: ProcessResultSource::HitLocally,
        },
    }
}

/// Everything a cache read can give: the stored result for the
/// fingerprint, `Ok(None)` for a plain miss, or the error that invalidated
/// the lookup — a broken read path, an entry that does not decode, a
/// decoded entry with no action-result record, or a referenced digest that
/// is no longer reachable (checked for stdout, then stderr, then the
/// output tree; no partial result is ever returned).
pub open spec fn spec_lookup(
    contents: Map<Fingerprint, Seq<u8>>,
    fs: FileStore,
    fail_reads: bool,
    fingerprint: Fingerprint,
) -> Result<Option<FallibleProcessResultWithPlatform>, CacheError> {
    if fail_reads {
        Err(CacheError::StoreReadFailed)
    } else if !contents.contains_key(fingerprint) {
        Ok(None)
    } else {
        match spec_decode_entry(contents[fingerprint]) {
            None => Err(CacheError::DeserializeError),
            Some((platform, None)) => Err(CacheError::MissingActionResult),
            Some((platform, Some(rec))) => {
                let result = spec_result_of(platform, rec);
                if !fs.has_file(result.stdout_digest) {
                    Err(CacheError::ContentMissing(result.stdout_digest))
                } else if !fs.has_file(result.stderr_digest) {
                    Err(CacheError::ContentMissing(result.stderr_digest))
                } else if !fs.has_tree(result.output_directory) {
                    Err(CacheError::ContentMissing(result.output_directory))
                } else {
                    Ok(Some(result))
                }
            },
        }
    }
}

/// What a run does with a cache read: serve the stored result, or fall
/// through to the executor.  A miss, an ineligible result and a read error
/// all fall through; a read error never fails the run.
#[derive(Clone, Copy, Debug, PartialEq, Eq)]
pub enum CacheRead {
    Hit(FallibleProcessResultWithPlatform),
    Fallthrough,
}

pub open spec fn spec_evaluate_cache_read(
    read: Result<Option<FallibleProcessResultWithPlatform>, CacheError>,
    scope: ProcessCacheScope,
) -> CacheRead {
    match read {
        Ok(Some(res)) => if spec_eligible(res.exit_code, scope) {
            CacheRead::Hit(res)
        } else {
            CacheRead::Fallthrough
        },
        _ => CacheRead::Fallthrough,
    }
}

/// Decide what to do with the outcome of a cache read.
pub fn evaluate_cache_read(
    read: &Result<Option<FallibleProcessResultWithPlatform>, CacheError>,
    scope: ProcessCacheScope,
) -> (d: CacheRead)
    ensures
        d == spec_evaluate_cache_read(*read, scope),
{
    match read {
        Ok(Some(res)) => {
            if eligible(res.exit_code, scope) {
                CacheRead::Hit(*res)
            } else {
                CacheRead::Fallthrough
            }
        },
        _ => CacheRead::Fallthrough,
    }
}

/// The stored result a run would be served for a fingerprint, if any: the
/// lookup must succeed with a result that the scope makes eligible.
pub open spec fn spec_hit_outcome(
    contents: Map<Fingerprint, Seq<u8>>,
    fs: FileStore,
    fail_reads: bool,
    fingerprint: Fingerprint,
    scope: ProcessCacheScope,
) -> Option<FallibleProcessResultWithPlatform> {
    match spec_evaluate_cache_read(spec_lookup(contents, fs, fail_reads, fingerprint), scope) {
        CacheRead::Hit(res) => Some(res),
        CacheRead::Fallthrough => None,
    }
}

/// A caching runner: the underlying executor, the durable store its
/// entries live in, the content store its results reference, and the
/// static metadata that keys every request.
pub struct CommandRunner<R: runner::CommandRunner> {
    pub underlying: R,
    pub process_execution_store: ByteStore,
    pub file_store: FileStore,
    pub metadata: ProcessMetadata,
}

impl<R: runner::CommandRunner> CommandRunner<R> {
    pub fn new(
        underlying: R,
        process_execution_store: ByteStore,
        file_store: FileStore,
        metadata: ProcessMetadata,
    ) -> (c: CommandRunner<R>)
        ensures
            c.underlying == underlying,
            c.process_execution_store == process_execution_store,
            c.file_store == file_store,
            c.metadata == metadata,
    {
        CommandRunner { underlying, process_execution_store, file_store, metadata }
    }

    /// Name the single compatible request, if any, as the underlying
    /// executor would.
    pub fn extract_compatible_request(&self, req: &MultiPlatformProcess) -> Option<Process> {
        self.underlying.extract_compatible_request(req)
    }

    pub open spec fn spec_read_outcome(self, fingerprint: Fingerprint) -> Result<
        Option<FallibleProcessResultWithPlatform>,
        CacheError,
    > {
        spec_lookup(
            self.process_execution_store.contents(),
            self.file_store,
            self.process_execution_store.fail_reads,
            fingerprint,
        )
    }

    pub open spec fn spec_hit(self, fingerprint: Fingerprint, scope: ProcessCacheScope) -> Option<
        FallibleProcessResultWithPlatform,
    > {
        spec_hit_outcome(
            self.process_execution_store.contents(),
            self.file_store,
            self.process_execution_store.fail_reads,
            fingerprint,
            scope,
        )
    }

    /// Look a fingerprint up: fetch the stored bytes, decode the entry,
    /// reconstruct the result, and confirm every digest it references is
    /// still reachable.  Absence is `Ok(None)`, never an error.
    pub fn lookup(&self, fingerprint: Fingerprint) -> (r: Result<
        Option<FallibleProcessResultWithPlatform>,
        CacheError,
    >)
        ensures
            r == self.spec_read_outcome(fingerprint),
    {
        let loaded = match self.process_execution_store.load_bytes(fingerprint) {
            Err(e) => {
                return Err(e);
            },
            Ok(None) => {
                return Ok(None);
            },
            Ok(Some(bytes)) => bytes,
        };
        let (platform, record) = match decode_entry(&loaded) {
            None => {
                return Err(CacheError::DeserializeError);
            },
            Some((platform, None)) => {
                return Err(CacheError::MissingActionResult);
            },
            Some((platform, Some(record))) => (platform, record),
        };
        let result = FallibleProcessResultWithPlatform {
            stdout_digest: record.stdout_digest,
            stderr_digest: record.stderr_digest,
            exit_code: record.exit_code,
            output_directory: record.output_directory,
            platform,
            metadata: ProcessResultMetadata {
                total_elapsed_ms: record.total_elapsed_ms,
                source: ProcessResultSource::HitLocally,
            },
        };
        if let Err(e) = self.file_store.ensure_local_has_file(result.stdout_digest) {
            return Err(e);
        }
        if let Err(e) = self.file_store.ensure_local_has_file(result.stderr_digest) {
            return Err(e);
        }
        if let Err(e) = self.file_store.ensure_local_has_recursive_directory(
            result.output_directory,
        ) {
            return Err(e);
        }
        Ok(Some(result))
    }

    /// Build the action-result record for a fresh result, encode it under
    /// the result's platform, and persist it, replacing any prior entry.
    pub fn store(&mut self, fingerprint: Fingerprint, result: &FallibleProcessResultWithPlatform)
        -> (r: Result<(), CacheError>)
        ensures
            final(self).underlying == old(self).underlying,
            final(self).file_store == old(self).file_store,
            final(self).metadata == old(self).metadata,
            final(self).process_execution_store.fail_reads == old(self).process_execution_store.fail_reads,
            final(self).process_execution_store.fail_writes == old(self).process_execution_store.fail_writes,
            old(self).process_execution_store.fail_writes ==> r == Err::<(), CacheError>(
                CacheError::StoreWriteFailed,
            ) && final(self).process_execution_store.contents() == old(self).process_execution_store.contents(),
            !old(self).process_execution_store.fail_writes ==> r == Ok::<(), CacheError>(())
                && final(self).process_execution_store.contents() == old(self).process_execution_store.contents().insert(
                fingerprint,
                spec_encode_entry(result.platform, spec_record_of(*result)),
            ),
    {
        let record = CacheRecord {
            exit_code: result.exit_code,
            output_directory: result.output_directory,
            stdout_digest: result.stdout_digest,
            stderr_digest: result.stderr_digest,
            total_elapsed_ms: result.metadata.total_elapsed_ms,
            cached_result: true,
        };
        let bytes = encode_entry(result.platform, &record);
        self.process_execution_store.store_bytes(fingerprint, bytes)
    }

    /// Finish a run that fell through to the executor: hand the executor's
    /// outcome back exactly as it is — its failure is the run's failure —
    /// after writing an eligible fresh result back.  A failed write is
    /// counted and otherwise ignored.
    pub fn complete_run(
        &mut self,
        context: &mut Context,
        key: Fingerprint,
        scope: ProcessCacheScope,
        outcome: Result<FallibleProcessResultWithPlatform, String>,
    ) -> (r: Result<FallibleProcessResultWithPlatform, String>)
        ensures
            r == outcome,
            final(self).underlying == old(self).underlying,
            final(self).file_store == old(self).file_store,
            final(self).metadata == old(self).metadata,
            final(self).process_execution_store.fail_reads == old(self).process_execution_store.fail_reads,
            final(self).process_execution_store.fail_writes == old(self).process_execution_store.fail_writes,
            final(context).workunit_store.local_cache_requests == old(context).workunit_store.local_cache_requests,
            final(context).workunit_store.local_cache_requests_cached == old(context).workunit_store.local_cache_requests_cached,
            final(context).workunit_store.local_cache_requests_uncached == old(context).workunit_store.local_cache_requests_uncached,
            final(context).workunit_store.local_cache_read_errors == old(context).workunit_store.local_cache_read_errors,
            final(context).workunit_store.local_cache_total_time_saved_ms == old(context).workunit_store.local_cache_total_time_saved_ms,
            outcome matches Err(_) ==> final(self).process_execution_store.contents() == old(self).process_execution_store.contents() && final(context).workunit_store == old(context).workunit_store,
            outcome matches Ok(res) ==> {
                if spec_eligible(res.exit_code, scope) {
                    if old(self).process_execution_store.fail_writes {
                        final(self).process_execution_store.contents() == old(self).process_execution_store.contents() && final(context).workunit_store.local_cache_write_errors == spec_inc(
                            old(context).workunit_store.local_cache_write_errors,
                        )
                    } else {
                        final(self).process_execution_store.contents() == old(self).process_execution_store.contents().insert(
                            key,
                            spec_encode_entry(res.platform, spec_record_of(res)),
                        ) && final(context).workunit_store.local_cache_write_errors == old(context).workunit_store.local_cache_write_errors
                    }
                } else {
                    final(self).process_execution_store.contents() == old(self).process_execution_store.contents() && final(context).workunit_store.local_cache_write_errors == old(context).workunit_store.local_cache_write_errors
                }
            },
    {
        match outcome {
            Err(e) => Err(e),
            Ok(res) => {
                if eligible(res.exit_code, scope) {
                    match self.store(key, &res) {
                        Ok(()) => {},
                        Err(_) => {
                            context.workunit_store.local_cache_write_errors = bump(
                                context.workunit_store.local_cache_write_errors,
                            );
                        },
                    }
                }
                Ok(res)
            },
        }
    }

    /// Run a request through the cache.
    ///
    /// The fingerprint is derived once; a cache read is attempted; an
    /// eligible, fully reachable stored result is returned without
    /// invoking the executor.  Otherwise — on a miss, an ineligible stored
    /// result, or any read error — the underlying executor runs, its
    /// outcome is returned unchanged, and an eligible fresh result is
    /// written back, write failures being counted and dropped.  The cache
    /// can only ever help a run, never fail it.
    pub fn run(&mut self, context: &mut Context, req: &MultiPlatformProcess) -> (r: Result<
        FallibleProcessResultWithPlatform,
        String,
    >)
        ensures
            final(self).file_store == old(self).file_store,
            final(self).metadata == old(self).metadata,
            final(self).process_execution_store.fail_reads == old(self).process_execution_store.fail_reads,
            final(self).process_execution_store.fail_writes == old(self).process_execution_store.fail_writes,
            final(context).workunit_store.local_cache_requests == spec_inc(
                old(context).workunit_store.local_cache_requests,
            ),
            final(context).workunit_store.local_cache_total_time_saved_ms >= old(context).workunit_store.local_cache_total_time_saved_ms,
            ({
                let key = spec_digest(*req, old(self).metadata);
                let scope = spec_scope(*req);
                let read = old(self).spec_read_outcome(key);
                match old(self).spec_hit(key, scope) {
                    Some(res) => r == Ok::<FallibleProcessResultWithPlatform, String>(res)
                        && final(self).process_execution_store.contents() == old(self).process_execution_store.contents() && final(self).underlying == old(self).underlying && final(context).workunit_store.local_cache_requests_cached
                        == spec_inc(old(context).workunit_store.local_cache_requests_cached)
                        && final(context).workunit_store.local_cache_requests_uncached == old(context).workunit_store.local_cache_requests_uncached && final(context).workunit_store.local_cache_read_errors == old(context).workunit_store.local_cache_read_errors && final(context).workunit_store.local_cache_write_errors == old(context).workunit_store.local_cache_write_errors,
                    None => final(context).workunit_store.local_cache_requests_cached == old(context).workunit_store.local_cache_requests_cached && final(context).workunit_store.local_cache_total_time_saved_ms == old(context).workunit_store.local_cache_total_time_saved_ms && (read matches Err(_)
                        ==> final(context).workunit_store.local_cache_read_errors == spec_inc(
                        old(context).workunit_store.local_cache_read_errors,
                    ) && final(context).workunit_store.local_cache_requests_uncached == old(context).workunit_store.local_cache_requests_uncached) && (read matches Ok(_)
                        ==> final(context).workunit_store.local_cache_requests_uncached
                        == spec_inc(old(context).workunit_store.local_cache_requests_uncached)
                        && final(context).workunit_store.local_cache_read_errors == old(context).workunit_store.local_cache_read_errors) && (r matches Err(_) ==> final(self).process_execution_store.contents() == old(self).process_execution_store.contents() && final(context).workunit_store.local_cache_write_errors == old(context).workunit_store.local_cache_write_errors) && (r matches Ok(res) ==> {
                        if spec_eligible(res.exit_code, scope) {
                            if old(self).process_execution_store.fail_writes {
                                final(self).process_execution_store.contents() == old(self).process_execution_store.contents() && final(context).workunit_store.local_cache_write_errors == spec_inc(
                                    old(context).workunit_store.local_cache_write_errors,
                                )
                            } else {
                                final(self).process_execution_store.contents() == old(self).process_execution_store.contents().insert(
                                    key,
                                    spec_encode_entry(res.platform, spec_record_of(res)),
                                ) && final(context).workunit_store.local_cache_write_errors
                                    == old(context).workunit_store.local_cache_write_errors
                            }
                        } else {
                            final(self).process_execution_store.contents() == old(self).process_execution_store.contents() && final(context).workunit_store.local_cache_write_errors == old(context).workunit_store.local_cache_write_errors
                        }
                    }),
                }
            }),
    {
        let cache_lookup_start = clock::instant_now();
        let scope = request_scope(req);
        let key = crate::digest::digest(req, &self.metadata);

        context.workunit_store.local_cache_requests = bump(
            context.workunit_store.local_cache_requests,
        );

        let read = self.lookup(key);
        match evaluate_cache_read(&read, scope) {
            CacheRead::Hit(result) => {
                let lookup_elapsed = clock::elapsed_ms(&cache_lookup_start);
                context.workunit_store.local_cache_requests_cached = bump(
                    context.workunit_store.local_cache_requests_cached,
                );
                if let Some(time_saved) = result.metadata.time_saved_from_cache(lookup_elapsed) {
                    context.workunit_store.local_cache_total_time_saved_ms = sat_add(
                        context.workunit_store.local_cache_total_time_saved_ms,
                        time_saved,
                    );
                }
                Ok(result)
            },
            CacheRead::Fallthrough => {
                match &read {
                    Err(_) => {
                        // A cache-read error never fails the run: count it
                        // and continue to execute.
                        context.workunit_store.local_cache_read_errors = bump(
                            context.workunit_store.local_cache_read_errors,
                        );
                    },
                    Ok(_) => {
                        // Either a miss, or a stored failure the scope does
                        // not serve.
                        context.workunit_store.local_cache_requests_uncached = bump(
                            context.workunit_store.local_cache_requests_uncached,
                        );
                    },
                }
                let outcome = self.underlying.run(req);
                self.complete_run(context, key, scope, outcome)
            },
        }
    }
}

/// Hit after write: once a result is stored under a fingerprint, and the
/// content it references is reachable, looking that fingerprint up returns
/// a result with the same exit code, the same digests and the same
/// platform, tagged as served from the cache — and it is served as a hit
/// whenever the scope makes it eligible.
pub proof fn lemma_hit_after_write(
    contents: Map<Fingerprint, Seq<u8>>,
    fs: FileStore,
    key: Fingerprint,
    res: FallibleProcessResultWithPlatform,
    scope: ProcessCacheScope,
)
    requires
        fs.has_file(res.stdout_digest),
        fs.has_file(res.stderr_digest),
        fs.has_tree(res.output_directory),
    ensures
        ({
            let stored = contents.insert(key, spec_encode_entry(res.platform, spec_record_of(res)));
            let served = spec_result_of(res.platform, spec_record_of(res));
            spec_lookup(stored, fs, false, key) == Ok::<
                Option<FallibleProcessResultWithPlatform>,
                CacheError,
            >(Some(served)) && served.exit_code == res.exit_code && served.stdout_digest
                == res.stdout_digest && served.stderr_digest == res.stderr_digest
                && served.output_directory == res.output_directory && served.platform
                == res.platform && served.metadata.source == ProcessResultSource::HitLocally && (
            spec_eligible(res.exit_code, scope) ==> spec_hit_outcome(stored, fs, false, key, scope)
                == Some(served))
        }),
{
    crate::codec::lemma_decode_encode(res.platform, spec_record_of(res));
}

/// A fingerprint nothing was stored under is a plain miss: no hit is
/// served, under any scope.
pub proof fn lemma_miss_no_hit(
    contents: Map<Fingerprint, Seq<u8>>,
    fs: FileStore,
    key: Fingerprint,
    scope: ProcessCacheScope,
)
    requires
        !contents.contains_key(key),
    ensures
        spec_lookup(contents, fs, false, key) == Ok::<
            Option<FallibleProcessResultWithPlatform>,
            CacheError,
        >(None),
        spec_hit_outcome(contents, fs, false, key, scope) == None::<
            FallibleProcessResultWithPlatform,
        >,
{
}

/// Default-scope failure exclusion: a stored failing result is never
/// served under the default scope, wherever it came from.
pub proof fn lemma_default_scope_failure_excluded(
    contents: Map<Fingerprint, Seq<u8>>,
    fs: FileStore,
    fail_reads: bool,
    key: Fingerprint,
    res: FallibleProcessResultWithPlatform,
)
    requires
        spec_lookup(contents, fs, fail_reads, key) == Ok::<
            Option<FallibleProcessResultWithPlatform>,
            CacheError,
        >(Some(res)),
        res.exit_code != 0,
    ensures
        spec_hit_outcome(contents, fs, fail_reads, key, ProcessCacheScope::Successful) == None::<
            FallibleProcessResultWithPlatform,
        >,
{
}

/// Integrity gating: once the output tree a stored entry references is no
/// longer reachable, the entry is not served as a hit under any scope, so
/// a run falls through to the executor.
pub proof fn lemma_integrity_gating(
    contents: Map<Fingerprint, Seq<u8>>,
    fs: FileStore,
    key: Fingerprint,
    res: FallibleProcessResultWithPlatform,
    scope: ProcessCacheScope,
)
    requires
        !fs.has_tree(res.output_directory),
    ensures
        spec_hit_outcome(
            contents.insert(key, spec_encode_entry(res.platform, spec_record_of(res))),
            fs,
            false,
            key,
            scope,
        ) == None::<FallibleProcessResultWithPlatform>,
{
    crate::codec::lemma_decode_encode(res.platform, spec_record_of(res));
}

/// Read-error transparency, on the cache's side: while the read path is
/// broken no hit is ever served, so a run is exactly the executor's run
/// plus the write-back.
pub proof fn lemma_read_error_no_hit(
    contents: Map<Fingerprint, Seq<u8>>,
    fs: FileStore,
    key: Fingerprint,
    scope: ProcessCacheScope,
)
    ensures
        spec_lookup(contents, fs, true, key) == Err::<
            Option<FallibleProcessResultWithPlatform>,
            CacheError,
        >(CacheError::StoreReadFailed),
        spec_hit_outcome(contents, fs, true, key, scope) == None::<
            FallibleProcessResultWithPlatform,
        >,
{
}

/// Idempotent writes: storing the same fingerprint and result twice leaves
/// the store exactly as one write leaves it, so any later lookup returns
/// the same outcome either way.
pub proof fn lemma_idempotent_writes(
    contents: Map<Fingerprint, Seq<u8>>,
    fs: FileStore,
    key: Fingerprint,
    res: FallibleProcessResultWithPlatform,
    probe: Fingerprint,
)
    ensures
        ({
            let bytes = spec_encode_entry(res.platform, spec_record_of(res));
            contents.insert(key, bytes).insert(key, bytes) == contents.insert(key, bytes)
        }),
        ({
            let bytes = spec_encode_entry(res.platform, spec_record_of(res));
            spec_lookup(contents.insert(key, bytes).insert(key, bytes), fs, false, probe)
                == spec_lookup(contents.insert(key, bytes), fs, false, probe)
        }),
{
    let bytes = spec_encode_entry(res.platform, spec_record_of(res));
    assert(contents.insert(key, bytes).insert(key, bytes) =~= contents.insert(key, bytes));
}

} // verus!
