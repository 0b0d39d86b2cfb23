use process_execution_cache::cache::CommandRunner;
use process_execution_cache::model::{
    eligible, Context, Digest, FallibleProcessResultWithPlatform, Fingerprint,
    MultiPlatformProcess, Platform, Process, ProcessCacheScope, ProcessMetadata,
    ProcessResultMetadata, ProcessResultSource,
};
use process_execution_cache::cache::request_scope;
use process_execution_cache::codec::{encode_entry, CacheRecord};
use process_execution_cache::runner;
use process_execution_cache::store::{ByteStore, FileStore};

fn fingerprint_of(n: u64) -> Fingerprint {
    Fingerprint { w0: n, w1: n + 1, w2: n + 2, w3: n + 3 }
}

fn digest_of(n: u64) -> Digest {
    Digest { hash: fingerprint_of(n), size_bytes: n }
}

fn process(argv: &[&str], scope: ProcessCacheScope) -> Process {
    Process {
        argv: argv.iter().map(|a| a.to_string()).collect(),
        platform_constraint: None,
        cache_scope: scope,
    }
}

fn request(scope: ProcessCacheScope) -> MultiPlatformProcess {
    MultiPlatformProcess(vec![process(&["echo", "hello"], scope)])
}

fn metadata() -> ProcessMetadata {
    ProcessMetadata { instance_name: None, cache_key_gen_version: Some("v1".to_string()) }
}

fn result_with_exit(exit_code: i32) -> FallibleProcessResultWithPlatform {
    FallibleProcessResultWithPlatform {
        stdout_digest: digest_of(10),
        stderr_digest: digest_of(20),
        exit_code,
        output_directory: digest_of(30),
        platform: Platform::Linux,
        metadata: ProcessResultMetadata {
            total_elapsed_ms: Some(250),
            source: ProcessResultSource::RanLocally,
        },
    }
}

/// An executor double that serves a script of outcomes and counts its
/// invocations.
struct ScriptedRunner {
    outcomes: Vec<Result<FallibleProcessResultWithPlatform, String>>,
    calls: usize,
}

impl ScriptedRunner {
    fn new(outcomes: Vec<Result<FallibleProcessResultWithPlatform, String>>) -> ScriptedRunner {
        ScriptedRunner { outcomes, calls: 0 }
    }
}

impl runner::CommandRunner for ScriptedRunner {
    fn run(
        &mut self,
        _req: &MultiPlatformProcess,
    ) -> Result<FallibleProcessResultWithPlatform, String> {
        self.calls += 1;
        self.outcomes.remove(0)
    }

    fn extract_compatible_request(&self, req: &MultiPlatformProcess) -> Option<Process> {
        req.0.first().cloned()
    }
}

fn caching_runner(
    outcomes: Vec<Result<FallibleProcessResultWithPlatform, String>>,
) -> CommandRunner<ScriptedRunner> {
    let mut file_store = FileStore::new();
    file_store.add_file(digest_of(10));
    file_store.add_file(digest_of(20));
    file_store.add_tree(digest_of(30));
    CommandRunner::new(ScriptedRunner::new(outcomes), ByteStore::new(), file_store, metadata())
}

#[test]
fn policy_eligibility() {
    assert!(eligible(0, ProcessCacheScope::Successful));
    assert!(!eligible(1, ProcessCacheScope::Successful));
    assert!(eligible(0, ProcessCacheScope::Always));
    assert!(eligible(1, ProcessCacheScope::Always));
}

#[test]
fn scope_is_always_when_any_variant_asks() {
    let default_only = MultiPlatformProcess(vec![
        process(&["a"], ProcessCacheScope::Successful),
        process(&["b"], ProcessCacheScope::Successful),
    ]);
    assert_eq!(request_scope(&default_only), ProcessCacheScope::Successful);
    let mixed = MultiPlatformProcess(vec![
        process(&["a"], ProcessCacheScope::Successful),
        process(&["b"], ProcessCacheScope::Always),
    ]);
    assert_eq!(request_scope(&mixed), ProcessCacheScope::Always);
}

#[test]
fn key_derivation_is_deterministic() {
    let req1 = request(ProcessCacheScope::Successful);
    let req2 = request(ProcessCacheScope::Successful);
    let f1 = process_execution_cache::digest::digest(&req1, &metadata());
    let f2 = process_execution_cache::digest::digest(&req2, &metadata());
    assert_eq!(f1, f2);
}

#[test]
fn key_derivation_separates_distinct_content() {
    let req1 = MultiPlatformProcess(vec![process(&["echo", "one"], ProcessCacheScope::Successful)]);
    let req2 = MultiPlatformProcess(vec![process(&["echo", "two"], ProcessCacheScope::Successful)]);
    let f1 = process_execution_cache::digest::digest(&req1, &metadata());
    let f2 = process_execution_cache::digest::digest(&req2, &metadata());
    assert_ne!(f1, f2);
    let meta2 = ProcessMetadata {
        instance_name: None,
        cache_key_gen_version: Some("v2".to_string()),
    };
    let f3 = process_execution_cache::digest::digest(&req1, &metadata());
    let f4 = process_execution_cache::digest::digest(&req1, &meta2);
    assert_ne!(f3, f4);
}

#[test]
fn key_derivation_distinguishes_argument_grouping() {
    let joined = MultiPlatformProcess(vec![process(&["ab"], ProcessCacheScope::Successful)]);
    let split = MultiPlatformProcess(vec![process(&["a", "b"], ProcessCacheScope::Successful)]);
    let f1 = process_execution_cache::digest::digest(&joined, &metadata());
    let f2 = process_execution_cache::digest::digest(&split, &metadata());
    assert_ne!(f1, f2);
}

#[test]
fn empty_request_has_a_key_and_the_default_scope() {
    let empty = MultiPlatformProcess(vec![]);
    assert_eq!(request_scope(&empty), ProcessCacheScope::Successful);
    let f1 = process_execution_cache::digest::digest(&empty, &metadata());
    let f2 = process_execution_cache::digest::digest(&empty, &metadata());
    assert_eq!(f1, f2);
}

#[test]
fn saturated_counter_stays_at_the_top() {
    let req = request(ProcessCacheScope::Successful);
    let mut runner = caching_runner(vec![Ok(result_with_exit(0))]);
    let mut ctx = Context::new();
    ctx.workunit_store.local_cache_requests = u64::MAX;
    runner.run(&mut ctx, &req).unwrap();
    assert_eq!(ctx.workunit_store.local_cache_requests, u64::MAX);
}

#[test]
fn hit_after_write() {
    let mut runner = caching_runner(vec![]);
    let key = fingerprint_of(1);
    let res = result_with_exit(0);
    runner.store(key, &res).unwrap();
    let looked_up = runner.lookup(key).unwrap().unwrap();
    assert_eq!(looked_up.exit_code, res.exit_code);
    assert_eq!(looked_up.stdout_digest, res.stdout_digest);
    assert_eq!(looked_up.stderr_digest, res.stderr_digest);
    assert_eq!(looked_up.output_directory, res.output_directory);
    assert_eq!(looked_up.platform, res.platform);
    assert_eq!(looked_up.metadata.total_elapsed_ms, res.metadata.total_elapsed_ms);
    assert_eq!(looked_up.metadata.source, ProcessResultSource::HitLocally);
}

#[test]
fn lookup_of_absent_fingerprint_is_a_plain_miss() {
    let runner = caching_runner(vec![]);
    assert_eq!(runner.lookup(fingerprint_of(9)), Ok(None));
}

#[test]
fn default_scope_failure_is_not_written() {
    let req = request(ProcessCacheScope::Successful);
    let failing = result_with_exit(3);
    let mut runner = caching_runner(vec![Ok(failing), Ok(failing)]);
    let mut ctx = Context::new();
    let key = process_execution_cache::digest::digest(&req, &metadata());

    let first = runner.run(&mut ctx, &req).unwrap();
    assert_eq!(first.exit_code, 3);
    assert_eq!(runner.lookup(key), Ok(None));

    // With nothing cached, an identical run must execute again.
    let second = runner.run(&mut ctx, &req).unwrap();
    assert_eq!(second.exit_code, 3);
    assert_eq!(second.metadata.source, ProcessResultSource::RanLocally);
    assert_eq!(runner.underlying.calls, 2);
}

#[test]
fn always_scope_failure_is_written_and_served() {
    let req = request(ProcessCacheScope::Always);
    let failing = result_with_exit(3);
    let mut runner = caching_runner(vec![Ok(failing)]);
    let mut ctx = Context::new();

    let first = runner.run(&mut ctx, &req).unwrap();
    assert_eq!(first.exit_code, 3);
    assert_eq!(runner.underlying.calls, 1);

    let second = runner.run(&mut ctx, &req).unwrap();
    assert_eq!(second.exit_code, 3);
    assert_eq!(second.metadata.source, ProcessResultSource::HitLocally);
    assert_eq!(runner.underlying.calls, 1);
    assert_eq!(ctx.workunit_store.local_cache_requests_cached, 1);
}

#[test]
fn unreachable_output_tree_gates_the_hit() {
    let req = request(ProcessCacheScope::Successful);
    let ok = result_with_exit(0);
    let mut runner = caching_runner(vec![Ok(ok), Ok(ok)]);
    let mut ctx = Context::new();
    let key = process_execution_cache::digest::digest(&req, &metadata());

    runner.run(&mut ctx, &req).unwrap();
    assert!(matches!(runner.lookup(key), Ok(Some(_))));

    // The stored entry's output tree disappears from the content store.
    runner.file_store.remove_tree(digest_of(30));
    assert_eq!(
        runner.lookup(key),
        Err(process_execution_cache::model::CacheError::ContentMissing(digest_of(30)))
    );

    // The run must fall through to the executor instead of serving it.
    let second = runner.run(&mut ctx, &req).unwrap();
    assert_eq!(second.metadata.source, ProcessResultSource::RanLocally);
    assert_eq!(runner.underlying.calls, 2);
    assert_eq!(ctx.workunit_store.local_cache_read_errors, 1);
}

#[test]
fn unreachable_stdout_blob_gates_the_hit() {
    let mut runner = caching_runner(vec![]);
    let key = fingerprint_of(7);
    runner.store(key, &result_with_exit(0)).unwrap();
    runner.file_store.remove_file(digest_of(10));
    assert_eq!(
        runner.lookup(key),
        Err(process_execution_cache::model::CacheError::ContentMissing(digest_of(10)))
    );
}

#[test]
fn read_error_is_transparent() {
    let req = request(ProcessCacheScope::Successful);
    let ok = result_with_exit(0);
    let mut runner = caching_runner(vec![Ok(ok)]);
    runner.process_execution_store.fail_reads = true;
    let mut ctx = Context::new();

    let out = runner.run(&mut ctx, &req).unwrap();
    assert_eq!(out, ok);
    assert_eq!(runner.underlying.calls, 1);
    assert_eq!(ctx.workunit_store.local_cache_read_errors, 1);
    assert_eq!(ctx.workunit_store.local_cache_requests_cached, 0);
}

#[test]
fn read_error_does_not_mask_executor_failure() {
    let req = request(ProcessCacheScope::Successful);
    let mut runner = caching_runner(vec![Err("executor exploded".to_string())]);
    runner.process_execution_store.fail_reads = true;
    let mut ctx = Context::new();

    let out = runner.run(&mut ctx, &req);
    assert_eq!(out, Err("executor exploded".to_string()));
}

#[test]
fn executor_error_propagates() {
    let req = request(ProcessCacheScope::Successful);
    let mut runner = caching_runner(vec![Err("boom".to_string())]);
    let mut ctx = Context::new();
    let key = process_execution_cache::digest::digest(&req, &metadata());

    let out = runner.run(&mut ctx, &req);
    assert_eq!(out, Err("boom".to_string()));
    // The failure wrote nothing.
    assert_eq!(runner.lookup(key), Ok(None));
}

#[test]
fn write_error_is_counted_and_ignored() {
    let req = request(ProcessCacheScope::Successful);
    let ok = result_with_exit(0);
    let mut runner = caching_runner(vec![Ok(ok)]);
    runner.process_execution_store.fail_writes = true;
    let mut ctx = Context::new();
    let key = process_execution_cache::digest::digest(&req, &metadata());

    let out = runner.run(&mut ctx, &req).unwrap();
    assert_eq!(out, ok);
    assert_eq!(ctx.workunit_store.local_cache_write_errors, 1);
    assert_eq!(runner.lookup(key), Ok(None));
}

#[test]
fn corrupt_entry_is_a_deserialize_error() {
    let mut runner = caching_runner(vec![]);
    let key = fingerprint_of(5);
    runner.process_execution_store.store_bytes(key, vec![0xAB; 17]).unwrap();
    assert_eq!(
        runner.lookup(key),
        Err(process_execution_cache::model::CacheError::DeserializeError)
    );
}

#[test]
fn entry_without_action_result_is_an_error() {
    let mut runner = caching_runner(vec![]);
    let key = fingerprint_of(6);
    let rec = CacheRecord {
        exit_code: 0,
        output_directory: digest_of(30),
        stdout_digest: digest_of(10),
        stderr_digest: digest_of(20),
        total_elapsed_ms: None,
        cached_result: true,
    };
    let mut bytes = encode_entry(Platform::Linux, &rec);
    bytes[1] = 0;
    runner.process_execution_store.store_bytes(key, bytes).unwrap();
    assert_eq!(
        runner.lookup(key),
        Err(process_execution_cache::model::CacheError::MissingActionResult)
    );
}

#[test]
fn idempotent_writes() {
    let mut runner = caching_runner(vec![]);
    let key = fingerprint_of(4);
    let res = result_with_exit(0);
    runner.store(key, &res).unwrap();
    let first = runner.lookup(key);
    runner.store(key, &res).unwrap();
    let second = runner.lookup(key);
    assert_eq!(first, second);
    assert!(matches!(first, Ok(Some(_))));
}

#[test]
fn end_to_end_default_scope_success() {
    let req = request(ProcessCacheScope::Successful);
    let ok = result_with_exit(0);
    let mut runner = caching_runner(vec![Ok(ok)]);
    let mut ctx = Context::new();
    let key = process_execution_cache::digest::digest(&req, &metadata());

    // First call: one real execution, and an entry is written.
    let first = runner.run(&mut ctx, &req).unwrap();
    assert_eq!(first.exit_code, 0);
    assert_eq!(first.metadata.source, ProcessResultSource::RanLocally);
    assert_eq!(runner.underlying.calls, 1);
    assert!(matches!(runner.lookup(key), Ok(Some(_))));

    // Second, identical call: served from the cache, executor untouched.
    let second = runner.run(&mut ctx, &req).unwrap();
    assert_eq!(runner.underlying.calls, 1);
    assert_eq!(second.exit_code, 0);
    assert_eq!(second.stdout_digest, ok.stdout_digest);
    assert_eq!(second.stderr_digest, ok.stderr_digest);
    assert_eq!(second.output_directory, ok.output_directory);
    assert_eq!(second.metadata.source, ProcessResultSource::HitLocally);

    assert_eq!(ctx.workunit_store.local_cache_requests, 2);
    assert_eq!(ctx.workunit_store.local_cache_requests_uncached, 1);
    assert_eq!(ctx.workunit_store.local_cache_requests_cached, 1);
    assert_eq!(ctx.workunit_store.local_cache_read_errors, 0);
    assert_eq!(ctx.workunit_store.local_cache_write_errors, 0);
}

#[test]
fn extract_compatible_request_forwards() {
    let runner = caching_runner(vec![]);
    let req = request(ProcessCacheScope::Successful);
    let extracted = runner.extract_compatible_request(&req).unwrap();
    assert_eq!(extracted.argv, vec!["echo".to_string(), "hello".to_string()]);
}

#[test]
fn time_saved_from_cache_arithmetic() {
    let meta = ProcessResultMetadata {
        total_elapsed_ms: Some(100),
        source: ProcessResultSource::RanLocally,
    };
    assert_eq!(meta.time_saved_from_cache(30), Some(70));
    assert_eq!(meta.time_saved_from_cache(100), None);
    assert_eq!(meta.time_saved_from_cache(250), None);
    let none = ProcessResultMetadata {
        total_elapsed_ms: None,
        source: ProcessResultSource::RanLocally,
    };
    assert_eq!(none.time_saved_from_cache(0), None);
}
