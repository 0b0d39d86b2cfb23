//! Key derivation: the deterministic fingerprint of a request plus its
//! static execution metadata.
//!
//! The request and metadata are first flattened into one canonical byte
//! string (a pure function of their content, proved here), which is then
//! hashed with SHA-256 (relied on, not reimplemented).  Identical canonical
//! content therefore always yields the identical fingerprint.

use vstd::bytes::*;
use vstd::prelude::*;
use vstd::string::StrSliceExecFns;
use vstd::utf8::encode_utf8;

use crate::codec::{push_u64, spec_platform_tag};
use crate::model::{
    Fingerprint, MultiPlatformProcess, Platform, Process, ProcessCacheScope, ProcessMetadata,
};

verus! {

pub open spec fn spec_scope_byte(s: ProcessCacheScope) -> u8 {
    match s {
        ProcessCacheScope::Successful => 0u8,
        ProcessCacheScope::Always => 1u8,
    }
}

pub open spec fn spec_constraint_bytes(c: Option<Platform>) -> Seq<u8> {
    match c {
        None => seq![0u8],
        Some(p) => seq![1u8, spec_platform_tag(p)],
    }
}

/// A string is encoded as the length of its UTF-8 form, then the bytes.
pub open spec fn spec_encode_chars(cs: Seq<char>) -> Seq<u8> {
    spec_u64_to_le_bytes(encode_utf8(cs).len() as u64) + encode_utf8(cs)
}

pub open spec fn spec_encode_opt_string(os: Option<String>) -> Seq<u8> {
    match os {
        None => seq![0u8],
        Some(s) => seq![1u8] + spec_encode_chars(s@),
    }
}

pub open spec fn spec_encode_strings(ss: Seq<String>) -> Seq<u8>
    decreases ss.len(),
{
    if ss.len() == 0 {
        Seq::empty()
    } else {
        spec_encode_strings(ss.drop_last()) + spec_encode_chars(ss.last()@)
    }
}

pub open spec fn spec_encode_process(p: Process) -> Seq<u8> {
    seq![spec_scope_byte(p.cache_scope)] + spec_constraint_bytes(p.platform_constraint)
        + spec_u64_to_le_bytes(p.argv@.len() as u64) + spec_encode_strings(p.argv@)
}

pub open spec fn spec_encode_processes(ps: Seq<Process>) -> Seq<u8>
    decreases ps.len(),
{
    if ps.len() == 0 {
        Seq::empty()
    } else {
        spec_encode_processes(ps.drop_last()) + spec_encode_process(ps.last())
    }
}

/// The canonical content of a request under its metadata: what two requests
/// must share, byte for byte, to share a cache entry.
pub open spec fn spec_canonical_bytes(req: MultiPlatformProcess, meta: ProcessMetadata) -> Seq<
    u8,
> {
    spec_encode_opt_string(meta.instance_name) + spec_encode_opt_string(meta.cache_key_gen_version)
        + spec_u64_to_le_bytes(req.0@.len() as u64) + spec_encode_processes(req.0@)
}

/// The SHA-256 digest of a byte string, as four words.  Left without a
/// definition: it names what the hash function returns, which depends on
/// the input bytes alone.
pub uninterp spec fn sha256_words(input: Seq<u8>) -> (u64, u64, u64, u64);

pub open spec fn spec_digest(req: MultiPlatformProcess, meta: ProcessMetadata) -> Fingerprint {
    Fingerprint {
        w0: sha256_words(spec_canonical_bytes(req, meta)).0,
        w1: sha256_words(spec_canonical_bytes(req, meta)).1,
        w2: sha256_words(spec_canonical_bytes(req, meta)).2,
        w3: sha256_words(spec_canonical_bytes(req, meta)).3,
    }
}

/// Relies on sha2's `Sha256`: the digest is a pure function of the input
/// bytes, read out here as four little-endian words.
#[verifier::external_body]
fn sha256(input: &Vec<u8>) -> (f: Fingerprint)
    ensures
        (f.w0, f.w1, f.w2, f.w3) == sha256_words(input@),
{
    let d = <sha2::Sha256 as sha2::Digest>::digest(input.as_slice());
    let w0 = u64::from_le_bytes(d[0..8].try_into().unwrap());
    let w1 = u64::from_le_bytes(d[8..16].try_into().unwrap());
    let w2 = u64::from_le_bytes(d[16..24].try_into().unwrap());
    let w3 = u64::from_le_bytes(d[24..32].try_into().unwrap());
    Fingerprint { w0, w1, w2, w3 }
}

fn encode_string(out: &mut Vec<u8>, s: &String)
    ensures
        final(out)@ == old(out)@ + spec_encode_chars(s@),
{
    let mut bytes = s.as_str().as_bytes_vec();
    let len_u64 = bytes.len() as u64;
    push_u64(out, len_u64);
    out.append(&mut bytes);
}

fn encode_opt_string(out: &mut Vec<u8>, os: &Option<String>)
    ensures
        final(out)@ == old(out)@ + spec_encode_opt_string(*os),
{
    match os {
        None => {
            out.push(0);
            proof {
                assert(out@ =~= old(out)@ + spec_encode_opt_string(*os));
            }
        },
        Some(s) => {
            out.push(1);
            let ghost mid = out@;
            encode_string(out, s);
            proof {
                assert(mid =~= old(out)@ + seq![1u8]);
                assert(out@ =~= old(out)@ + spec_encode_opt_string(*os));
            }
        },
    }
}

fn encode_process(out: &mut Vec<u8>, p: &Process)
    ensures
        final(out)@ == old(out)@ + spec_encode_process(*p),
{
    out.push(
        match p.cache_scope {
            ProcessCacheScope::Successful => 0,
            ProcessCacheScope::Always => 1,
        },
    );
    match p.platform_constraint {
        None => out.push(0),
        Some(pl) => {
            out.push(1);
            out.push(
                match pl {
                    Platform::Darwin => 0,
                    Platform::Linux => 1,
                },
            );
        },
    }
    let n = p.argv.len();
    push_u64(out, n as u64);
    let ghost before_args = out@;
    let mut i: usize = 0;
    while i < n
        invariant
            i <= n,
            n == p.argv@.len(),
            out@ == before_args + spec_encode_strings(p.argv@.subrange(0, i as int)),
        decreases n - i,
    {
        let ghost prefix = p.argv@.subrange(0, i as int);
        encode_string(out, &p.argv[i]);
        proof {
            let next = p.argv@.subrange(0, i as int + 1);
            assert(next.drop_last() =~= prefix);
            assert(next.last() == p.argv@[i as int]);
        }
        i = i + 1;
    }
    proof {
        assert(p.argv@.subrange(0, n as int) =~= p.argv@);
        assert(out@ =~= old(out)@ + spec_encode_process(*p));
    }
}

/// Flatten a request and its metadata into their canonical byte string.
pub fn canonical_bytes(req: &MultiPlatformProcess, meta: &ProcessMetadata) -> (out: Vec<u8>)
    ensures
        out@ == spec_canonical_bytes(*req, *meta),
{
    let mut out: Vec<u8> = Vec::new();
    encode_opt_string(&mut out, &meta.instance_name);
    encode_opt_string(&mut out, &meta.cache_key_gen_version);
    let n = req.0.len();
    push_u64(&mut out, n as u64);
    let ghost before_procs = out@;
    let mut i: usize = 0;
    while i < n
        invariant
            i <= n,
            n == req.0@.len(),
            out@ == before_procs + spec_encode_processes(req.0@.subrange(0, i as int)),
        decreases n - i,
    {
        let ghost prefix = req.0@.subrange(0, i as int);
        encode_process(&mut out, &req.0[i]);
        proof {
            let next = req.0@.subrange(0, i as int + 1);
            assert(next.drop_last() =~= prefix);
            assert(next.last() == req.0@[i as int]);
        }
        i = i + 1;
    }
    proof {
        assert(req.0@.subrange(0, n as int) =~= req.0@);
        assert(out@ =~= spec_canonical_bytes(*req, *meta));
    }
    out
}

/// Derive the cache key of a request: the SHA-256 fingerprint of its
/// canonical content.
pub fn digest(req: &MultiPlatformProcess, meta: &ProcessMetadata) -> (f: Fingerprint)
    ensures
        f == spec_digest(*req, *meta),
{
    let bytes = canonical_bytes(req, meta);
    sha256(&bytes)
}

/// Key derivation is deterministic: requests whose canonical content is
/// identical always receive the identical fingerprint.
pub proof fn lemma_fingerprint_deterministic(
    r1: MultiPlatformProcess,
    m1: ProcessMetadata,
    r2: MultiPlatformProcess,
    m2: ProcessMetadata,
)
    requires
        spec_canonical_bytes(r1, m1) == spec_canonical_bytes(r2, m2),
    ensures
        spec_digest(r1, m1) == spec_digest(r2, m2),
{
}

} // verus!
