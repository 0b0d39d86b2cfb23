//! The persisted cache-entry format.
//!
//! An entry is one fixed-size byte record: a platform tag, three flag bytes,
//! then the timing field, the exit code and the three content digests, each
//! little-endian.  `decode_entry` accepts exactly the byte strings that
//! `encode_entry` produces (plus records whose action-result payload is
//! marked absent, which readers must treat as an error), and decoding an
//! encoded record gives back exactly what was encoded.

use vstd::bytes::*;
use vstd::prelude::*;

use crate::model::{Digest, Fingerprint, Platform};

verus! {

/// The action-result record stored for one fingerprint: everything needed
/// to reconstruct a process result, except the result source (which is
/// always "hit" when read back).
#[derive(Clone, Copy, Debug, PartialEq, Eq)]
pub struct CacheRecord {
    pub exit_code: i32,
    pub output_directory: Digest,
    pub stdout_digest: Digest,
    pub stderr_digest: Digest,
    pub total_elapsed_ms: Option<u64>,
    pub cached_result: bool,
}

/// Total length of an encoded entry.
pub const ENTRY_LEN: usize = 136;

pub open spec fn spec_platform_tag(p: Platform) -> u8 {
    match p {
        Platform::Darwin => 0u8,
        Platform::Linux => 1u8,
    }
}

pub open spec fn spec_platform_of_tag(t: u8) -> Option<Platform> {
    if t == 0u8 {
        Some(Platform::Darwin)
    } else if t == 1u8 {
        Some(Platform::Linux)
    } else {
        None
    }
}

/// A digest is 40 bytes: its four hash words and its size, little-endian.
pub open spec fn spec_encode_digest(d: Digest) -> Seq<u8> {
    spec_u64_to_le_bytes(d.hash.w0) + spec_u64_to_le_bytes(d.hash.w1) + spec_u64_to_le_bytes(
        d.hash.w2,
    ) + spec_u64_to_le_bytes(d.hash.w3) + spec_u64_to_le_bytes(d.size_bytes)
}

pub open spec fn spec_decode_digest(s: Seq<u8>) -> Digest
    recommends
        s.len() == 40,
{
    Digest {
        hash: Fingerprint {
            w0: spec_u64_from_le_bytes(s.subrange(0, 8)),
            w1: spec_u64_from_le_bytes(s.subrange(8, 16)),
            w2: spec_u64_from_le_bytes(s.subrange(16, 24)),
            w3: spec_u64_from_le_bytes(s.subrange(24, 32)),
        },
        size_bytes: spec_u64_from_le_bytes(s.subrange(32, 40)),
    }
}

pub open spec fn spec_bool_byte(b: bool) -> u8 {
    if b {
        1u8
    } else {
        0u8
    }
}

/// The encoding of a present record under a platform tag.
pub open spec fn spec_encode_entry(platform: Platform, r: CacheRecord) -> Seq<u8> {
    seq![
        spec_platform_tag(platform),
        1u8,
        spec_bool_byte(r.cached_result),
        spec_bool_byte(r.total_elapsed_ms is Some),
    ] + spec_u64_to_le_bytes(
        match r.total_elapsed_ms {
            Some(v) => v,
            None => 0u64,
        },
    ) + spec_u32_to_le_bytes(r.exit_code as u32) + spec_encode_digest(r.output_directory)
        + spec_encode_digest(r.stdout_digest) + spec_encode_digest(r.stderr_digest)
}

/// What any byte string decodes to: `None` for byte strings that are no
/// entry at all; `Some((platform, None))` for an entry whose action-result
/// record is marked absent; otherwise the platform and the record.
pub open spec fn spec_decode_entry(s: Seq<u8>) -> Option<(Platform, Option<CacheRecord>)> {
    if s.len() != 136 {
        None
    } else {
        match spec_platform_of_tag(s[0]) {
            None => None,
            Some(platform) => {
                if !(s[1] == 0u8 || s[1] == 1u8) || !(s[2] == 0u8 || s[2] == 1u8) || !(s[3] == 0u8
                    || s[3] == 1u8) {
                    None
                } else if s[1] == 0u8 {
                    Some((platform, None))
                } else {
                    Some(
                        (
                            platform,
                            Some(
                                (CacheRecord {
                                    exit_code: spec_u32_from_le_bytes(s.subrange(12, 16)) as i32,
                                    output_directory: spec_decode_digest(s.subrange(16, 56)),
                                    stdout_digest: spec_decode_digest(s.subrange(56, 96)),
                                    stderr_digest: spec_decode_digest(s.subrange(96, 136)),
                                    total_elapsed_ms: if s[3] == 1u8 {
                                        Some(spec_u64_from_le_bytes(s.subrange(4, 12)))
                                    } else {
                                        None
                                    },
                                    cached_result: s[2] == 1u8,
                                }),
                            ),
                        ),
                    )
                }
            },
        }
    }
}

pub(crate) fn push_u64(out: &mut Vec<u8>, x: u64)
    ensures
        final(out)@ == old(out)@ + spec_u64_to_le_bytes(x),
{
    let mut bytes = u64_to_le_bytes(x);
    out.append(&mut bytes);
}

fn push_digest(out: &mut Vec<u8>, d: &Digest)
    ensures
        final(out)@ == old(out)@ + spec_encode_digest(*d),
{
    push_u64(out, d.hash.w0);
    push_u64(out, d.hash.w1);
    push_u64(out, d.hash.w2);
    push_u64(out, d.hash.w3);
    push_u64(out, d.size_bytes);
}

fn platform_tag(p: Platform) -> (t: u8)
    ensures
        t == spec_platform_tag(p),
{
    match p {
        Platform::Darwin => 0,
        Platform::Linux => 1,
    }
}

/// Encode a record for persisting under its platform tag.
pub fn encode_entry(platform: Platform, r: &CacheRecord) -> (out: Vec<u8>)
    ensures
        out@ == spec_encode_entry(platform, *r),
{
    let mut out: Vec<u8> = Vec::new();
    out.push(platform_tag(platform));
    out.push(1);
    out.push(if r.cached_result { 1 } else { 0 });
    match r.total_elapsed_ms {
        Some(v) => {
            out.push(1);
            push_u64(&mut out, v);
        },
        None => {
            out.push(0);
            push_u64(&mut out, 0);
        },
    }
    let mut exit_bytes = u32_to_le_bytes(r.exit_code as u32);
    out.append(&mut exit_bytes);
    push_digest(&mut out, &r.output_directory);
    push_digest(&mut out, &r.stdout_digest);
    push_digest(&mut out, &r.stderr_digest);
    proof {
        assert(out@ =~= spec_encode_entry(platform, *r));
    }
    out
}

fn read_u64(bytes: &Vec<u8>, off: usize) -> (x: u64)
    requires
        off + 8 <= bytes@.len(),
    ensures
        x == spec_u64_from_le_bytes(bytes@.subrange(off as int, off as int + 8)),
{
    let n = bytes.len();
    let s = vstd::slice::slice_subrange(bytes.as_slice(), off, off + 8);
    u64_from_le_bytes(s)
}

fn read_digest(bytes: &Vec<u8>, off: usize) -> (d: Digest)
    requires
        off + 40 <= bytes@.len(),
    ensures
        d == spec_decode_digest(bytes@.subrange(off as int, off as int + 40)),
{
    let n = bytes.len();
    let d = Digest {
        hash: Fingerprint {
            w0: read_u64(bytes, off),
            w1: read_u64(bytes, off + 8),
            w2: read_u64(bytes, off + 16),
            w3: read_u64(bytes, off + 24),
        },
        size_bytes: read_u64(bytes, off + 32),
    };
    proof {
        let window = bytes@.subrange(off as int, off as int + 40);
        assert(window.subrange(0, 8) =~= bytes@.subrange(off as int, off as int + 8));
        assert(window.subrange(8, 16) =~= bytes@.subrange(off as int + 8, off as int + 16));
        assert(window.subrange(16, 24) =~= bytes@.subrange(off as int + 16, off as int + 24));
        assert(window.subrange(24, 32) =~= bytes@.subrange(off as int + 24, off as int + 32));
        assert(window.subrange(32, 40) =~= bytes@.subrange(off as int + 32, off as int + 40));
    }
    d
}

/// Decode a stored byte string; returns exactly what `spec_decode_entry`
/// says, so corrupt entries give `None` and an entry without its
/// action-result record gives `Some((platform, None))`.
pub fn decode_entry(bytes: &Vec<u8>) -> (r: Option<(Platform, Option<CacheRecord>)>)
    ensures
        r == spec_decode_entry(bytes@),
{
    if bytes.len() != ENTRY_LEN {
        return None;
    }
    let platform = if bytes[0] == 0 {
        Platform::Darwin
    } else if bytes[0] == 1 {
        Platform::Linux
    } else {
        return None;
    };
    if !(bytes[1] == 0 || bytes[1] == 1) || !(bytes[2] == 0 || bytes[2] == 1) || !(bytes[3] == 0
        || bytes[3] == 1) {
        return None;
    }
    if bytes[1] == 0 {
        return Some((platform, None));
    }
    let exit_slice = vstd::slice::slice_subrange(bytes.as_slice(), 12, 16);
    let exit_u32 = u32_from_le_bytes(exit_slice);
    let record = CacheRecord {
        exit_code: exit_u32 as i32,
        output_directory: read_digest(bytes, 16),
        stdout_digest: read_digest(bytes, 56),
        stderr_digest: read_digest(bytes, 96),
        total_elapsed_ms: if bytes[3] == 1 {
            Some(read_u64(bytes, 4))
        } else {
            None
        },
        cached_result: bytes[2] == 1,
    };
    Some((platform, Some(record)))
}

proof fn lemma_decode_encode_digest(d: Digest)
    ensures
        spec_encode_digest(d).len() == 40,
        spec_decode_digest(spec_encode_digest(d)) == d,
{
    lemma_auto_spec_u64_to_from_le_bytes();
    let s = spec_encode_digest(d);
    assert(s.subrange(0, 8) =~= spec_u64_to_le_bytes(d.hash.w0));
    assert(s.subrange(8, 16) =~= spec_u64_to_le_bytes(d.hash.w1));
    assert(s.subrange(16, 24) =~= spec_u64_to_le_bytes(d.hash.w2));
    assert(s.subrange(24, 32) =~= spec_u64_to_le_bytes(d.hash.w3));
    assert(s.subrange(32, 40) =~= spec_u64_to_le_bytes(d.size_bytes));
}

/// Round trip: decoding an encoded entry gives back the platform and the
/// record that were encoded.
pub proof fn lemma_decode_encode(platform: Platform, r: CacheRecord)
    ensures
        spec_encode_entry(platform, r).len() == 136,
        spec_decode_entry(spec_encode_entry(platform, r)) == Some((platform, Some(r))),
{
    lemma_auto_spec_u64_to_from_le_bytes();
    lemma_auto_spec_u32_to_from_le_bytes();
    lemma_decode_encode_digest(r.output_directory);
    lemma_decode_encode_digest(r.stdout_digest);
    lemma_decode_encode_digest(r.stderr_digest);
    let s = spec_encode_entry(platform, r);
    assert(s.len() == 136);
    assert(s[0] == spec_platform_tag(platform));
    assert(spec_platform_of_tag(spec_platform_tag(platform)) == Some(platform));
    assert(s.subrange(4, 12) =~= spec_u64_to_le_bytes(
        match r.total_elapsed_ms {
            Some(v) => v,
            None => 0u64,
        },
    ));
    assert(s.subrange(12, 16) =~= spec_u32_to_le_bytes(r.exit_code as u32));
    assert(s.subrange(16, 56) =~= spec_encode_digest(r.output_directory));
    assert(s.subrange(56, 96) =~= spec_encode_digest(r.stdout_digest));
    assert(s.subrange(96, 136) =~= spec_encode_digest(r.stderr_digest));
    let x: i32 = r.exit_code;
    assert(x as u32 as i32 == x) by (bit_vector);
}

} // verus!
