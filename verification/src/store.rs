//! In-memory models of the two storage capabilities the cache relies on: a
//! durable byte store keyed by fingerprint, and a content-addressed store
//! queried for reachability of digests.
//!
//! Both expose fault flags so that callers (and tests) can exercise the
//! cache's failure contract: a failing read or write path here must never
//! fail a run.

use vstd::prelude::*;

use crate::model::{CacheError, Digest, Fingerprint};

verus! {

/// The durable key-value store for encoded cache entries.  A write
/// unconditionally replaces any previous value under the same key; there is
/// no deletion path.
pub struct ByteStore {
    pub entries: Vec<(Fingerprint, Vec<u8>)>,
    /// When set, every load fails, as a broken read path would.
    pub fail_reads: bool,
    /// When set, every store fails, as a broken write path would.
    pub fail_writes: bool,
}

/// The mapping a sequence of writes denotes: later writes shadow earlier
/// ones under the same key.
pub open spec fn map_of(s: Seq<(Fingerprint, Vec<u8>)>) -> Map<Fingerprint, Seq<u8>>
    decreases s.len(),
{
    if s.len() == 0 {
        Map::empty()
    } else {
        map_of(s.drop_last()).insert(s.last().0, s.last().1@)
    }
}

proof fn lemma_map_of_absent(s: Seq<(Fingerprint, Vec<u8>)>, key: Fingerprint)
    requires
        forall|j: int| 0 <= j < s.len() ==> (#[trigger] s[j]).0 != key,
    ensures
        !map_of(s).contains_key(key),
    decreases s.len(),
{
    if s.len() > 0 {
        assert(forall|j: int|
            0 <= j < s.drop_last().len() ==> (#[trigger] s.drop_last()[j]).0 != key);
        lemma_map_of_absent(s.drop_last(), key);
    }
}

proof fn lemma_map_of_found(s: Seq<(Fingerprint, Vec<u8>)>, key: Fingerprint, i: int)
    requires
        0 <= i < s.len(),
        s[i].0 == key,
        forall|j: int| i < j < s.len() ==> (#[trigger] s[j]).0 != key,
    ensures
        map_of(s).contains_key(key),
        map_of(s)[key] == s[i].1@,
    decreases s.len(),
{
    if i < s.len() - 1 {
        assert(s.drop_last()[i] == s[i]);
        assert(forall|j: int|
            i < j < s.drop_last().len() ==> (#[trigger] s.drop_last()[j]).0 != key);
        lemma_map_of_found(s.drop_last(), key, i);
    }
}

impl ByteStore {
    /// The mapping from fingerprint to stored bytes that this store holds.
    pub open spec fn contents(self) -> Map<Fingerprint, Seq<u8>> {
        map_of(self.entries@)
    }

    pub fn new() -> (s: ByteStore)
        ensures
            s.contents() == Map::<Fingerprint, Seq<u8>>::empty(),
            !s.fail_reads,
            !s.fail_writes,
    {
        ByteStore { entries: Vec::new(), fail_reads: false, fail_writes: false }
    }

    /// Fetch the bytes stored under a fingerprint.  Absence is a normal
    /// outcome, not an error; only a broken read path gives an error.
    pub fn load_bytes(&self, fingerprint: Fingerprint) -> (r: Result<Option<Vec<u8>>, CacheError>)
        ensures
            self.fail_reads ==> r == Err::<Option<Vec<u8>>, CacheError>(CacheError::StoreReadFailed),
            !self.fail_reads && self.contents().contains_key(fingerprint) ==> (r matches Ok(
                Some(v),
            ) && v@ == self.contents()[fingerprint]),
            !self.fail_reads && !self.contents().contains_key(fingerprint) ==> r == Ok::<
                Option<Vec<u8>>,
                CacheError,
            >(None),
    {
        if self.fail_reads {
            return Err(CacheError::StoreReadFailed);
        }
        let n = self.entries.len();
        let mut i = n;
        while i > 0
            invariant
                !self.fail_reads,
                i <= n,
                n == self.entries@.len(),
                forall|j: int| i <= j < n ==> (#[trigger] self.entries@[j]).0 != fingerprint,
            decreases i,
        {
            i = i - 1;
            if self.entries[i].0 == fingerprint {
                let bytes = self.entries[i].1.clone();
                proof {
                    lemma_map_of_found(self.entries@, fingerprint, i as int);
                    assert forall|k: int|
                        0 <= k < bytes@.len() implies bytes@[k] == self.entries@[i as int].1@[k] by {
                        assert(cloned::<u8>(self.entries@[i as int].1@[k], bytes@[k]));
                    }
                    assert(bytes@ =~= self.entries@[i as int].1@);
                }
                return Ok(Some(bytes));
            }
        }
        proof {
            lemma_map_of_absent(self.entries@, fingerprint);
        }
        Ok(None)
    }

    /// Persist bytes under a fingerprint, replacing any prior value.  Only
    /// a broken write path gives an error, and then nothing changes.
    pub fn store_bytes(&mut self, fingerprint: Fingerprint, bytes: Vec<u8>) -> (r: Result<
        (),
        CacheError,
    >)
        ensures
            old(self).fail_writes ==> r == Err::<(), CacheError>(CacheError::StoreWriteFailed)
                && *final(self) == *old(self),
            !old(self).fail_writes ==> r == Ok::<(), CacheError>(()) && final(self).contents()
                == old(self).contents().insert(fingerprint, bytes@),
            final(self).fail_reads == old(self).fail_reads,
            final(self).fail_writes == old(self).fail_writes,
    {
        if self.fail_writes {
            return Err(CacheError::StoreWriteFailed);
        }
        let ghost before = self.entries@;
        self.entries.push((fingerprint, bytes));
        proof {
            assert(self.entries@.drop_last() =~= before);
        }
        Ok(())
    }
}

/// The content-addressed store, modelled by which file digests and which
/// directory-tree digests are present locally.
pub struct FileStore {
    pub files: Vec<Digest>,
    pub trees: Vec<Digest>,
}

proof fn lemma_contains_push(s: Seq<Digest>, x: Digest, y: Digest)
    ensures
        s.push(x).contains(y) <==> s.contains(y) || y == x,
{
    if s.push(x).contains(y) {
        let k = choose|k: int| 0 <= k < s.push(x).len() && s.push(x)[k] == y;
        if k < s.len() {
            assert(s[k] == y);
        }
    }
    if s.contains(y) {
        let k = choose|k: int| 0 <= k < s.len() && s[k] == y;
        assert(s.push(x)[k] == y);
    }
    if y == x {
        assert(s.push(x)[s.len() as int] == y);
    }
}

fn remove_digest(v: &mut Vec<Digest>, d: Digest)
    ensures
        forall|x: Digest| #[trigger] final(v)@.contains(x) <==> old(v)@.contains(x) && x != d,
{
    let n = v.len();
    let mut out: Vec<Digest> = Vec::new();
    let mut i: usize = 0;
    while i < n
        invariant
            i <= n,
            n == v@.len(),
            forall|x: Digest| #[trigger]
                out@.contains(x) <==> v@.subrange(0, i as int).contains(x) && x != d,
        decreases n - i,
    {
        let ghost prefix = v@.subrange(0, i as int);
        let ghost out_before = out@;
        let x = v[i];
        if !(x == d) {
            out.push(x);
        }
        proof {
            assert(v@.subrange(0, i as int + 1) =~= prefix.push(x));
            assert forall|y: Digest| #[trigger]
                out@.contains(y) <==> (prefix.push(x).contains(y) && y != d) by {
                lemma_contains_push(prefix, x, y);
                if x != d {
                    lemma_contains_push(out_before, x, y);
                }
            }
        }
        i = i + 1;
    }
    proof {
        assert(v@.subrange(0, n as int) =~= v@);
    }
    *v = out;
}

fn contains_digest(v: &Vec<Digest>, d: Digest) -> (r: bool)
    ensures
        r == v@.contains(d),
{
    let n = v.len();
    let mut i: usize = 0;
    while i < n
        invariant
            i <= n,
            n == v@.len(),
            forall|j: int| 0 <= j < i ==> v@[j] != d,
        decreases n - i,
    {
        if v[i] == d {
            return true;
        }
        i = i + 1;
    }
    proof {
        assert(!v@.contains(d));
    }
    false
}

impl FileStore {
    pub open spec fn has_file(self, d: Digest) -> bool {
        self.files@.contains(d)
    }

    pub open spec fn has_tree(self, d: Digest) -> bool {
        self.trees@.contains(d)
    }

    pub fn new() -> (s: FileStore)
        ensures
            forall|d: Digest| !(#[trigger] s.has_file(d)),
            forall|d: Digest| !(#[trigger] s.has_tree(d)),
    {
        FileStore { files: Vec::new(), trees: Vec::new() }
    }

    /// Record a file blob as present locally.
    pub fn add_file(&mut self, d: Digest)
        ensures
            forall|x: Digest| #[trigger]
                final(self).has_file(x) <==> old(self).has_file(x) || x == d,
            forall|x: Digest| #[trigger] final(self).has_tree(x) == old(self).has_tree(x),
    {
        let ghost before = self.files@;
        self.files.push(d);
        proof {
            assert forall|x: Digest| #[trigger]
                self.files@.contains(x) <==> before.contains(x) || x == d by {
                lemma_contains_push(before, d, x);
            }
        }
    }

    /// Record a directory tree as present locally.
    pub fn add_tree(&mut self, d: Digest)
        ensures
            forall|x: Digest| #[trigger]
                final(self).has_tree(x) <==> old(self).has_tree(x) || x == d,
            forall|x: Digest| #[trigger] final(self).has_file(x) == old(self).has_file(x),
    {
        let ghost before = self.trees@;
        self.trees.push(d);
        proof {
            assert forall|x: Digest| #[trigger]
                self.trees@.contains(x) <==> before.contains(x) || x == d by {
                lemma_contains_push(before, d, x);
            }
        }
    }

    /// Drop a file blob, as content-store garbage collection would.
    pub fn remove_file(&mut self, d: Digest)
        ensures
            forall|x: Digest| #[trigger]
                final(self).has_file(x) <==> old(self).has_file(x) && x != d,
            forall|x: Digest| #[trigger] final(self).has_tree(x) == old(self).has_tree(x),
    {
        remove_digest(&mut self.files, d);
    }

    /// Drop a directory tree, as content-store garbage collection would.
    pub fn remove_tree(&mut self, d: Digest)
        ensures
            forall|x: Digest| #[trigger]
                final(self).has_tree(x) <==> old(self).has_tree(x) && x != d,
            forall|x: Digest| #[trigger] final(self).has_file(x) == old(self).has_file(x),
    {
        remove_digest(&mut self.trees, d);
    }

    /// Confirm that a file blob is reachable locally.
    pub fn ensure_local_has_file(&self, d: Digest) -> (r: Result<(), CacheError>)
        ensures
            r == if self.has_file(d) {
                Ok::<(), CacheError>(())
            } else {
                Err::<(), CacheError>(CacheError::ContentMissing(d))
            },
    {
        if contains_digest(&self.files, d) {
            Ok(())
        } else {
            Err(CacheError::ContentMissing(d))
        }
    }

    /// Confirm that a directory tree is reachable locally, recursively.
    pub fn ensure_local_has_recursive_directory(&self, d: Digest) -> (r: Result<(), CacheError>)
        ensures
            r == if self.has_tree(d) {
                Ok::<(), CacheError>(())
            } else {
                Err::<(), CacheError>(CacheError::ContentMissing(d))
            },
    {
        if contains_digest(&self.trees, d) {
            Ok(())
        } else {
            Err(CacheError::ContentMissing(d))
        }
    }
}

} // verus!
