//! In-library model of the blob-store collaborator: opaque byte payloads
//! addressed by string keys. Uploads overwrite, deletes are idempotent —
//! the semantics the orchestrators rely on at the collaborator boundary.

use vstd::prelude::*;
use vstd::pervasive::VecAdditionalExecFns;

verus! {

/// One stored blob.
pub struct BlobEntry {
    pub key: String,
    pub data: Vec<u8>,
}

/// The key-to-payload map a sequence of entries denotes.
pub open spec fn blob_map(s: Seq<BlobEntry>) -> Map<Seq<char>, Seq<u8>>
    decreases s.len(),
{
    if s.len() == 0 {
        Map::empty()
    } else {
        blob_map(s.drop_last()).insert(s.last().key@, s.last().data@)
    }
}

/// No two entries share a key.
pub open spec fn unique_keys(s: Seq<BlobEntry>) -> bool {
    forall|i: int, j: int| 0 <= i < j < s.len() ==> s[i].key@ != s[j].key@
}

/// With unique keys, the entry sequence and its map agree position by
/// position: a key is in the map exactly when some entry holds it, and the
/// map then yields that entry's payload.
pub proof fn lemma_blob_map_props(s: Seq<BlobEntry>)
    requires
        unique_keys(s),
    ensures
        forall|k: Seq<char>|
            blob_map(s).contains_key(k) <==> exists|i: int| 0 <= i < s.len() && s[i].key@ == k,
        forall|i: int| 0 <= i < s.len() ==> blob_map(s).contains_key(s[i].key@)
            && blob_map(s)[#[trigger] s[i].key@] == s[i].data@,
    decreases s.len(),
{
    if s.len() > 0 {
        let s0 = s.drop_last();
        assert(unique_keys(s0));
        lemma_blob_map_props(s0);
        assert forall|i: int| 0 <= i < s.len() implies blob_map(s).contains_key(s[i].key@)
            && blob_map(s)[#[trigger] s[i].key@] == s[i].data@ by {
            if i < s.len() - 1 {
                assert(s0[i] == s[i]);
                assert(blob_map(s0).contains_key(s0[i].key@)
                    && blob_map(s0)[s0[i].key@] == s0[i].data@);
                assert(s[i].key@ != s.last().key@);
            } else {
                assert(s[i] == s.last());
            }
        }
        assert forall|k: Seq<char>| #[trigger] blob_map(s).contains_key(k) implies exists|i: int|
            0 <= i < s.len() && s[i].key@ == k by {
            if k == s.last().key@ {
                assert(s[s.len() - 1].key@ == k);
            } else {
                assert(blob_map(s0).contains_key(k));
                assert(exists|i: int| 0 <= i < s0.len() && s0[i].key@ == k);
                let i = choose|i: int| 0 <= i < s0.len() && s0[i].key@ == k;
                assert(s[i] == s0[i]);
                assert(s[i].key@ == k);
            }
        }
        assert forall|k: Seq<char>| (exists|i: int| 0 <= i < s.len() && s[i].key@ == k) implies
            blob_map(s).contains_key(k) by {
            let i = choose|i: int| 0 <= i < s.len() && s[i].key@ == k;
            assert(blob_map(s).contains_key(s[i].key@));
        }
    }
}

/// The blob-store model: a collection of keyed payloads.
pub struct BlobStore {
    entries: Vec<BlobEntry>,
}

impl View for BlobStore {
    type V = Map<Seq<char>, Seq<u8>>;

    closed spec fn view(&self) -> Map<Seq<char>, Seq<u8>> {
        blob_map(self.entries@)
    }
}

/// Copies a byte buffer.
pub fn copy_bytes(v: &Vec<u8>) -> (r: Vec<u8>)
    ensures
        r@ == v@,
{
    let mut r: Vec<u8> = Vec::new();
    let mut i: usize = 0;
    while i < v.len()
        invariant
            i <= v.len(),
            r@ == v@.take(i as int),
        decreases v.len() - i,
    {
        r.push(v[i]);
        i = i + 1;
        proof {
            assert(r@ =~= v@.take(i as int));
        }
    }
    proof {
        assert(v@.take(v@.len() as int) =~= v@);
    }
    r
}

impl BlobStore {
    /// The store's structural invariant: entry keys are unique.
    pub closed spec fn wf(self) -> bool {
        unique_keys(self.entries@)
    }

    /// An empty store.
    pub fn new() -> (r: Self)
        ensures
            r.wf(),
            r@ == Map::<Seq<char>, Seq<u8>>::empty(),
    {
        BlobStore { entries: Vec::new() }
    }

    /// Index of the entry holding `key`, if any.
    fn find(&self, key: &str) -> (r: Option<usize>)
        requires
            self.wf(),
        ensures
            match r {
                Some(i) => i < self.entries@.len() && self.entries@[i as int].key@ == key@,
                None => !self@.contains_key(key@),
            },
    {
        proof {
            lemma_blob_map_props(self.entries@);
        }
        let k = key.to_owned();
        let mut i: usize = 0;
        while i < self.entries.len()
            invariant
                k@ == key@,
                i <= self.entries@.len(),
                forall|j: int| 0 <= j < i ==> self.entries@[j].key@ != key@,
            decreases self.entries@.len() - i,
        {
            if k.eq(&self.entries[i].key) {
                return Some(i);
            }
            i = i + 1;
        }
        None
    }

    /// Stores `bytes` under `blob_name`, overwriting any payload already
    /// there. Mirrors the collaborator's upload operation, which always
    /// succeeds in this model.
    pub fn upload_bytes(&mut self, blob_name: &str, bytes: &Vec<u8>)
        requires
            old(self).wf(),
        ensures
            final(self).wf(),
            final(self)@ == old(self)@.insert(blob_name@, bytes@),
    {
        let data = copy_bytes(bytes);
        let key = blob_name.to_owned();
        self.delete_blob(blob_name);
        let entry = BlobEntry { key, data };
        let ghost mid = self.entries@;
        proof {
            lemma_blob_map_props(mid);
            assert forall|p: int, q: int| 0 <= p < q < mid.push(entry).len() implies
                mid.push(entry)[p].key@ != mid.push(entry)[q].key@ by {
                if q == mid.len() {
                    assert(blob_map(mid).contains_key(mid[p].key@));
                    assert(!blob_map(mid).contains_key(blob_name@));
                }
            }
            assert(mid.push(entry).drop_last() =~= mid);
        }
        self.entries.push(entry);
        proof {
            assert(self@ =~= old(self)@.insert(blob_name@, bytes@));
        }
    }

    /// The payload stored under `blob_name`, or `None` when the key is
    /// absent.
    pub fn get_object(&self, blob_name: &str) -> (r: Option<Vec<u8>>)
        requires
            self.wf(),
        ensures
            match r {
                Some(v) => self@.contains_key(blob_name@) && v@ == self@[blob_name@],
                None => !self@.contains_key(blob_name@),
            },
    {
        proof {
            lemma_blob_map_props(self.entries@);
        }
        match self.find(blob_name) {
            Some(i) => Some(copy_bytes(&self.entries[i].data)),
            None => None,
        }
    }

    /// Removes the payload stored under `blob_name`. Deleting an absent key
    /// succeeds and changes nothing, as the collaborator's delete does.
    pub fn delete_blob(&mut self, blob_name: &str)
        requires
            old(self).wf(),
        ensures
            final(self).wf(),
            final(self)@ == old(self)@.remove(blob_name@),
    {
        match self.find(blob_name) {
            Some(i) => {
                let ghost s0 = self.entries@;
                let ghost s1 = s0.remove(i as int);
                proof {
                    lemma_blob_map_props(s0);
                    assert forall|p: int, q: int| 0 <= p < q < s1.len() implies
                        s1[p].key@ != s1[q].key@ by {
                        assert(s1[p] == (if p < i { s0[p] } else { s0[p + 1] }));
                        assert(s1[q] == (if q < i { s0[q] } else { s0[q + 1] }));
                    }
                    lemma_blob_map_props(s1);
                }
                self.entries.remove(i);
                proof {
                    let tgt = blob_map(s0).remove(blob_name@);
                    assert forall|k: Seq<char>| #[trigger] blob_map(s1).contains_key(k) implies
                        tgt.contains_key(k) && blob_map(s1)[k] == tgt[k] by {
                        let p = choose|p: int| 0 <= p < s1.len() && s1[p].key@ == k;
                        let q = if p < i { p } else { p + 1 };
                        assert(s0[q] == s1[p]);
                        assert(k != blob_name@);
                        assert(blob_map(s0)[k] == s0[q].data@);
                        assert(blob_map(s1)[k] == s1[p].data@);
                    }
                    assert forall|k: Seq<char>| #[trigger] tgt.contains_key(k) implies
                        blob_map(s1).contains_key(k) by {
                        let q = choose|q: int| 0 <= q < s0.len() && s0[q].key@ == k;
                        assert(q != i);
                        let p = if q < i { q } else { q - 1 };
                        assert(s1[p] == s0[q]);
                    }
                    assert(self@ =~= old(self)@.remove(blob_name@));
                }
            },
            None => {
                proof {
                    assert(self@ =~= old(self)@.remove(blob_name@));
                }
            },
        }
    }
}

} // verus!
