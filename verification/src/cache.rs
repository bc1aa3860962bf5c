//! The index of completed files: a mapping from file identifier to the
//! record of the file on disk.

use vstd::prelude::*;
use std::collections::HashMap;
use vstd::std_specs::hash::spec_values_iter;
use vstd::std_specs::iter::IteratorSpec;
use crate::model::LocalFile;

verus! {

broadcast use vstd::std_specs::hash::group_hash_axioms;

/// No file identifier occurs twice.
pub open spec fn distinct(files: Seq<LocalFile>) -> bool {
    forall|i: int, j: int| 0 <= i < j < files.len() ==> (#[trigger] files[i]).file_id != (#[trigger] files[j]).file_id
}

/// The mapping that records make when they are inserted one after the
/// other: of two records for one file the later one stays.
pub open spec fn indexed(files: Seq<LocalFile>) -> Map<u64, LocalFile>
    decreases files.len(),
{
    if files.len() == 0 {
        Map::empty()
    } else {
        indexed(files.drop_last()).insert(files.last().file_id, files.last())
    }
}

/// The index holds a record for exactly the file identifiers that occur
/// among the records.
pub proof fn lemma_indexed_keys(files: Seq<LocalFile>, key: u64)
    ensures
        indexed(files).contains_key(key) <==> exists|i: int|
            0 <= i < files.len() && (#[trigger] files[i]).file_id == key,
    decreases files.len(),
{
    if files.len() > 0 {
        let front = files.drop_last();
        lemma_indexed_keys(front, key);
        if indexed(files).contains_key(key) {
            if files.last().file_id == key {
                assert(files[files.len() - 1].file_id == key);
            } else {
                let i = choose|i: int| 0 <= i < front.len() && (#[trigger] front[i]).file_id == key;
                assert(files[i].file_id == key);
            }
        }
        if exists|i: int| 0 <= i < files.len() && (#[trigger] files[i]).file_id == key {
            let i = choose|i: int| 0 <= i < files.len() && (#[trigger] files[i]).file_id == key;
            if i < files.len() - 1 {
                assert(front[i].file_id == key);
            }
        }
    }
}

/// Where no file identifier occurs twice, the index holds every record
/// under its identifier.
pub proof fn lemma_indexed_value(files: Seq<LocalFile>, i: int)
    requires
        distinct(files),
        0 <= i < files.len(),
    ensures
        indexed(files).contains_key(files[i].file_id),
        indexed(files)[files[i].file_id] == files[i],
    decreases files.len(),
{
    let front = files.drop_last();
    if i < files.len() - 1 {
        assert(front[i] == files[i]);
        assert(distinct(front)) by {
            assert forall|a: int, b: int| 0 <= a < b < front.len() implies (#[trigger] front[a]).file_id != (
            #[trigger] front[b]).file_id by {
                assert(front[a] == files[a] && front[b] == files[b]);
            }
        }
        lemma_indexed_value(front, i);
        assert(files[i].file_id != files[files.len() - 1].file_id);
    }
}

/// The order of a scan does not matter: two scans that found the same
/// records, no file identifier twice, make the same index.
pub proof fn scan_order_is_irrelevant(one: Seq<LocalFile>, other: Seq<LocalFile>)
    requires
        distinct(one),
        distinct(other),
        forall|i: int| 0 <= i < one.len() ==> other.contains(#[trigger] one[i]),
        forall|j: int| 0 <= j < other.len() ==> one.contains(#[trigger] other[j]),
    ensures
        indexed(one) == indexed(other),
{
    assert forall|key: u64| indexed(one).contains_key(key) == indexed(other).contains_key(key) by {
        lemma_indexed_keys(one, key);
        lemma_indexed_keys(other, key);
        if indexed(one).contains_key(key) {
            let i = choose|i: int| 0 <= i < one.len() && (#[trigger] one[i]).file_id == key;
            assert(other.contains(one[i]));
            let j = choose|j: int| 0 <= j < other.len() && other[j] == one[i];
            assert(other[j].file_id == key);
        }
        if indexed(other).contains_key(key) {
            let j = choose|j: int| 0 <= j < other.len() && (#[trigger] other[j]).file_id == key;
            assert(one.contains(other[j]));
            let i = choose|i: int| 0 <= i < one.len() && one[i] == other[j];
            assert(one[i].file_id == key);
        }
    }
    assert forall|key: u64| indexed(one).contains_key(key) implies indexed(one)[key] == indexed(other)[key] by {
        lemma_indexed_keys(one, key);
        let i = choose|i: int| 0 <= i < one.len() && (#[trigger] one[i]).file_id == key;
        assert(other.contains(one[i]));
        let j = choose|j: int| 0 <= j < other.len() && other[j] == one[i];
        lemma_indexed_value(one, i);
        lemma_indexed_value(other, j);
    }
    assert(indexed(one) =~= indexed(other));
}

/// The index, keyed by file identifier.
pub struct LocalFileCache {
    map: HashMap<u64, LocalFile>,
}

impl LocalFileCache {
    /// The mapping from file identifier to record.
    pub closed spec fn view(&self) -> Map<u64, LocalFile> {
        self.map@
    }

    /// Every record stands under its own file identifier.
    pub closed spec fn wf(&self) -> bool {
        forall|key: u64| self.map@.contains_key(key) ==> (#[trigger] self.map@[key]).file_id == key
    }

    /// The index without any record.
    pub fn empty() -> (r: Self)
        ensures
            r.wf(),
            r@ == Map::<u64, LocalFile>::empty(),
    {
        LocalFileCache { map: HashMap::new() }
    }

    /// The index of the records that a scan of the download directory
    /// found, in the order of the scan: where two records are for one file,
    /// the later one stays.
    pub fn new(records: &Vec<LocalFile>) -> (r: Self)
        ensures
            r.wf(),
            r@ == indexed(records@),
    {
        let mut cache = LocalFileCache::empty();
        let mut i: usize = 0;
        while i < records.len()
            invariant
                i <= records@.len(),
                cache.wf(),
                cache@ == indexed(records@.take(i as int)),
            decreases records@.len() - i,
        {
            cache.push(records[i].duplicate());
            proof {
                assert(records@.take(i + 1).drop_last() =~= records@.take(i as int));
            }
            i = i + 1;
        }
        proof {
            assert(records@.take(i as int) =~= records@);
        }
        cache
    }

    /// Inserts `value` under its file identifier, in place of the record
    /// that was there, if any.
    pub fn push(&mut self, value: LocalFile)
        requires
            old(self).wf(),
        ensures
            final(self).wf(),
            final(self)@ == old(self)@.insert(value.file_id, value),
    {
        let key = value.file_id;
        self.map.insert(key, value);
    }

    /// The record for `key`, if the index holds one.
    pub fn get(&self, key: u64) -> (r: Option<LocalFile>)
        ensures
            r == (if self@.contains_key(key) {
                Some(self@[key])
            } else {
                None
            }),
    {
        match self.map.get(&key) {
            Some(file) => Some(file.duplicate()),
            None => None,
        }
    }

    /// Whether the index holds a record for `key`.
    pub fn contains(&self, key: u64) -> (r: bool)
        ensures
            r == self@.contains_key(key),
    {
        self.map.contains_key(&key)
    }

    /// Every record of the index, each once, in no particular order.
    pub fn items(&self) -> (r: Vec<LocalFile>)
        requires
            self.wf(),
        ensures
            r@.len() == self@.dom().len(),
            r@.to_set() == self@.values(),
            forall|j: int|
                0 <= j < r@.len() ==> self@.contains_key((#[trigger] r@[j]).file_id) && self@[r@[j].file_id]
                    == r@[j],
            forall|key: u64|
                self@.contains_key(key) ==> exists|j: int| 0 <= j < r@.len() && (#[trigger] r@[j]).file_id == key,
    {
        let mut out: Vec<LocalFile> = Vec::new();
        for file in walk: self.map.values()
            invariant
                out@.len() == walk.index(),
                forall|j: int| 0 <= j < out@.len() ==> out@[j] == *walk.seq()[j],
        {
            out.push(file.duplicate());
        }
        proof {
            let walked = spec_values_iter(&self.map).remaining();
            assert(out@ =~= walked.unref());
            assert forall|j: int| 0 <= j < out@.len() implies self@.contains_key((#[trigger] out@[j]).file_id)
                && self@[out@[j].file_id] == out@[j] by {
                assert(out@.to_set().contains(out@[j]));
                assert(self@.values().contains(out@[j]));
            }
            assert forall|key: u64| self@.contains_key(key) implies exists|j: int|
                0 <= j < out@.len() && (#[trigger] out@[j]).file_id == key by {
                assert(self@.values().contains(self@[key]));
                assert(out@.to_set().contains(self@[key]));
                let j = choose|j: int| 0 <= j < out@.len() && out@[j] == self@[key];
                assert(out@[j].file_id == key);
            }
        }
        out
    }
}

} // verus!
