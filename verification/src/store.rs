//! The QR record store: the in-memory document collection that owns the QR
//! metadata lifecycle. It is keyed by property id and keeps at most one
//! record per property.

use vstd::prelude::*;
use vstd::string::*;
use crate::qr_code::QrCodeMetadata;
use crate::strutil::str_eq;
use crate::clock::now_unix;

verus! {

/// A collection of QR records with at most one record per property id.
pub struct QrRecordStore {
    records: Vec<QrCodeMetadata>,
}

impl QrRecordStore {
    /// The records held, in insertion order.
    pub closed spec fn spec_records(&self) -> Seq<QrCodeMetadata> {
        self.records@
    }

    /// The store's invariant: property ids are unique.
    pub open spec fn wf(&self) -> bool {
        forall|i: int, j: int|
            0 <= i < j < self.spec_records().len() ==> #[trigger] self.spec_records()[i].property_id@
                != #[trigger] self.spec_records()[j].property_id@
    }

    /// Whether a record for `pid` is held.
    pub open spec fn spec_has(&self, pid: Seq<char>) -> bool {
        exists|i: int|
            0 <= i < self.spec_records().len() && #[trigger] self.spec_records()[i].property_id@
                == pid
    }

    /// The record held for `pid`.
    pub open spec fn spec_get(&self, pid: Seq<char>) -> QrCodeMetadata {
        self.spec_records()[choose|i: int|
            0 <= i < self.spec_records().len() && #[trigger] self.spec_records()[i].property_id@
                == pid]
    }

    /// An empty store.
    pub fn new() -> (r: QrRecordStore)
        ensures
            r.wf(),
            r.spec_records().len() == 0,
            forall|pid: Seq<char>| !r.spec_has(pid),
    {
        QrRecordStore { records: Vec::new() }
    }

    /// How many records are held.
    pub fn len(&self) -> (r: usize)
        ensures
            r == self.spec_records().len(),
    {
        self.records.len()
    }

    /// Read access to the records, in insertion order.
    pub fn records(&self) -> (r: &Vec<QrCodeMetadata>)
        ensures
            r@ == self.spec_records(),
    {
        &self.records
    }

    fn find_index(&self, property_id: &str) -> (r: Option<usize>)
        ensures
            match r {
                Some(i) => i < self.spec_records().len() && self.spec_records()[i as int].property_id@
                    == property_id@,
                None => !self.spec_has(property_id@),
            },
    {
        let mut i: usize = 0;
        while i < self.records.len()
            invariant
                0 <= i <= self.spec_records().len(),
                forall|j: int|
                    0 <= j < i ==> #[trigger] self.spec_records()[j].property_id@ != property_id@,
            decreases self.spec_records().len() - i,
        {
            if str_eq(self.records[i].property_id.as_str(), property_id) {
                return Some(i);
            }
            i += 1;
        }
        None
    }

    /// The stored index holding `pid` is the one `spec_get` picks.
    proof fn lemma_get_at(&self, i: int)
        requires
            self.wf(),
            0 <= i < self.spec_records().len(),
        ensures
            self.spec_has(self.spec_records()[i].property_id@),
            self.spec_get(self.spec_records()[i].property_id@) == self.spec_records()[i],
    {
        let pid = self.spec_records()[i].property_id@;
        assert(self.spec_has(pid));
        let k = choose|k: int|
            0 <= k < self.spec_records().len() && #[trigger] self.spec_records()[k].property_id@
                == pid;
        if k != i {
            if k < i {
                assert(self.spec_records()[k].property_id@ != self.spec_records()[i].property_id@);
            } else {
                assert(self.spec_records()[i].property_id@ != self.spec_records()[k].property_id@);
            }
        }
    }

    /// The record for `property_id`, if one is held.
    pub fn get(&self, property_id: &str) -> (r: Option<&QrCodeMetadata>)
        requires
            self.wf(),
        ensures
            match r {
                Some(m) => self.spec_has(property_id@) && *m == self.spec_get(property_id@),
                None => !self.spec_has(property_id@),
            },
    {
        match self.find_index(property_id) {
            Some(i) => {
                proof {
                    self.lemma_get_at(i as int);
                }
                Some(&self.records[i])
            },
            None => None,
        }
    }

    /// Put `record` in, replacing any record of the same property id:
    /// idempotent upsert, never a duplicate insert. Every other property's
    /// record is untouched.
    pub fn upsert(&mut self, record: QrCodeMetadata)
        requires
            old(self).wf(),
        ensures
            final (self).wf(),
            final (self).spec_has(record.property_id@),
            final (self).spec_get(record.property_id@) == record,
            forall|q: Seq<char>|
                q != record.property_id@ ==> #[trigger] final (self).spec_has(q) == old(
                    self,
                ).spec_has(q),
            forall|q: Seq<char>|
                q != record.property_id@ && old(self).spec_has(q) ==> #[trigger] final (
                self).spec_get(q) == old(self).spec_get(q),
    {
        let ghost pre = *self;
        match self.find_index(record.property_id.as_str()) {
            Some(i) => {
                let ghost pid = record.property_id@;
                self.records.set(i, record);
                proof {
                    assert forall|a: int, b: int|
                        0 <= a < b < self.spec_records().len() implies #[trigger] self.spec_records()[a].property_id@
                        != #[trigger] self.spec_records()[b].property_id@ by {
                        assert(pre.spec_records()[a].property_id@
                            != pre.spec_records()[b].property_id@);
                        if a != i as int && b != i as int {
                        } else if a == i as int {
                            assert(pre.spec_records()[i as int].property_id@ == pid);
                        } else {
                            assert(pre.spec_records()[i as int].property_id@ == pid);
                        }
                    }
                    self.lemma_get_at(i as int);
                    assert forall|q: Seq<char>| q != pid implies #[trigger] self.spec_has(q)
                        == pre.spec_has(q) by {
                        if self.spec_has(q) {
                            let k = choose|k: int|
                                0 <= k < self.spec_records().len()
                                    && #[trigger] self.spec_records()[k].property_id@ == q;
                            assert(pre.spec_records()[k].property_id@ == q);
                        }
                        if pre.spec_has(q) {
                            let k = choose|k: int|
                                0 <= k < pre.spec_records().len()
                                    && #[trigger] pre.spec_records()[k].property_id@ == q;
                            assert(self.spec_records()[k].property_id@ == q);
                        }
                    }
                    assert forall|q: Seq<char>| q != pid && pre.spec_has(q) implies #[trigger] self.spec_get(
                        q,
                    ) == pre.spec_get(q) by {
                        let k = choose|k: int|
                            0 <= k < pre.spec_records().len()
                                && #[trigger] pre.spec_records()[k].property_id@ == q;
                        assert(self.spec_records()[k].property_id@ == q);
                        self.lemma_get_at(k);
                        pre.lemma_get_at(k);
                    }
                }
            },
            None => {
                let ghost pid = record.property_id@;
                self.records.push(record);
                proof {
                    assert forall|a: int, b: int|
                        0 <= a < b < self.spec_records().len() implies #[trigger] self.spec_records()[a].property_id@
                        != #[trigger] self.spec_records()[b].property_id@ by {
                        if b < self.spec_records().len() - 1 {
                            assert(pre.spec_records()[a].property_id@
                                != pre.spec_records()[b].property_id@);
                        } else {
                            assert(pre.spec_records()[a].property_id@ != pid);
                        }
                    }
                    self.lemma_get_at(self.spec_records().len() - 1);
                    assert forall|q: Seq<char>| q != pid implies #[trigger] self.spec_has(q)
                        == pre.spec_has(q) by {
                        if self.spec_has(q) {
                            let k = choose|k: int|
                                0 <= k < self.spec_records().len()
                                    && #[trigger] self.spec_records()[k].property_id@ == q;
                            assert(k < pre.spec_records().len());
                            assert(pre.spec_records()[k].property_id@ == q);
                        }
                        if pre.spec_has(q) {
                            let k = choose|k: int|
                                0 <= k < pre.spec_records().len()
                                    && #[trigger] pre.spec_records()[k].property_id@ == q;
                            assert(self.spec_records()[k].property_id@ == q);
                        }
                    }
                    assert forall|q: Seq<char>| q != pid && pre.spec_has(q) implies #[trigger] self.spec_get(
                        q,
                    ) == pre.spec_get(q) by {
                        let k = choose|k: int|
                            0 <= k < pre.spec_records().len()
                                && #[trigger] pre.spec_records()[k].property_id@ == q;
                        assert(self.spec_records()[k].property_id@ == q);
                        self.lemma_get_at(k);
                        pre.lemma_get_at(k);
                    }
                }
            },
        }
    }

    /// Remove the record of `property_id`; whether one was removed. Every
    /// other property's record is untouched.
    pub fn remove(&mut self, property_id: &str) -> (r: bool)
        requires
            old(self).wf(),
        ensures
            final (self).wf(),
            r == old(self).spec_has(property_id@),
            !final (self).spec_has(property_id@),
            forall|q: Seq<char>|
                q != property_id@ ==> #[trigger] final (self).spec_has(q) == old(self).spec_has(q),
            forall|q: Seq<char>|
                q != property_id@ && old(self).spec_has(q) ==> #[trigger] final (self).spec_get(q)
                    == old(self).spec_get(q),
    {
        let ghost pre = *self;
        match self.find_index(property_id) {
            Some(i) => {
                self.records.remove(i);
                proof {
                    let n = self.spec_records().len() as int;
                    let shift = |k: int|
                        if k < i as int {
                            k
                        } else {
                            k + 1
                        };
                    assert forall|a: int, b: int|
                        0 <= a < b < n implies #[trigger] self.spec_records()[a].property_id@
                        != #[trigger] self.spec_records()[b].property_id@ by {
                        assert(self.spec_records()[a] == pre.spec_records()[shift(a)]);
                        assert(self.spec_records()[b] == pre.spec_records()[shift(b)]);
                        assert(pre.spec_records()[shift(a)].property_id@
                            != pre.spec_records()[shift(b)].property_id@);
                    }
                    assert forall|q: Seq<char>| #[trigger] self.spec_has(q) implies pre.spec_has(q)
                        && q != property_id@ by {
                        let k = choose|k: int|
                            0 <= k < self.spec_records().len()
                                && #[trigger] self.spec_records()[k].property_id@ == q;
                        assert(self.spec_records()[k] == pre.spec_records()[shift(k)]);
                        assert(pre.spec_records()[shift(k)].property_id@ == q);
                        if q == property_id@ {
                            pre.lemma_get_at(shift(k));
                            pre.lemma_get_at(i as int);
                        }
                    }
                    assert forall|q: Seq<char>| q != property_id@ && pre.spec_has(q) implies
                        #[trigger] self.spec_has(q) by {
                        let k = choose|k: int|
                            0 <= k < pre.spec_records().len()
                                && #[trigger] pre.spec_records()[k].property_id@ == q;
                        if k < i as int {
                            assert(self.spec_records()[k].property_id@ == q);
                        } else {
                            assert(k != i as int) by {
                                assert(pre.spec_records()[i as int].property_id@ == property_id@);
                            }
                            assert(self.spec_records()[k - 1].property_id@ == q);
                        }
                    }
                    assert forall|q: Seq<char>| q != property_id@ && pre.spec_has(q) implies
                        #[trigger] self.spec_get(q) == pre.spec_get(q) by {
                        assert(self.spec_has(q));
                        let k = choose|k: int|
                            0 <= k < self.spec_records().len()
                                && #[trigger] self.spec_records()[k].property_id@ == q;
                        assert(self.spec_records()[k] == pre.spec_records()[shift(k)]);
                        self.lemma_get_at(k);
                        pre.lemma_get_at(shift(k));
                    }
                }
                true
            },
            None => false,
        }
    }

    /// Set the active flag of `property_id`'s record to false, touching
    /// nothing else of it; whether a record was there to deactivate.
    pub fn deactivate(&mut self, property_id: &str) -> (r: bool)
        requires
            old(self).wf(),
        ensures
            final (self).wf(),
            r == old(self).spec_has(property_id@),
            final (self).spec_has(property_id@) == old(self).spec_has(property_id@),
            old(self).spec_has(property_id@) ==> {
                let pre = old(self).spec_get(property_id@);
                let post = final (self).spec_get(property_id@);
                !post.is_active && post.id == pre.id && post.property_id == pre.property_id
                    && post.qr_code_url == pre.qr_code_url && post.qr_pattern == pre.qr_pattern
                    && post.qr_code_hash == pre.qr_code_hash && post.generated_at
                    == pre.generated_at && post.scan_count == pre.scan_count && post.last_scanned
                    == pre.last_scanned && post.qr_version == pre.qr_version && post.metadata
                    == pre.metadata
            },
            forall|q: Seq<char>|
                q != property_id@ ==> #[trigger] final (self).spec_has(q) == old(self).spec_has(q),
            forall|q: Seq<char>|
                q != property_id@ && old(self).spec_has(q) ==> #[trigger] final (self).spec_get(q)
                    == old(self).spec_get(q),
    {
        let ghost pre = *self;
        match self.find_index(property_id) {
            Some(i) => {
                proof {
                    pre.lemma_get_at(i as int);
                }
                let mut record = self.records.remove(i);
                record.is_active = false;
                record.last_updated = now_unix();
                self.records.insert(i, record);
                proof {
                    assert(self.spec_records() =~= pre.spec_records().update(
                        i as int,
                        self.spec_records()[i as int],
                    ));
                    assert(self.spec_records()[i as int].property_id@ == property_id@);
                    assert forall|a: int, b: int|
                        0 <= a < b < self.spec_records().len() implies #[trigger] self.spec_records()[a].property_id@
                        != #[trigger] self.spec_records()[b].property_id@ by {
                        assert(self.spec_records()[a].property_id@
                            == pre.spec_records()[a].property_id@);
                        assert(self.spec_records()[b].property_id@
                            == pre.spec_records()[b].property_id@);
                        assert(pre.spec_records()[a].property_id@
                            != pre.spec_records()[b].property_id@);
                    }
                    self.lemma_get_at(i as int);
                    assert forall|q: Seq<char>| #[trigger] self.spec_has(q) == pre.spec_has(q) by {
                        if self.spec_has(q) {
                            let k = choose|k: int|
                                0 <= k < self.spec_records().len()
                                    && #[trigger] self.spec_records()[k].property_id@ == q;
                            assert(pre.spec_records()[k].property_id@ == q);
                        }
                        if pre.spec_has(q) {
                            let k = choose|k: int|
                                0 <= k < pre.spec_records().len()
                                    && #[trigger] pre.spec_records()[k].property_id@ == q;
                            assert(self.spec_records()[k].property_id@ == q);
                        }
                    }
                    assert forall|q: Seq<char>| q != property_id@ && pre.spec_has(q) implies
                        #[trigger] self.spec_get(q) == pre.spec_get(q) by {
                        let k = choose|k: int|
                            0 <= k < pre.spec_records().len()
                                && #[trigger] pre.spec_records()[k].property_id@ == q;
                        assert(k != i as int);
                        assert(self.spec_records()[k] == pre.spec_records()[k]);
                        self.lemma_get_at(k);
                        pre.lemma_get_at(k);
                    }
                }
                true
            },
            None => false,
        }
    }
}

} // verus!
