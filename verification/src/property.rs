//! Property projection and the QR eligibility rule.

use vstd::prelude::*;
use vstd::string::*;
use crate::strutil::{str_eq, clone_opt_string, clone_vec_string, spec_contains_substr, contains_substr};
use crate::textenc::{lower_of, lowercase};
use crate::ident::{spec_is_object_id_hex, is_object_id_hex};

verus! {

/// The read-only projection of a property that the QR core consumes.
///
/// Identifiers and timestamps are carried as plain values: the property id is
/// the 24-character hex form of the document id, prices are integers in the
/// currency's minor unit.
#[derive(Debug, Clone)]
pub struct PropertyQrInfo {
    pub id: String,
    pub property_name: String,
    pub location: String,
    /// "for sale" or "for rent".
    pub action: String,
    pub price: i64,
    pub onchain_id: Option<String>,
    pub crypto_accepted: bool,
    /// Ordered list of image URLs; the first one is the primary image.
    pub images: Vec<String>,
    pub is_verified: Option<bool>,
    pub removed: Option<bool>,
}

impl PropertyQrInfo {
    /// Whether the property may have a QR code generated: it must not be
    /// removed, must have at least one image, and must have a positive price.
    pub open spec fn spec_is_qr_eligible(&self) -> bool {
        !(self.removed matches Some(true)) && self.images@.len() > 0 && self.price > 0
    }

    /// QR eligibility rule: not removed, at least one image, positive price.
    /// No other field is considered.
    pub fn is_qr_eligible(&self) -> (r: bool)
        ensures
            r == self.spec_is_qr_eligible(),
            r == (!(self.removed matches Some(true)) && self.images@.len() > 0 && self.price
                > 0),
    {
        let removed = match self.removed {
            Some(b) => b,
            None => false,
        };
        !removed && self.images.len() > 0 && self.price > 0
    }

    /// The primary property image, if any.
    pub fn get_primary_image(&self) -> (r: Option<&String>)
        ensures
            self.images@.len() > 0 ==> (r matches Some(s) && s@ == self.images@[0]@),
            self.images@.len() == 0 ==> r is None,
    {
        if self.images.len() > 0 {
            Some(&self.images[0])
        } else {
            None
        }
    }

    /// Whether the property carries a blockchain identifier.
    pub fn has_blockchain_info(&self) -> (r: bool)
        ensures
            r == (self.onchain_id is Some),
    {
        self.onchain_id.is_some()
    }
}

/// Why a property fails the eligibility rule, checking the same three
/// conditions in rule order and stopping at the first
/// violation. On an eligible property it returns the defensive sentinel.
pub fn ineligibility_reason(info: &PropertyQrInfo) -> (r: String)
    ensures
        (info.removed matches Some(true)) ==> r@ == "Property has been removed"@,
        !(info.removed matches Some(true)) && info.images@.len() == 0 ==> r@
            == "Property has no images"@,
        !(info.removed matches Some(true)) && info.images@.len() > 0 && info.price <= 0 ==> r@
            == "Property has invalid price"@,
        info.spec_is_qr_eligible() ==> r@ == "Unknown reason"@,
{
    let removed = match info.removed {
        Some(b) => b,
        None => false,
    };
    if removed {
        "Property has been removed".to_owned()
    } else if info.images.len() == 0 {
        "Property has no images".to_owned()
    } else if info.price <= 0 {
        "Property has invalid price".to_owned()
    } else {
        "Unknown reason".to_owned()
    }
}

impl PropertyQrInfo {
    /// Field-wise sameness of two projections.
    pub open spec fn eqv(&self, o: &PropertyQrInfo) -> bool {
        self.id@ == o.id@ && self.property_name@ == o.property_name@ && self.location@
            == o.location@ && self.action@ == o.action@ && self.price == o.price
            && self.onchain_id == o.onchain_id && self.crypto_accepted == o.crypto_accepted
            && self.images@ == o.images@ && self.is_verified == o.is_verified && self.removed
            == o.removed
    }

    /// A copy of this projection, field-wise the same.
    pub fn duplicate(&self) -> (r: PropertyQrInfo)
        ensures
            r.eqv(self),
            r.spec_is_qr_eligible() == self.spec_is_qr_eligible(),
    {
        PropertyQrInfo {
            id: self.id.clone(),
            property_name: self.property_name.clone(),
            location: self.location.clone(),
            action: self.action.clone(),
            price: self.price,
            onchain_id: clone_opt_string(&self.onchain_id),
            crypto_accepted: self.crypto_accepted,
            images: clone_vec_string(&self.images),
            is_verified: self.is_verified,
            removed: self.removed,
        }
    }
}

/// The reason string of the eligibility rule, checked in rule order.
pub open spec fn spec_ineligibility_reason(info: &PropertyQrInfo) -> Seq<char> {
    if info.removed matches Some(true) {
        ("Property has been removed")@
    } else if info.images@.len() == 0 {
        ("Property has no images")@
    } else if info.price <= 0 {
        ("Property has invalid price")@
    } else {
        ("Unknown reason")@
    }
}

/// Why a property lookup or eligibility check failed.
#[derive(Debug, Clone)]
pub enum PropertyError {
    NotFound,
    InvalidId,
    /// Carried over from a backing store; the in-memory directory never
    /// produces it.
    DatabaseError(String),
    NotEligibleForQr(String),
}

/// Aggregate counts over the property directory.
#[derive(Debug, Clone, Copy, PartialEq, Eq, Structural)]
pub struct PropertyStats {
    pub total_properties: usize,
    pub active_properties: usize,
    pub verified_properties: usize,
    pub properties_with_images: usize,
    pub qr_eligible_properties: usize,
}

/// Search filters over the property directory.
#[derive(Debug, Clone)]
pub struct PropertySearchCriteria {
    pub location: Option<String>,
    pub min_price: Option<i64>,
    pub max_price: Option<i64>,
    pub property_type: Option<String>,
    pub verified_only: bool,
    pub blockchain_only: bool,
    pub limit: Option<usize>,
}

impl Default for PropertySearchCriteria {
    /// No filters, at most 50 results.
    fn default() -> (r: PropertySearchCriteria)
        ensures
            r.location is None,
            r.min_price is None,
            r.max_price is None,
            r.property_type is None,
            !r.verified_only,
            !r.blockchain_only,
            r.limit == Some(50usize),
    {
        PropertySearchCriteria {
            location: None,
            min_price: None,
            max_price: None,
            property_type: None,
            verified_only: false,
            blockchain_only: false,
            limit: Some(50),
        }
    }
}

/// One property known to the directory, with the bookkeeping the QR core
/// reads: its type, its click counter, and when it was listed.
#[derive(Debug, Clone)]
pub struct PropertyEntry {
    pub info: PropertyQrInfo,
    pub property_type: String,
    pub clicks: i64,
    pub created_at: i64,
}

/// The property directory: what the QR core reads of the property domain,
/// keyed by property id.
pub struct PropertyService {
    entries: Vec<PropertyEntry>,
}

impl PropertyService {
    /// The entries held, in insertion order.
    pub closed spec fn spec_entries(&self) -> Seq<PropertyEntry> {
        self.entries@
    }

    /// The directory's invariant: property ids are unique.
    pub open spec fn wf(&self) -> bool {
        forall|i: int, j: int|
            0 <= i < j < self.spec_entries().len() ==> #[trigger] self.spec_entries()[i].info.id@
                != #[trigger] self.spec_entries()[j].info.id@
    }

    /// Whether a property with id `pid` is known.
    pub open spec fn spec_has(&self, pid: Seq<char>) -> bool {
        exists|i: int|
            0 <= i < self.spec_entries().len() && #[trigger] self.spec_entries()[i].info.id@ == pid
    }

    /// The entry of property `pid`.
    pub open spec fn spec_get(&self, pid: Seq<char>) -> PropertyEntry {
        self.spec_entries()[choose|i: int|
            0 <= i < self.spec_entries().len() && #[trigger] self.spec_entries()[i].info.id@
                == pid]
    }

    /// An empty directory.
    pub fn new() -> (r: PropertyService)
        ensures
            r.wf(),
            r.spec_entries().len() == 0,
            forall|pid: Seq<char>| !r.spec_has(pid),
    {
        PropertyService { entries: Vec::new() }
    }

    /// The stored index holding `pid` is the one `spec_get` picks.
    proof fn lemma_entry_at(&self, i: int)
        requires
            self.wf(),
            0 <= i < self.spec_entries().len(),
        ensures
            self.spec_has(self.spec_entries()[i].info.id@),
            self.spec_get(self.spec_entries()[i].info.id@) == self.spec_entries()[i],
    {
        let pid = self.spec_entries()[i].info.id@;
        let k = choose|k: int|
            0 <= k < self.spec_entries().len() && #[trigger] self.spec_entries()[k].info.id@
                == pid;
        if k != i {
            if k < i {
                assert(self.spec_entries()[k].info.id@ != self.spec_entries()[i].info.id@);
            } else {
                assert(self.spec_entries()[i].info.id@ != self.spec_entries()[k].info.id@);
            }
        }
    }

    fn find_index(&self, property_id: &str) -> (r: Option<usize>)
        ensures
            match r {
                Some(i) => i < self.spec_entries().len() && self.spec_entries()[i as int].info.id@
                    == property_id@,
                None => !self.spec_has(property_id@),
            },
    {
        let mut i: usize = 0;
        while i < self.entries.len()
            invariant
                0 <= i <= self.spec_entries().len(),
                forall|j: int|
                    0 <= j < i ==> #[trigger] self.spec_entries()[j].info.id@ != property_id@,
            decreases self.spec_entries().len() - i,
        {
            if str_eq(self.entries[i].info.id.as_str(), property_id) {
                return Some(i);
            }
            i += 1;
        }
        None
    }

    /// Make `info` known to the directory under its id, replacing whatever
    /// was known of that property; a fresh click counter starts at zero.
    pub fn upsert_property(&mut self, info: PropertyQrInfo, property_type: String, created_at: i64)
        requires
            old(self).wf(),
        ensures
            final (self).wf(),
            final (self).spec_has(info.id@),
            final (self).spec_get(info.id@).info == info,
            final (self).spec_get(info.id@).property_type == property_type,
            final (self).spec_get(info.id@).clicks == 0,
            final (self).spec_get(info.id@).created_at == created_at,
            forall|q: Seq<char>|
                q != info.id@ ==> #[trigger] final (self).spec_has(q) == old(self).spec_has(q),
            forall|q: Seq<char>|
                q != info.id@ && old(self).spec_has(q) ==> #[trigger] final (self).spec_get(q)
                    == old(self).spec_get(q),
    {
        let ghost pre = *self;
        let ghost pid = info.id@;
        let entry = PropertyEntry { info, property_type, clicks: 0, created_at };
        match self.find_index(entry.info.id.as_str()) {
            Some(i) => {
                self.entries.set(i, entry);
                proof {
                    assert forall|a: int, b: int|
                        0 <= a < b < self.spec_entries().len() implies #[trigger] self.spec_entries()[a].info.id@
                        != #[trigger] self.spec_entries()[b].info.id@ by {
                        assert(pre.spec_entries()[a].info.id@ != pre.spec_entries()[b].info.id@);
                        if a == i as int || b == i as int {
                            assert(pre.spec_entries()[i as int].info.id@ == pid);
                        }
                    }
                    self.lemma_entry_at(i as int);
                    assert forall|q: Seq<char>| q != pid implies #[trigger] self.spec_has(q)
                        == pre.spec_has(q) by {
                        if self.spec_has(q) {
                            let k = choose|k: int|
                                0 <= k < self.spec_entries().len()
                                    && #[trigger] self.spec_entries()[k].info.id@ == q;
                            assert(pre.spec_entries()[k].info.id@ == q);
                        }
                        if pre.spec_has(q) {
                            let k = choose|k: int|
                                0 <= k < pre.spec_entries().len()
                                    && #[trigger] pre.spec_entries()[k].info.id@ == q;
                            assert(self.spec_entries()[k].info.id@ == q);
                        }
                    }
                    assert forall|q: Seq<char>| q != pid && pre.spec_has(q) implies #[trigger] self.spec_get(
                        q,
                    ) == pre.spec_get(q) by {
                        let k = choose|k: int|
                            0 <= k < pre.spec_entries().len()
                                && #[trigger] pre.spec_entries()[k].info.id@ == q;
                        assert(self.spec_entries()[k].info.id@ == q);
                        self.lemma_entry_at(k);
                        pre.lemma_entry_at(k);
                    }
                }
            },
            None => {
                self.entries.push(entry);
                proof {
                    assert forall|a: int, b: int|
                        0 <= a < b < self.spec_entries().len() implies #[trigger] self.spec_entries()[a].info.id@
                        != #[trigger] self.spec_entries()[b].info.id@ by {
                        if b < self.spec_entries().len() - 1 {
                            assert(pre.spec_entries()[a].info.id@ != pre.spec_entries()[b].info.id@);
                        } else {
                            assert(pre.spec_entries()[a].info.id@ != pid);
                        }
                    }
                    self.lemma_entry_at(self.spec_entries().len() - 1);
                    assert forall|q: Seq<char>| q != pid implies #[trigger] self.spec_has(q)
                        == pre.spec_has(q) by {
                        if self.spec_has(q) {
                            let k = choose|k: int|
                                0 <= k < self.spec_entries().len()
                                    && #[trigger] self.spec_entries()[k].info.id@ == q;
                            assert(k < pre.spec_entries().len());
                            assert(pre.spec_entries()[k].info.id@ == q);
                        }
                        if pre.spec_has(q) {
                            let k = choose|k: int|
                                0 <= k < pre.spec_entries().len()
                                    && #[trigger] pre.spec_entries()[k].info.id@ == q;
                            assert(self.spec_entries()[k].info.id@ == q);
                        }
                    }
                    assert forall|q: Seq<char>| q != pid && pre.spec_has(q) implies #[trigger] self.spec_get(
                        q,
                    ) == pre.spec_get(q) by {
                        let k = choose|k: int|
                            0 <= k < pre.spec_entries().len()
                                && #[trigger] pre.spec_entries()[k].info.id@ == q;
                        assert(self.spec_entries()[k].info.id@ == q);
                        self.lemma_entry_at(k);
                        pre.lemma_entry_at(k);
                    }
                }
            },
        }
    }

    /// The property of `property_id`: its projection where the id is well
    /// formed and known, the matching error otherwise.
    pub fn get_property_by_id(&self, property_id: &str) -> (r: Result<
        PropertyQrInfo,
        PropertyError,
    >)
        requires
            self.wf(),
        ensures
            match r {
                Ok(info) => spec_is_object_id_hex(property_id@) && self.spec_has(property_id@)
                    && info.eqv(&self.spec_get(property_id@).info),
                Err(e) => match e {
                    PropertyError::InvalidId => !spec_is_object_id_hex(property_id@),
                    PropertyError::NotFound => spec_is_object_id_hex(property_id@) && !self.spec_has(
                        property_id@,
                    ),
                    _ => false,
                },
            },
    {
        if !is_object_id_hex(property_id) {
            return Err(PropertyError::InvalidId);
        }
        match self.find_index(property_id) {
            Some(i) => {
                proof {
                    self.lemma_entry_at(i as int);
                }
                Ok(self.entries[i].info.duplicate())
            },
            None => Err(PropertyError::NotFound),
        }
    }

    /// The projection used for QR generation: the property must exist and
    /// pass the eligibility rule; an ineligible property fails with the
    /// rule's reason.
    pub fn get_property_qr_info(&self, property_id: &str) -> (r: Result<
        PropertyQrInfo,
        PropertyError,
    >)
        requires
            self.wf(),
        ensures
            match r {
                Ok(info) => spec_is_object_id_hex(property_id@) && self.spec_has(property_id@)
                    && self.spec_get(property_id@).info.spec_is_qr_eligible() && info.eqv(
                    &self.spec_get(property_id@).info,
                ),
                Err(e) => match e {
                    PropertyError::InvalidId => !spec_is_object_id_hex(property_id@),
                    PropertyError::NotFound => spec_is_object_id_hex(property_id@)
                        && !self.spec_has(property_id@),
                    PropertyError::NotEligibleForQr(reason) => spec_is_object_id_hex(property_id@)
                        && self.spec_has(property_id@) && !self.spec_get(
                        property_id@,
                    ).info.spec_is_qr_eligible() && reason@ == spec_ineligibility_reason(
                        &self.spec_get(property_id@).info,
                    ),
                    _ => false,
                },
            },
    {
        let info = match self.get_property_by_id(property_id) {
            Ok(info) => info,
            Err(e) => {
                return Err(e);
            },
        };
        if !info.is_qr_eligible() {
            let reason = ineligibility_reason(&info);
            proof {
                let stored = self.spec_get(property_id@).info;
                assert(spec_ineligibility_reason(&info) == spec_ineligibility_reason(&stored));
            }
            return Err(PropertyError::NotEligibleForQr(reason));
        }
        Ok(info)
    }

    /// Whether `property_id` names a property that exists and is not removed;
    /// a malformed id is an error, an unknown one is merely `false`.
    pub fn validate_property(&self, property_id: &str) -> (r: Result<bool, PropertyError>)
        requires
            self.wf(),
        ensures
            match r {
                Ok(b) => spec_is_object_id_hex(property_id@) && b == (self.spec_has(property_id@)
                    && !(self.spec_get(property_id@).info.removed matches Some(true))),
                Err(e) => e matches PropertyError::InvalidId && !spec_is_object_id_hex(
                    property_id@,
                ),
            },
    {
        match self.get_property_by_id(property_id) {
            Ok(info) => {
                let removed = match info.removed {
                    Some(b) => b,
                    None => false,
                };
                Ok(!removed)
            },
            Err(PropertyError::NotFound) => Ok(false),
            Err(e) => Err(e),
        }
    }

    /// Count one click on `property_id`, saturating at the counter's top;
    /// everything else is untouched. Unknown ids count nothing.
    pub fn increment_property_clicks(&mut self, property_id: &str) -> (r: Result<
        (),
        PropertyError,
    >)
        requires
            old(self).wf(),
        ensures
            final (self).wf(),
            match r {
                Ok(()) => spec_is_object_id_hex(property_id@),
                Err(e) => e matches PropertyError::InvalidId && !spec_is_object_id_hex(
                    property_id@,
                ) && *final (self) == *old(self),
            },
            final (self).spec_has(property_id@) == old(self).spec_has(property_id@),
            r is Ok && old(self).spec_has(property_id@) ==> {
                let pre = old(self).spec_get(property_id@);
                let post = final (self).spec_get(property_id@);
                post.info == pre.info && post.property_type == pre.property_type
                    && post.created_at == pre.created_at && post.clicks == (
                if pre.clicks < i64::MAX {
                    pre.clicks + 1
                } else {
                    pre.clicks as int
                })
            },
            forall|q: Seq<char>|
                q != property_id@ ==> #[trigger] final (self).spec_has(q) == old(self).spec_has(q),
            forall|q: Seq<char>|
                q != property_id@ && old(self).spec_has(q) ==> #[trigger] final (self).spec_get(q)
                    == old(self).spec_get(q),
    {
        if !is_object_id_hex(property_id) {
            return Err(PropertyError::InvalidId);
        }
        let ghost pre = *self;
        match self.find_index(property_id) {
            Some(i) => {
                proof {
                    pre.lemma_entry_at(i as int);
                }
                let mut entry = self.entries.remove(i);
                if entry.clicks < i64::MAX {
                    entry.clicks = entry.clicks + 1;
                }
                self.entries.insert(i, entry);
                proof {
                    assert(self.spec_entries() =~= pre.spec_entries().update(
                        i as int,
                        self.spec_entries()[i as int],
                    ));
                    assert forall|a: int, b: int|
                        0 <= a < b < self.spec_entries().len() implies #[trigger] self.spec_entries()[a].info.id@
                        != #[trigger] self.spec_entries()[b].info.id@ by {
                        assert(self.spec_entries()[a].info.id@ == pre.spec_entries()[a].info.id@);
                        assert(self.spec_entries()[b].info.id@ == pre.spec_entries()[b].info.id@);
                        assert(pre.spec_entries()[a].info.id@ != pre.spec_entries()[b].info.id@);
                    }
                    self.lemma_entry_at(i as int);
                    assert forall|q: Seq<char>| #[trigger] self.spec_has(q) == pre.spec_has(q) by {
                        if self.spec_has(q) {
                            let k = choose|k: int|
                                0 <= k < self.spec_entries().len()
                                    && #[trigger] self.spec_entries()[k].info.id@ == q;
                            assert(pre.spec_entries()[k].info.id@ == q);
                        }
                        if pre.spec_has(q) {
                            let k = choose|k: int|
                                0 <= k < pre.spec_entries().len()
                                    && #[trigger] pre.spec_entries()[k].info.id@ == q;
                            assert(self.spec_entries()[k].info.id@ == q);
                        }
                    }
                    assert forall|q: Seq<char>| q != property_id@ && pre.spec_has(q) implies
                        #[trigger] self.spec_get(q) == pre.spec_get(q) by {
                        let k = choose|k: int|
                            0 <= k < pre.spec_entries().len()
                                && #[trigger] pre.spec_entries()[k].info.id@ == q;
                        assert(k != i as int);
                        assert(self.spec_entries()[k] == pre.spec_entries()[k]);
                        self.lemma_entry_at(k);
                        pre.lemma_entry_at(k);
                    }
                }
                Ok(())
            },
            None => Ok(()),
        }
    }
}


/// Whether `pid` stands among `ids`.
pub open spec fn spec_id_among(ids: Seq<String>, pid: Seq<char>) -> bool {
    exists|j: int| 0 <= j < ids.len() && #[trigger] ids[j]@ == pid
}

/// The entries that pass the eligibility rule and are not named in `ids`, in
/// directory order.
pub open spec fn spec_needing_qr(s: Seq<PropertyEntry>, ids: Seq<String>) -> Seq<PropertyEntry>
    decreases s.len(),
{
    if s.len() == 0 {
        seq![]
    } else {
        let rest = spec_needing_qr(s.drop_last(), ids);
        if s.last().info.spec_is_qr_eligible() && !spec_id_among(ids, s.last().info.id@) {
            rest.push(s.last())
        } else {
            rest
        }
    }
}

impl PropertyService {
    /// The eligible properties that have no QR record yet: exactly the
    /// entries that pass the rule and are absent from `qr_property_ids`, in
    /// directory order.
    pub fn get_properties_needing_qr(&self, qr_property_ids: Vec<String>) -> (r: Result<
        Vec<PropertyQrInfo>,
        PropertyError,
    >)
        ensures
            match r {
                Ok(v) => {
                    let picked = spec_needing_qr(self.spec_entries(), qr_property_ids@);
                    v@.len() == picked.len() && (forall|k: int|
                        0 <= k < v@.len() ==> #[trigger] v@[k].eqv(&picked[k].info))
                },
                Err(_) => false,
            },
    {
        let mut out: Vec<PropertyQrInfo> = Vec::new();
        let mut i: usize = 0;
        let ghost entries = self.spec_entries();
        assert(entries.subrange(0, 0) =~= Seq::<PropertyEntry>::empty());
        while i < self.entries.len()
            invariant
                0 <= i <= entries.len(),
                entries == self.spec_entries(),
                out@.len() == spec_needing_qr(entries.subrange(0, i as int), qr_property_ids@).len(),
                forall|k: int|
                    0 <= k < out@.len() ==> #[trigger] out@[k].eqv(
                        &spec_needing_qr(entries.subrange(0, i as int), qr_property_ids@)[k].info,
                    ),
            decreases entries.len() - i,
        {
            let entry = &self.entries[i];
            let eligible = entry.info.is_qr_eligible();
            let listed = crate::strutil::vec_contains_str(&qr_property_ids, entry.info.id.as_str());
            proof {
                assert(entries.subrange(0, i + 1).drop_last() =~= entries.subrange(0, i as int));
                assert(entries.subrange(0, i + 1).last() == entries[i as int]);
                assert(listed == spec_id_among(qr_property_ids@, entry.info.id@)) by {
                    if listed {
                        let j = choose|j: int|
                            0 <= j < qr_property_ids@.len() && qr_property_ids@[j]@
                                == entry.info.id@;
                        assert(qr_property_ids@[j]@ == entry.info.id@);
                    }
                }
            }
            if eligible && !listed {
                out.push(entry.info.duplicate());
            }
            i += 1;
        }
        assert(entries.subrange(0, entries.len() as int) =~= entries);
        Ok(out)
    }
}


/// The entries that pass the eligibility rule, in directory order.
pub open spec fn spec_eligible_entries(s: Seq<PropertyEntry>) -> Seq<PropertyEntry>
    decreases s.len(),
{
    if s.len() == 0 {
        seq![]
    } else {
        let rest = spec_eligible_entries(s.drop_last());
        if s.last().info.spec_is_qr_eligible() {
            rest.push(s.last())
        } else {
            rest
        }
    }
}

/// How many entries satisfy each directory statistic.
pub open spec fn spec_count_active(s: Seq<PropertyEntry>) -> int
    decreases s.len(),
{
    if s.len() == 0 {
        0
    } else {
        spec_count_active(s.drop_last()) + (if !(s.last().info.removed matches Some(true)) {
            1int
        } else {
            0int
        })
    }
}

pub open spec fn spec_count_verified(s: Seq<PropertyEntry>) -> int
    decreases s.len(),
{
    if s.len() == 0 {
        0
    } else {
        spec_count_verified(s.drop_last()) + (if !(s.last().info.removed matches Some(true)) && (
        s.last().info.is_verified matches Some(true)) {
            1int
        } else {
            0int
        })
    }
}

pub open spec fn spec_count_with_images(s: Seq<PropertyEntry>) -> int
    decreases s.len(),
{
    if s.len() == 0 {
        0
    } else {
        spec_count_with_images(s.drop_last()) + (if !(s.last().info.removed matches Some(true))
            && s.last().info.images@.len() > 0 {
            1int
        } else {
            0int
        })
    }
}

pub open spec fn spec_count_eligible(s: Seq<PropertyEntry>) -> int
    decreases s.len(),
{
    if s.len() == 0 {
        0
    } else {
        spec_count_eligible(s.drop_last()) + (if s.last().info.spec_is_qr_eligible() {
            1int
        } else {
            0int
        })
    }
}

/// Whether `v` is the projection of some entry passing the criteria.
pub open spec fn spec_search_sound(
    v: PropertyQrInfo,
    entries: Seq<PropertyEntry>,
    c: PropertySearchCriteria,
) -> bool {
    exists|i: int|
        0 <= i < entries.len() && v.eqv(&(#[trigger] entries[i]).info) && spec_matches_criteria(
            entries[i],
            c,
        )
}

/// Whether an entry passes the given search criteria: the location filter by
/// case-insensitive containment, the price bounds, the type by equality, the
/// verified and on-chain narrows, over properties that are not removed.
pub open spec fn spec_matches_criteria(e: PropertyEntry, c: PropertySearchCriteria) -> bool {
    &&& !(e.info.removed matches Some(true))
    &&& (match c.location {
        Some(l) => spec_contains_substr(lower_of(e.info.location@), lower_of(l@)),
        None => true,
    })
    &&& (match c.min_price {
        Some(p) => e.info.price >= p,
        None => true,
    })
    &&& (match c.max_price {
        Some(p) => e.info.price <= p,
        None => true,
    })
    &&& (match c.property_type {
        Some(t) => e.property_type@ == t@,
        None => true,
    })
    &&& (c.verified_only ==> (e.info.is_verified matches Some(true)))
    &&& (c.blockchain_only ==> (e.info.onchain_id is Some))
}

impl PropertyService {
    /// The projections of the properties named by `property_ids`, in
    /// directory order; any malformed id refuses the whole call, unknown ids
    /// are skipped.
    pub fn get_properties_by_ids(&self, property_ids: Vec<String>) -> (r: Result<
        Vec<PropertyQrInfo>,
        PropertyError,
    >)
        ensures
            match r {
                Ok(v) => (forall|k: int|
                    0 <= k < property_ids@.len() ==> spec_is_object_id_hex(
                        #[trigger] property_ids@[k]@,
                    )) && (forall|k: int|
                    0 <= k < v@.len() ==> spec_id_among(property_ids@, #[trigger] v@[k].id@)),
                Err(e) => e matches PropertyError::InvalidId && (exists|k: int|
                    0 <= k < property_ids@.len() && !spec_is_object_id_hex(
                        #[trigger] property_ids@[k]@,
                    )),
            },
    {
        let mut i: usize = 0;
        while i < property_ids.len()
            invariant
                0 <= i <= property_ids@.len(),
                forall|k: int|
                    0 <= k < i ==> spec_is_object_id_hex(#[trigger] property_ids@[k]@),
            decreases property_ids@.len() - i,
        {
            if !is_object_id_hex(property_ids[i].as_str()) {
                return Err(PropertyError::InvalidId);
            }
            i += 1;
        }
        let mut out: Vec<PropertyQrInfo> = Vec::new();
        let mut j: usize = 0;
        while j < self.entries.len()
            invariant
                0 <= j <= self.spec_entries().len(),
                forall|k: int|
                    0 <= k < i ==> spec_is_object_id_hex(#[trigger] property_ids@[k]@),
                i == property_ids@.len(),
                forall|k: int|
                    0 <= k < out@.len() ==> spec_id_among(property_ids@, #[trigger] out@[k].id@),
            decreases self.spec_entries().len() - j,
        {
            let entry = &self.entries[j];
            let listed = crate::strutil::vec_contains_str(&property_ids, entry.info.id.as_str());
            if listed {
                let dup = entry.info.duplicate();
                proof {
                    assert(dup.id@ == entry.info.id@);
                }
                out.push(dup);
            }
            j += 1;
        }
        Ok(out)
    }

    /// The eligible properties' projections, in directory order, at most
    /// `limit` of them when a limit is given.
    pub fn get_qr_eligible_properties(&self, limit: Option<usize>) -> (r: Result<
        Vec<PropertyQrInfo>,
        PropertyError,
    >)
        ensures
            match r {
                Ok(v) => {
                    let picked = spec_eligible_entries(self.spec_entries());
                    &&& (match limit {
                        Some(l) => v@.len() == (if l as int <= picked.len() {
                            l as int
                        } else {
                            picked.len() as int
                        }),
                        None => v@.len() == picked.len(),
                    })
                    &&& (forall|k: int|
                        0 <= k < v@.len() ==> #[trigger] v@[k].eqv(&picked[k].info))
                },
                Err(_) => false,
            },
    {
        let mut out: Vec<PropertyQrInfo> = Vec::new();
        let mut i: usize = 0;
        let ghost entries = self.spec_entries();
        assert(entries.subrange(0, 0) =~= Seq::<PropertyEntry>::empty());
        while i < self.entries.len()
            invariant
                0 <= i <= entries.len(),
                entries == self.spec_entries(),
                out@.len() == spec_eligible_entries(entries.subrange(0, i as int)).len(),
                forall|k: int|
                    0 <= k < out@.len() ==> #[trigger] out@[k].eqv(
                        &spec_eligible_entries(entries.subrange(0, i as int))[k].info,
                    ),
            decreases entries.len() - i,
        {
            proof {
                assert(entries.subrange(0, i + 1).drop_last() =~= entries.subrange(0, i as int));
                assert(entries.subrange(0, i + 1).last() == entries[i as int]);
            }
            let entry = &self.entries[i];
            if entry.info.is_qr_eligible() {
                out.push(entry.info.duplicate());
            }
            i += 1;
        }
        assert(entries.subrange(0, entries.len() as int) =~= entries);
        match limit {
            Some(l) => {
                let mut limited: Vec<PropertyQrInfo> = Vec::new();
                let mut k: usize = 0;
                let upper: usize = if l <= out.len() {
                    l
                } else {
                    out.len()
                };
                while k < upper
                    invariant
                        upper <= out@.len(),
                        0 <= k <= upper,
                        limited@.len() == k,
                        forall|x: int| 0 <= x < k ==> (#[trigger] limited@[x]).eqv(&out@[x]),
                        forall|x: int|
                            0 <= x < out@.len() ==> #[trigger] out@[x].eqv(
                                &spec_eligible_entries(self.spec_entries())[x].info,
                            ),
                    decreases upper - k,
                {
                    limited.push(out[k].duplicate());
                    proof {
                        assert(limited@[k as int].eqv(&out@[k as int]));
                        assert(out@[k as int].eqv(
                            &spec_eligible_entries(self.spec_entries())[k as int].info,
                        ));
                    }
                    k += 1;
                }
                proof {
                    assert forall|x: int| 0 <= x < limited@.len() implies #[trigger] limited@[x].eqv(
                        &spec_eligible_entries(self.spec_entries())[x].info,
                    ) by {
                        assert(limited@[x].eqv(&out@[x]));
                        assert(out@[x].eqv(&spec_eligible_entries(self.spec_entries())[x].info));
                    }
                }
                Ok(limited)
            },
            None => Ok(out),
        }
    }

    /// Aggregate counts over the directory: total, active, verified, with
    /// images, and QR-eligible properties.
    pub fn get_property_stats(&self) -> (r: Result<PropertyStats, PropertyError>)
        ensures
            match r {
                Ok(stats) => {
                    &&& stats.total_properties == self.spec_entries().len()
                    &&& stats.active_properties == spec_count_active(self.spec_entries())
                    &&& stats.verified_properties == spec_count_verified(self.spec_entries())
                    &&& stats.properties_with_images == spec_count_with_images(self.spec_entries())
                    &&& stats.qr_eligible_properties == spec_count_eligible(self.spec_entries())
                },
                Err(_) => false,
            },
    {
        let ghost entries = self.spec_entries();
        let mut active: usize = 0;
        let mut verified: usize = 0;
        let mut with_images: usize = 0;
        let mut eligible: usize = 0;
        let mut i: usize = 0;
        assert(entries.subrange(0, 0) =~= Seq::<PropertyEntry>::empty());
        while i < self.entries.len()
            invariant
                0 <= i <= entries.len(),
                entries == self.spec_entries(),
                active == spec_count_active(entries.subrange(0, i as int)),
                verified == spec_count_verified(entries.subrange(0, i as int)),
                with_images == spec_count_with_images(entries.subrange(0, i as int)),
                eligible == spec_count_eligible(entries.subrange(0, i as int)),
                active <= i && verified <= i && with_images <= i && eligible <= i,
            decreases entries.len() - i,
        {
            proof {
                assert(entries.subrange(0, i + 1).drop_last() =~= entries.subrange(0, i as int));
                assert(entries.subrange(0, i + 1).last() == entries[i as int]);
            }
            let info = &self.entries[i].info;
            let removed = match info.removed {
                Some(b) => b,
                None => false,
            };
            let is_verified = match info.is_verified {
                Some(b) => b,
                None => false,
            };
            if !removed {
                active = active + 1;
                if is_verified {
                    verified = verified + 1;
                }
                if info.images.len() > 0 {
                    with_images = with_images + 1;
                }
            }
            if info.is_qr_eligible() {
                eligible = eligible + 1;
            }
            i += 1;
        }
        assert(entries.subrange(0, entries.len() as int) =~= entries);
        Ok(
            PropertyStats {
                total_properties: self.entries.len(),
                active_properties: active,
                verified_properties: verified,
                properties_with_images: with_images,
                qr_eligible_properties: eligible,
            },
        )
    }

    /// The projections of the properties passing `criteria`, in directory
    /// order, at most the criteria's limit of them.
    pub fn search_properties(&self, criteria: &PropertySearchCriteria) -> (r: Result<
        Vec<PropertyQrInfo>,
        PropertyError,
    >)
        ensures
            match r {
                Ok(v) => {
                    &&& (match criteria.limit {
                        Some(l) => v@.len() <= l,
                        None => true,
                    })
                    &&& (forall|k: int|
                        0 <= k < v@.len() ==> spec_search_sound(
                            #[trigger] v@[k],
                            self.spec_entries(),
                            *criteria,
                        ))
                },
                Err(_) => false,
            },
    {
        let mut out: Vec<PropertyQrInfo> = Vec::new();
        let mut i: usize = 0;
        while i < self.entries.len()
            invariant
                0 <= i <= self.spec_entries().len(),
                match criteria.limit {
                    Some(l) => out@.len() <= l,
                    None => true,
                },
                forall|k: int|
                    0 <= k < out@.len() ==> spec_search_sound(
                        #[trigger] out@[k],
                        self.spec_entries(),
                        *criteria,
                    ),
            decreases self.spec_entries().len() - i,
        {
            let full = match criteria.limit {
                Some(l) => out.len() >= l,
                None => false,
            };
            if full {
                return Ok(out);
            }
            let entry = &self.entries[i];
            let info = &entry.info;
            let removed = match info.removed {
                Some(b) => b,
                None => false,
            };
            let loc_ok = match &criteria.location {
                Some(l) => {
                    let el = lowercase(info.location.as_str());
                    let cl = lowercase(l.as_str());
                    contains_substr(el.as_str(), cl.as_str())
                },
                None => true,
            };
            let min_ok = match criteria.min_price {
                Some(p) => info.price >= p,
                None => true,
            };
            let max_ok = match criteria.max_price {
                Some(p) => info.price <= p,
                None => true,
            };
            let type_ok = match &criteria.property_type {
                Some(t) => str_eq(entry.property_type.as_str(), t.as_str()),
                None => true,
            };
            let verified_ok = if criteria.verified_only {
                match info.is_verified {
                    Some(b) => b,
                    None => false,
                }
            } else {
                true
            };
            let chain_ok = if criteria.blockchain_only {
                info.onchain_id.is_some()
            } else {
                true
            };
            if !removed && loc_ok && min_ok && max_ok && type_ok && verified_ok && chain_ok {
                let dup = info.duplicate();
                proof {
                    assert(spec_matches_criteria(self.spec_entries()[i as int], *criteria));
                    assert(dup.eqv(&self.spec_entries()[i as int].info));
                    assert(spec_search_sound(dup, self.spec_entries(), *criteria));
                }
                out.push(dup);
            }
            i += 1;
        }
        Ok(out)
    }

    /// The most recently known eligible projections: the eligible entries in
    /// directory order, capped at `limit`.
    pub fn get_recent_properties(&self, limit: usize) -> (r: Result<
        Vec<PropertyQrInfo>,
        PropertyError,
    >)
        ensures
            match r {
                Ok(v) => {
                    let picked = spec_eligible_entries(self.spec_entries());
                    &&& v@.len() == (if limit as int <= picked.len() {
                        limit as int
                    } else {
                        picked.len() as int
                    })
                    &&& (forall|k: int|
                        0 <= k < v@.len() ==> #[trigger] v@[k].eqv(&picked[k].info))
                },
                Err(_) => false,
            },
    {
        self.get_qr_eligible_properties(Some(limit))
    }
}


} // verus!
