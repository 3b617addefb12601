//! The QR generator: orchestrates the eligibility gate, the idempotent
//! fast path, payload construction, image encoding, object storage and the
//! record store, for one property or a batch.

use vstd::prelude::*;
use vstd::string::*;
use crate::property::{
    PropertyService, PropertyError, PropertyEntry, spec_ineligibility_reason, spec_id_among,
    spec_needing_qr,
};
use crate::qr_code::{
    QrCodeMetadata, QrMetadata, QrCodeData, QrCodeResponse, BatchQrCodeResponse, QrGenerationError,
    QrGenerationReason, QrGenerationSettings, QrStatus, spec_payload_json,
};
use crate::store::QrRecordStore;
use crate::s3::{S3Service, spec_s3_key_valid};
use crate::hash::spec_sha256_hex;
use crate::ident::spec_is_object_id_hex;
use crate::strutil::{spec_contains_substr, is_hex_char};

verus! {

/// Why a generate call failed.
#[derive(Debug, Clone)]
pub enum QrGeneratorError {
    PropertyNotFound,
    PropertyNotEligible(String),
    QrGenerationFailed(String),
    S3UploadFailed(String),
    /// Carried over from a backing store; the in-memory services never
    /// produce it.
    DatabaseError(String),
    InvalidPropertyId,
}

/// The batch error code of a generator error, one fixed code per variant.
pub open spec fn spec_qr_error_code(e: QrGeneratorError) -> Seq<char> {
    match e {
        QrGeneratorError::PropertyNotFound => ("PROPERTY_NOT_FOUND")@,
        QrGeneratorError::PropertyNotEligible(_) => ("PROPERTY_NOT_ELIGIBLE")@,
        QrGeneratorError::QrGenerationFailed(_) => ("QR_GENERATION_FAILED")@,
        QrGeneratorError::S3UploadFailed(_) => ("S3_UPLOAD_FAILED")@,
        QrGeneratorError::DatabaseError(_) => ("DATABASE_ERROR")@,
        QrGeneratorError::InvalidPropertyId => ("INVALID_PROPERTY_ID")@,
    }
}

/// The batch error code of `e`.
pub fn qr_error_code(e: &QrGeneratorError) -> (r: String)
    ensures
        r@ == spec_qr_error_code(*e),
{
    match e {
        QrGeneratorError::PropertyNotFound => "PROPERTY_NOT_FOUND".to_owned(),
        QrGeneratorError::PropertyNotEligible(_) => "PROPERTY_NOT_ELIGIBLE".to_owned(),
        QrGeneratorError::QrGenerationFailed(_) => "QR_GENERATION_FAILED".to_owned(),
        QrGeneratorError::S3UploadFailed(_) => "S3_UPLOAD_FAILED".to_owned(),
        QrGeneratorError::DatabaseError(_) => "DATABASE_ERROR".to_owned(),
        QrGeneratorError::InvalidPropertyId => "INVALID_PROPERTY_ID".to_owned(),
    }
}

/// The human-readable message of a generator error.
pub open spec fn spec_qr_error_message(e: QrGeneratorError) -> Seq<char> {
    match e {
        QrGeneratorError::PropertyNotFound => ("Property not found")@,
        QrGeneratorError::PropertyNotEligible(reason) => ("Property not eligible: ")@ + reason@,
        QrGeneratorError::QrGenerationFailed(reason) => ("QR generation failed: ")@ + reason@,
        QrGeneratorError::S3UploadFailed(reason) => ("S3 upload failed: ")@ + reason@,
        QrGeneratorError::DatabaseError(reason) => ("Database error: ")@ + reason@,
        QrGeneratorError::InvalidPropertyId => ("Invalid property ID")@,
    }
}

/// The human-readable message of `e`.
pub fn qr_error_message(e: &QrGeneratorError) -> (r: String)
    ensures
        r@ == spec_qr_error_message(*e),
{
    match e {
        QrGeneratorError::PropertyNotFound => "Property not found".to_owned(),
        QrGeneratorError::PropertyNotEligible(reason) => {
            let mut s = String::new();
            s.append("Property not eligible: ");
            s.append(reason.as_str());
            s
        },
        QrGeneratorError::QrGenerationFailed(reason) => {
            let mut s = String::new();
            s.append("QR generation failed: ");
            s.append(reason.as_str());
            s
        },
        QrGeneratorError::S3UploadFailed(reason) => {
            let mut s = String::new();
            s.append("S3 upload failed: ");
            s.append(reason.as_str());
            s
        },
        QrGeneratorError::DatabaseError(reason) => {
            let mut s = String::new();
            s.append("Database error: ");
            s.append(reason.as_str());
            s
        },
        QrGeneratorError::InvalidPropertyId => "Invalid property ID".to_owned(),
    }
}

/// The scan URL of a property under a base URL.
pub open spec fn spec_scan_url(base: Seq<char>, pid: Seq<char>) -> Seq<char> {
    base + ("/scan/")@ + pid
}

/// The object-store key of a property's QR image.
pub open spec fn spec_qr_image_key(pid: Seq<char>) -> Seq<char> {
    ("qr-images/")@ + pid + (".png")@
}

/// The metadata snapshot `md` is the point-in-time copy of `info`, generated
/// for `reason` with no user attribution.
pub open spec fn spec_snapshot_of(
    md: QrMetadata,
    info: crate::property::PropertyQrInfo,
    reason: QrGenerationReason,
) -> bool {
    &&& md.property_name@ == info.property_name@
    &&& md.location@ == info.location@
    &&& md.action@ == info.action@
    &&& md.price == info.price
    &&& md.onchain_id == info.onchain_id
    &&& md.crypto_accepted == info.crypto_accepted
    &&& md.primary_image == (if info.images@.len() > 0 {
        Some(info.images@[0])
    } else {
        None::<String>
    })
    &&& md.is_verified == (info.is_verified matches Some(true))
    &&& md.generated_by is None
    &&& md.generation_reason == reason
}

/// The record `m` is a freshly built QR record of property `pid`: its pattern
/// is the canonical payload of some generation instant, hashed and stored at
/// the property's image key, active, with a snapshot of `entry`.
pub open spec fn spec_built_record(
    m: QrCodeMetadata,
    pid: Seq<char>,
    base: Seq<char>,
    s3: S3Service,
    entry: PropertyEntry,
    reason: QrGenerationReason,
) -> bool {
    &&& m.property_id@ == pid
    &&& exists|ts: i64|
        m.qr_pattern@ == #[trigger] spec_payload_json(
            ("daobitat_property")@,
            pid,
            spec_scan_url(base, pid),
            ("1.0")@,
            ts as int,
        )
    &&& m.qr_code_hash@ == spec_sha256_hex(m.qr_pattern@)
    &&& m.qr_code_url@ == s3.spec_public_url(spec_qr_image_key(pid))
    &&& m.is_active
    &&& spec_snapshot_of(m.metadata, entry.info, reason)
}

/// A property id of the expected 24-hex-character shape yields a valid
/// object-store key.
proof fn lemma_qr_key_valid(pid: Seq<char>)
    requires
        spec_is_object_id_hex(pid),
    ensures
        spec_s3_key_valid(spec_qr_image_key(pid)),
{
    reveal_strlit("qr-images/");
    reveal_strlit(".png");
    reveal_strlit("//");
    let k = spec_qr_image_key(pid);
    assert(k.len() == 38);
    assert(k[0] == 'q');
    assert forall|i: int| 0 <= i && i + 2 <= k.len() implies #[trigger] k.subrange(i, i + 2) != (
    "//")@ by {
        assert(k.subrange(i, i + 2)[0] == k[i]);
        assert(k.subrange(i, i + 2)[1] == k[i + 1]);
        if 10 <= i < 34 {
            assert(k[i] == pid[i - 10]);
            assert(is_hex_char(pid[i - 10]));
            assert(k[i] != '/');
        } else if i == 9 {
            assert(k[i + 1] == pid[0]);
            assert(is_hex_char(pid[0]));
            assert(k[i + 1] != '/');
        } else if i < 9 {
            assert(k[i] != '/');
        } else {
            assert(k[i] == (".png")@[i - 34]);
            assert(k[i] != '/');
        }
    }
    assert(!spec_contains_substr(k, ("//")@));
}

/// The QR generator service: the record store it owns, the property
/// directory and object store it consults, and its settings.
pub struct QrGeneratorService {
    qr_metadata: QrRecordStore,
    property_service: PropertyService,
    s3_service: S3Service,
    settings: QrGenerationSettings,
    base_url: String,
}

impl QrGeneratorService {
    /// The record store.
    pub closed spec fn spec_store(&self) -> QrRecordStore {
        self.qr_metadata
    }

    /// The property directory.
    pub closed spec fn spec_props(&self) -> PropertyService {
        self.property_service
    }

    /// The object store.
    pub closed spec fn spec_s3(&self) -> S3Service {
        self.s3_service
    }

    /// The service's base URL for scan links.
    pub closed spec fn spec_base_url(&self) -> Seq<char> {
        self.base_url@
    }

    /// The rendering settings.
    pub closed spec fn spec_settings(&self) -> QrGenerationSettings {
        self.settings
    }

    /// Both owned collections keep one row per property id.
    pub open spec fn wf(&self) -> bool {
        self.spec_store().wf() && self.spec_props().wf()
    }

    /// A generator over an empty record store, with default settings.
    pub fn new(property_service: PropertyService, s3_service: S3Service, base_url: String) -> (r:
        QrGeneratorService)
        requires
            property_service.wf(),
        ensures
            r.wf(),
            r.spec_store().spec_records().len() == 0,
            r.spec_props() == property_service,
            r.spec_s3() == s3_service,
            r.spec_base_url() == base_url@,
    {
        QrGeneratorService {
            qr_metadata: QrRecordStore::new(),
            property_service,
            s3_service,
            settings: Default::default(),
            base_url,
        }
    }

    /// A generator over an empty record store, with the given settings.
    pub fn with_settings(
        property_service: PropertyService,
        s3_service: S3Service,
        base_url: String,
        settings: QrGenerationSettings,
    ) -> (r: QrGeneratorService)
        requires
            property_service.wf(),
        ensures
            r.wf(),
            r.spec_store().spec_records().len() == 0,
            r.spec_props() == property_service,
            r.spec_s3() == s3_service,
            r.spec_base_url() == base_url@,
            r.spec_settings() == settings,
    {
        QrGeneratorService {
            qr_metadata: QrRecordStore::new(),
            property_service,
            s3_service,
            settings,
            base_url,
        }
    }

    /// Replace the rendering settings.
    pub fn update_settings(&mut self, new_settings: QrGenerationSettings)
        ensures
            final (self).spec_settings() == new_settings,
            final (self).spec_store() == old(self).spec_store(),
            final (self).spec_props() == old(self).spec_props(),
            final (self).spec_s3() == old(self).spec_s3(),
            final (self).spec_base_url() == old(self).spec_base_url(),
    {
        self.settings = new_settings;
    }

    /// Make a property known to the generator's directory; see
    /// `PropertyService::upsert_property`.
    pub fn seed_property(
        &mut self,
        info: crate::property::PropertyQrInfo,
        property_type: String,
        created_at: i64,
    )
        requires
            old(self).wf(),
        ensures
            final (self).wf(),
            final (self).spec_store() == old(self).spec_store(),
            final (self).spec_s3() == old(self).spec_s3(),
            final (self).spec_base_url() == old(self).spec_base_url(),
            final (self).spec_props().spec_has(info.id@),
            final (self).spec_props().spec_get(info.id@).info == info,
            forall|q: Seq<char>|
                q != info.id@ ==> #[trigger] final (self).spec_props().spec_has(q) == old(
                    self,
                ).spec_props().spec_has(q),
            forall|q: Seq<char>|
                q != info.id@ && old(self).spec_props().spec_has(q) ==> #[trigger] final (
                self).spec_props().spec_get(q) == old(self).spec_props().spec_get(q),
    {
        self.property_service.upsert_property(info, property_type, created_at);
    }

    fn build_scan_url(&self, property_id: &str) -> (r: String)
        ensures
            r@ == spec_scan_url(self.spec_base_url(), property_id@),
    {
        let mut s = String::new();
        s.append(self.base_url.as_str());
        s.append("/scan/");
        s.append(property_id);
        s
    }

    fn build_qr_image_key(property_id: &str) -> (r: String)
        ensures
            r@ == spec_qr_image_key(property_id@),
    {
        let mut s = String::new();
        s.append("qr-images/");
        s.append(property_id);
        s.append(".png");
        s
    }

    /// Render the payload as a QR image. The renderer is a stub that hands
    /// back a PNG header placeholder.
    fn generate_qr_image(&self, qr_data: &str) -> (r: Vec<u8>)
        ensures
            r@ == seq![0x89u8, 0x50u8, 0x4eu8, 0x47u8],
    {
        let _ = qr_data;
        let mut v: Vec<u8> = Vec::new();
        v.push(0x89);
        v.push(0x50);
        v.push(0x4e);
        v.push(0x47);
        proof {
            assert(v@ =~= seq![0x89u8, 0x50u8, 0x4eu8, 0x47u8]);
        }
        v
    }

    /// Generate (or return, or regenerate) the QR code of one property.
    ///
    /// Without `force_regenerate`, an active record short-circuits: the call
    /// answers from the store, touches nothing, and tags the response
    /// `Exists` — calling twice returns the same URL and version. Otherwise
    /// the property must exist and pass the eligibility gate; the payload is
    /// built, encoded, stored, and the record upserted: fresh records start
    /// at version 1, a forced regeneration of an existing record bumps its
    /// version by exactly 1 and forces it active. Failures leave the store
    /// untouched.
    pub fn generate_qr_code(
        &mut self,
        property_id: String,
        force_regenerate: bool,
        reason: QrGenerationReason,
    ) -> (r: Result<QrCodeResponse, QrGeneratorError>)
        requires
            old(self).wf(),
        ensures
            final (self).wf(),
            final (self).spec_props() == old(self).spec_props(),
            final (self).spec_s3() == old(self).spec_s3(),
            final (self).spec_base_url() == old(self).spec_base_url(),
            final (self).spec_settings() == old(self).spec_settings(),
            ({
                let pid = property_id@;
                let store = old(self).spec_store();
                let props = old(self).spec_props();
                if !force_regenerate && store.spec_has(pid) && store.spec_get(pid).is_active {
                    final (self).spec_store() == store && r is Ok
                } else if !spec_is_object_id_hex(pid) {
                    final (self).spec_store() == store && (r matches Err(
                        QrGeneratorError::InvalidPropertyId,
                    ))
                } else if !props.spec_has(pid) {
                    final (self).spec_store() == store && (r matches Err(
                        QrGeneratorError::PropertyNotFound,
                    ))
                } else if !props.spec_get(pid).info.spec_is_qr_eligible() {
                    final (self).spec_store() == store && (r matches Err(
                        QrGeneratorError::PropertyNotEligible(why),
                    ) && why@ == spec_ineligibility_reason(&props.spec_get(pid).info))
                } else if force_regenerate && store.spec_has(pid) && store.spec_get(pid).qr_version
                    == i32::MAX {
                    final (self).spec_store() == store && (r matches Err(
                        QrGeneratorError::QrGenerationFailed(_),
                    ))
                } else {
                    &&& r is Ok
                    &&& final (self).spec_store().spec_has(pid)
                    &&& spec_built_record(
                        final (self).spec_store().spec_get(pid),
                        pid,
                        old(self).spec_base_url(),
                        old(self).spec_s3(),
                        props.spec_get(pid),
                        reason,
                    )
                    &&& final (self).spec_store().spec_get(pid).qr_version == (
                    if force_regenerate && store.spec_has(pid) {
                        store.spec_get(pid).qr_version + 1
                    } else {
                        1
                    })
                    &&& final (self).spec_store().spec_get(pid).scan_count == (
                    if force_regenerate && store.spec_has(pid) {
                        store.spec_get(pid).scan_count as int
                    } else {
                        0
                    })
                    &&& forall|q: Seq<char>|
                        q != pid ==> #[trigger] final (self).spec_store().spec_has(q)
                            == store.spec_has(q)
                    &&& forall|q: Seq<char>|
                        q != pid && store.spec_has(q) ==> #[trigger] final (
                        self).spec_store().spec_get(q) == store.spec_get(q)
                }
            }),
            r matches Ok(resp) ==> {
                let pid = property_id@;
                let store = old(self).spec_store();
                &&& final (self).spec_store().spec_has(pid)
                &&& resp.property_id@ == pid
                &&& resp.scan_url@ == spec_scan_url(old(self).spec_base_url(), pid)
                &&& resp.qr_code_url == final (self).spec_store().spec_get(pid).qr_code_url
                &&& resp.generated_at == final (self).spec_store().spec_get(pid).generated_at
                &&& resp.metadata == final (self).spec_store().spec_get(pid).metadata
                &&& final (self).spec_store().spec_get(pid).is_active
                &&& resp.status == (if !force_regenerate && store.spec_has(pid) && store.spec_get(
                    pid,
                ).is_active {
                    QrStatus::Exists
                } else if force_regenerate {
                    QrStatus::Regenerated
                } else {
                    QrStatus::Generated
                })
            },
    {
        // Idempotency fast path: an existing active record answers the call.
        if !force_regenerate {
            match self.qr_metadata.get(property_id.as_str()) {
                Some(existing) => {
                    if existing.is_active {
                        let qr_code_url = existing.qr_code_url.clone();
                        let generated_at = existing.generated_at;
                        let metadata = existing.metadata.duplicate();
                        let scan_url = self.build_scan_url(property_id.as_str());
                        return Ok(
                            QrCodeResponse {
                                property_id,
                                qr_code_url,
                                scan_url,
                                generated_at,
                                metadata,
                                status: QrStatus::Exists,
                            },
                        );
                    }
                },
                None => (),
            }
        }
        // The property must exist and pass the eligibility gate.
        let info = match self.property_service.get_property_qr_info(property_id.as_str()) {
            Ok(info) => info,
            Err(e) => {
                return Err(
                    match e {
                        PropertyError::NotFound => QrGeneratorError::PropertyNotFound,
                        PropertyError::NotEligibleForQr(why) => QrGeneratorError::PropertyNotEligible(
                            why,
                        ),
                        PropertyError::InvalidId => QrGeneratorError::InvalidPropertyId,
                        PropertyError::DatabaseError(msg) => QrGeneratorError::DatabaseError(msg),
                    },
                );
            },
        };
        // A forced regeneration must have room for one more version.
        if force_regenerate {
            match self.qr_metadata.get(property_id.as_str()) {
                Some(existing) => {
                    if existing.qr_version == i32::MAX {
                        return Err(
                            QrGeneratorError::QrGenerationFailed(
                                "Version counter exhausted".to_owned(),
                            ),
                        );
                    }
                },
                None => (),
            }
        }
        // Build the payload and its canonical JSON: the QR content and the
        // hashed text.
        let qr_data = QrCodeData::new(property_id.clone(), self.base_url.as_str());
        let qr_json = qr_data.to_json_string();
        // Encode the image and store it under the property's key.
        let qr_image = self.generate_qr_image(qr_json.as_str());
        let s3_key = Self::build_qr_image_key(property_id.as_str());
        proof {
            lemma_qr_key_valid(property_id@);
        }
        let qr_code_url = match self.s3_service.upload_qr_image(s3_key.as_str(), qr_image) {
            Ok(url) => url,
            Err(_) => {
                proof {
                    assert(false);
                }
                return Err(QrGeneratorError::S3UploadFailed("unreachable".to_owned()));
            },
        };
        // The point-in-time snapshot of the property.
        let primary_image = match info.images.len() {
            0 => None,
            _ => Some(info.images[0].clone()),
        };
        let is_verified = match info.is_verified {
            Some(b) => b,
            None => false,
        };
        let metadata = QrMetadata {
            property_name: info.property_name,
            location: info.location,
            action: info.action,
            price: info.price,
            onchain_id: info.onchain_id,
            crypto_accepted: info.crypto_accepted,
            primary_image,
            is_verified,
            generated_by: None,
            generation_reason: reason,
        };
        // Regeneration mutates the existing record in place; a first-time
        // generation starts a fresh record at version 1.
        let record = if force_regenerate {
            match self.qr_metadata.get(property_id.as_str()) {
                Some(existing) => {
                    let mut updated = existing.duplicate();
                    updated.regenerate(qr_json, qr_code_url.clone());
                    updated.metadata = metadata.duplicate();
                    updated
                },
                None => QrCodeMetadata::new(
                    property_id.clone(),
                    qr_json,
                    qr_code_url.clone(),
                    metadata.duplicate(),
                ),
            }
        } else {
            QrCodeMetadata::new(
                property_id.clone(),
                qr_json,
                qr_code_url.clone(),
                metadata.duplicate(),
            )
        };
        let generated_at = record.generated_at;
        let scan_url = self.build_scan_url(property_id.as_str());
        self.qr_metadata.upsert(record);
        Ok(
            QrCodeResponse {
                property_id,
                qr_code_url,
                scan_url,
                generated_at,
                metadata,
                status: if force_regenerate {
                    QrStatus::Regenerated
                } else {
                    QrStatus::Generated
                },
            },
        )
    }
}

/// Whether `m` is one of the records of `s`.
pub open spec fn spec_from_records(m: QrCodeMetadata, s: Seq<QrCodeMetadata>) -> bool {
    exists|i: int| 0 <= i < s.len() && s[i] == m
}

/// Whether `v` is ordered newest-first by generation time.
pub open spec fn spec_sorted_desc(v: Seq<QrCodeMetadata>) -> bool {
    forall|a: int, b: int| 0 <= a < b < v.len() ==> v[a].generated_at >= v[b].generated_at
}

/// Where a page starts: `skip` capped at the total.
pub open spec fn spec_page_skip(total: int, skip: Option<usize>) -> int {
    match skip {
        Some(s) => if s as int <= total {
            s as int
        } else {
            total
        },
        None => 0,
    }
}

/// How many records a page holds: `skip` records are dropped from the front,
/// `limit` caps what remains.
pub open spec fn spec_page_len(total: int, limit: Option<usize>, skip: Option<usize>) -> int {
    let sk = match skip {
        Some(s) => if s as int <= total {
            s as int
        } else {
            total
        },
        None => 0,
    };
    let avail = total - sk;
    match limit {
        Some(l) => if l as int <= avail {
            l as int
        } else {
            avail
        },
        None => avail,
    }
}

/// Whether `ids` is exactly the needing-regeneration list at `cutoff`.
pub open spec fn spec_needing_list_ok(
    records: Seq<QrCodeMetadata>,
    ids: Seq<String>,
    cutoff: int,
) -> bool {
    &&& ids.len() == spec_ids_needing(records, cutoff).len()
    &&& forall|k: int|
        0 <= k < ids.len() ==> #[trigger] ids[k]@ == spec_ids_needing(records, cutoff)[k]
}

/// The property ids of the active records generated before `cutoff`, in
/// store order.
pub open spec fn spec_ids_needing(s: Seq<QrCodeMetadata>, cutoff: int) -> Seq<Seq<char>>
    decreases s.len(),
{
    if s.len() == 0 {
        seq![]
    } else {
        let rest = spec_ids_needing(s.drop_last(), cutoff);
        if s.last().is_active && s.last().generated_at < cutoff {
            rest.push(s.last().property_id@)
        } else {
            rest
        }
    }
}

/// The property ids of a batch's successes, in order.
pub open spec fn spec_response_ids(v: Seq<QrCodeResponse>) -> Seq<Seq<char>> {
    v.map_values(|r: QrCodeResponse| r.property_id@)
}

/// The property ids of a batch's failures, in order.
pub open spec fn spec_failure_ids(v: Seq<QrGenerationError>) -> Seq<Seq<char>> {
    v.map_values(|f: QrGenerationError| f.property_id@)
}

/// The views of a list of id strings.
pub open spec fn spec_string_views(v: Seq<String>) -> Seq<Seq<char>> {
    v.map_values(|s: String| s@)
}

/// The property ids of a list of directory entries.
pub open spec fn spec_entry_id_views(v: Seq<PropertyEntry>) -> Seq<Seq<char>> {
    v.map_values(|e: PropertyEntry| e.info.id@)
}

impl QrGeneratorService {
    /// Generate QR codes for several properties in order: one property's
    /// failure is recorded with its error code and does not stop the others.
    /// An empty list yields all-zero counts.
    pub fn batch_generate_qr_codes(
        &mut self,
        property_ids: Vec<String>,
        force_regenerate: bool,
        reason: QrGenerationReason,
    ) -> (r: Result<BatchQrCodeResponse, QrGeneratorError>)
        requires
            old(self).wf(),
        ensures
            final (self).wf(),
            final (self).spec_props() == old(self).spec_props(),
            final (self).spec_s3() == old(self).spec_s3(),
            final (self).spec_base_url() == old(self).spec_base_url(),
            match r {
                Ok(b) => {
                    &&& b.total_requested == property_ids@.len()
                    &&& b.total_successful == b.successful@.len()
                    &&& b.total_failed == b.failed@.len()
                    &&& b.total_successful + b.total_failed == b.total_requested
                    &&& forall|k: int|
                        0 <= k < b.successful@.len() ==> spec_id_among(
                            property_ids@,
                            #[trigger] b.successful@[k].property_id@,
                        )
                    &&& forall|k: int|
                        0 <= k < b.failed@.len() ==> spec_id_among(
                            property_ids@,
                            #[trigger] b.failed@[k].property_id@,
                        )
                    &&& spec_response_ids(b.successful@).to_multiset().add(
                        spec_failure_ids(b.failed@).to_multiset(),
                    ) == spec_string_views(property_ids@).to_multiset()
                },
                Err(_) => false,
            },
    {
        let mut successful: Vec<QrCodeResponse> = Vec::new();
        let mut failed: Vec<QrGenerationError> = Vec::new();
        let total_requested = property_ids.len();
        let mut i: usize = 0;
        proof {
            broadcast use vstd::seq_lib::group_to_multiset_ensures;

            assert(spec_response_ids(successful@) =~= Seq::<Seq<char>>::empty());
            assert(spec_failure_ids(failed@) =~= Seq::<Seq<char>>::empty());
            assert(spec_string_views(property_ids@.subrange(0, 0)) =~= Seq::<Seq<char>>::empty());
            assert(spec_response_ids(successful@).to_multiset().add(
                spec_failure_ids(failed@).to_multiset(),
            ) =~= spec_string_views(property_ids@.subrange(0, 0)).to_multiset());
        }
        while i < property_ids.len()
            invariant
                self.wf(),
                self.spec_props() == old(self).spec_props(),
                self.spec_s3() == old(self).spec_s3(),
                self.spec_base_url() == old(self).spec_base_url(),
                0 <= i <= property_ids@.len(),
                successful@.len() + failed@.len() == i,
                forall|k: int|
                    0 <= k < successful@.len() ==> spec_id_among(
                        property_ids@,
                        #[trigger] successful@[k].property_id@,
                    ),
                forall|k: int|
                    0 <= k < failed@.len() ==> spec_id_among(
                        property_ids@,
                        #[trigger] failed@[k].property_id@,
                    ),
                spec_response_ids(successful@).to_multiset().add(
                    spec_failure_ids(failed@).to_multiset(),
                ) == spec_string_views(property_ids@.subrange(0, i as int)).to_multiset(),
            decreases property_ids@.len() - i,
        {
            proof {
                broadcast use vstd::seq_lib::group_to_multiset_ensures;

                assert(spec_string_views(property_ids@.subrange(0, i + 1)) =~= spec_string_views(
                    property_ids@.subrange(0, i as int),
                ).push(property_ids@[i as int]@));
            }
            let pid = property_ids[i].clone();
            match self.generate_qr_code(pid, force_regenerate, reason) {
                Ok(resp) => {
                    proof {
                        assert(property_ids@[i as int]@ == resp.property_id@);
                    }
                    let ghost pre_succ = successful@;
                    successful.push(resp);
                    proof {
                        broadcast use vstd::seq_lib::group_to_multiset_ensures;

                        assert(spec_response_ids(successful@) =~= spec_response_ids(
                            pre_succ,
                        ).push(resp.property_id@));
                        assert(spec_response_ids(successful@).to_multiset().add(
                            spec_failure_ids(failed@).to_multiset(),
                        ) =~= spec_string_views(property_ids@.subrange(0, i + 1)).to_multiset());
                    }
                },
                Err(e) => {
                    let error_code = qr_error_code(&e);
                    let error = qr_error_message(&e);
                    let item = QrGenerationError {
                        property_id: property_ids[i].clone(),
                        error,
                        error_code,
                    };
                    proof {
                        assert(property_ids@[i as int]@ == item.property_id@);
                    }
                    let ghost pre_failed = failed@;
                    let ghost item_pid = item.property_id@;
                    failed.push(item);
                    proof {
                        broadcast use vstd::seq_lib::group_to_multiset_ensures;

                        assert(spec_failure_ids(failed@) =~= spec_failure_ids(pre_failed).push(
                            item_pid,
                        ));
                        assert(spec_response_ids(successful@).to_multiset().add(
                            spec_failure_ids(failed@).to_multiset(),
                        ) =~= spec_string_views(property_ids@.subrange(0, i + 1)).to_multiset());
                    }
                },
            }
            i += 1;
        }
        proof {
            assert(property_ids@.subrange(0, property_ids@.len() as int) =~= property_ids@);
        }
        let total_successful = successful.len();
        let total_failed = failed.len();
        Ok(
            BatchQrCodeResponse {
                successful,
                failed,
                total_requested,
                total_successful,
                total_failed,
            },
        )
    }

    /// The stored QR record of `property_id`, or not-found.
    pub fn get_qr_code(&self, property_id: &str) -> (r: Result<QrCodeMetadata, QrGeneratorError>)
        requires
            self.wf(),
        ensures
            match r {
                Ok(m) => self.spec_store().spec_has(property_id@) && m == self.spec_store().spec_get(
                    property_id@,
                ),
                Err(e) => e matches QrGeneratorError::PropertyNotFound && !self.spec_store().spec_has(
                    property_id@,
                ),
            },
    {
        match self.qr_metadata.get(property_id) {
            Some(m) => Ok(m.duplicate()),
            None => Err(QrGeneratorError::PropertyNotFound),
        }
    }

    /// Delete the QR record of `property_id` (and, best effort, its stored
    /// image); whether a record was removed. Other properties are untouched.
    pub fn delete_qr_code(&mut self, property_id: &str) -> (r: Result<bool, QrGeneratorError>)
        requires
            old(self).wf(),
        ensures
            final (self).wf(),
            final (self).spec_props() == old(self).spec_props(),
            final (self).spec_s3() == old(self).spec_s3(),
            final (self).spec_base_url() == old(self).spec_base_url(),
            match r {
                Ok(b) => b == old(self).spec_store().spec_has(property_id@),
                Err(_) => false,
            },
            !final (self).spec_store().spec_has(property_id@),
            forall|q: Seq<char>|
                q != property_id@ ==> #[trigger] final (self).spec_store().spec_has(q) == old(
                    self,
                ).spec_store().spec_has(q),
            forall|q: Seq<char>|
                q != property_id@ && old(self).spec_store().spec_has(q) ==> #[trigger] final (
                self).spec_store().spec_get(q) == old(self).spec_store().spec_get(q),
    {
        let has = match self.qr_metadata.get(property_id) {
            Some(existing) => {
                let key = existing.get_s3_key();
                match self.s3_service.delete_qr_image(key.as_str()) {
                    Ok(_) => (),
                    Err(_) => (),
                }
                true
            },
            None => false,
        };
        let _ = has;
        let removed = self.qr_metadata.remove(property_id);
        Ok(removed)
    }

    /// Turn off the QR record of `property_id`, touching nothing else of it;
    /// whether a record was there to deactivate.
    pub fn deactivate_qr_code(&mut self, property_id: &str) -> (r: Result<bool, QrGeneratorError>)
        requires
            old(self).wf(),
        ensures
            final (self).wf(),
            final (self).spec_props() == old(self).spec_props(),
            final (self).spec_s3() == old(self).spec_s3(),
            final (self).spec_base_url() == old(self).spec_base_url(),
            match r {
                Ok(b) => b == old(self).spec_store().spec_has(property_id@),
                Err(_) => false,
            },
            old(self).spec_store().spec_has(property_id@) ==> {
                let pre = old(self).spec_store().spec_get(property_id@);
                let post = final (self).spec_store().spec_get(property_id@);
                !post.is_active && post.qr_version == pre.qr_version && post.qr_pattern
                    == pre.qr_pattern && post.qr_code_url == pre.qr_code_url && post.qr_code_hash
                    == pre.qr_code_hash && post.generated_at == pre.generated_at
                    && post.scan_count == pre.scan_count && post.metadata == pre.metadata
            },
            final (self).spec_store().spec_has(property_id@) == old(self).spec_store().spec_has(
                property_id@,
            ),
            forall|q: Seq<char>|
                q != property_id@ ==> #[trigger] final (self).spec_store().spec_has(q) == old(
                    self,
                ).spec_store().spec_has(q),
            forall|q: Seq<char>|
                q != property_id@ && old(self).spec_store().spec_has(q) ==> #[trigger] final (
                self).spec_store().spec_get(q) == old(self).spec_store().spec_get(q),
    {
        let modified = self.qr_metadata.deactivate(property_id);
        Ok(modified)
    }

    /// The stored QR records, newest first by generation time, after `skip`
    /// records and capped at `limit`.
    pub fn get_all_qr_codes(&self, limit: Option<usize>, skip: Option<usize>) -> (r: Result<
        Vec<QrCodeMetadata>,
        QrGeneratorError,
    >)
        requires
            self.wf(),
        ensures
            match r {
                Ok(v) => {
                    let total = self.spec_store().spec_records().len() as int;
                    &&& v@.len() == spec_page_len(total, limit, skip)
                    &&& spec_sorted_desc(v@)
                    &&& forall|k: int|
                        0 <= k < v@.len() ==> spec_from_records(
                            #[trigger] v@[k],
                            self.spec_store().spec_records(),
                        )
                    &&& exists|ranked: Seq<QrCodeMetadata>|
                        #[trigger] ranked.to_multiset() == self.spec_store().spec_records().to_multiset()
                            && spec_sorted_desc(ranked) && v@ == ranked.subrange(
                            spec_page_skip(total, skip),
                            spec_page_skip(total, skip) + spec_page_len(total, limit, skip),
                        )
                },
                Err(_) => false,
            },
    {
        let records = self.qr_metadata.records();
        let ghost records0 = records@;
        // Working copy of every record.
        let mut work: Vec<QrCodeMetadata> = Vec::new();
        let mut i: usize = 0;
        while i < records.len()
            invariant
                records@ == records0,
                0 <= i <= records0.len(),
                work@.len() == i,
                forall|k: int| 0 <= k < i ==> work@[k] == records0[k],
            decreases records0.len() - i,
        {
            work.push(records[i].duplicate());
            i += 1;
        }
        proof {
            assert forall|k: int| 0 <= k < work@.len() implies spec_from_records(
                #[trigger] work@[k],
                records0,
            ) by {
                assert(records0[k] == work@[k]);
            }
            assert(work@ =~= records0);
        }
        // Selection sort: repeatedly move the newest remaining record over.
        let total = work.len();
        let mut sorted: Vec<QrCodeMetadata> = Vec::new();
        proof {
            broadcast use vstd::seq_lib::group_to_multiset_ensures;

            assert(sorted@.to_multiset().add(work@.to_multiset()) =~= records0.to_multiset());
        }
        while work.len() > 0
            invariant
                sorted@.len() + work@.len() == total,
                sorted@.to_multiset().add(work@.to_multiset()) == records0.to_multiset(),
                spec_sorted_desc(sorted@),
                forall|k: int|
                    0 <= k < sorted@.len() ==> spec_from_records(#[trigger] sorted@[k], records0),
                forall|k: int|
                    0 <= k < work@.len() ==> spec_from_records(#[trigger] work@[k], records0),
                forall|a: int, b: int|
                    0 <= a < sorted@.len() && 0 <= b < work@.len()
                        ==> #[trigger] sorted@[a].generated_at >= #[trigger] work@[b].generated_at,
            decreases work@.len(),
        {
            let mut mi: usize = 0;
            let mut j: usize = 1;
            while j < work.len()
                invariant
                    0 < work@.len(),
                    0 <= mi < work@.len(),
                    1 <= j <= work@.len(),
                    forall|t: int|
                        0 <= t < j ==> work@[mi as int].generated_at
                            >= #[trigger] work@[t].generated_at,
                decreases work@.len() - j,
            {
                if work[j].generated_at > work[mi].generated_at {
                    mi = j;
                }
                j += 1;
            }
            let ghost pre_work = work@;
            let ghost pre_sorted = sorted@;
            let m = work.remove(mi);
            proof {
                assert(m == pre_work[mi as int]);
                assert forall|k: int| 0 <= k < work@.len() implies spec_from_records(
                    #[trigger] work@[k],
                    records0,
                ) && m.generated_at >= work@[k].generated_at by {
                    if k < mi as int {
                        assert(work@[k] == pre_work[k]);
                    } else {
                        assert(work@[k] == pre_work[k + 1]);
                    }
                }
            }
            sorted.push(m);
            proof {
                broadcast use vstd::seq_lib::group_to_multiset_ensures;

                assert(work@.to_multiset() =~= pre_work.to_multiset().remove(m));
                assert(sorted@.to_multiset() =~= pre_sorted.to_multiset().insert(m));
                assert(pre_work.contains(m));
                assert(pre_work.to_multiset().count(m) > 0);
                assert(sorted@.to_multiset().add(work@.to_multiset())
                    =~= records0.to_multiset());
            }
        }
        // Pagination.
        let sk: usize = match skip {
            Some(s) => if s <= total {
                s
            } else {
                total
            },
            None => 0,
        };
        let avail: usize = total - sk;
        let lim: usize = match limit {
            Some(l) => if l <= avail {
                l
            } else {
                avail
            },
            None => avail,
        };
        let mut out: Vec<QrCodeMetadata> = Vec::new();
        let mut k: usize = 0;
        while k < lim
            invariant
                sorted@.len() == total,
                sk + lim <= total,
                0 <= k <= lim,
                out@.len() == k,
                spec_sorted_desc(sorted@),
                forall|t: int|
                    0 <= t < sorted@.len() ==> spec_from_records(#[trigger] sorted@[t], records0),
                forall|t: int| 0 <= t < k ==> out@[t] == sorted@[sk + t],
            decreases lim - k,
        {
            out.push(sorted[sk + k].duplicate());
            k += 1;
        }
        proof {
            assert forall|a: int, b: int| 0 <= a < b < out@.len() implies out@[a].generated_at
                >= out@[b].generated_at by {
                assert(out@[a] == sorted@[sk + a]);
                assert(out@[b] == sorted@[sk + b]);
            }
            assert forall|t: int| 0 <= t < out@.len() implies spec_from_records(
                #[trigger] out@[t],
                records0,
            ) by {
                assert(out@[t] == sorted@[sk + t]);
            }
            assert(sk as int == spec_page_skip(total as int, skip));
            assert(lim as int == spec_page_len(total as int, limit, skip));
            assert(out@ =~= sorted@.subrange(sk as int, sk as int + lim as int));
            assert(sorted@.to_multiset() == records0.to_multiset()) by {
                broadcast use vstd::seq_lib::group_to_multiset_ensures;

                assert(work@ =~= Seq::<QrCodeMetadata>::empty());
                assert(sorted@.to_multiset().add(work@.to_multiset()) =~= sorted@.to_multiset());
            }
        }
        Ok(out)
    }

    /// The property ids of the active records generated before `cutoff`, in
    /// store order.
    pub fn qr_codes_needing_regeneration_at(&self, cutoff: i64) -> (r: Vec<String>)
        ensures
            r@.len() == spec_ids_needing(self.spec_store().spec_records(), cutoff as int).len(),
            forall|k: int|
                0 <= k < r@.len() ==> #[trigger] r@[k]@ == spec_ids_needing(
                    self.spec_store().spec_records(),
                    cutoff as int,
                )[k],
    {
        let records = self.qr_metadata.records();
        let ghost records0 = records@;
        let mut out: Vec<String> = Vec::new();
        let mut i: usize = 0;
        assert(records0.subrange(0, 0) =~= Seq::<QrCodeMetadata>::empty());
        while i < records.len()
            invariant
                records@ == records0,
                0 <= i <= records0.len(),
                out@.len() == spec_ids_needing(records0.subrange(0, i as int), cutoff as int).len(),
                forall|k: int|
                    0 <= k < out@.len() ==> #[trigger] out@[k]@ == spec_ids_needing(
                        records0.subrange(0, i as int),
                        cutoff as int,
                    )[k],
            decreases records0.len() - i,
        {
            proof {
                assert(records0.subrange(0, i + 1).drop_last() =~= records0.subrange(0, i as int));
                assert(records0.subrange(0, i + 1).last() == records0[i as int]);
            }
            let rec = &records[i];
            if rec.is_active && rec.generated_at < cutoff {
                out.push(rec.property_id.clone());
            }
            i += 1;
        }
        assert(records0.subrange(0, records0.len() as int) =~= records0);
        out
    }

    /// The property ids of the active records older than `expiry_days` now.
    /// The clock decides the cutoff; `qr_codes_needing_regeneration_at`
    /// carries the exact contract.
    pub fn get_qr_codes_needing_regeneration(&self, expiry_days: i64) -> (r: Result<
        Vec<String>,
        QrGeneratorError,
    >)
        ensures
            r is Ok,
            exists|c: int|
                #[trigger] spec_needing_list_ok(
                    self.spec_store().spec_records(),
                    (r->Ok_0)@,
                    c,
                ),
    {
        let now = crate::clock::now_unix();
        let wide: i128 = (now as i128) - (expiry_days as i128) * 86400;
        let cutoff: i64 = if wide < i64::MIN as i128 {
            i64::MIN
        } else if wide > i64::MAX as i128 {
            i64::MAX
        } else {
            wide as i64
        };
        let ids = self.qr_codes_needing_regeneration_at(cutoff);
        let res: Result<Vec<String>, QrGeneratorError> = Ok(ids);
        proof {
            assert(spec_needing_list_ok(
                self.spec_store().spec_records(),
                (res->Ok_0)@,
                cutoff as int,
            ));
        }
        res
    }

    /// The property ids of every stored record, in store order.
    fn get_all_qr_property_ids(&self) -> (r: Vec<String>)
        ensures
            r@.len() == self.spec_store().spec_records().len(),
            forall|k: int|
                0 <= k < r@.len() ==> #[trigger] r@[k] == self.spec_store().spec_records()[k].property_id,
    {
        let records = self.qr_metadata.records();
        let mut out: Vec<String> = Vec::new();
        let mut i: usize = 0;
        while i < records.len()
            invariant
                records@ == self.spec_store().spec_records(),
                0 <= i <= records@.len(),
                out@.len() == i,
                forall|k: int| 0 <= k < i ==> #[trigger] out@[k] == records@[k].property_id,
            decreases records@.len() - i,
        {
            out.push(records[i].property_id.clone());
            i += 1;
        }
        out
    }

    /// Generate QR codes for every eligible property that has none yet:
    /// the set difference of eligible properties and stored record ids,
    /// handed to the batch path without forcing.
    pub fn generate_missing_qr_codes(&mut self) -> (r: Result<
        BatchQrCodeResponse,
        QrGeneratorError,
    >)
        requires
            old(self).wf(),
        ensures
            final (self).wf(),
            final (self).spec_props() == old(self).spec_props(),
            final (self).spec_s3() == old(self).spec_s3(),
            final (self).spec_base_url() == old(self).spec_base_url(),
            match r {
                Ok(b) => {
                    let missing = spec_needing_qr(
                        old(self).spec_props().spec_entries(),
                        old(self).spec_store().spec_records().map_values(
                            |m: QrCodeMetadata| m.property_id,
                        ),
                    );
                    &&& b.total_successful == b.successful@.len()
                    &&& b.total_failed == b.failed@.len()
                    &&& b.total_successful + b.total_failed == b.total_requested
                    &&& b.total_requested == missing.len()
                    &&& spec_response_ids(b.successful@).to_multiset().add(
                        spec_failure_ids(b.failed@).to_multiset(),
                    ) == spec_entry_id_views(missing).to_multiset()
                },
                Err(_) => false,
            },
    {
        let ghost missing = spec_needing_qr(
            old(self).spec_props().spec_entries(),
            old(self).spec_store().spec_records().map_values(|m: QrCodeMetadata| m.property_id),
        );
        let existing_ids = self.get_all_qr_property_ids();
        proof {
            assert(existing_ids@ =~= old(self).spec_store().spec_records().map_values(
                |m: QrCodeMetadata| m.property_id,
            ));
        }
        let needing = match self.property_service.get_properties_needing_qr(existing_ids) {
            Ok(v) => v,
            Err(_) => {
                proof {
                    assert(false);
                }
                return Err(QrGeneratorError::DatabaseError("unreachable".to_owned()));
            },
        };
        let mut property_ids: Vec<String> = Vec::new();
        let mut i: usize = 0;
        while i < needing.len()
            invariant
                needing@.len() == missing.len(),
                forall|k: int| 0 <= k < needing@.len() ==> #[trigger] needing@[k].eqv(&missing[k].info),
                0 <= i <= needing@.len(),
                property_ids@.len() == i,
                forall|k: int| 0 <= k < i ==> #[trigger] property_ids@[k]@ == missing[k].info.id@,
            decreases needing@.len() - i,
        {
            let id = needing[i].id.clone();
            proof {
                assert(needing@[i as int].eqv(&missing[i as int].info));
                assert(id@ == missing[i as int].info.id@);
            }
            property_ids.push(id);
            i += 1;
        }
        proof {
            assert(spec_string_views(property_ids@) =~= spec_entry_id_views(missing));
        }
        if property_ids.len() == 0 {
            proof {
                broadcast use vstd::seq_lib::group_to_multiset_ensures;

                assert(spec_response_ids(Seq::<QrCodeResponse>::empty()) =~= Seq::<
                    Seq<char>,
                >::empty());
                assert(spec_failure_ids(Seq::<QrGenerationError>::empty()) =~= Seq::<
                    Seq<char>,
                >::empty());
                assert(Seq::<Seq<char>>::empty().to_multiset().add(
                    Seq::<Seq<char>>::empty().to_multiset(),
                ) =~= spec_entry_id_views(missing).to_multiset());
            }
            return Ok(
                BatchQrCodeResponse {
                    successful: Vec::new(),
                    failed: Vec::new(),
                    total_requested: 0,
                    total_successful: 0,
                    total_failed: 0,
                },
            );
        }
        self.batch_generate_qr_codes(property_ids, false, QrGenerationReason::BatchGeneration)
    }
}


} // verus!
