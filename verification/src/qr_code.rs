//! QR payload and metadata records: the payload type with its canonical JSON
//! codec, and the stored per-property QR record with its lifecycle
//! (creation at version 1, regeneration that bumps the version, deactivation).

use vstd::prelude::*;
use vstd::string::*;
use crate::strutil::{spec_i64_str, i64_to_string, str_eq, clone_opt_string};
use crate::json::{
    esc, escape_append, spec_parse_string, spec_parse_i64, spec_expect, parse_string_part,
    parse_i64_part, expect_lit, lemma_expect_here, lemma_parse_string_here, lemma_parse_i64_here,
};
use crate::hash::{spec_sha256_hex, sha256_hex};
use crate::clock::now_unix;
use crate::ident::new_object_id_hex;

verus! {

/// Why a QR code was (re)generated.
#[derive(Debug, Clone, Copy, PartialEq, Eq, Structural)]
pub enum QrGenerationReason {
    NewProperty,
    PropertyUpdated,
    ManualRegeneration,
    BatchGeneration,
    ExpiredQr,
}

/// The outcome tag of a generate call.
#[derive(Debug, Clone, Copy, PartialEq, Eq, Structural)]
pub enum QrStatus {
    Generated,
    Regenerated,
    Failed,
    Exists,
}

/// Point-in-time snapshot of the property embedded in a QR record.
#[derive(Debug, Clone)]
pub struct QrMetadata {
    pub property_name: String,
    pub location: String,
    /// "for sale" or "for rent".
    pub action: String,
    pub price: i64,
    pub onchain_id: Option<String>,
    pub crypto_accepted: bool,
    pub primary_image: Option<String>,
    pub is_verified: bool,
    /// Id of the user who asked for the QR, when known.
    pub generated_by: Option<String>,
    pub generation_reason: QrGenerationReason,
}

/// The payload encoded into a QR image.
#[derive(Debug, Clone)]
pub struct QrCodeData {
    /// Always "daobitat_property".
    pub qr_type: String,
    pub property_id: String,
    pub scan_url: String,
    /// The payload format version, "1.0".
    pub version: String,
    /// Unix seconds at generation time.
    pub timestamp: i64,
}

/// The error returned when a string is not a canonical QR payload.
#[derive(Debug, Clone, Copy, PartialEq, Eq, Structural)]
pub struct QrDataParseError {}

/// The canonical JSON text of a payload with the given fields.
pub open spec fn spec_payload_json(
    ty: Seq<char>,
    pid: Seq<char>,
    su: Seq<char>,
    ver: Seq<char>,
    ts: int,
) -> Seq<char> {
    ("{\"type\":\"")@ + esc(ty) + ("\",\"propertyId\":\"")@ + esc(pid) + (
    "\",\"scanUrl\":\"")@ + esc(su) + ("\",\"version\":\"")@ + esc(ver) + (
    "\",\"timestamp\":")@ + spec_i64_str(ts) + ("}")@
}

impl QrCodeData {
    /// The canonical JSON text of this payload: fields in fixed order, string
    /// values escaped as the codec of this crate does.
    pub open spec fn spec_json(&self) -> Seq<char> {
        spec_payload_json(
            self.qr_type@,
            self.property_id@,
            self.scan_url@,
            self.version@,
            self.timestamp as int,
        )
    }

    /// A fresh payload for `property_id`: fixed type tag, scan URL under the
    /// base URL, format version "1.0", stamped with the current time.
    pub fn new(property_id: String, scan_base_url: &str) -> (r: QrCodeData)
        ensures
            r.qr_type@ == ("daobitat_property")@,
            r.property_id@ == property_id@,
            r.scan_url@ == scan_base_url@ + ("/scan/")@ + property_id@,
            r.version@ == ("1.0")@,
    {
        let mut scan_url = String::new();
        scan_url.append(scan_base_url);
        scan_url.append("/scan/");
        scan_url.append(property_id.as_str());
        QrCodeData {
            qr_type: "daobitat_property".to_owned(),
            property_id,
            scan_url,
            version: "1.0".to_owned(),
            timestamp: now_unix(),
        }
    }

    /// The canonical JSON string of this payload; this exact string is what
    /// the QR image encodes and what the content hash covers.
    pub fn to_json_string(&self) -> (r: String)
        ensures
            r@ == self.spec_json(),
    {
        let mut s = String::new();
        s.append("{\"type\":\"");
        escape_append(&mut s, self.qr_type.as_str());
        s.append("\",\"propertyId\":\"");
        escape_append(&mut s, self.property_id.as_str());
        s.append("\",\"scanUrl\":\"");
        escape_append(&mut s, self.scan_url.as_str());
        s.append("\",\"version\":\"");
        escape_append(&mut s, self.version.as_str());
        s.append("\",\"timestamp\":");
        let ts = i64_to_string(self.timestamp);
        s.append(ts.as_str());
        s.append("}");
        proof {
            assert(s@ =~= self.spec_json());
        }
        s
    }

    /// Whether the payload is well formed: non-empty property id and scan
    /// URL, the exact type tag, and a non-empty format version.
    pub fn is_valid(&self) -> (r: bool)
        ensures
            r == (self.property_id@.len() > 0 && self.scan_url@.len() > 0 && self.qr_type@ == (
            "daobitat_property")@ && self.version@.len() > 0),
    {
        self.property_id.as_str().unicode_len() > 0 && self.scan_url.as_str().unicode_len() > 0
            && str_eq(self.qr_type.as_str(), "daobitat_property") && self.version.as_str().unicode_len() > 0
    }

    /// Parse a canonical QR payload. Exactly the strings of the form
    /// `spec_json` are accepted, and parsing inverts printing
    /// (`lemma_qr_json_round_trip`).
    pub fn from_json_string(json: &str) -> (r: Result<QrCodeData, QrDataParseError>)
        ensures
            match r {
                Ok(d) => spec_parse_qr(json@) == Some(
                    (d.qr_type@, d.property_id@, d.scan_url@, d.version@, d.timestamp as int),
                ),
                Err(_) => spec_parse_qr(json@) is None,
            },
    {
        let i1 = match expect_lit(json, 0, "{\"type\":\"") {
            Some(i) => i,
            None => {
                return Err(QrDataParseError {  });
            },
        };
        let (qr_type, i2) = match parse_string_part(json, i1) {
            Some(r) => r,
            None => {
                return Err(QrDataParseError {  });
            },
        };
        let i3 = match expect_lit(json, i2, ",\"propertyId\":\"") {
            Some(i) => i,
            None => {
                return Err(QrDataParseError {  });
            },
        };
        let (property_id, i4) = match parse_string_part(json, i3) {
            Some(r) => r,
            None => {
                return Err(QrDataParseError {  });
            },
        };
        let i5 = match expect_lit(json, i4, ",\"scanUrl\":\"") {
            Some(i) => i,
            None => {
                return Err(QrDataParseError {  });
            },
        };
        let (scan_url, i6) = match parse_string_part(json, i5) {
            Some(r) => r,
            None => {
                return Err(QrDataParseError {  });
            },
        };
        let i7 = match expect_lit(json, i6, ",\"version\":\"") {
            Some(i) => i,
            None => {
                return Err(QrDataParseError {  });
            },
        };
        let (version, i8) = match parse_string_part(json, i7) {
            Some(r) => r,
            None => {
                return Err(QrDataParseError {  });
            },
        };
        let i9 = match expect_lit(json, i8, ",\"timestamp\":") {
            Some(i) => i,
            None => {
                return Err(QrDataParseError {  });
            },
        };
        let (timestamp, i10) = match parse_i64_part(json, i9) {
            Some(r) => r,
            None => {
                return Err(QrDataParseError {  });
            },
        };
        let i11 = match expect_lit(json, i10, "}") {
            Some(i) => i,
            None => {
                return Err(QrDataParseError {  });
            },
        };
        if i11 != json.unicode_len() {
            return Err(QrDataParseError {  });
        }
        Ok(QrCodeData { qr_type, property_id, scan_url, version, timestamp })
    }
}

/// Parse the canonical JSON text of a QR payload: the type tag, property id,
/// scan URL, version and timestamp, in this order, with nothing after the
/// closing brace.
pub open spec fn spec_parse_qr(s: Seq<char>) -> Option<
    (Seq<char>, Seq<char>, Seq<char>, Seq<char>, int),
> {
    match spec_expect(s, 0, ("{\"type\":\"")@) {
        None => None,
        Some(i1) => match spec_parse_string(s, i1) {
            None => None,
            Some((ty, i2)) => match spec_expect(s, i2, (",\"propertyId\":\"")@) {
                None => None,
                Some(i3) => match spec_parse_string(s, i3) {
                    None => None,
                    Some((pid, i4)) => match spec_expect(s, i4, (",\"scanUrl\":\"")@) {
                        None => None,
                        Some(i5) => match spec_parse_string(s, i5) {
                            None => None,
                            Some((su, i6)) => match spec_expect(s, i6, (",\"version\":\"")@) {
                                None => None,
                                Some(i7) => match spec_parse_string(s, i7) {
                                    None => None,
                                    Some((ver, i8)) => match spec_expect(
                                        s,
                                        i8,
                                        (",\"timestamp\":")@,
                                    ) {
                                        None => None,
                                        Some(i9) => match spec_parse_i64(s, i9) {
                                            None => None,
                                            Some((ts, i10)) => match spec_expect(s, i10, ("}")@) {
                                                None => None,
                                                Some(i11) => if i11 == s.len() {
                                                    Some((ty, pid, su, ver, ts))
                                                } else {
                                                    None
                                                },
                                            },
                                        },
                                    },
                                },
                            },
                        },
                    },
                },
            },
        },
    }
}

/// Round trip: the canonical JSON text of any payload parses back to exactly
/// that payload's fields.
#[verifier::spinoff_prover]
#[verifier::rlimit(100)]
pub proof fn lemma_qr_json_round_trip(d: &QrCodeData)
    ensures
        spec_parse_qr(d.spec_json()) == Some(
            (d.qr_type@, d.property_id@, d.scan_url@, d.version@, d.timestamp as int),
        ),
{
    let s = d.spec_json();
    let t = esc(d.qr_type@);
    let p = esc(d.property_id@);
    let u = esc(d.scan_url@);
    let vv = esc(d.version@);
    let num = spec_i64_str(d.timestamp as int);
    let l0 = ("{\"type\":\"")@;
    let q1 = ("\",\"propertyId\":\"")@;
    let q2 = ("\",\"scanUrl\":\"")@;
    let q3 = ("\",\"version\":\"")@;
    let q4 = ("\",\"timestamp\":")@;
    let rb = ("}")@;
    let e1 = (",\"propertyId\":\"")@;
    let e2 = (",\"scanUrl\":\"")@;
    let e3 = (",\"version\":\"")@;
    let e4 = (",\"timestamp\":")@;
    let qq = seq!['"'];
    reveal_strlit("{\"type\":\"");
    reveal_strlit("\",\"propertyId\":\"");
    reveal_strlit("\",\"scanUrl\":\"");
    reveal_strlit("\",\"version\":\"");
    reveal_strlit("\",\"timestamp\":");
    reveal_strlit("}");
    reveal_strlit(",\"propertyId\":\"");
    reveal_strlit(",\"scanUrl\":\"");
    reveal_strlit(",\"version\":\"");
    reveal_strlit(",\"timestamp\":");
    assert(q1 =~= qq + e1);
    assert(q2 =~= qq + e2);
    assert(q3 =~= qq + e3);
    assert(q4 =~= qq + e4);
    // expect the opening text
    assert(s =~= Seq::<char>::empty() + l0 + (t + q1 + p + q2 + u + q3 + vv + q4 + num + rb));
    lemma_expect_here(
        s,
        Seq::<char>::empty(),
        l0,
        t + q1 + p + q2 + u + q3 + vv + q4 + num + rb,
    );
    // the type tag string
    assert(s =~= l0 + t + qq + (e1 + p + q2 + u + q3 + vv + q4 + num + rb));
    lemma_parse_string_here(s, l0, d.qr_type@, e1 + p + q2 + u + q3 + vv + q4 + num + rb);
    let pre2 = l0 + t + qq;
    // the property id field
    assert(s =~= pre2 + e1 + (p + q2 + u + q3 + vv + q4 + num + rb));
    lemma_expect_here(s, pre2, e1, p + q2 + u + q3 + vv + q4 + num + rb);
    let pre3 = pre2 + e1;
    assert(s =~= pre3 + p + qq + (e2 + u + q3 + vv + q4 + num + rb));
    lemma_parse_string_here(s, pre3, d.property_id@, e2 + u + q3 + vv + q4 + num + rb);
    let pre4 = pre3 + p + qq;
    // the scan url field
    assert(s =~= pre4 + e2 + (u + q3 + vv + q4 + num + rb));
    lemma_expect_here(s, pre4, e2, u + q3 + vv + q4 + num + rb);
    let pre5 = pre4 + e2;
    assert(s =~= pre5 + u + qq + (e3 + vv + q4 + num + rb));
    lemma_parse_string_here(s, pre5, d.scan_url@, e3 + vv + q4 + num + rb);
    let pre6 = pre5 + u + qq;
    // the version field
    assert(s =~= pre6 + e3 + (vv + q4 + num + rb));
    lemma_expect_here(s, pre6, e3, vv + q4 + num + rb);
    let pre7 = pre6 + e3;
    assert(s =~= pre7 + vv + qq + (e4 + num + rb));
    lemma_parse_string_here(s, pre7, d.version@, e4 + num + rb);
    let pre8 = pre7 + vv + qq;
    // the timestamp field
    assert(s =~= pre8 + e4 + (num + rb));
    lemma_expect_here(s, pre8, e4, num + rb);
    let pre9 = pre8 + e4;
    assert(s =~= pre9 + num + rb);
    assert(rb.len() == 1 && rb[0] == '}');
    lemma_parse_i64_here(s, pre9, d.timestamp, rb);
    let pre10 = pre9 + num;
    // the closing brace, and nothing after it
    assert(s =~= pre10 + rb + Seq::<char>::empty());
    lemma_expect_here(s, pre10, rb, Seq::<char>::empty());
    assert(pre10.len() + rb.len() == s.len());
}

/// The stored QR record of one property: at most one per property id lives in
/// the record store.
#[derive(Debug, Clone)]
pub struct QrCodeMetadata {
    /// The record's own document id (24 hex characters).
    pub id: String,
    pub property_id: String,
    /// Public URL of the QR image.
    pub qr_code_url: String,
    /// The exact JSON payload encoded in the QR image.
    pub qr_pattern: String,
    /// Lowercase hex SHA-256 of `qr_pattern`.
    pub qr_code_hash: String,
    pub generated_at: i64,
    pub last_updated: i64,
    pub scan_count: i64,
    pub last_scanned: Option<i64>,
    pub is_active: bool,
    /// Starts at 1, increments by exactly 1 on every regeneration.
    pub qr_version: i32,
    pub metadata: QrMetadata,
}

impl QrCodeMetadata {
    /// A first-time record: version 1, active, hash of the payload, no scans.
    pub fn new(property_id: String, qr_pattern: String, qr_code_url: String, metadata: QrMetadata)
        -> (r: QrCodeMetadata)
        ensures
            r.id@.len() == 24,
            r.property_id == property_id,
            r.qr_pattern == qr_pattern,
            r.qr_code_url == qr_code_url,
            r.qr_code_hash@ == spec_sha256_hex(qr_pattern@),
            r.generated_at == r.last_updated,
            r.scan_count == 0,
            r.last_scanned is None,
            r.is_active,
            r.qr_version == 1,
            r.metadata == metadata,
    {
        let qr_code_hash = sha256_hex(qr_pattern.as_str());
        let now = now_unix();
        QrCodeMetadata {
            id: new_object_id_hex(),
            property_id,
            qr_code_url,
            qr_pattern,
            qr_code_hash,
            generated_at: now,
            last_updated: now,
            scan_count: 0,
            last_scanned: None,
            is_active: true,
            qr_version: 1,
            metadata,
        }
    }

    /// Count one scan and stamp the record.
    pub fn record_scan(&mut self)
        requires
            old(self).scan_count < i64::MAX,
        ensures
            final (self).scan_count == old(self).scan_count + 1,
            final (self).last_scanned is Some,
            final (self).id == old(self).id,
            final (self).property_id == old(self).property_id,
            final (self).qr_code_url == old(self).qr_code_url,
            final (self).qr_pattern == old(self).qr_pattern,
            final (self).qr_code_hash == old(self).qr_code_hash,
            final (self).generated_at == old(self).generated_at,
            final (self).is_active == old(self).is_active,
            final (self).qr_version == old(self).qr_version,
            final (self).metadata == old(self).metadata,
    {
        let now = now_unix();
        self.scan_count = self.scan_count + 1;
        self.last_scanned = Some(now);
        self.last_updated = now;
    }

    /// Turn the record off; only the active flag (and the update stamp)
    /// changes.
    pub fn deactivate(&mut self)
        ensures
            !final (self).is_active,
            final (self).id == old(self).id,
            final (self).property_id == old(self).property_id,
            final (self).qr_code_url == old(self).qr_code_url,
            final (self).qr_pattern == old(self).qr_pattern,
            final (self).qr_code_hash == old(self).qr_code_hash,
            final (self).generated_at == old(self).generated_at,
            final (self).scan_count == old(self).scan_count,
            final (self).last_scanned == old(self).last_scanned,
            final (self).qr_version == old(self).qr_version,
            final (self).metadata == old(self).metadata,
    {
        self.is_active = false;
        self.last_updated = now_unix();
    }

    /// Swap in a fresh payload: the pattern, URL and hash are replaced, the
    /// version grows by exactly 1, and the record is forced active.
    pub fn regenerate(&mut self, new_pattern: String, new_url: String)
        requires
            old(self).qr_version < i32::MAX,
        ensures
            final (self).qr_pattern == new_pattern,
            final (self).qr_code_url == new_url,
            final (self).qr_code_hash@ == spec_sha256_hex(new_pattern@),
            final (self).qr_version == old(self).qr_version + 1,
            final (self).is_active,
            final (self).id == old(self).id,
            final (self).property_id == old(self).property_id,
            final (self).generated_at == old(self).generated_at,
            final (self).scan_count == old(self).scan_count,
            final (self).last_scanned == old(self).last_scanned,
            final (self).metadata == old(self).metadata,
    {
        let hash = sha256_hex(new_pattern.as_str());
        self.qr_pattern = new_pattern;
        self.qr_code_url = new_url;
        self.qr_code_hash = hash;
        self.qr_version = self.qr_version + 1;
        self.last_updated = now_unix();
        self.is_active = true;
    }

    /// Whether the record is older than `expiry_days`, judged at `now`.
    pub fn is_expired_at(&self, expiry_days: i64, now: i64) -> (r: bool)
        ensures
            r == (now as int > self.generated_at + expiry_days * 86400),
    {
        let threshold: i128 = (self.generated_at as i128) + (expiry_days as i128) * 86400;
        (now as i128) > threshold
    }

    /// Whether the record is older than `expiry_days` now. The clock decides:
    /// `is_expired_at` carries the exact contract.
    pub fn is_expired(&self, expiry_days: i64) -> bool {
        let now = now_unix();
        self.is_expired_at(expiry_days, now)
    }

    /// The object-store key of the QR image.
    pub fn get_s3_key(&self) -> (r: String)
        ensures
            r@ == ("qr-images/")@ + self.property_id@ + (".png")@,
    {
        let mut s = String::new();
        s.append("qr-images/");
        s.append(self.property_id.as_str());
        s.append(".png");
        s
    }

    /// The object-store key of the metadata document.
    pub fn get_metadata_s3_key(&self) -> (r: String)
        ensures
            r@ == ("metadata/")@ + self.property_id@ + (".json")@,
    {
        let mut s = String::new();
        s.append("metadata/");
        s.append(self.property_id.as_str());
        s.append(".json");
        s
    }
}

impl QrMetadata {
    /// A copy of this snapshot, equal to the original.
    pub fn duplicate(&self) -> (r: QrMetadata)
        ensures
            r == *self,
    {
        QrMetadata {
            property_name: self.property_name.clone(),
            location: self.location.clone(),
            action: self.action.clone(),
            price: self.price,
            onchain_id: clone_opt_string(&self.onchain_id),
            crypto_accepted: self.crypto_accepted,
            primary_image: clone_opt_string(&self.primary_image),
            is_verified: self.is_verified,
            generated_by: clone_opt_string(&self.generated_by),
            generation_reason: self.generation_reason,
        }
    }
}

impl QrCodeMetadata {
    /// A copy of this record, equal to the original.
    pub fn duplicate(&self) -> (r: QrCodeMetadata)
        ensures
            r == *self,
    {
        QrCodeMetadata {
            id: self.id.clone(),
            property_id: self.property_id.clone(),
            qr_code_url: self.qr_code_url.clone(),
            qr_pattern: self.qr_pattern.clone(),
            qr_code_hash: self.qr_code_hash.clone(),
            generated_at: self.generated_at,
            last_updated: self.last_updated,
            scan_count: self.scan_count,
            last_scanned: self.last_scanned,
            is_active: self.is_active,
            qr_version: self.qr_version,
            metadata: self.metadata.duplicate(),
        }
    }
}

/// A request to generate one QR code.
#[derive(Debug, Clone)]
pub struct GenerateQrRequest {
    pub property_id: String,
    pub force_regenerate: Option<bool>,
    pub reason: Option<QrGenerationReason>,
}

/// A request to generate QR codes for several properties.
#[derive(Debug, Clone)]
pub struct BatchGenerateQrRequest {
    pub property_ids: Vec<String>,
    pub force_regenerate: Option<bool>,
    pub reason: Option<QrGenerationReason>,
}

/// What a generate call returns.
#[derive(Debug, Clone)]
pub struct QrCodeResponse {
    pub property_id: String,
    pub qr_code_url: String,
    pub scan_url: String,
    pub generated_at: i64,
    pub metadata: QrMetadata,
    pub status: QrStatus,
}

/// One failed item of a batch.
#[derive(Debug, Clone)]
pub struct QrGenerationError {
    pub property_id: String,
    pub error: String,
    pub error_code: String,
}

/// What a batch generate call returns.
#[derive(Debug, Clone)]
pub struct BatchQrCodeResponse {
    pub successful: Vec<QrCodeResponse>,
    pub failed: Vec<QrGenerationError>,
    pub total_requested: usize,
    pub total_successful: usize,
    pub total_failed: usize,
}

/// Object-store layout for QR artifacts.
#[derive(Debug, Clone)]
pub struct QrS3Config {
    pub bucket: String,
    pub region: String,
    pub qr_image_prefix: String,
    pub metadata_prefix: String,
    pub public_base_url: String,
}

/// Error-correction level of the QR image.
#[derive(Debug, Clone, Copy, PartialEq, Eq, Structural)]
pub enum QrErrorCorrection {
    Low,
    Medium,
    Quartile,
    High,
}

/// Image format of the QR image.
#[derive(Debug, Clone, Copy, PartialEq, Eq, Structural)]
pub enum QrImageFormat {
    Png,
    Jpeg,
    Svg,
}

/// Rendering settings for QR images.
#[derive(Debug, Clone)]
pub struct QrGenerationSettings {
    /// Pixel size of the image.
    pub size: u32,
    pub error_correction: QrErrorCorrection,
    pub include_logo: bool,
    pub logo_url: Option<String>,
    pub background_color: String,
    pub foreground_color: String,
    pub format: QrImageFormat,
}

impl Default for QrGenerationSettings {
    /// 256-pixel PNG with medium error correction, logo on, black on white.
    fn default() -> (r: QrGenerationSettings)
        ensures
            r.size == 256,
            r.error_correction == QrErrorCorrection::Medium,
            r.include_logo,
            r.logo_url is Some,
            r.background_color@ == ("#FFFFFF")@,
            r.foreground_color@ == ("#000000")@,
            r.format == QrImageFormat::Png,
    {
        QrGenerationSettings {
            size: 256,
            error_correction: QrErrorCorrection::Medium,
            include_logo: true,
            logo_url: Some("https://daobitat.xyz/logo.png".to_owned()),
            background_color: "#FFFFFF".to_owned(),
            foreground_color: "#000000".to_owned(),
            format: QrImageFormat::Png,
        }
    }
}

/// One successful regeneration step: the version grows by exactly 1 and the
/// record comes out active, as `QrCodeMetadata::regenerate` ensures.
pub open spec fn spec_regeneration_step(pre: QrCodeMetadata, post: QrCodeMetadata) -> bool {
    post.qr_version == pre.qr_version + 1 && post.is_active
}

/// Monotonicity: across any chain of successful regenerations of one record,
/// the version is strictly increasing by exactly 1 per step, and the record
/// is active immediately after every step.
pub proof fn lemma_version_monotonic(chain: Seq<QrCodeMetadata>)
    requires
        forall|k: int|
            0 <= k < chain.len() - 1 ==> spec_regeneration_step(
                #[trigger] chain[k],
                chain[k + 1],
            ),
    ensures
        forall|k: int|
            0 <= k < chain.len() ==> (#[trigger] chain[k]).qr_version == chain[0].qr_version + k,
        forall|k: int| 1 <= k < chain.len() ==> (#[trigger] chain[k]).is_active,
{
    assert forall|k: int| 0 <= k < chain.len() implies (#[trigger] chain[k]).qr_version
        == chain[0].qr_version + k by {
        lemma_version_at(chain, k);
    }
    assert forall|k: int| 1 <= k < chain.len() implies (#[trigger] chain[k]).is_active by {
        assert(spec_regeneration_step(chain[k - 1], chain[(k - 1) + 1]));
    }
}

proof fn lemma_version_at(chain: Seq<QrCodeMetadata>, k: int)
    requires
        forall|j: int|
            0 <= j < chain.len() - 1 ==> spec_regeneration_step(
                #[trigger] chain[j],
                chain[j + 1],
            ),
        0 <= k < chain.len(),
    ensures
        chain[k].qr_version == chain[0].qr_version + k,
    decreases k,
{
    if k > 0 {
        lemma_version_at(chain, k - 1);
        assert(spec_regeneration_step(chain[k - 1], chain[(k - 1) + 1]));
    }
}


} // verus!
