use property_qr::generator::{QrGeneratorService, QrGeneratorError};
use property_qr::property::{PropertyService, PropertyQrInfo};
use property_qr::qr_code::{QrCodeData, QrCodeMetadata, QrMetadata, QrGenerationReason, QrStatus};
use property_qr::s3::S3Service;
use sha2::Digest;

const P1_ID: &str = "a1a1a1a1a1a1a1a1a1a1a1a1";
const P2_ID: &str = "b2b2b2b2b2b2b2b2b2b2b2b2";

fn info(id: &str, images: usize, price: i64, removed: bool, onchain: Option<&str>) -> PropertyQrInfo {
    PropertyQrInfo {
        id: id.to_string(),
        property_name: "Sunset Villa".to_string(),
        location: "Nairobi".to_string(),
        action: "for sale".to_string(),
        price,
        onchain_id: onchain.map(|s| s.to_string()),
        crypto_accepted: true,
        images: (0..images).map(|i| format!("https://cdn.example.com/{}.png", i)).collect(),
        is_verified: Some(true),
        removed: Some(removed),
    }
}

fn make_generator() -> QrGeneratorService {
    let mut props = PropertyService::new();
    props.upsert_property(info(P1_ID, 2, 50000, false, None), "Residential".to_string(), 1000);
    props.upsert_property(info(P2_ID, 0, 50000, false, None), "Residential".to_string(), 1001);
    let s3 = S3Service::new("test-bucket".to_string(), "us-east-1".to_string()).unwrap();
    QrGeneratorService::new(props, s3, "https://qr-service.daobitat.xyz".to_string())
}

#[test]
fn test_qr_generator_creation() {
    let mut service = make_generator();
    let resp = service
        .generate_qr_code(P1_ID.to_string(), false, QrGenerationReason::NewProperty)
        .unwrap();
    assert!(resp.scan_url.starts_with("https://qr-service.daobitat.xyz/scan/"));
}

#[test]
fn test_get_all_qr_codes_empty() {
    let service = make_generator();
    let qr_codes = service.get_all_qr_codes(Some(10), None).expect("Failed to get QR codes");
    assert!(qr_codes.is_empty());
}

#[test]
fn test_batch_generate_empty_list() {
    let mut service = make_generator();
    let result = service
        .batch_generate_qr_codes(vec![], false, QrGenerationReason::BatchGeneration)
        .expect("Failed batch generation");

    assert_eq!(result.total_requested, 0);
    assert_eq!(result.total_successful, 0);
    assert_eq!(result.total_failed, 0);
}

#[test]
fn generate_creates_then_short_circuits_then_regenerates() {
    // A first generation starts at version 1; an unforced repeat answers from
    // the store with the same URL and version; a forced regeneration bumps
    // the version by exactly 1.
    let mut service = make_generator();

    let first = service
        .generate_qr_code(P1_ID.to_string(), false, QrGenerationReason::NewProperty)
        .unwrap();
    assert_eq!(first.status, QrStatus::Generated);
    assert_eq!(service.get_qr_code(P1_ID).unwrap().qr_version, 1);

    let second = service
        .generate_qr_code(P1_ID.to_string(), false, QrGenerationReason::NewProperty)
        .unwrap();
    assert_eq!(second.status, QrStatus::Exists);
    assert_eq!(second.qr_code_url, first.qr_code_url);
    assert_eq!(service.get_qr_code(P1_ID).unwrap().qr_version, 1);

    let third = service
        .generate_qr_code(P1_ID.to_string(), true, QrGenerationReason::ManualRegeneration)
        .unwrap();
    assert_eq!(third.status, QrStatus::Regenerated);
    let record = service.get_qr_code(P1_ID).unwrap();
    assert_eq!(record.qr_version, 2);
    assert!(record.is_active);
}

#[test]
fn generate_rejects_ineligible_property_without_record() {
    // A property without images fails with the rule's reason and no record
    // is created.
    let mut service = make_generator();
    let result = service.generate_qr_code(P2_ID.to_string(), false, QrGenerationReason::NewProperty);
    match result {
        Err(QrGeneratorError::PropertyNotEligible(reason)) => {
            assert!(reason.contains("no images"));
        },
        other => panic!("expected an ineligibility error, got {:?}", other.is_ok()),
    }
    assert!(service.get_qr_code(P2_ID).is_err());
}

#[test]
fn generate_rejects_unknown_and_malformed_ids() {
    let mut service = make_generator();
    assert!(matches!(
        service.generate_qr_code(
            "c3c3c3c3c3c3c3c3c3c3c3c3".to_string(),
            false,
            QrGenerationReason::NewProperty
        ),
        Err(QrGeneratorError::PropertyNotFound)
    ));
    assert!(matches!(
        service.generate_qr_code("ghost".to_string(), false, QrGenerationReason::NewProperty),
        Err(QrGeneratorError::InvalidPropertyId)
    ));
}

#[test]
fn stored_record_hashes_its_own_pattern() {
    // The stored content hash is the SHA-256 of the stored payload text.
    let mut service = make_generator();
    service.generate_qr_code(P1_ID.to_string(), false, QrGenerationReason::NewProperty).unwrap();
    let record = service.get_qr_code(P1_ID).unwrap();
    let digest = sha2::Sha256::digest(record.qr_pattern.as_bytes());
    let expected: String = digest.iter().map(|b| format!("{:02x}", b)).collect();
    assert_eq!(record.qr_code_hash, expected);
    assert_ne!(record.qr_code_hash, record.qr_pattern);
}

#[test]
fn payload_json_matches_schema_exactly() {
    let d = QrCodeData {
        qr_type: "daobitat_property".to_string(),
        property_id: "p1".to_string(),
        scan_url: "https://x/scan/p1".to_string(),
        version: "1.0".to_string(),
        timestamp: 42,
    };
    assert_eq!(
        d.to_json_string(),
        "{\"type\":\"daobitat_property\",\"propertyId\":\"p1\",\"scanUrl\":\"https://x/scan/p1\",\"version\":\"1.0\",\"timestamp\":42}"
    );
}

#[test]
fn payload_round_trips() {
    let d = QrCodeData::new("p-99".to_string(), "https://qr.example.com");
    assert!(d.is_valid());
    let json = d.to_json_string();
    let parsed = QrCodeData::from_json_string(&json).unwrap();
    assert_eq!(parsed.qr_type, d.qr_type);
    assert_eq!(parsed.property_id, d.property_id);
    assert_eq!(parsed.scan_url, d.scan_url);
    assert_eq!(parsed.version, d.version);
    assert_eq!(parsed.timestamp, d.timestamp);
}

#[test]
fn payload_round_trips_with_escaped_characters() {
    let d = QrCodeData {
        qr_type: "daobitat_property".to_string(),
        property_id: "a\"b\\c".to_string(),
        scan_url: "https://x/scan/a".to_string(),
        version: "1.0".to_string(),
        timestamp: -7,
    };
    let json = d.to_json_string();
    let parsed = QrCodeData::from_json_string(&json).unwrap();
    assert_eq!(parsed.property_id, "a\"b\\c");
    assert_eq!(parsed.timestamp, -7);
}

#[test]
fn payload_parse_rejects_malformed_text() {
    assert!(QrCodeData::from_json_string("{bad").is_err());
    assert!(QrCodeData::from_json_string("").is_err());
    assert!(QrCodeData::from_json_string(
        "{\"type\":\"daobitat_property\",\"propertyId\":\"p1\",\"scanUrl\":\"u\",\"version\":\"1.0\",\"timestamp\":42} "
    )
    .is_err());
}

#[test]
fn payload_validity_requires_each_field() {
    let good = QrCodeData {
        qr_type: "daobitat_property".to_string(),
        property_id: "p".to_string(),
        scan_url: "u".to_string(),
        version: "1.0".to_string(),
        timestamp: 0,
    };
    assert!(good.is_valid());
    assert!(!QrCodeData { property_id: "".to_string(), ..good.clone() }.is_valid());
    assert!(!QrCodeData { scan_url: "".to_string(), ..good.clone() }.is_valid());
    assert!(!QrCodeData { qr_type: "other".to_string(), ..good.clone() }.is_valid());
    assert!(!QrCodeData { version: "".to_string(), ..good }.is_valid());
}

#[test]
fn metadata_lifecycle_counts_and_versions() {
    let md = QrMetadata {
        property_name: "Sunset Villa".to_string(),
        location: "Nairobi".to_string(),
        action: "for sale".to_string(),
        price: 50000,
        onchain_id: None,
        crypto_accepted: false,
        primary_image: None,
        is_verified: false,
        generated_by: None,
        generation_reason: QrGenerationReason::NewProperty,
    };
    let mut rec = QrCodeMetadata::new(
        P1_ID.to_string(),
        "pattern-a".to_string(),
        "https://cdn/x.png".to_string(),
        md,
    );
    assert_eq!(rec.qr_version, 1);
    assert!(rec.is_active);
    assert_eq!(rec.scan_count, 0);
    assert_eq!(rec.id.len(), 24);

    rec.record_scan();
    assert_eq!(rec.scan_count, 1);
    assert!(rec.last_scanned.is_some());

    rec.deactivate();
    assert!(!rec.is_active);

    rec.regenerate("pattern-b".to_string(), "https://cdn/y.png".to_string());
    assert_eq!(rec.qr_version, 2);
    assert!(rec.is_active);
    assert_eq!(rec.qr_pattern, "pattern-b");

    assert_eq!(rec.get_s3_key(), format!("qr-images/{}.png", P1_ID));
    assert_eq!(rec.get_metadata_s3_key(), format!("metadata/{}.json", P1_ID));

    assert!(rec.is_expired_at(1, rec.generated_at + 2 * 86400));
    assert!(!rec.is_expired_at(3, rec.generated_at + 2 * 86400));
}

#[test]
fn deactivate_and_delete_qr_codes() {
    let mut service = make_generator();
    service.generate_qr_code(P1_ID.to_string(), false, QrGenerationReason::NewProperty).unwrap();

    assert_eq!(service.deactivate_qr_code(P1_ID).unwrap(), true);
    assert!(!service.get_qr_code(P1_ID).unwrap().is_active);
    // Version and pattern survive a deactivation untouched.
    assert_eq!(service.get_qr_code(P1_ID).unwrap().qr_version, 1);

    assert_eq!(service.delete_qr_code(P1_ID).unwrap(), true);
    assert!(matches!(service.get_qr_code(P1_ID), Err(QrGeneratorError::PropertyNotFound)));
    assert_eq!(service.delete_qr_code(P1_ID).unwrap(), false);
    assert_eq!(service.deactivate_qr_code(P1_ID).unwrap(), false);
}

#[test]
fn batch_generation_isolates_failures() {
    let mut service = make_generator();
    let result = service
        .batch_generate_qr_codes(
            vec![P1_ID.to_string(), P2_ID.to_string(), "bad".to_string()],
            false,
            QrGenerationReason::BatchGeneration,
        )
        .unwrap();
    assert_eq!(result.total_requested, 3);
    assert_eq!(result.total_successful, 1);
    assert_eq!(result.total_failed, 2);
    assert_eq!(result.successful[0].property_id, P1_ID);
    let codes: Vec<&str> = result.failed.iter().map(|f| f.error_code.as_str()).collect();
    assert!(codes.contains(&"PROPERTY_NOT_ELIGIBLE"));
    assert!(codes.contains(&"INVALID_PROPERTY_ID"));
}

#[test]
fn generate_missing_covers_exactly_the_uncovered_eligible_properties() {
    let mut service = make_generator();
    service.generate_qr_code(P1_ID.to_string(), false, QrGenerationReason::NewProperty).unwrap();
    // P1 already has a record and P2 is ineligible: nothing is missing.
    let result = service.generate_missing_qr_codes().unwrap();
    assert_eq!(result.total_requested, 0);

    // A fresh eligible property becomes the one missing QR.
    let extra = "d4d4d4d4d4d4d4d4d4d4d4d4";
    service.seed_property(
        PropertyQrInfo {
            id: extra.to_string(),
            property_name: "Lake House".to_string(),
            location: "Kisumu".to_string(),
            action: "for rent".to_string(),
            price: 900,
            onchain_id: None,
            crypto_accepted: false,
            images: vec!["https://cdn.example.com/l.png".to_string()],
            is_verified: None,
            removed: None,
        },
        "Residential".to_string(),
        1002,
    );
    let result = service.generate_missing_qr_codes().unwrap();
    assert_eq!(result.total_requested, 1);
    assert_eq!(result.total_successful, 1);
    assert_eq!(result.successful[0].property_id, extra);
}

#[test]
fn listing_pages_and_orders_records() {
    let mut service = make_generator();
    let extra = "d4d4d4d4d4d4d4d4d4d4d4d4";
    service.seed_property(info(extra, 1, 700, false, None), "Residential".to_string(), 1003);
    service.generate_qr_code(P1_ID.to_string(), false, QrGenerationReason::NewProperty).unwrap();
    service.generate_qr_code(extra.to_string(), false, QrGenerationReason::NewProperty).unwrap();

    let all = service.get_all_qr_codes(None, None).unwrap();
    assert_eq!(all.len(), 2);
    assert!(all[0].generated_at >= all[1].generated_at);

    assert_eq!(service.get_all_qr_codes(Some(1), None).unwrap().len(), 1);
    assert_eq!(service.get_all_qr_codes(None, Some(1)).unwrap().len(), 1);
    assert_eq!(service.get_all_qr_codes(Some(5), Some(2)).unwrap().len(), 0);
}

#[test]
fn regeneration_cutoff_selects_active_old_records() {
    let mut service = make_generator();
    service.generate_qr_code(P1_ID.to_string(), false, QrGenerationReason::NewProperty).unwrap();

    // Every active record is older than the far-future cutoff.
    let ids = service.qr_codes_needing_regeneration_at(i64::MAX);
    assert_eq!(ids, vec![P1_ID.to_string()]);

    // None is older than the far-past cutoff.
    assert!(service.qr_codes_needing_regeneration_at(i64::MIN).is_empty());

    // An inactive record is never offered for regeneration.
    service.deactivate_qr_code(P1_ID).unwrap();
    assert!(service.qr_codes_needing_regeneration_at(i64::MAX).is_empty());
}
