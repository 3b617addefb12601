use property_qr::property::{
    PropertyService, PropertyQrInfo, PropertyError, PropertySearchCriteria, ineligibility_reason,
};

const A_ID: &str = "aaaaaaaaaaaaaaaaaaaaaaaa";
const B_ID: &str = "bbbbbbbbbbbbbbbbbbbbbbbb";
const C_ID: &str = "cccccccccccccccccccccccc";

fn info(id: &str, images: usize, price: i64, removed: Option<bool>) -> PropertyQrInfo {
    PropertyQrInfo {
        id: id.to_string(),
        property_name: "Sunset Villa".to_string(),
        location: "Nairobi".to_string(),
        action: "for sale".to_string(),
        price,
        onchain_id: None,
        crypto_accepted: false,
        images: (0..images).map(|i| format!("https://cdn.example.com/{}.png", i)).collect(),
        is_verified: Some(true),
        removed,
    }
}

#[test]
fn test_validate_invalid_property_id() {
    let service = PropertyService::new();
    let result = service.validate_property("invalid_id");
    assert!(matches!(result, Err(PropertyError::InvalidId)));
}

#[test]
fn test_get_property_stats() {
    let service = PropertyService::new();
    let stats = service.get_property_stats().expect("Failed to get property stats");
    assert_eq!(stats.total_properties, 0);
    assert_eq!(stats.active_properties, 0);

    let mut seeded = PropertyService::new();
    seeded.upsert_property(info(A_ID, 2, 100, None), "Residential".to_string(), 1);
    seeded.upsert_property(info(B_ID, 0, 100, None), "Residential".to_string(), 2);
    seeded.upsert_property(info(C_ID, 1, 100, Some(true)), "Commercial".to_string(), 3);
    let stats = seeded.get_property_stats().unwrap();
    assert_eq!(stats.total_properties, 3);
    assert_eq!(stats.active_properties, 2);
    assert_eq!(stats.verified_properties, 2);
    assert_eq!(stats.properties_with_images, 1);
    assert_eq!(stats.qr_eligible_properties, 1);
}

#[test]
fn test_search_properties_default() {
    let service = PropertyService::new();
    let criteria = PropertySearchCriteria::default();
    let properties = service.search_properties(&criteria).expect("Failed to search properties");
    assert!(properties.is_empty());
}

#[test]
fn eligibility_rule_checks_exactly_three_conditions() {
    // Eligible iff not removed, at least one image, and a positive price.
    assert!(info(A_ID, 1, 1, None).is_qr_eligible());
    assert!(info(A_ID, 1, 1, Some(false)).is_qr_eligible());
    assert!(!info(A_ID, 1, 1, Some(true)).is_qr_eligible());
    assert!(!info(A_ID, 0, 1, None).is_qr_eligible());
    assert!(!info(A_ID, 1, 0, None).is_qr_eligible());
    assert!(!info(A_ID, 1, -5, None).is_qr_eligible());
}

#[test]
fn ineligibility_reasons_follow_rule_order() {
    assert_eq!(ineligibility_reason(&info(A_ID, 0, 0, Some(true))), "Property has been removed");
    assert_eq!(ineligibility_reason(&info(A_ID, 0, 0, None)), "Property has no images");
    assert_eq!(ineligibility_reason(&info(A_ID, 1, 0, None)), "Property has invalid price");
    assert_eq!(ineligibility_reason(&info(A_ID, 1, 1, None)), "Unknown reason");
}

#[test]
fn qr_info_lookup_distinguishes_errors() {
    let mut service = PropertyService::new();
    service.upsert_property(info(A_ID, 1, 100, None), "Residential".to_string(), 1);
    service.upsert_property(info(B_ID, 0, 100, None), "Residential".to_string(), 2);

    assert!(service.get_property_qr_info(A_ID).is_ok());
    assert!(matches!(service.get_property_qr_info("zzz"), Err(PropertyError::InvalidId)));
    assert!(matches!(service.get_property_qr_info(C_ID), Err(PropertyError::NotFound)));
    match service.get_property_qr_info(B_ID) {
        Err(PropertyError::NotEligibleForQr(reason)) => {
            assert_eq!(reason, "Property has no images");
        },
        _ => panic!("expected an ineligibility error"),
    }
}

#[test]
fn upsert_replaces_by_property_id() {
    let mut service = PropertyService::new();
    service.upsert_property(info(A_ID, 1, 100, None), "Residential".to_string(), 1);
    service.upsert_property(info(A_ID, 1, 250, None), "Residential".to_string(), 2);
    let got = service.get_property_by_id(A_ID).unwrap();
    assert_eq!(got.price, 250);
    assert_eq!(service.get_property_stats().unwrap().total_properties, 1);
}

#[test]
fn needing_qr_excludes_listed_and_ineligible_properties() {
    let mut service = PropertyService::new();
    service.upsert_property(info(A_ID, 1, 100, None), "Residential".to_string(), 1);
    service.upsert_property(info(B_ID, 0, 100, None), "Residential".to_string(), 2);
    service.upsert_property(info(C_ID, 1, 100, None), "Residential".to_string(), 3);

    let needing = service.get_properties_needing_qr(vec![A_ID.to_string()]).unwrap();
    assert_eq!(needing.len(), 1);
    assert_eq!(needing[0].id, C_ID);
}

#[test]
fn eligible_listing_respects_the_limit() {
    let mut service = PropertyService::new();
    service.upsert_property(info(A_ID, 1, 100, None), "Residential".to_string(), 1);
    service.upsert_property(info(B_ID, 1, 100, None), "Residential".to_string(), 2);
    service.upsert_property(info(C_ID, 0, 100, None), "Residential".to_string(), 3);

    assert_eq!(service.get_qr_eligible_properties(None).unwrap().len(), 2);
    assert_eq!(service.get_qr_eligible_properties(Some(1)).unwrap().len(), 1);
    assert_eq!(service.get_recent_properties(1).unwrap().len(), 1);
}

#[test]
fn search_filters_apply_conjunctively() {
    let mut service = PropertyService::new();
    service.upsert_property(
        PropertyQrInfo { location: "Westlands, NAIROBI".to_string(), ..info(A_ID, 1, 100, None) },
        "Residential".to_string(),
        1,
    );
    service.upsert_property(
        PropertyQrInfo { location: "Mombasa".to_string(), ..info(B_ID, 1, 900, None) },
        "Commercial".to_string(),
        2,
    );

    let by_location = service
        .search_properties(&PropertySearchCriteria {
            location: Some("nairobi".to_string()),
            ..Default::default()
        })
        .unwrap();
    assert_eq!(by_location.len(), 1);
    assert_eq!(by_location[0].id, A_ID);

    let by_price = service
        .search_properties(&PropertySearchCriteria {
            min_price: Some(500),
            ..Default::default()
        })
        .unwrap();
    assert_eq!(by_price.len(), 1);
    assert_eq!(by_price[0].id, B_ID);

    let by_type = service
        .search_properties(&PropertySearchCriteria {
            property_type: Some("Commercial".to_string()),
            ..Default::default()
        })
        .unwrap();
    assert_eq!(by_type.len(), 1);
    assert_eq!(by_type[0].id, B_ID);
}

#[test]
fn properties_by_ids_skips_unknown_and_refuses_malformed() {
    let mut service = PropertyService::new();
    service.upsert_property(info(A_ID, 1, 100, None), "Residential".to_string(), 1);

    let found = service.get_properties_by_ids(vec![A_ID.to_string(), C_ID.to_string()]).unwrap();
    assert_eq!(found.len(), 1);
    assert_eq!(found[0].id, A_ID);

    assert!(matches!(
        service.get_properties_by_ids(vec!["nope".to_string()]),
        Err(PropertyError::InvalidId)
    ));
}

#[test]
fn validate_property_reports_presence_and_removal() {
    let mut service = PropertyService::new();
    service.upsert_property(info(A_ID, 1, 100, None), "Residential".to_string(), 1);
    service.upsert_property(info(B_ID, 1, 100, Some(true)), "Residential".to_string(), 2);

    assert_eq!(service.validate_property(A_ID).unwrap(), true);
    assert_eq!(service.validate_property(B_ID).unwrap(), false);
    assert_eq!(service.validate_property(C_ID).unwrap(), false);
    assert!(service.increment_property_clicks(A_ID).is_ok());
    assert!(matches!(service.increment_property_clicks("x"), Err(PropertyError::InvalidId)));
}
