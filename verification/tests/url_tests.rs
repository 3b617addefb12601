use property_qr::urls::{UrlBuilder, PropertySearchFilters, UrlValidator};

#[test]
fn test_url_builder_creation() {
    let builder = UrlBuilder::new(
        "https://qr.example.com".to_string(),
        "https://app.example.com".to_string(),
        "https://explorer.example.com".to_string(),
    );

    assert_eq!(builder.get_base_url(), "https://qr.example.com");
    assert_eq!(builder.get_daobitat_base_url(), "https://app.example.com");
    assert_eq!(builder.get_blockchain_explorer_base_url(), "https://explorer.example.com");
}

#[test]
fn test_scan_url_building() {
    let builder = UrlBuilder::default_config();
    let scan_url = builder.build_scan_url("12345");
    assert_eq!(scan_url, "https://qr-service.daobitat.xyz/scan/12345");
}

#[test]
fn test_property_url_building() {
    let builder = UrlBuilder::default_config();
    let property_url = builder.build_daobitat_property_url("67890");
    assert_eq!(property_url, "https://www.daobitat.xyz/property-details/67890");
}

#[test]
fn test_blockchain_url_building() {
    let builder = UrlBuilder::default_config();
    let blockchain_url = builder.build_blockchain_explorer_url("0x1234567890abcdef");
    assert_eq!(blockchain_url, "https://basescan.org/address/0x1234567890abcdef");
}

#[test]
fn test_url_with_params() {
    let builder = UrlBuilder::default_config();
    let params = vec![
        ("page".to_string(), "2".to_string()),
        ("limit".to_string(), "20".to_string()),
    ];

    let url = builder.build_url_with_params("api/v1/properties", params);
    assert!(url.contains("page=2"));
    assert!(url.contains("limit=20"));
    assert!(url.starts_with("https://qr-service.daobitat.xyz/api/v1/properties?"));
}

#[test]
fn test_property_search_url() {
    let builder = UrlBuilder::default_config();
    let filters = PropertySearchFilters::new()
        .location("Nairobi".to_string())
        .price_range(Some(100000), Some(500000))
        .verified_only();

    let search_url = builder.build_property_search_url("apartment", Some(filters));
    assert!(search_url.contains("q=apartment"));
    assert!(search_url.contains("location=Nairobi"));
    assert!(search_url.contains("min_price=100000"));
    assert!(search_url.contains("verified_only=true"));
}

#[test]
fn test_url_validator() {
    assert!(UrlValidator::is_valid_url("https://example.com"));
    assert!(UrlValidator::is_valid_url("http://example.com"));
    assert!(!UrlValidator::is_valid_url("example.com"));

    assert!(UrlValidator::is_secure_url("https://example.com"));
    assert!(!UrlValidator::is_secure_url("http://example.com"));

    assert_eq!(
        UrlValidator::extract_domain("https://www.example.com/path"),
        Some("www.example.com".to_string())
    );

    let allowed_domains = vec!["daobitat.xyz".to_string(), "basescan.org".to_string()];
    assert!(UrlValidator::is_allowed_domain(
        "https://qr-service.daobitat.xyz/scan/123",
        &allowed_domains
    ));
    assert!(!UrlValidator::is_allowed_domain("https://malicious.com/scan/123", &allowed_domains));
}

#[test]
fn test_dual_redirect_html() {
    let builder = UrlBuilder::default_config();
    let html = builder.build_dual_redirect_html("test123", "Test Property", Some("0x1234567890abcdef"));

    assert!(html.contains("Test Property"));
    assert!(html.contains("property-details/test123"));
    assert!(html.contains("address/0x1234567890abcdef"));
    assert!(html.contains("<!DOCTYPE html>"));
}

#[test]
fn test_dual_redirect_html_without_onchain_id() {
    let builder = UrlBuilder::default_config();
    let html = builder.build_dual_redirect_html("test123", "Test Property", None);
    assert!(!html.contains("View on Blockchain"));
    assert!(html.contains("property-details/test123"));
}

#[test]
fn test_url_params_are_percent_encoded() {
    // A value with a space must come out percent-encoded, never verbatim.
    let builder = UrlBuilder::default_config();
    let params = vec![("q".to_string(), "two words".to_string())];
    let url = builder.build_url_with_params("search", params);
    assert!(url.contains("q=two%20words"));
    assert!(!url.contains("two words"));
}

#[test]
fn test_paginated_url() {
    let builder = UrlBuilder::default_config();
    let url = builder.build_paginated_url("api/v1/qr", 2, 50);
    assert_eq!(url, "https://qr-service.daobitat.xyz/api/v1/qr?page=2&limit=50");
}

#[test]
fn test_api_url_trims_slashes() {
    let builder = UrlBuilder::new(
        "https://qr.example.com///".to_string(),
        "https://app.example.com".to_string(),
        "https://explorer.example.com".to_string(),
    );
    assert_eq!(builder.get_base_url(), "https://qr.example.com");
    assert_eq!(builder.build_api_url("//qr/generate"), "https://qr.example.com/api/v1/qr/generate");
    assert_eq!(builder.build_health_url(), "https://qr.example.com/health");
}

#[test]
fn test_update_urls() {
    let mut builder = UrlBuilder::default_config();
    builder.update_urls(Some("https://new.example.com/".to_string()), None, None);
    assert_eq!(builder.get_base_url(), "https://new.example.com");
    assert_eq!(builder.get_daobitat_base_url(), "https://www.daobitat.xyz");
}

#[test]
fn extract_domain_takes_first_separator_and_spans_to_slash_or_end() {
    assert_eq!(
        UrlValidator::extract_domain("https://example.com"),
        Some("example.com".to_string())
    );
    assert_eq!(UrlValidator::extract_domain("no-protocol.example.com"), None);
    // The first separator wins, and the span runs to the next slash.
    assert_eq!(UrlValidator::extract_domain("a://b://c/d"), Some("b:".to_string()));
}
