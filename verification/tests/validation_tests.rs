use property_qr::validation::{
    validate_object_id, validate_email, validate_price, validate_property_action,
    validate_blockchain_address, validate_url, validate_scan_url, validate_text_length,
    validate_phone_number, validate_password, validate_pagination, validate_search_query,
    validate_property_name, validate_location, validate_image_url, ValidationBuilder,
};

#[test]
fn test_validate_object_id() {
    let valid_id = "507f1f77bcf86cd799439011";
    assert!(validate_object_id(valid_id, "test_id").is_ok());

    assert!(validate_object_id("invalid", "test_id").is_err());
    assert!(validate_object_id("", "test_id").is_err());
}

#[test]
fn test_validate_email() {
    assert!(validate_email("test@example.com").is_ok());
    assert!(validate_email("invalid").is_err());
    assert!(validate_email("").is_err());
    assert!(validate_email("test@").is_err());
}

#[test]
fn test_validate_price() {
    assert!(validate_price(100, "price").is_ok());
    assert!(validate_price(0, "price").is_err());
    assert!(validate_price(-50, "price").is_err());
    assert!(validate_price(1_000_000_000_001, "price").is_err());
}

#[test]
fn test_validate_property_action() {
    assert!(validate_property_action("for sale").is_ok());
    assert!(validate_property_action("for rent").is_ok());
    assert!(validate_property_action("For Sale").is_ok());
    assert!(validate_property_action("invalid").is_err());
}

#[test]
fn test_validate_blockchain_address() {
    let valid_eth_address = "0x1234567890123456789012345678901234567890";
    assert!(validate_blockchain_address(valid_eth_address, "address").is_ok());

    assert!(validate_blockchain_address("invalid", "address").is_err());
    assert!(validate_blockchain_address("", "address").is_err());
}

#[test]
fn test_validation_builder() {
    let result = ValidationBuilder::new()
        .validate(validate_price(100, "price"))
        .validate(validate_email("test@example.com"))
        .build();

    assert!(result.is_ok());

    let result = ValidationBuilder::new()
        .validate(validate_price(-100, "price"))
        .validate(validate_email("invalid"))
        .build_all_errors();

    assert!(result.is_err());
    let errors = result.unwrap_err();
    assert_eq!(errors.len(), 2);
}

#[test]
fn test_validate_url_variants() {
    assert!(validate_url("https://example.com", "u").is_ok());
    let empty = validate_url("", "u").unwrap_err();
    assert_eq!(empty.error_code, "EMPTY_URL");
    let scheme = validate_url("ftp://x", "u").unwrap_err();
    assert_eq!(scheme.error_code, "INVALID_URL_SCHEME");
    let long = validate_url(&format!("https://{}", "a".repeat(2050)), "u").unwrap_err();
    assert_eq!(long.error_code, "URL_TOO_LONG");
}

#[test]
fn test_validate_scan_url_requires_segment() {
    assert!(validate_scan_url("https://qr.example.com/scan/abc").is_ok());
    let err = validate_scan_url("https://qr.example.com/other/abc").unwrap_err();
    assert_eq!(err.error_code, "INVALID_SCAN_URL_FORMAT");
}

#[test]
fn test_validate_text_length_bounds() {
    assert!(validate_text_length("abcd", "f", 3, 10).is_ok());
    assert_eq!(validate_text_length("ab", "f", 3, 10).unwrap_err().error_code, "TEXT_TOO_SHORT");
    assert_eq!(
        validate_text_length("abcdefghijk", "f", 3, 10).unwrap_err().error_code,
        "TEXT_TOO_LONG"
    );
}

#[test]
fn test_validate_names_and_locations() {
    assert!(validate_property_name("Sunset Villa").is_ok());
    assert_eq!(validate_property_name("     ").unwrap_err().error_code, "WHITESPACE_ONLY");
    assert!(validate_location("Nairobi, Kenya").is_ok());
    assert!(validate_location("ab").is_err());
    assert!(validate_image_url("https://cdn.example.com/a.png").is_ok());
}

#[test]
fn test_validate_phone_number_variants() {
    assert!(validate_phone_number("+254 (700) 123-456").is_ok());
    assert_eq!(validate_phone_number("").unwrap_err().error_code, "EMPTY_PHONE");
    assert_eq!(validate_phone_number("123").unwrap_err().error_code, "INVALID_PHONE_LENGTH");
    assert_eq!(validate_phone_number("12345abc90").unwrap_err().error_code, "INVALID_PHONE_CHARACTERS");
}

#[test]
fn test_validate_password_variants() {
    assert!(validate_password("Abcdef12").is_ok());
    assert_eq!(validate_password("short").unwrap_err().error_code, "PASSWORD_TOO_SHORT");
    assert_eq!(validate_password(&"a".repeat(130)).unwrap_err().error_code, "PASSWORD_TOO_LONG");
    assert_eq!(validate_password("alllowercase1").unwrap_err().error_code, "PASSWORD_WEAK");
}

#[test]
fn test_validate_pagination_variants() {
    assert_eq!(validate_pagination(None, None).unwrap(), (1, 20));
    assert_eq!(validate_pagination(Some(3), Some(50)).unwrap(), (3, 50));
    assert_eq!(validate_pagination(Some(0), None).unwrap_err().error_code, "INVALID_PAGE");
    assert_eq!(validate_pagination(None, Some(0)).unwrap_err().error_code, "INVALID_LIMIT");
    assert_eq!(validate_pagination(None, Some(101)).unwrap_err().error_code, "LIMIT_TOO_HIGH");
}

#[test]
fn test_validate_search_query_variants() {
    assert!(validate_search_query("apartment").is_ok());
    assert_eq!(validate_search_query("").unwrap_err().error_code, "EMPTY_QUERY");
    assert_eq!(validate_search_query("a").unwrap_err().error_code, "QUERY_TOO_SHORT");
    assert_eq!(validate_search_query(&"q".repeat(101)).unwrap_err().error_code, "QUERY_TOO_LONG");
}
