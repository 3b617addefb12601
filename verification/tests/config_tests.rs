use property_qr::config_aws::{AwsConfig, S3Config};
use property_qr::config_settings::Settings;

#[test]
fn test_aws_config_validation() {
    let config = AwsConfig::default();
    assert!(config.validate().is_ok());

    let invalid_config = AwsConfig { region: "".to_string(), ..Default::default() };
    assert!(invalid_config.validate().is_err());
}

#[test]
fn test_s3_key_generation() {
    let config = S3Config::default();
    let property_id = "test123";

    assert_eq!(config.qr_image_key(property_id), "qr-images/test123.png");

    assert_eq!(config.metadata_key(property_id), "metadata/test123.json");
}

#[test]
fn test_public_url_generation() {
    let config = AwsConfig { cloudfront_domain: Some("cdn.example.com".to_string()), ..Default::default() };

    let url = config.get_public_url("test/file.png");
    assert_eq!(url, "https://cdn.example.com/test/file.png");

    let config_no_cloudfront = AwsConfig {
        cloudfront_domain: None,
        s3_bucket: "test-bucket".to_string(),
        s3_bucket_region: "us-west-2".to_string(),
        ..Default::default()
    };

    let url = config_no_cloudfront.get_public_url("test/file.png");
    assert_eq!(url, "https://test-bucket.s3.us-west-2.amazonaws.com/test/file.png");
}

#[test]
fn test_content_type_mapping() {
    let config = S3Config::default();

    assert_eq!(config.get_content_type("png"), "image/png");
    assert_eq!(config.get_content_type("jpg"), "image/jpeg");
    assert_eq!(config.get_content_type("json"), "application/json");
    assert_eq!(config.get_content_type("unknown"), "application/octet-stream");
}

#[test]
fn test_content_type_uppercase_extension() {
    // The extension is matched through its lowercase form.
    let config = S3Config::default();
    assert_eq!(config.get_content_type("PNG"), "image/png");
    assert_eq!(config.get_content_type("Jpeg"), "image/jpeg");
}

#[test]
fn test_settings_profiles() {
    let dev = Settings::default_dev();
    assert_eq!(dev.server.port, 3000);
    assert!(dev.is_development());
    assert!(!dev.is_production());
    assert_eq!(dev.qr.expiry_days, 30);
    assert!(dev.validate().is_ok());

    let prod = Settings::default_prod();
    assert_eq!(prod.server.port, 8080);
    assert!(prod.is_production());
    assert_eq!(prod.qr.default_size, 512);
    assert!(prod.validate().is_ok());
}

#[test]
fn test_settings_validate_rejects_bad_values() {
    let mut s = Settings::default_dev();
    s.server.port = 0;
    assert!(s.validate().is_err());

    let mut s2 = Settings::default_dev();
    s2.qr.default_size = 16;
    assert!(s2.validate().is_err());

    let mut s3 = Settings::default_dev();
    s3.urls.base_url = "ftp://example.com".to_string();
    assert!(s3.validate().is_err());
}

#[test]
fn test_settings_api_base_url() {
    let dev = Settings::default_dev();
    assert_eq!(dev.api_base_url(), "http://localhost:3000/api/v1");
}

#[test]
fn test_settings_s3_public_url() {
    let prod = Settings::default_prod();
    assert_eq!(prod.s3_public_url("qr-images/x.png"), "https://cdn.daobitat.xyz/qr-images/x.png");

    let dev = Settings::default_dev();
    assert_eq!(
        dev.s3_public_url("k.png"),
        "https://daobitat-qr-codes-dev.s3.us-east-1.amazonaws.com/k.png"
    );
}

#[test]
fn test_aws_profiles() {
    let dev = AwsConfig::development();
    assert_eq!(dev.s3_bucket, "daobitat-qr-codes-dev");
    assert!(!dev.is_custom_endpoint());

    let prod = AwsConfig::production();
    assert_eq!(prod.cloudfront_domain, Some("cdn.daobitat.xyz".to_string()));

    let local = AwsConfig::localstack();
    assert!(local.is_custom_endpoint());
    assert_eq!(local.s3_endpoint(), Some("http://localhost:4566".to_string()));
    assert_eq!(
        local.get_public_url("a.png"),
        "http://localhost:4566/daobitat-qr-codes-local/a.png"
    );

    let creds = property_qr::config_aws::AwsCredentials::test_credentials();
    assert_eq!(creds.access_key_id, "test");
}
