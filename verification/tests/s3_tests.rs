use property_qr::s3::S3Service;

#[test]
fn test_s3_service_creation() {
    let service =
        S3Service::new("test-bucket".to_string(), "us-east-1".to_string()).expect(
            "Failed to create S3 service",
        );

    assert_eq!(service.bucket_name, "test-bucket");
    assert_eq!(service.region, "us-east-1");
    assert!(service.public_base_url.is_none());
}

#[test]
fn test_s3_service_with_cloudfront() {
    let service = S3Service::with_cloudfront(
        "test-bucket".to_string(),
        "us-east-1".to_string(),
        "https://d123456.cloudfront.net".to_string(),
    )
    .expect("Failed to create S3 service");

    assert!(service.public_base_url.is_some());
    assert_eq!(service.public_base_url.unwrap(), "https://d123456.cloudfront.net");
}

#[test]
fn test_validate_key() {
    let service = S3Service::new("test".to_string(), "us-east-1".to_string()).unwrap();

    assert!(service.validate_key("valid/key.png").is_ok());
    assert!(service.validate_key("").is_err());
    assert!(service.validate_key("/invalid").is_err());
    assert!(service.validate_key("invalid//key").is_err());
}

#[test]
fn test_get_public_url() {
    let service = S3Service::new("test-bucket".to_string(), "us-east-1".to_string()).unwrap();
    let url = service.get_public_url("test/key.png");
    assert_eq!(url, "https://test-bucket.s3.us-east-1.amazonaws.com/test/key.png");

    let service_with_cf = S3Service::with_cloudfront(
        "test-bucket".to_string(),
        "us-east-1".to_string(),
        "https://d123456.cloudfront.net".to_string(),
    )
    .unwrap();
    let cf_url = service_with_cf.get_public_url("test/key.png");
    assert_eq!(cf_url, "https://d123456.cloudfront.net/test/key.png");
}

#[test]
fn test_file_exists_placeholder() {
    let service = S3Service::new("test-bucket".to_string(), "us-east-1".to_string()).unwrap();
    let exists = service.file_exists("test/key.png").unwrap();
    assert!(!exists);
}

#[test]
fn test_s3_service_rejects_empty_names() {
    assert!(S3Service::new("".to_string(), "us-east-1".to_string()).is_err());
    assert!(S3Service::new("bucket".to_string(), "".to_string()).is_err());
}

#[test]
fn test_upload_returns_public_url() {
    let service = S3Service::new("b".to_string(), "r".to_string()).unwrap();
    let url = service.upload_qr_image("qr-images/x.png", vec![1, 2, 3]).unwrap();
    assert_eq!(url, "https://b.s3.r.amazonaws.com/qr-images/x.png");
    assert!(service.upload_qr_image("/bad", vec![]).is_err());
}

#[test]
fn test_delete_multiple_files_skips_invalid_keys() {
    let service = S3Service::new("b".to_string(), "r".to_string()).unwrap();
    let deleted = service
        .delete_multiple_files(vec!["good.png".to_string(), "//bad".to_string()])
        .unwrap();
    assert_eq!(deleted, vec!["good.png".to_string()]);
}

#[test]
fn test_bucket_stats_empty() {
    let service = S3Service::new("b".to_string(), "r".to_string()).unwrap();
    let stats = service.get_bucket_stats().unwrap();
    assert_eq!(stats.total_qr_images, 0);
    assert_eq!(stats.total_size, 0);
    let cleaned = service.cleanup_old_qr_codes(30).unwrap();
    assert!(cleaned.is_empty());
}
