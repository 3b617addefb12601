use property_qr::errors::{AppError, ErrorCode, ErrorContext};
use property_qr::responses::{ApiErrorBody, SuccessResponse, get_uptime_seconds};

#[test]
fn test_error_creation() {
    let error = AppError::new(ErrorCode::PropertyNotFound, "Test property not found".to_string());
    assert_eq!(error.status_code(), 404);
    assert!(error.is_client_error());
    assert!(!error.is_server_error());
}

#[test]
fn test_error_with_context() {
    let error = AppError::property_not_found("test123".to_string());
    assert!(error.context.is_some());
    assert_eq!(error.context.unwrap().property_id, Some("test123".to_string()));
}

#[test]
fn test_error_response_serialization() {
    let error = AppError::new(ErrorCode::QrGenerationFailed, "Test error".to_string());
    let response = error.to_response(Some("req123".to_string()));

    assert_eq!(response.request_id, Some("req123".to_string()));
    assert!(!response.timestamp.is_empty());
}

#[test]
fn test_app_error_macro() {
    let error = AppError::new(ErrorCode::InvalidInput, "Invalid data".to_string());
    assert_eq!(error.message, "Invalid data");

    let error_with_context = AppError::new(ErrorCode::PropertyNotFound, "Property missing".to_string())
        .with_context(
            ErrorContext::new()
                .with_property_id("test123".to_string())
                .with_operation("lookup".to_string()),
        );

    let context = error_with_context.context.unwrap();
    assert_eq!(context.property_id, Some("test123".to_string()));
    assert_eq!(context.operation, Some("lookup".to_string()));
}

#[test]
fn test_error_response_creation() {
    let error = ApiErrorBody::new("test_error", "Test message");
    assert_eq!(error.error, "test_error");
    assert_eq!(error.message, "Test message");
    assert!(error.path.is_none());
}

#[test]
fn test_error_response_with_path() {
    let error = ApiErrorBody::new("test_error", "Test message").with_path("/test/path");
    assert_eq!(error.path, Some("/test/path".to_string()));
}

#[test]
fn test_success_response_creation() {
    let data = "test data";
    let response = SuccessResponse::new(data);
    assert_eq!(response.success, true);
    assert_eq!(response.data, "test data");
}

#[test]
fn test_status_codes_by_kind() {
    assert_eq!(AppError::validation_error("x".to_string()).status_code(), 400);
    assert_eq!(AppError::rate_limit_exceeded().status_code(), 429);
    assert_eq!(AppError::timeout_error("op").status_code(), 408);
    assert_eq!(AppError::internal_error("x".to_string()).status_code(), 500);
    assert!(AppError::internal_error("x".to_string()).is_server_error());
    assert_eq!(AppError::new(ErrorCode::PropertyNotEligible, "x".to_string()).status_code(), 422);
    assert_eq!(AppError::qr_not_found("p".to_string()).status_code(), 404);
    assert_eq!(
        AppError::qr_generation_failed("p".to_string(), "boom").message,
        "QR generation failed: boom"
    );
    assert_eq!(AppError::not_found("Record").message, "Record not found");
    assert_eq!(AppError::s3_error("put".to_string(), "denied".to_string()).status_code(), 500);
    assert_eq!(AppError::database_error("down".to_string()).status_code(), 500);
}

#[test]
fn test_uptime_placeholder() {
    assert_eq!(get_uptime_seconds(), 3600);
}
