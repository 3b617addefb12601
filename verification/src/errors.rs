//! The application error type: a stable error code, a message, optional
//! context, and the fixed mapping from error kind to transport status.

use vstd::prelude::*;
use vstd::string::*;
use crate::clock::now_rfc3339;

verus! {

/// The stable kinds of application errors.
#[derive(Debug, Clone, Copy, PartialEq, Eq, Structural)]
pub enum ErrorCode {
    InvalidInput,
    InvalidPropertyId,
    InvalidQrCode,
    InvalidFileFormat,
    InvalidUrl,
    DatabaseConnection,
    DatabaseOperation,
    DocumentNotFound,
    DuplicateDocument,
    PropertyNotFound,
    PropertyNotEligible,
    QrGenerationFailed,
    QrNotFound,
    S3UploadFailed,
    S3DownloadFailed,
    S3BucketNotFound,
    AnalyticsServiceError,
    Unauthorized,
    Forbidden,
    InvalidApiKey,
    RateLimitExceeded,
    TooManyRequests,
    InternalServerError,
    ServiceUnavailable,
    ConfigurationError,
    TimeoutError,
    NetworkError,
    ExternalServiceError,
    QrAlreadyExists,
    QrExpired,
    PropertyAlreadyHasQr,
    BatchOperationFailed,
    ImageProcessingFailed,
    UnsupportedImageFormat,
    FileSizeExceeded,
    FileUploadFailed,
}

/// The fixed transport status of an error kind.
pub open spec fn spec_status_code(code: ErrorCode) -> int {
    match code {
        ErrorCode::InvalidInput => 400,
        ErrorCode::InvalidPropertyId => 400,
        ErrorCode::InvalidQrCode => 400,
        ErrorCode::InvalidFileFormat => 400,
        ErrorCode::InvalidUrl => 400,
        ErrorCode::Unauthorized => 401,
        ErrorCode::InvalidApiKey => 401,
        ErrorCode::Forbidden => 403,
        ErrorCode::DocumentNotFound => 404,
        ErrorCode::PropertyNotFound => 404,
        ErrorCode::QrNotFound => 404,
        ErrorCode::S3BucketNotFound => 404,
        ErrorCode::DuplicateDocument => 409,
        ErrorCode::QrAlreadyExists => 409,
        ErrorCode::PropertyAlreadyHasQr => 409,
        ErrorCode::RateLimitExceeded => 429,
        ErrorCode::TooManyRequests => 429,
        ErrorCode::FileSizeExceeded => 413,
        ErrorCode::ServiceUnavailable => 503,
        ErrorCode::TimeoutError => 408,
        ErrorCode::PropertyNotEligible => 422,
        _ => 500,
    }
}

/// What failed, as far as it is known.
#[derive(Debug, Clone)]
pub struct ErrorContext {
    pub property_id: Option<String>,
    pub qr_id: Option<String>,
    pub file_name: Option<String>,
    pub operation: Option<String>,
    pub details: Option<String>,
}

/// An application error: a stable code, a message, and what is known of the
/// failure.
#[derive(Debug, Clone)]
pub struct AppError {
    pub code: ErrorCode,
    pub message: String,
    pub context: Option<ErrorContext>,
    pub source: Option<String>,
}

/// The error body handed to API consumers.
#[derive(Debug, Clone)]
pub struct ErrorResponse {
    pub error: ErrorCode,
    pub message: String,
    pub timestamp: String,
    pub request_id: Option<String>,
    pub context: Option<ErrorContext>,
    pub details: Option<String>,
}

impl ErrorContext {
    /// An empty context.
    pub fn new() -> (r: ErrorContext)
        ensures
            r.property_id is None,
            r.qr_id is None,
            r.file_name is None,
            r.operation is None,
            r.details is None,
    {
        ErrorContext {
            property_id: None,
            qr_id: None,
            file_name: None,
            operation: None,
            details: None,
        }
    }

    /// The context with the property id set.
    pub fn with_property_id(self, property_id: String) -> (r: ErrorContext)
        ensures
            r == (ErrorContext { property_id: Some(property_id), ..self }),
    {
        ErrorContext { property_id: Some(property_id), ..self }
    }

    /// The context with the QR record id set.
    pub fn with_qr_id(self, qr_id: String) -> (r: ErrorContext)
        ensures
            r == (ErrorContext { qr_id: Some(qr_id), ..self }),
    {
        ErrorContext { qr_id: Some(qr_id), ..self }
    }

    /// The context with the file name set.
    pub fn with_file_name(self, file_name: String) -> (r: ErrorContext)
        ensures
            r == (ErrorContext { file_name: Some(file_name), ..self }),
    {
        ErrorContext { file_name: Some(file_name), ..self }
    }

    /// The context with the operation name set.
    pub fn with_operation(self, operation: String) -> (r: ErrorContext)
        ensures
            r == (ErrorContext { operation: Some(operation), ..self }),
    {
        ErrorContext { operation: Some(operation), ..self }
    }

    /// The context with free-form details set.
    pub fn with_details(self, details: String) -> (r: ErrorContext)
        ensures
            r == (ErrorContext { details: Some(details), ..self }),
    {
        ErrorContext { details: Some(details), ..self }
    }
}

impl Default for ErrorContext {
    /// An empty context.
    fn default() -> (r: ErrorContext)
        ensures
            r.property_id is None,
            r.qr_id is None,
            r.file_name is None,
            r.operation is None,
            r.details is None,
    {
        ErrorContext::new()
    }
}

impl AppError {
    /// An error of the given kind.
    pub fn new(code: ErrorCode, message: String) -> (r: AppError)
        ensures
            r.code == code,
            r.message == message,
            r.context is None,
            r.source is None,
    {
        AppError { code, message, context: None, source: None }
    }

    /// The error with context attached.
    pub fn with_context(self, context: ErrorContext) -> (r: AppError)
        ensures
            r == (AppError { context: Some(context), ..self }),
    {
        AppError { context: Some(context), ..self }
    }

    /// The error with its source attached.
    pub fn with_source(self, source: String) -> (r: AppError)
        ensures
            r == (AppError { source: Some(source), ..self }),
    {
        AppError { source: Some(source), ..self }
    }

    /// A malformed-input error.
    pub fn validation_error(message: String) -> (r: AppError)
        ensures
            r.code == ErrorCode::InvalidInput,
            r.message == message,
            r.context is None,
            r.source is None,
    {
        AppError::new(ErrorCode::InvalidInput, message)
    }

    /// A not-found error naming the resource.
    pub fn not_found(resource: &str) -> (r: AppError)
        ensures
            r.code == ErrorCode::DocumentNotFound,
            r.message@ == resource@ + (" not found")@,
            r.context is None,
    {
        let mut message = resource.to_owned();
        message.append(" not found");
        AppError::new(ErrorCode::DocumentNotFound, message)
    }

    /// A missing-property error carrying the property id.
    pub fn property_not_found(property_id: String) -> (r: AppError)
        ensures
            r.code == ErrorCode::PropertyNotFound,
            r.message@ == ("Property not found")@,
            (r.context matches Some(c) && c.property_id == Some(property_id) && (
            c.operation matches Some(op) && op@ == ("property_lookup")@)),
    {
        AppError::new(ErrorCode::PropertyNotFound, "Property not found".to_owned()).with_context(
            ErrorContext {
                property_id: Some(property_id),
                qr_id: None,
                file_name: None,
                operation: Some("property_lookup".to_owned()),
                details: None,
            },
        )
    }

    /// A missing-QR error carrying the property id.
    pub fn qr_not_found(property_id: String) -> (r: AppError)
        ensures
            r.code == ErrorCode::QrNotFound,
            r.message@ == ("QR code not found for property")@,
            (r.context matches Some(c) && c.property_id == Some(property_id) && (
            c.operation matches Some(op) && op@ == ("qr_lookup")@)),
    {
        AppError::new(ErrorCode::QrNotFound, "QR code not found for property".to_owned())
            .with_context(
            ErrorContext {
                property_id: Some(property_id),
                qr_id: None,
                file_name: None,
                operation: Some("qr_lookup".to_owned()),
                details: None,
            },
        )
    }

    /// A document-store error.
    pub fn database_error(message: String) -> (r: AppError)
        ensures
            r.code == ErrorCode::DatabaseOperation,
            r.message == message,
    {
        AppError::new(ErrorCode::DatabaseOperation, message)
    }

    /// An object-store error naming the failed operation.
    pub fn s3_error(operation: String, message: String) -> (r: AppError)
        ensures
            r.code == ErrorCode::S3UploadFailed,
            r.message == message,
            (r.context matches Some(c) && c.operation == Some(operation)),
    {
        AppError::new(ErrorCode::S3UploadFailed, message).with_context(
            ErrorContext {
                property_id: None,
                qr_id: None,
                file_name: None,
                operation: Some(operation),
                details: None,
            },
        )
    }

    /// An internal error.
    pub fn internal_error(message: String) -> (r: AppError)
        ensures
            r.code == ErrorCode::InternalServerError,
            r.message == message,
    {
        AppError::new(ErrorCode::InternalServerError, message)
    }

    /// A rate-limit error.
    pub fn rate_limit_exceeded() -> (r: AppError)
        ensures
            r.code == ErrorCode::RateLimitExceeded,
            r.message@ == ("Rate limit exceeded")@,
    {
        AppError::new(ErrorCode::RateLimitExceeded, "Rate limit exceeded".to_owned())
    }

    /// A timeout error naming the operation.
    pub fn timeout_error(operation: &str) -> (r: AppError)
        ensures
            r.code == ErrorCode::TimeoutError,
            r.message@ == ("Operation timed out: ")@ + operation@,
    {
        let mut message = String::new();
        message.append("Operation timed out: ");
        message.append(operation);
        AppError::new(ErrorCode::TimeoutError, message)
    }

    /// A generation error carrying the property id and the reason.
    pub fn qr_generation_failed(property_id: String, reason: &str) -> (r: AppError)
        ensures
            r.code == ErrorCode::QrGenerationFailed,
            r.message@ == ("QR generation failed: ")@ + reason@,
            (r.context matches Some(c) && c.property_id == Some(property_id) && (
            c.operation matches Some(op) && op@ == ("qr_generation")@)),
    {
        let mut message = String::new();
        message.append("QR generation failed: ");
        message.append(reason);
        AppError::new(ErrorCode::QrGenerationFailed, message).with_context(
            ErrorContext {
                property_id: Some(property_id),
                qr_id: None,
                file_name: None,
                operation: Some("qr_generation".to_owned()),
                details: None,
            },
        )
    }

    /// The transport status of this error.
    pub fn status_code(&self) -> (r: u16)
        ensures
            r == spec_status_code(self.code),
    {
        match self.code {
            ErrorCode::InvalidInput => 400,
            ErrorCode::InvalidPropertyId => 400,
            ErrorCode::InvalidQrCode => 400,
            ErrorCode::InvalidFileFormat => 400,
            ErrorCode::InvalidUrl => 400,
            ErrorCode::Unauthorized => 401,
            ErrorCode::InvalidApiKey => 401,
            ErrorCode::Forbidden => 403,
            ErrorCode::DocumentNotFound => 404,
            ErrorCode::PropertyNotFound => 404,
            ErrorCode::QrNotFound => 404,
            ErrorCode::S3BucketNotFound => 404,
            ErrorCode::DuplicateDocument => 409,
            ErrorCode::QrAlreadyExists => 409,
            ErrorCode::PropertyAlreadyHasQr => 409,
            ErrorCode::RateLimitExceeded => 429,
            ErrorCode::TooManyRequests => 429,
            ErrorCode::FileSizeExceeded => 413,
            ErrorCode::ServiceUnavailable => 503,
            ErrorCode::TimeoutError => 408,
            ErrorCode::PropertyNotEligible => 422,
            _ => 500,
        }
    }

    /// Whether the error is the caller's fault (a 4xx status).
    pub fn is_client_error(&self) -> (r: bool)
        ensures
            r == (400 <= spec_status_code(self.code) < 500),
    {
        let status = self.status_code();
        400 <= status && status < 500
    }

    /// Whether the error is the service's fault (a 5xx status).
    pub fn is_server_error(&self) -> (r: bool)
        ensures
            r == (500 <= spec_status_code(self.code) < 600),
    {
        let status = self.status_code();
        500 <= status && status < 600
    }

    /// The error body for API consumers, stamped now.
    pub fn to_response(&self, request_id: Option<String>) -> (r: ErrorResponse)
        ensures
            r.error == self.code,
            r.message@ == self.message@,
            r.request_id == request_id,
            r.details is None,
    {
        let context = match &self.context {
            Some(c) => Some(
                ErrorContext {
                    property_id: crate::strutil::clone_opt_string(&c.property_id),
                    qr_id: crate::strutil::clone_opt_string(&c.qr_id),
                    file_name: crate::strutil::clone_opt_string(&c.file_name),
                    operation: crate::strutil::clone_opt_string(&c.operation),
                    details: crate::strutil::clone_opt_string(&c.details),
                },
            ),
            None => None,
        };
        ErrorResponse {
            error: self.code,
            message: self.message.clone(),
            timestamp: now_rfc3339(),
            request_id,
            context,
            details: None,
        }
    }
}

} // verus!
