//! Response envelopes and health payloads the endpoints hand out.

use vstd::prelude::*;
use vstd::string::*;
use crate::clock::now_rfc3339;
use std::collections::HashMap;

verus! {

/// The health summary of the service.
#[derive(Debug)]
pub struct HealthResponse {
    pub status: String,
    pub timestamp: String,
    pub version: String,
    /// Seconds since startup.
    pub uptime: u64,
    pub services: HashMap<String, ServiceHealth>,
    pub environment: String,
}

/// One dependency's health.
#[derive(Debug, Clone)]
pub struct ServiceHealth {
    pub status: String,
    pub message: Option<String>,
    pub last_check: String,
    pub response_time_ms: Option<u64>,
}

/// Seconds since startup. The uptime source is a stub that reports one hour.
pub fn get_uptime_seconds() -> (r: u64)
    ensures
        r == 3600,
{
    3600
}

/// The envelope of a successful API response, stamped now.
#[derive(Debug, Clone)]
pub struct SuccessResponse<T> {
    pub success: bool,
    pub data: T,
    pub timestamp: String,
}

impl<T> SuccessResponse<T> {
    /// A successful envelope around `data`.
    pub fn new(data: T) -> (r: SuccessResponse<T>)
        ensures
            r.success,
            r.data == data,
    {
        SuccessResponse { success: true, data, timestamp: now_rfc3339() }
    }
}

/// The envelope of a failed API response, stamped now.
#[derive(Debug, Clone)]
pub struct ApiErrorBody {
    pub error: String,
    pub message: String,
    pub timestamp: String,
    pub path: Option<String>,
}

impl ApiErrorBody {
    /// A failed envelope with the error tag and message.
    pub fn new(error: &str, message: &str) -> (r: ApiErrorBody)
        ensures
            r.error@ == error@,
            r.message@ == message@,
            r.path is None,
    {
        ApiErrorBody {
            error: error.to_owned(),
            message: message.to_owned(),
            timestamp: now_rfc3339(),
            path: None,
        }
    }

    /// The envelope with the request path attached.
    pub fn with_path(self, path: &str) -> (r: ApiErrorBody)
        ensures
            r.error == self.error,
            r.message == self.message,
            r.timestamp == self.timestamp,
            (r.path matches Some(p) && p@ == path@),
    {
        ApiErrorBody { path: Some(path.to_owned()), ..self }
    }
}

/// The query attributes of a QR listing call.
#[derive(Debug, Clone)]
pub struct QrListQuery {
    pub limit: Option<usize>,
    pub skip: Option<usize>,
    pub property_id: Option<String>,
    pub active_only: Option<bool>,
}

/// The query attributes of a regeneration call.
#[derive(Debug, Clone)]
pub struct RegenerateQuery {
    pub reason: Option<crate::qr_code::QrGenerationReason>,
}

} // verus!
