//! Property QR issuance and scan-redirect service core.
//!
//! The library owns the QR lifecycle state machine (generation, idempotent
//! regeneration with version tracking, deactivation, deletion), the scan
//! redirect decision engine, and the scan analytics aggregator, together
//! with the URL building, validation and configuration helpers around them.
//! Storage and HTTP wiring live outside the library and hand it plain values.

use vstd::prelude::*;

pub mod analytics;
pub mod clock;
pub mod config_aws;
pub mod config_settings;
pub mod json;
pub mod generator;
pub mod hash;
pub mod ident;
pub mod property;
pub mod qr_code;
pub mod errors;
pub mod responses;
pub mod s3;
pub mod scan;
pub mod store;
pub mod strutil;
pub mod textenc;
pub mod urls;
pub mod validation;

verus! {

} // verus!
