//! Service configuration: server, database, cloud, URL, QR and logging
//! settings, with fixed development and production profiles.

use vstd::prelude::*;
use vstd::string::*;
use crate::strutil::{spec_starts_with, starts_with_str};

verus! {

/// Which profile the service runs under.
#[derive(Debug, Clone, Copy, PartialEq, Eq, Structural)]
pub enum Environment {
    Development,
    Staging,
    Production,
}

/// Where and how the server listens.
#[derive(Debug, Clone)]
pub struct ServerConfig {
    pub host: String,
    pub port: u16,
    pub environment: Environment,
    pub cors_origins: Vec<String>,
    pub request_timeout_seconds: u64,
    pub max_connections: Option<u32>,
}

/// How the backing document store is reached.
#[derive(Debug, Clone)]
pub struct DatabaseConfig {
    pub mongodb_uri: String,
    pub database_name: String,
    pub connection_timeout_seconds: u64,
    pub max_pool_size: Option<u32>,
    pub min_pool_size: Option<u32>,
}

/// The cloud settings the service runs with.
#[derive(Debug, Clone)]
pub struct AwsConfig {
    pub region: String,
    pub s3_bucket: String,
    pub s3_bucket_region: String,
    pub cloudfront_domain: Option<String>,
    pub access_key_id: Option<String>,
    pub secret_access_key: Option<String>,
    pub session_token: Option<String>,
}

/// The three bases URLs are built from, and the API version.
#[derive(Debug, Clone)]
pub struct UrlConfig {
    pub base_url: String,
    pub daobitat_base_url: String,
    pub blockchain_explorer_base_url: String,
    pub api_version: String,
}

/// QR rendering defaults.
#[derive(Debug, Clone)]
pub struct QrConfig {
    pub default_size: u32,
    pub default_error_correction: String,
    pub include_logo: bool,
    pub logo_url: Option<String>,
    pub background_color: String,
    pub foreground_color: String,
    pub format: String,
    pub expiry_days: i64,
}

/// Log level and format.
#[derive(Debug, Clone)]
pub struct LoggingConfig {
    pub level: String,
    pub format: String,
    pub enable_json: bool,
}

/// Everything the service is configured with.
#[derive(Debug, Clone)]
pub struct Settings {
    pub server: ServerConfig,
    pub database: DatabaseConfig,
    pub aws: AwsConfig,
    pub urls: UrlConfig,
    pub qr: QrConfig,
    pub logging: LoggingConfig,
}

impl Settings {
    /// The development profile: local addresses, a dev bucket, the test
    /// explorer, a 30-day QR expiry, debug logging.
    pub fn default_dev() -> (r: Settings)
        ensures
            r.server.host@ == ("127.0.0.1")@,
            r.server.port == 3000,
            r.server.environment == Environment::Development,
            r.server.request_timeout_seconds == 30,
            r.server.max_connections == Some(100u32),
            r.database.mongodb_uri@ == ("mongodb://localhost:27017")@,
            r.database.database_name@ == ("daobitat_qr_dev")@,
            r.database.connection_timeout_seconds == 10,
            r.aws.s3_bucket@ == ("daobitat-qr-codes-dev")@,
            r.aws.cloudfront_domain is None,
            r.urls.base_url@ == ("http://localhost:3000")@,
            r.urls.daobitat_base_url@ == ("http://localhost:3001")@,
            r.urls.blockchain_explorer_base_url@ == ("https://sepolia.basescan.org")@,
            r.urls.api_version@ == ("v1")@,
            r.qr.default_size == 256,
            r.qr.expiry_days == 30,
            r.logging.level@ == ("debug")@,
            !r.logging.enable_json,
    {
        let mut cors_origins: Vec<String> = Vec::new();
        cors_origins.push("http://localhost:3000".to_owned());
        cors_origins.push("http://localhost:3001".to_owned());
        Settings {
            server: ServerConfig {
                host: "127.0.0.1".to_owned(),
                port: 3000,
                environment: Environment::Development,
                cors_origins,
                request_timeout_seconds: 30,
                max_connections: Some(100),
            },
            database: DatabaseConfig {
                mongodb_uri: "mongodb://localhost:27017".to_owned(),
                database_name: "daobitat_qr_dev".to_owned(),
                connection_timeout_seconds: 10,
                max_pool_size: Some(10),
                min_pool_size: Some(1),
            },
            aws: AwsConfig {
                region: "us-east-1".to_owned(),
                s3_bucket: "daobitat-qr-codes-dev".to_owned(),
                s3_bucket_region: "us-east-1".to_owned(),
                cloudfront_domain: None,
                access_key_id: None,
                secret_access_key: None,
                session_token: None,
            },
            urls: UrlConfig {
                base_url: "http://localhost:3000".to_owned(),
                daobitat_base_url: "http://localhost:3001".to_owned(),
                blockchain_explorer_base_url: "https://sepolia.basescan.org".to_owned(),
                api_version: "v1".to_owned(),
            },
            qr: QrConfig {
                default_size: 256,
                default_error_correction: "medium".to_owned(),
                include_logo: true,
                logo_url: Some("https://daobitat.xyz/logo.png".to_owned()),
                background_color: "#FFFFFF".to_owned(),
                foreground_color: "#000000".to_owned(),
                format: "png".to_owned(),
                expiry_days: 30,
            },
            logging: LoggingConfig {
                level: "debug".to_owned(),
                format: "pretty".to_owned(),
                enable_json: false,
            },
        }
    }

    /// The production profile: the live addresses and bucket behind content
    /// delivery, the live explorer, a one-year QR expiry, JSON logging.
    pub fn default_prod() -> (r: Settings)
        ensures
            r.server.host@ == ("0.0.0.0")@,
            r.server.port == 8080,
            r.server.environment == Environment::Production,
            r.server.request_timeout_seconds == 30,
            r.server.max_connections == Some(1000u32),
            r.database.mongodb_uri@ == ("mongodb://prod-cluster:27017")@,
            r.database.database_name@ == ("daobitat_qr")@,
            r.aws.s3_bucket@ == ("daobitat-qr-codes")@,
            (r.aws.cloudfront_domain matches Some(d) && d@ == ("cdn.daobitat.xyz")@),
            r.urls.base_url@ == ("https://qr-service.daobitat.xyz")@,
            r.urls.daobitat_base_url@ == ("https://www.daobitat.xyz")@,
            r.urls.blockchain_explorer_base_url@ == ("https://basescan.org")@,
            r.urls.api_version@ == ("v1")@,
            r.qr.default_size == 512,
            r.qr.expiry_days == 365,
            r.logging.level@ == ("info")@,
            r.logging.enable_json,
    {
        let mut cors_origins: Vec<String> = Vec::new();
        cors_origins.push("https://www.daobitat.xyz".to_owned());
        cors_origins.push("https://app.daobitat.xyz".to_owned());
        Settings {
            server: ServerConfig {
                host: "0.0.0.0".to_owned(),
                port: 8080,
                environment: Environment::Production,
                cors_origins,
                request_timeout_seconds: 30,
                max_connections: Some(1000),
            },
            database: DatabaseConfig {
                mongodb_uri: "mongodb://prod-cluster:27017".to_owned(),
                database_name: "daobitat_qr".to_owned(),
                connection_timeout_seconds: 10,
                max_pool_size: Some(50),
                min_pool_size: Some(5),
            },
            aws: AwsConfig {
                region: "us-east-1".to_owned(),
                s3_bucket: "daobitat-qr-codes".to_owned(),
                s3_bucket_region: "us-east-1".to_owned(),
                cloudfront_domain: Some("cdn.daobitat.xyz".to_owned()),
                access_key_id: None,
                secret_access_key: None,
                session_token: None,
            },
            urls: UrlConfig {
                base_url: "https://qr-service.daobitat.xyz".to_owned(),
                daobitat_base_url: "https://www.daobitat.xyz".to_owned(),
                blockchain_explorer_base_url: "https://basescan.org".to_owned(),
                api_version: "v1".to_owned(),
            },
            qr: QrConfig {
                default_size: 512,
                default_error_correction: "high".to_owned(),
                include_logo: true,
                logo_url: Some("https://cdn.daobitat.xyz/logo.png".to_owned()),
                background_color: "#FFFFFF".to_owned(),
                foreground_color: "#000000".to_owned(),
                format: "png".to_owned(),
                expiry_days: 365,
            },
            logging: LoggingConfig {
                level: "info".to_owned(),
                format: "json".to_owned(),
                enable_json: true,
            },
        }
    }

    /// Whether the settings are usable: a listening port, a named database,
    /// a named bucket, web bases, and a QR size of 64 to 2048 pixels.
    pub fn validate(&self) -> (r: Result<(), String>)
        ensures
            r is Ok <==> (self.server.port != 0 && self.database.mongodb_uri@.len() > 0
                && self.database.database_name@.len() > 0 && self.aws.s3_bucket@.len() > 0
                && spec_starts_with(self.urls.base_url@, ("http")@) && spec_starts_with(
                self.urls.daobitat_base_url@,
                ("http")@,
            ) && 64 <= self.qr.default_size <= 2048),
    {
        if self.server.port == 0 {
            return Err("Server port cannot be 0".to_owned());
        }
        if self.database.mongodb_uri.as_str().unicode_len() == 0 {
            return Err("MongoDB URI cannot be empty".to_owned());
        }
        if self.database.database_name.as_str().unicode_len() == 0 {
            return Err("Database name cannot be empty".to_owned());
        }
        if self.aws.s3_bucket.as_str().unicode_len() == 0 {
            return Err("S3 bucket name cannot be empty".to_owned());
        }
        if !starts_with_str(self.urls.base_url.as_str(), "http") {
            return Err("Base URL must start with http or https".to_owned());
        }
        if !starts_with_str(self.urls.daobitat_base_url.as_str(), "http") {
            return Err("DAO-Bitat base URL must start with http or https".to_owned());
        }
        if self.qr.default_size < 64 || self.qr.default_size > 2048 {
            return Err("QR size must be between 64 and 2048 pixels".to_owned());
        }
        Ok(())
    }

    /// The versioned API base URL.
    pub fn api_base_url(&self) -> (r: String)
        ensures
            r@ == self.urls.base_url@ + ("/api/")@ + self.urls.api_version@,
    {
        let mut s = self.urls.base_url.clone();
        s.append("/api/");
        s.append(self.urls.api_version.as_str());
        s
    }

    /// Whether the development profile is active.
    pub fn is_development(&self) -> (r: bool)
        ensures
            r == (self.server.environment == Environment::Development),
    {
        match self.server.environment {
            Environment::Development => true,
            _ => false,
        }
    }

    /// Whether the production profile is active.
    pub fn is_production(&self) -> (r: bool)
        ensures
            r == (self.server.environment == Environment::Production),
    {
        match self.server.environment {
            Environment::Production => true,
            _ => false,
        }
    }

    /// The public URL of a stored object: through the content-delivery
    /// domain when one is set, else the bucket's own address.
    pub fn s3_public_url(&self, key: &str) -> (r: String)
        ensures
            r@ == (match self.aws.cloudfront_domain {
                Some(d) => ("https://")@ + d@ + ("/")@ + key@,
                None => ("https://")@ + self.aws.s3_bucket@ + (".s3.")@
                    + self.aws.s3_bucket_region@ + (".amazonaws.com/")@ + key@,
            }),
    {
        match &self.aws.cloudfront_domain {
            Some(cloudfront_domain) => {
                let mut s = String::new();
                s.append("https://");
                s.append(cloudfront_domain.as_str());
                s.append("/");
                s.append(key);
                s
            },
            None => {
                let mut s = String::new();
                s.append("https://");
                s.append(self.aws.s3_bucket.as_str());
                s.append(".s3.");
                s.append(self.aws.s3_bucket_region.as_str());
                s.append(".amazonaws.com/");
                s.append(key);
                s
            },
        }
    }
}

} // verus!
