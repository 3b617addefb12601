//! Object-store and content-delivery configuration.

use vstd::prelude::*;
use vstd::string::*;
use crate::strutil::str_eq;
use crate::textenc::{lower_of, lowercase};

verus! {

/// The cloud settings the service runs with.
#[derive(Debug, Clone)]
pub struct AwsConfig {
    pub region: String,
    pub s3_bucket: String,
    pub s3_bucket_region: String,
    pub cloudfront_domain: Option<String>,
    pub access_key_id: Option<String>,
    pub secret_access_key: Option<String>,
    pub session_token: Option<String>,
    /// A custom endpoint, for local object-store stand-ins.
    pub endpoint_url: Option<String>,
    pub force_path_style: bool,
}

/// Bucket layout and serving settings.
#[derive(Debug, Clone)]
pub struct S3Config {
    pub bucket: String,
    pub region: String,
    pub qr_images_prefix: String,
    pub metadata_prefix: String,
    pub public_read: bool,
    pub cache_control: String,
    pub content_type_mapping: ContentTypeMapping,
}

/// Content types by file extension.
#[derive(Debug, Clone)]
pub struct ContentTypeMapping {
    pub png: String,
    pub jpg: String,
    pub svg: String,
    pub json: String,
}

/// Content-delivery distribution settings.
#[derive(Debug, Clone)]
pub struct CloudFrontConfig {
    pub distribution_domain: String,
    pub cache_behavior: CacheBehaviorConfig,
    pub signed_urls: bool,
    pub key_pair_id: Option<String>,
    pub private_key_path: Option<String>,
}

/// Cache lifetimes and transport policy of a distribution.
#[derive(Debug, Clone)]
pub struct CacheBehaviorConfig {
    pub default_ttl: u64,
    pub max_ttl: u64,
    pub min_ttl: u64,
    pub compress: bool,
    pub viewer_protocol_policy: String,
}

/// Plain credentials, for local stand-ins.
#[derive(Debug, Clone)]
pub struct AwsCredentials {
    pub access_key_id: String,
    pub secret_access_key: String,
    pub session_token: Option<String>,
}

impl Default for AwsConfig {
    /// The service's bucket in us-east-1, nothing custom.
    fn default() -> (r: AwsConfig)
        ensures
            r.region@ == ("us-east-1")@,
            r.s3_bucket@ == ("daobitat-qr-codes")@,
            r.s3_bucket_region@ == ("us-east-1")@,
            r.cloudfront_domain is None,
            r.access_key_id is None,
            r.secret_access_key is None,
            r.session_token is None,
            r.endpoint_url is None,
            !r.force_path_style,
    {
        AwsConfig {
            region: "us-east-1".to_owned(),
            s3_bucket: "daobitat-qr-codes".to_owned(),
            s3_bucket_region: "us-east-1".to_owned(),
            cloudfront_domain: None,
            access_key_id: None,
            secret_access_key: None,
            session_token: None,
            endpoint_url: None,
            force_path_style: false,
        }
    }
}

impl Default for S3Config {
    /// The service's bucket with its standard prefixes, publicly readable,
    /// cached for a year.
    fn default() -> (r: S3Config)
        ensures
            r.bucket@ == ("daobitat-qr-codes")@,
            r.region@ == ("us-east-1")@,
            r.qr_images_prefix@ == ("qr-images/")@,
            r.metadata_prefix@ == ("metadata/")@,
            r.public_read,
            r.cache_control@ == ("public, max-age=31536000")@,
            r.content_type_mapping.png@ == ("image/png")@,
            r.content_type_mapping.jpg@ == ("image/jpeg")@,
            r.content_type_mapping.svg@ == ("image/svg+xml")@,
            r.content_type_mapping.json@ == ("application/json")@,
    {
        S3Config {
            bucket: "daobitat-qr-codes".to_owned(),
            region: "us-east-1".to_owned(),
            qr_images_prefix: "qr-images/".to_owned(),
            metadata_prefix: "metadata/".to_owned(),
            public_read: true,
            cache_control: "public, max-age=31536000".to_owned(),
            content_type_mapping: Default::default(),
        }
    }
}

impl Default for ContentTypeMapping {
    /// The standard image and document content types.
    fn default() -> (r: ContentTypeMapping)
        ensures
            r.png@ == ("image/png")@,
            r.jpg@ == ("image/jpeg")@,
            r.svg@ == ("image/svg+xml")@,
            r.json@ == ("application/json")@,
    {
        ContentTypeMapping {
            png: "image/png".to_owned(),
            jpg: "image/jpeg".to_owned(),
            svg: "image/svg+xml".to_owned(),
            json: "application/json".to_owned(),
        }
    }
}

impl Default for CloudFrontConfig {
    /// The service's distribution, unsigned URLs.
    fn default() -> (r: CloudFrontConfig)
        ensures
            r.distribution_domain@ == ("cdn.daobitat.xyz")@,
            !r.signed_urls,
            r.key_pair_id is None,
            r.private_key_path is None,
    {
        CloudFrontConfig {
            distribution_domain: "cdn.daobitat.xyz".to_owned(),
            cache_behavior: Default::default(),
            signed_urls: false,
            key_pair_id: None,
            private_key_path: None,
        }
    }
}

impl Default for CacheBehaviorConfig {
    /// A day by default, a year at most, compressed, redirected to HTTPS.
    fn default() -> (r: CacheBehaviorConfig)
        ensures
            r.default_ttl == 86400,
            r.max_ttl == 31536000,
            r.min_ttl == 0,
            r.compress,
            r.viewer_protocol_policy@ == ("redirect-to-https")@,
    {
        CacheBehaviorConfig {
            default_ttl: 86400,
            max_ttl: 31536000,
            min_ttl: 0,
            compress: true,
            viewer_protocol_policy: "redirect-to-https".to_owned(),
        }
    }
}

impl AwsConfig {
    /// The development settings: a dev bucket, no content delivery, default
    /// credentials.
    pub fn development() -> (r: AwsConfig)
        ensures
            r.region@ == ("us-east-1")@,
            r.s3_bucket@ == ("daobitat-qr-codes-dev")@,
            r.s3_bucket_region@ == ("us-east-1")@,
            r.cloudfront_domain is None,
            r.access_key_id is None,
            r.secret_access_key is None,
            r.session_token is None,
            r.endpoint_url is None,
            !r.force_path_style,
    {
        AwsConfig {
            region: "us-east-1".to_owned(),
            s3_bucket: "daobitat-qr-codes-dev".to_owned(),
            s3_bucket_region: "us-east-1".to_owned(),
            cloudfront_domain: None,
            access_key_id: None,
            secret_access_key: None,
            session_token: None,
            endpoint_url: None,
            force_path_style: false,
        }
    }

    /// The production settings: the live bucket behind the content-delivery
    /// domain, role-provided credentials.
    pub fn production() -> (r: AwsConfig)
        ensures
            r.region@ == ("us-east-1")@,
            r.s3_bucket@ == ("daobitat-qr-codes")@,
            r.s3_bucket_region@ == ("us-east-1")@,
            (r.cloudfront_domain matches Some(d) && d@ == ("cdn.daobitat.xyz")@),
            r.access_key_id is None,
            r.secret_access_key is None,
            r.session_token is None,
            r.endpoint_url is None,
            !r.force_path_style,
    {
        AwsConfig {
            region: "us-east-1".to_owned(),
            s3_bucket: "daobitat-qr-codes".to_owned(),
            s3_bucket_region: "us-east-1".to_owned(),
            cloudfront_domain: Some("cdn.daobitat.xyz".to_owned()),
            access_key_id: None,
            secret_access_key: None,
            session_token: None,
            endpoint_url: None,
            force_path_style: false,
        }
    }

    /// The local stand-in settings: a local bucket behind a custom endpoint
    /// with path-style addressing and test credentials.
    pub fn localstack() -> (r: AwsConfig)
        ensures
            r.region@ == ("us-east-1")@,
            r.s3_bucket@ == ("daobitat-qr-codes-local")@,
            r.s3_bucket_region@ == ("us-east-1")@,
            r.cloudfront_domain is None,
            (r.access_key_id matches Some(k) && k@ == ("test")@),
            (r.secret_access_key matches Some(k) && k@ == ("test")@),
            r.session_token is None,
            (r.endpoint_url matches Some(u) && u@ == ("http://localhost:4566")@),
            r.force_path_style,
    {
        AwsConfig {
            region: "us-east-1".to_owned(),
            s3_bucket: "daobitat-qr-codes-local".to_owned(),
            s3_bucket_region: "us-east-1".to_owned(),
            cloudfront_domain: None,
            access_key_id: Some("test".to_owned()),
            secret_access_key: Some("test".to_owned()),
            session_token: None,
            endpoint_url: Some("http://localhost:4566".to_owned()),
            force_path_style: true,
        }
    }

    /// The custom endpoint, when one is set.
    pub fn s3_endpoint(&self) -> (r: Option<String>)
        ensures
            r == self.endpoint_url,
    {
        crate::strutil::clone_opt_string(&self.endpoint_url)
    }

    /// Whether a custom endpoint is set.
    pub fn is_custom_endpoint(&self) -> (r: bool)
        ensures
            r == (self.endpoint_url is Some),
    {
        self.endpoint_url.is_some()
    }

    /// The public URL of an object: through the content-delivery domain when
    /// one is set, else the custom endpoint, else the bucket's own address.
    pub fn get_public_url(&self, key: &str) -> (r: String)
        ensures
            r@ == (match self.cloudfront_domain {
                Some(d) => ("https://")@ + d@ + ("/")@ + key@,
                None => match self.endpoint_url {
                    Some(u) => u@ + ("/")@ + self.s3_bucket@ + ("/")@ + key@,
                    None => ("https://")@ + self.s3_bucket@ + (".s3.")@ + self.s3_bucket_region@ + (
                    ".amazonaws.com/")@ + key@,
                },
            }),
    {
        match &self.cloudfront_domain {
            Some(cloudfront_domain) => {
                let mut s = String::new();
                s.append("https://");
                s.append(cloudfront_domain.as_str());
                s.append("/");
                s.append(key);
                s
            },
            None => match &self.endpoint_url {
                Some(endpoint_url) => {
                    let mut s = endpoint_url.clone();
                    s.append("/");
                    s.append(self.s3_bucket.as_str());
                    s.append("/");
                    s.append(key);
                    s
                },
                None => {
                    let mut s = String::new();
                    s.append("https://");
                    s.append(self.s3_bucket.as_str());
                    s.append(".s3.");
                    s.append(self.s3_bucket_region.as_str());
                    s.append(".amazonaws.com/");
                    s.append(key);
                    s
                },
            },
        }
    }

    /// Whether the settings are usable: regions and bucket named, the bucket
    /// of 3 to 63 characters drawn from letters, digits, `-` and `.`.
    pub fn validate(&self) -> (r: Result<(), String>)
        ensures
            r is Ok <==> (self.region@.len() > 0 && self.s3_bucket_region@.len() > 0 && 3
                <= self.s3_bucket@.len() <= 63 && (forall|i: int|
                0 <= i < self.s3_bucket@.len() ==> spec_bucket_char(#[trigger] self.s3_bucket@[i]))),
    {
        if self.region.as_str().unicode_len() == 0 {
            return Err("AWS region cannot be empty".to_owned());
        }
        if self.s3_bucket.as_str().unicode_len() == 0 {
            return Err("S3 bucket name cannot be empty".to_owned());
        }
        if self.s3_bucket_region.as_str().unicode_len() == 0 {
            return Err("S3 bucket region cannot be empty".to_owned());
        }
        let bucket = self.s3_bucket.as_str();
        let blen = bucket.unicode_len();
        let mut i: usize = 0;
        while i < blen
            invariant
                bucket@ == self.s3_bucket@,
                blen == self.s3_bucket@.len(),
                0 <= i <= blen,
                forall|j: int| 0 <= j < i ==> spec_bucket_char(#[trigger] self.s3_bucket@[j]),
            decreases blen - i,
        {
            let c = bucket.get_char(i);
            if !(('a' <= c && c <= 'z') || ('A' <= c && c <= 'Z') || ('0' <= c && c <= '9') || c
                == '-' || c == '.') {
                return Err("Invalid S3 bucket name format".to_owned());
            }
            i += 1;
        }
        if blen < 3 || blen > 63 {
            return Err("S3 bucket name must be between 3 and 63 characters".to_owned());
        }
        Ok(())
    }
}

/// A character a bucket name may hold: letters, digits, `-` or `.`.
pub open spec fn spec_bucket_char(c: char) -> bool {
    ('a' <= c && c <= 'z') || ('A' <= c && c <= 'Z') || ('0' <= c && c <= '9') || c == '-' || c
        == '.'
}

impl S3Config {
    /// The object key of a property's QR image.
    pub fn qr_image_key(&self, property_id: &str) -> (r: String)
        ensures
            r@ == self.qr_images_prefix@ + property_id@ + (".png")@,
    {
        let mut s = self.qr_images_prefix.clone();
        s.append(property_id);
        s.append(".png");
        s
    }

    /// The object key of a property's metadata document.
    pub fn metadata_key(&self, property_id: &str) -> (r: String)
        ensures
            r@ == self.metadata_prefix@ + property_id@ + (".json")@,
    {
        let mut s = self.metadata_prefix.clone();
        s.append(property_id);
        s.append(".json");
        s
    }

    /// The content type of a file extension, compared through its lowercase
    /// form; unknown extensions serve as plain bytes.
    pub fn get_content_type(&self, extension: &str) -> (r: String)
        ensures
            r@ == (if lower_of(extension@) == ("png")@ {
                self.content_type_mapping.png@
            } else if lower_of(extension@) == ("jpg")@ || lower_of(extension@) == ("jpeg")@ {
                self.content_type_mapping.jpg@
            } else if lower_of(extension@) == ("svg")@ {
                self.content_type_mapping.svg@
            } else if lower_of(extension@) == ("json")@ {
                self.content_type_mapping.json@
            } else {
                ("application/octet-stream")@
            }),
    {
        let lowered = lowercase(extension);
        let le = lowered.as_str();
        if str_eq(le, "png") {
            self.content_type_mapping.png.clone()
        } else if str_eq(le, "jpg") || str_eq(le, "jpeg") {
            self.content_type_mapping.jpg.clone()
        } else if str_eq(le, "svg") {
            self.content_type_mapping.svg.clone()
        } else if str_eq(le, "json") {
            self.content_type_mapping.json.clone()
        } else {
            "application/octet-stream".to_owned()
        }
    }
}

impl AwsCredentials {
    /// Plain test credentials for a local stand-in.
    pub fn test_credentials() -> (r: AwsCredentials)
        ensures
            r.access_key_id@ == ("test")@,
            r.secret_access_key@ == ("test")@,
            r.session_token is None,
    {
        AwsCredentials {
            access_key_id: "test".to_owned(),
            secret_access_key: "test".to_owned(),
            session_token: None,
        }
    }
}

} // verus!
