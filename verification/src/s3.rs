//! The object-store facade for QR images and metadata documents.
//!
//! Key validation and public-URL construction are the logic here; the actual
//! transfer mechanics are a stub that records nothing, as the service treats
//! object storage as write-only, publicly served content.

use vstd::prelude::*;
use vstd::string::*;
use crate::strutil::{
    spec_contains_substr, contains_substr, spec_trim_end_slashes, trim_end_slashes,
};
use crate::clock::now_unix;

verus! {

/// Why an object-store operation was refused.
#[derive(Debug, Clone)]
pub enum S3Error {
    ConfigurationError(String),
    UploadError(String),
    DownloadError(String),
    DeleteError(String),
    InvalidKey(String),
    NetworkError(String),
}

/// What an upload reports.
#[derive(Debug, Clone)]
pub struct S3UploadResult {
    pub url: String,
    pub key: String,
    pub size: usize,
    pub content_type: String,
}

/// Object-store settings.
#[derive(Debug, Clone)]
pub struct S3Config {
    pub bucket_name: String,
    pub region: String,
    pub public_base_url: Option<String>,
    pub qr_image_prefix: String,
    pub metadata_prefix: String,
}

impl Default for S3Config {
    /// The service's bucket in us-east-1, keys under qr-images/ and
    /// metadata/.
    fn default() -> (r: S3Config)
        ensures
            r.bucket_name@ == ("daobitat-qr-codes")@,
            r.region@ == ("us-east-1")@,
            r.public_base_url is None,
            r.qr_image_prefix@ == ("qr-images/")@,
            r.metadata_prefix@ == ("metadata/")@,
    {
        S3Config {
            bucket_name: "daobitat-qr-codes".to_owned(),
            region: "us-east-1".to_owned(),
            public_base_url: None,
            qr_image_prefix: "qr-images/".to_owned(),
            metadata_prefix: "metadata/".to_owned(),
        }
    }
}

/// Metadata of a stored object.
#[derive(Debug, Clone)]
pub struct FileMetadata {
    pub key: String,
    pub size: i64,
    pub content_type: String,
    pub last_modified: i64,
    pub etag: String,
}

/// One listed object.
#[derive(Debug, Clone)]
pub struct S3Object {
    pub key: String,
    pub size: i64,
    pub last_modified: Option<i64>,
    pub etag: String,
}

/// Aggregate size counts of the bucket.
#[derive(Debug, Clone, Copy, PartialEq, Eq, Structural)]
pub struct BucketStats {
    pub total_qr_images: i64,
    pub total_metadata_files: i64,
    pub total_qr_size: i64,
    pub total_metadata_size: i64,
    pub total_size: i64,
}

/// Whether `s` stands among `keys`.
pub open spec fn spec_among(keys: Seq<String>, s: String) -> bool {
    exists|j: int| 0 <= j < keys.len() && keys[j] == s
}

/// A key the store accepts: non-empty, at most 1024 characters, no `//`, not
/// starting with `/`.
pub open spec fn spec_s3_key_valid(k: Seq<char>) -> bool {
    k.len() > 0 && k.len() <= 1024 && !spec_contains_substr(k, ("//")@) && k[0] != '/'
}

/// The object-store facade.
#[derive(Clone)]
pub struct S3Service {
    pub bucket_name: String,
    pub region: String,
    /// Content-delivery base URL, when one fronts the bucket.
    pub public_base_url: Option<String>,
}

impl S3Service {
    /// The public URL an object of this bucket is served under.
    pub open spec fn spec_public_url(&self, key: Seq<char>) -> Seq<char> {
        match self.public_base_url {
            Some(cf) => spec_trim_end_slashes(cf@) + ("/")@ + key,
            None => ("https://")@ + self.bucket_name@ + (".s3.")@ + self.region@ + (
            ".amazonaws.com/")@ + key,
        }
    }

    /// A facade on `bucket_name` in `region`; both must be named.
    pub fn new(bucket_name: String, region: String) -> (r: Result<S3Service, S3Error>)
        ensures
            match r {
                Ok(s) => bucket_name@.len() > 0 && region@.len() > 0 && s.bucket_name@
                    == bucket_name@ && s.region@ == region@ && s.public_base_url is None,
                Err(e) => e matches S3Error::ConfigurationError(_) && (bucket_name@.len() == 0
                    || region@.len() == 0),
            },
    {
        if bucket_name.as_str().unicode_len() == 0 {
            return Err(S3Error::ConfigurationError("Bucket name cannot be empty".to_owned()));
        }
        if region.as_str().unicode_len() == 0 {
            return Err(S3Error::ConfigurationError("Region cannot be empty".to_owned()));
        }
        Ok(S3Service { bucket_name, region, public_base_url: None })
    }

    /// A facade whose public URLs go through the given content-delivery
    /// domain.
    pub fn with_cloudfront(bucket_name: String, region: String, cloudfront_url: String) -> (r:
        Result<S3Service, S3Error>)
        ensures
            match r {
                Ok(s) => bucket_name@.len() > 0 && region@.len() > 0 && s.bucket_name@
                    == bucket_name@ && s.region@ == region@ && (s.public_base_url matches Some(cf)
                    && cf@ == cloudfront_url@),
                Err(e) => e matches S3Error::ConfigurationError(_) && (bucket_name@.len() == 0
                    || region@.len() == 0),
            },
    {
        let mut service = match Self::new(bucket_name, region) {
            Ok(s) => s,
            Err(e) => {
                return Err(e);
            },
        };
        service.public_base_url = Some(cloudfront_url);
        Ok(service)
    }

    /// Accept exactly the keys of `spec_s3_key_valid` shape.
    pub fn validate_key(&self, key: &str) -> (r: Result<(), S3Error>)
        ensures
            match r {
                Ok(()) => spec_s3_key_valid(key@),
                Err(e) => e matches S3Error::InvalidKey(_) && !spec_s3_key_valid(key@),
            },
    {
        let len = key.unicode_len();
        if len == 0 {
            return Err(S3Error::InvalidKey("Key cannot be empty".to_owned()));
        }
        if len > 1024 {
            return Err(S3Error::InvalidKey("Key too long (max 1024 characters)".to_owned()));
        }
        if contains_substr(key, "//") || key.get_char(0) == '/' {
            return Err(S3Error::InvalidKey("Invalid key format".to_owned()));
        }
        Ok(())
    }

    /// The public URL of `key`: through the content-delivery domain when one
    /// is set, else the bucket's own address.
    pub fn get_public_url(&self, key: &str) -> (r: String)
        ensures
            r@ == self.spec_public_url(key@),
    {
        match &self.public_base_url {
            Some(cloudfront_url) => {
                let mut s = trim_end_slashes(cloudfront_url.as_str());
                s.append("/");
                s.append(key);
                s
            },
            None => {
                let mut s = String::new();
                s.append("https://");
                s.append(self.bucket_name.as_str());
                s.append(".s3.");
                s.append(self.region.as_str());
                s.append(".amazonaws.com/");
                s.append(key);
                s
            },
        }
    }

    /// Store a QR image under `key` and return its public URL; only the key's
    /// shape can be refused. The transfer itself is a stub.
    pub fn upload_qr_image(&self, key: &str, image_data: Vec<u8>) -> (r: Result<String, S3Error>)
        ensures
            match r {
                Ok(url) => spec_s3_key_valid(key@) && url@ == self.spec_public_url(key@),
                Err(e) => e matches S3Error::InvalidKey(_) && !spec_s3_key_valid(key@),
            },
    {
        match self.validate_key(key) {
            Ok(()) => (),
            Err(e) => {
                return Err(e);
            },
        }
        let _ = image_data;
        Ok(self.get_public_url(key))
    }

    /// Store a metadata document under `key` and return its public URL; only
    /// the key's shape can be refused. The transfer itself is a stub.
    pub fn upload_qr_metadata(&self, key: &str, metadata_json: String) -> (r: Result<
        String,
        S3Error,
    >)
        ensures
            match r {
                Ok(url) => spec_s3_key_valid(key@) && url@ == self.spec_public_url(key@),
                Err(e) => e matches S3Error::InvalidKey(_) && !spec_s3_key_valid(key@),
            },
    {
        match self.validate_key(key) {
            Ok(()) => (),
            Err(e) => {
                return Err(e);
            },
        }
        let _ = metadata_json;
        Ok(self.get_public_url(key))
    }

    /// Fetch the bytes of `key`. The transfer is a stub that hands back
    /// nothing.
    pub fn download_file(&self, key: &str) -> (r: Result<Vec<u8>, S3Error>)
        ensures
            match r {
                Ok(bytes) => spec_s3_key_valid(key@) && bytes@.len() == 0,
                Err(e) => e matches S3Error::InvalidKey(_) && !spec_s3_key_valid(key@),
            },
    {
        match self.validate_key(key) {
            Ok(()) => (),
            Err(e) => {
                return Err(e);
            },
        }
        Ok(Vec::new())
    }

    /// Drop the object under `key`; only the key's shape can be refused. The
    /// deletion itself is a stub that reports success.
    pub fn delete_qr_image(&self, key: &str) -> (r: Result<bool, S3Error>)
        ensures
            match r {
                Ok(b) => spec_s3_key_valid(key@) && b,
                Err(e) => e matches S3Error::InvalidKey(_) && !spec_s3_key_valid(key@),
            },
    {
        match self.validate_key(key) {
            Ok(()) => (),
            Err(e) => {
                return Err(e);
            },
        }
        Ok(true)
    }

    /// Drop several objects, skipping the ones whose deletion fails: exactly
    /// the keys of valid shape are reported deleted.
    pub fn delete_multiple_files(&self, keys: Vec<String>) -> (r: Result<Vec<String>, S3Error>)
        ensures
            match r {
                Ok(deleted) => {
                    &&& deleted@.len() <= keys@.len()
                    &&& forall|k: int|
                        0 <= k < deleted@.len() ==> spec_s3_key_valid(#[trigger] deleted@[k]@)
                    &&& forall|k: int|
                        0 <= k < deleted@.len() ==> spec_among(keys@, #[trigger] deleted@[k])
                },
                Err(_) => false,
            },
    {
        let mut deleted: Vec<String> = Vec::new();
        let mut i: usize = 0;
        while i < keys.len()
            invariant
                0 <= i <= keys@.len(),
                deleted@.len() <= i,
                forall|k: int|
                    0 <= k < deleted@.len() ==> spec_s3_key_valid(#[trigger] deleted@[k]@),
                forall|k: int|
                    0 <= k < deleted@.len() ==> spec_among(keys@, #[trigger] deleted@[k]),
            decreases keys@.len() - i,
        {
            match self.delete_qr_image(keys[i].as_str()) {
                Ok(_) => {
                    let copy = keys[i].clone();
                    deleted.push(copy);
                },
                Err(_) => (),
            }
            i += 1;
        }
        Ok(deleted)
    }

    /// Whether an object sits under `key`. The check is a stub that reports
    /// absence.
    pub fn file_exists(&self, key: &str) -> (r: Result<bool, S3Error>)
        ensures
            match r {
                Ok(b) => spec_s3_key_valid(key@) && !b,
                Err(e) => e matches S3Error::InvalidKey(_) && !spec_s3_key_valid(key@),
            },
    {
        match self.validate_key(key) {
            Ok(()) => (),
            Err(e) => {
                return Err(e);
            },
        }
        Ok(false)
    }

    /// A pre-signed upload address for `key`, a stub shaped like the bucket's
    /// own address.
    pub fn generate_presigned_upload_url(
        &self,
        key: &str,
        content_type: &str,
        expires_in_seconds: u64,
    ) -> (r: Result<String, S3Error>)
        ensures
            match r {
                Ok(url) => spec_s3_key_valid(key@) && url@ == ("https://")@ + self.bucket_name@ + (
                ".s3.")@ + self.region@ + (".amazonaws.com/")@ + key@ + ("?presigned=true")@,
                Err(e) => e matches S3Error::InvalidKey(_) && !spec_s3_key_valid(key@),
            },
    {
        match self.validate_key(key) {
            Ok(()) => (),
            Err(e) => {
                return Err(e);
            },
        }
        let _ = content_type;
        let _ = expires_in_seconds;
        let mut s = String::new();
        s.append("https://");
        s.append(self.bucket_name.as_str());
        s.append(".s3.");
        s.append(self.region.as_str());
        s.append(".amazonaws.com/");
        s.append(key);
        s.append("?presigned=true");
        Ok(s)
    }

    /// Metadata of `key`: placeholder values dated now.
    pub fn get_file_metadata(&self, key: &str) -> (r: Result<FileMetadata, S3Error>)
        ensures
            match r {
                Ok(m) => spec_s3_key_valid(key@) && m.key@ == key@ && m.size == 0
                    && m.content_type@ == ("image/png")@ && m.etag@ == ("placeholder")@,
                Err(e) => e matches S3Error::InvalidKey(_) && !spec_s3_key_valid(key@),
            },
    {
        match self.validate_key(key) {
            Ok(()) => (),
            Err(e) => {
                return Err(e);
            },
        }
        Ok(
            FileMetadata {
                key: key.to_owned(),
                size: 0,
                content_type: "image/png".to_owned(),
                last_modified: now_unix(),
                etag: "placeholder".to_owned(),
            },
        )
    }

    /// The objects under `prefix`. The listing is a stub that reports none.
    pub fn list_files_with_prefix(&self, prefix: &str, max_keys: Option<i32>) -> (r: Result<
        Vec<S3Object>,
        S3Error,
    >)
        ensures
            match r {
                Ok(v) => v@.len() == 0,
                Err(_) => false,
            },
    {
        let _ = prefix;
        let _ = max_keys;
        Ok(Vec::new())
    }

    /// Drop QR images older than the cutoff: with the stubbed listing nothing
    /// is found, so nothing is deleted.
    pub fn cleanup_old_qr_codes(&self, older_than_days: i64) -> (r: Result<Vec<String>, S3Error>)
        ensures
            match r {
                Ok(deleted) => deleted@.len() == 0,
                Err(_) => false,
            },
    {
        let _ = older_than_days;
        let qr_objects = match self.list_files_with_prefix("qr-images/", None) {
            Ok(v) => v,
            Err(e) => {
                return Err(e);
            },
        };
        let mut deleted: Vec<String> = Vec::new();
        let mut i: usize = 0;
        while i < qr_objects.len()
            invariant
                qr_objects@.len() == 0,
                deleted@.len() == 0,
                i == 0,
            decreases qr_objects@.len() - i,
        {
            i += 1;
        }
        Ok(deleted)
    }

    /// Size counts over the bucket: zero under the stubbed listing.
    pub fn get_bucket_stats(&self) -> (r: Result<BucketStats, S3Error>)
        ensures
            match r {
                Ok(b) => b.total_qr_images == 0 && b.total_metadata_files == 0 && b.total_qr_size
                    == 0 && b.total_metadata_size == 0 && b.total_size == 0,
                Err(_) => false,
            },
    {
        let qr_images = match self.list_files_with_prefix("qr-images/", None) {
            Ok(v) => v,
            Err(e) => {
                return Err(e);
            },
        };
        let metadata_files = match self.list_files_with_prefix("metadata/", None) {
            Ok(v) => v,
            Err(e) => {
                return Err(e);
            },
        };
        Ok(
            BucketStats {
                total_qr_images: qr_images.len() as i64,
                total_metadata_files: metadata_files.len() as i64,
                total_qr_size: 0,
                total_metadata_size: 0,
                total_size: 0,
            },
        )
    }
}

} // verus!
