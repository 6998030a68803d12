//! The durable object store: a key→bytes store reached over presigned URLs
//! against an S3-compatible endpoint.
//!
//! This module owns key normalization, the transform applied to payloads
//! crossing the store boundary, the classification of the backend's HTTP
//! answers, and the bucket-provisioning decisions. The caller performs the
//! HTTP requests against the presigned URLs produced here.

use crate::config::{CompressionConfig, EncryptionConfig, StorageConfig};
use crate::crypto::{construction_error, CryptoError, CryptoProcessor, MAX_PLAINTEXT_LEN};
use rusty_s3::S3Action;
use vstd::prelude::*;
use vstd::string::StrSliceExecFns;

verus! {

/// The url crate's parse error, carried through unread.
#[verifier::external_type_specification]
#[verifier::external_body]
pub struct ExUrlParseError(url::ParseError);

/// rusty_s3's bucket handle, carried through unread.
#[verifier::external_type_specification]
#[verifier::external_body]
pub struct ExBucket(rusty_s3::Bucket);

/// rusty_s3's bucket construction error, declared with its variants so a
/// rejected endpoint text can be told apart from a rejected scheme or host.
#[verifier::external_type_specification]
pub struct ExBucketError(rusty_s3::BucketError);

/// rusty_s3's credentials, carried through unread.
#[verifier::external_type_specification]
#[verifier::external_body]
pub struct ExCredentials(rusty_s3::Credentials);

/// Whether url's `Url::parse` and rusty_s3's `Bucket::new` together accept
/// an endpoint, bucket name and region: both are deterministic functions of
/// the three texts alone.
pub uninterp spec fn bucket_ok(endpoint: Seq<char>, name: Seq<char>, region: Seq<char>) -> bool;

/// Relies on url's `Url::parse` and rusty_s3's `Bucket::new` with
/// path-style addressing: builds the bucket handle, succeeding exactly on
/// the configurations `bucket_ok` names. An endpoint that does not parse
/// comes back as the error's `ParseError` variant.
#[verifier::external_body]
fn make_bucket(endpoint: &str, name: &str, region: &str) -> (r: Result<
    rusty_s3::Bucket,
    rusty_s3::BucketError,
>)
    ensures
        r is Ok <==> bucket_ok(endpoint@, name@, region@),
{
    let url = match url::Url::parse(endpoint) {
        Ok(u) => u,
        Err(e) => return Err(e.into()),
    };
    rusty_s3::Bucket::new(url, rusty_s3::UrlStyle::Path, name.to_owned(), region.to_owned())
}

/// Relies on rusty_s3's `Credentials::new`: holds the key pair.
#[verifier::external_body]
fn credentials_new(access_key: &str, secret_key: &str) -> (r: rusty_s3::Credentials) {
    rusty_s3::Credentials::new(access_key.to_owned(), secret_key.to_owned())
}

/// A key the signer accepts: one that does not begin with two slashes.
/// rusty_s3 percent-encodes every URL-significant character of a key except
/// `/` before joining it onto the bucket's base URL, so only a leading `//`
/// can start an authority reference, whose host parse may fail — the one
/// failing path inside the signer.
pub open spec fn key_signable(key: Seq<char>) -> bool {
    !(key.len() >= 2 && key[0] == '/' && key[1] == '/')
}

/// Checks a key against `key_signable`.
fn signable(key: &str) -> (r: bool)
    ensures
        r == key_signable(key@),
{
    let n = key.unicode_len();
    !(n >= 2 && key.get_char(0) == '/' && key.get_char(1) == '/')
}

/// Relies on rusty_s3's `Bucket::get_object` and `S3Action::sign`: a
/// presigned GET URL for the object, valid for the given window. The text
/// depends on the signing instant; nothing is promised of it. Keys opening
/// an authority reference are excluded: on those the signer's URL join can
/// fail and the signer unwraps it.
#[verifier::external_body]
fn sign_get_object_url(
    bucket: &rusty_s3::Bucket,
    creds: &rusty_s3::Credentials,
    key: &str,
    secs: u64,
) -> (r: String)
    requires
        key_signable(key@),
{
    bucket.get_object(Some(creds), key).sign(std::time::Duration::from_secs(secs)).to_string()
}

/// Relies on rusty_s3's `Bucket::put_object` and `S3Action::sign`: a
/// presigned PUT URL for the object, valid for the given window. Keys are
/// restricted as for the GET signer.
#[verifier::external_body]
fn sign_put_object_url(
    bucket: &rusty_s3::Bucket,
    creds: &rusty_s3::Credentials,
    key: &str,
    secs: u64,
) -> (r: String)
    requires
        key_signable(key@),
{
    bucket.put_object(Some(creds), key).sign(std::time::Duration::from_secs(secs)).to_string()
}

/// Relies on rusty_s3's `Bucket::head_object` and `S3Action::sign`: a
/// presigned HEAD URL for the object, valid for the given window. Keys are
/// restricted as for the GET signer.
#[verifier::external_body]
fn sign_head_object_url(
    bucket: &rusty_s3::Bucket,
    creds: &rusty_s3::Credentials,
    key: &str,
    secs: u64,
) -> (r: String)
    requires
        key_signable(key@),
{
    bucket.head_object(Some(creds), key).sign(std::time::Duration::from_secs(secs)).to_string()
}

/// Relies on rusty_s3's `Bucket::head_bucket` and `S3Action::sign`: a
/// presigned HEAD URL for the bucket itself, valid for the given window.
#[verifier::external_body]
fn sign_head_bucket_url(bucket: &rusty_s3::Bucket, creds: &rusty_s3::Credentials, secs: u64) -> (r:
    String) {
    bucket.head_bucket(Some(creds)).sign(std::time::Duration::from_secs(secs)).to_string()
}

/// Relies on rusty_s3's `Bucket::create_bucket` and `S3Action::sign`: a
/// presigned PUT URL creating the bucket, valid for the given window.
#[verifier::external_body]
fn sign_create_bucket_url(bucket: &rusty_s3::Bucket, creds: &rusty_s3::Credentials, secs: u64) -> (
    r: String) {
    bucket.create_bucket(creds).sign(std::time::Duration::from_secs(secs)).to_string()
}

/// How a store operation or the store's construction fails.
#[derive(Clone, Copy, Debug, PartialEq, Eq, Structural)]
pub enum StorageError {
    /// The configured endpoint is not a valid URL.
    InvalidEndpoint,
    /// The bucket constructor rejected the endpoint.
    InvalidBucket,
    /// The transform configuration was rejected at construction.
    Config(CryptoError),
    /// Reading a stored payload back through the transform failed; the
    /// store tier fails open on it, never the whole request.
    Transform(CryptoError),
    /// Writing a payload through the transform failed.
    TransformWrite(CryptoError),
    /// The backend denied access: credentials or permissions.
    AccessDenied,
    /// The backend answered with this unexpected status.
    UnexpectedStatus(u16),
}

/// Validity window for presigned object operations, in seconds.
pub const OBJECT_URL_VALIDITY_SECS: u64 = 3600;

/// Validity window for presigned bucket operations, in seconds.
pub const BUCKET_URL_VALIDITY_SECS: u64 = 300;

/// The object key a request path names in the backend: the path without its
/// leading slash, so the external path form and the stored object form name
/// exactly one resource.
pub open spec fn spec_normalized_key(path: Seq<char>) -> Seq<char> {
    if path.len() > 0 && path[0] == '/' {
        path.skip(1)
    } else {
        path
    }
}

/// Strips the leading slash from a request path, if it has one.
pub fn normalized_key(path: &str) -> (r: &str)
    ensures
        r@ == spec_normalized_key(path@),
{
    let n = path.unicode_len();
    if n > 0 && path.get_char(0) == '/' {
        path.substring_char(1, n)
    } else {
        path
    }
}

/// The durable store: the bucket handle, the credentials, and the transform
/// pipeline applied to payloads crossing its boundary.
pub struct S3Storage {
    pub bucket: rusty_s3::Bucket,
    pub credentials: rusty_s3::Credentials,
    pub crypto_processor: Option<CryptoProcessor>,
}

impl S3Storage {
    /// The transform pipeline, when present, is well formed.
    pub open spec fn wf(self) -> bool {
        self.crypto_processor matches Some(p) ==> p.wf()
    }

    /// What reading a stored payload yields once the transform (if any) is
    /// reversed; the identity when no transform is configured.
    pub open spec fn spec_retrieval(self, data: Seq<u8>) -> Option<Seq<u8>> {
        match self.crypto_processor {
            Some(p) => p.retrieval_of(data),
            None => Some(data),
        }
    }

    /// Builds the store from its configuration: parses the endpoint into
    /// the bucket handle, holds the credentials, and constructs the
    /// transform pipeline when either stage is enabled. It succeeds exactly
    /// when the bucket constructor accepts endpoint, name and region and
    /// the transform configuration is accepted; any rejection is fatal
    /// here, at startup.
    pub fn new(config: &StorageConfig) -> (r: Result<Self, StorageError>)
        ensures
            match r {
                Ok(s) => {
                    &&& s.wf()
                    &&& bucket_ok(config.endpoint@, config.bucket@, config.region@)
                    &&& construction_error(config.encryption, config.compression) is None
                    &&& (config.encryption.enabled || config.compression.enabled)
                        <==> s.crypto_processor is Some
                    &&& s.crypto_processor matches Some(p) ==> {
                        &&& p.encryption_config == config.encryption
                        &&& p.compression_config == config.compression
                    }
                },
                Err(e) => match e {
                    StorageError::InvalidEndpoint => !bucket_ok(
                        config.endpoint@,
                        config.bucket@,
                        config.region@,
                    ),
                    StorageError::InvalidBucket => !bucket_ok(
                        config.endpoint@,
                        config.bucket@,
                        config.region@,
                    ),
                    StorageError::Config(ce) => bucket_ok(
                        config.endpoint@,
                        config.bucket@,
                        config.region@,
                    ) && construction_error(config.encryption, config.compression) == Some(ce),
                    _ => false,
                },
            },
            (bucket_ok(config.endpoint@, config.bucket@, config.region@) && construction_error(
                config.encryption,
                config.compression,
            ) is None) ==> r is Ok,
    {
        let bucket = match make_bucket(
            config.endpoint.as_str(),
            config.bucket.as_str(),
            config.region.as_str(),
        ) {
            Ok(b) => b,
            Err(e) => {
                return match e {
                    rusty_s3::BucketError::ParseError(_) => Err(StorageError::InvalidEndpoint),
                    _ => Err(StorageError::InvalidBucket),
                };
            },
        };
        let credentials = credentials_new(config.access_key.as_str(), config.secret_key.as_str());
        let crypto_processor = if config.encryption.enabled || config.compression.enabled {
            match CryptoProcessor::new(config.encryption.duplicate(), config.compression.duplicate()) {
                Ok(p) => Some(p),
                Err(e) => {
                    return Err(StorageError::Config(e));
                },
            }
        } else {
            None
        };
        Ok(S3Storage { bucket, credentials, crypto_processor })
    }

    /// A presigned GET URL for the object a request path names, or nothing
    /// for the paths whose key the signer does not accept.
    pub fn get_object_url(&self, path: &str) -> (r: Option<String>)
        ensures
            r is Some <==> key_signable(spec_normalized_key(path@)),
    {
        let key = normalized_key(path);
        if signable(key) {
            Some(sign_get_object_url(&self.bucket, &self.credentials, key, OBJECT_URL_VALIDITY_SECS))
        } else {
            None
        }
    }

    /// A presigned PUT URL for the object a request path names, or nothing
    /// for the paths whose key the signer does not accept.
    pub fn put_object_url(&self, path: &str) -> (r: Option<String>)
        ensures
            r is Some <==> key_signable(spec_normalized_key(path@)),
    {
        let key = normalized_key(path);
        if signable(key) {
            Some(sign_put_object_url(&self.bucket, &self.credentials, key, OBJECT_URL_VALIDITY_SECS))
        } else {
            None
        }
    }

    /// A presigned HEAD URL for the object a request path names, or nothing
    /// for the paths whose key the signer does not accept.
    pub fn head_object_url(&self, path: &str) -> (r: Option<String>)
        ensures
            r is Some <==> key_signable(spec_normalized_key(path@)),
    {
        let key = normalized_key(path);
        if signable(key) {
            Some(
                sign_head_object_url(&self.bucket, &self.credentials, key, OBJECT_URL_VALIDITY_SECS),
            )
        } else {
            None
        }
    }

    /// A presigned HEAD URL for the bucket itself.
    pub fn head_bucket_url(&self) -> String {
        sign_head_bucket_url(&self.bucket, &self.credentials, BUCKET_URL_VALIDITY_SECS)
    }

    /// A presigned URL creating the bucket.
    pub fn create_bucket_url(&self) -> String {
        sign_create_bucket_url(&self.bucket, &self.credentials, BUCKET_URL_VALIDITY_SECS)
    }

    /// The payload written for `data`: the transform pipeline applied when
    /// one is configured, `data` verbatim otherwise. Whatever is written
    /// reads back to `data`. It fails exactly when a transform with
    /// encryption is configured and the middle form (the compressed stream,
    /// or `data` itself without compression) exceeds the AES-GCM bound.
    pub fn payload_for_storage(&self, data: &Vec<u8>) -> (r: Result<Vec<u8>, StorageError>)
        requires
            self.wf(),
        ensures
            match r {
                Ok(v) => self.spec_retrieval(v@) == Some(data@),
                Err(e) => {
                    &&& e == StorageError::TransformWrite(CryptoError::PayloadTooLarge)
                    &&& self.crypto_processor matches Some(p)
                    &&& p.encryption_enabled()
                    &&& p.middle_form(data@).len() > MAX_PLAINTEXT_LEN
                },
            },
            (match self.crypto_processor {
                Some(p) => !p.encryption_enabled() || p.middle_form(data@).len()
                    <= MAX_PLAINTEXT_LEN,
                None => true,
            }) ==> r is Ok,
    {
        match &self.crypto_processor {
            Some(p) => match p.process_for_storage(data) {
                Ok(v) => Ok(v),
                Err(e) => Err(StorageError::TransformWrite(e)),
            },
            None => {
                let mut copy: Vec<u8> = Vec::new();
                copy.extend_from_slice(data.as_slice());
                proof {
                    assert(copy@ =~= data@);
                }
                Ok(copy)
            },
        }
    }

    /// Interprets a GET answer: 200 reads the body back through the
    /// transform (a failed read-back is a store failure, not a crash), 404
    /// is absence, anything else is a store failure.
    pub fn object_from_response(&self, status: u16, body: &Vec<u8>) -> (r: Result<
        Option<Vec<u8>>,
        StorageError,
    >)
        requires
            self.wf(),
        ensures
            status == 200 ==> match r {
                Ok(v) => v matches Some(b) && self.spec_retrieval(body@) == Some(b@),
                Err(e) => self.spec_retrieval(body@) is None && e matches StorageError::Transform(
                    _,
                ),
            },
            status == 404 ==> (r matches Ok(v) && v is None),
            status != 200 && status != 404 ==> r == Err::<Option<Vec<u8>>, StorageError>(
                StorageError::UnexpectedStatus(status),
            ),
    {
        if status == 200 {
            match &self.crypto_processor {
                Some(p) => match p.process_for_retrieval(body) {
                    Ok(v) => Ok(Some(v)),
                    Err(e) => Err(StorageError::Transform(e)),
                },
                None => {
                    let mut copy: Vec<u8> = Vec::new();
                    copy.extend_from_slice(body.as_slice());
                    proof {
                        assert(copy@ =~= body@);
                    }
                    Ok(Some(copy))
                },
            }
        } else if status == 404 {
            Ok(None)
        } else {
            Err(StorageError::UnexpectedStatus(status))
        }
    }

    /// Interprets a HEAD answer for an object: 200 is presence, 404 is
    /// absence, anything else is a store failure.
    pub fn presence_from_status(status: u16) -> (r: Result<bool, StorageError>)
        ensures
            r == (if status == 200 {
                Ok::<bool, StorageError>(true)
            } else if status == 404 {
                Ok::<bool, StorageError>(false)
            } else {
                Err::<bool, StorageError>(StorageError::UnexpectedStatus(status))
            }),
    {
        if status == 200 {
            Ok(true)
        } else if status == 404 {
            Ok(false)
        } else {
            Err(StorageError::UnexpectedStatus(status))
        }
    }

    /// Interprets a PUT answer: any success status stores the object.
    pub fn put_result_from_status(status: u16) -> (r: Result<(), StorageError>)
        ensures
            r == (if 200 <= status < 300 {
                Ok::<(), StorageError>(())
            } else {
                Err::<(), StorageError>(StorageError::UnexpectedStatus(status))
            }),
    {
        if 200 <= status && status < 300 {
            Ok(())
        } else {
            Err(StorageError::UnexpectedStatus(status))
        }
    }

    /// Interprets a HEAD answer for the bucket: 200 means it exists, 404
    /// that it does not, 403 that access is denied.
    pub fn bucket_presence_from_status(status: u16) -> (r: Result<bool, StorageError>)
        ensures
            r == (if status == 200 {
                Ok::<bool, StorageError>(true)
            } else if status == 404 {
                Ok::<bool, StorageError>(false)
            } else if status == 403 {
                Err::<bool, StorageError>(StorageError::AccessDenied)
            } else {
                Err::<bool, StorageError>(StorageError::UnexpectedStatus(status))
            }),
    {
        if status == 200 {
            Ok(true)
        } else if status == 404 {
            Ok(false)
        } else if status == 403 {
            Err(StorageError::AccessDenied)
        } else {
            Err(StorageError::UnexpectedStatus(status))
        }
    }

    /// Interprets the answer to the bucket-creation request: created (200,
    /// 201), or already existing (409) — a creation race — both count as
    /// success; 403 is denied access; anything else is fatal to startup.
    pub fn creation_result_from_status(status: u16) -> (r: Result<(), StorageError>)
        ensures
            r == (if status == 200 || status == 201 || status == 409 {
                Ok::<(), StorageError>(())
            } else if status == 403 {
                Err::<(), StorageError>(StorageError::AccessDenied)
            } else {
                Err::<(), StorageError>(StorageError::UnexpectedStatus(status))
            }),
    {
        if status == 200 || status == 201 || status == 409 {
            Ok(())
        } else if status == 403 {
            Err(StorageError::AccessDenied)
        } else {
            Err(StorageError::UnexpectedStatus(status))
        }
    }
}

/// What to do after probing the bucket at startup.
#[derive(Clone, Copy, Debug, PartialEq, Eq, Structural)]
pub enum ProvisionStep {
    /// The bucket exists and is accessible: the store is ready.
    Ready,
    /// The bucket is missing, or the probe failed: attempt creation.
    CreateBucket,
}

/// The provisioning decision: only a confirmed existing bucket is ready;
/// a missing bucket and a failed probe both lead to a creation attempt.
pub fn bucket_provision_step(check: &Result<bool, StorageError>) -> (r: ProvisionStep)
    ensures
        r == (match *check {
            Ok(true) => ProvisionStep::Ready,
            Ok(false) => ProvisionStep::CreateBucket,
            Err(_) => ProvisionStep::CreateBucket,
        }),
{
    match check {
        Ok(true) => ProvisionStep::Ready,
        Ok(false) => ProvisionStep::CreateBucket,
        Err(_) => ProvisionStep::CreateBucket,
    }
}

} // verus!
