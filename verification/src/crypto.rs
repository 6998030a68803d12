//! The at-rest transform pipeline: optional compression followed by optional
//! authenticated encryption on the way into durable storage, and the exact
//! inverse order on the way out.
//!
//! The stored layout when encryption is enabled is `nonce (12 bytes) ||
//! ciphertext+tag`; compression, when enabled, is applied before encryption
//! and reversed after decryption.

use crate::config::{CompressionConfig, EncryptionConfig};
use crate::text::str_equal;
use aes_gcm::aead::Aead;
use aes_gcm::KeyInit;
use base64::Engine;
use std::io::{Read, Write};
use vstd::prelude::*;
use vstd::slice::{slice_subrange, slice_to_vec};

verus! {

/// How a transform construction or a single transform operation fails.
#[derive(Clone, Copy, Debug, PartialEq, Eq, Structural)]
pub enum CryptoError {
    /// Encryption is enabled but no key was supplied.
    MissingKey,
    /// The supplied key is not valid base64.
    KeyNotBase64,
    /// The decoded key is not exactly 32 bytes.
    BadKeyLength,
    /// An algorithm name other than the supported ones was configured.
    UnsupportedAlgorithm,
    /// A compression effort level outside gzip's 0..=9 scale was configured.
    InvalidCompressionLevel,
    /// The plaintext exceeds the AES-GCM length bound.
    PayloadTooLarge,
    /// The payload is shorter than the 12-byte nonce prefix.
    CiphertextTooShort,
    /// The authentication tag did not verify: tampered data, a wrong key,
    /// or a corrupt nonce region.
    AuthenticationFailure,
    /// The compressed stream cannot be decoded.
    CorruptCompressedData,
}

/// What gzip compression at a given effort level yields on a byte stream.
/// The flate2 encoder writes a reproducible header (zero timestamp, fixed
/// operating-system byte), so the stream is a deterministic function of the
/// bytes and the level alone.
pub uninterp spec fn gzip_of(data: Seq<u8>, level: u32) -> Seq<u8>;

/// What gzip decompression yields on a byte stream: the decoded bytes, or
/// nothing when the stream is not a valid gzip stream. Decompression is a
/// deterministic function of the stream alone.
pub uninterp spec fn gunzip_of(data: Seq<u8>) -> Option<Seq<u8>>;

/// What AES-256-GCM decryption yields for a key, a nonce and a
/// ciphertext-with-tag: the plaintext, or nothing when the tag does not
/// verify. Decryption is a deterministic function of these three alone.
pub uninterp spec fn aes_gcm_plaintext_of(key: Seq<u8>, nonce: Seq<u8>, data: Seq<u8>) -> Option<
    Seq<u8>,
>;

/// What standard-alphabet base64 decoding yields on a string: the decoded
/// bytes, or nothing when the string is not valid base64.
pub uninterp spec fn b64_decode_of(s: Seq<char>) -> Option<Seq<u8>>;

/// The aes_gcm crate's error type, carried through unread.
#[verifier::external_type_specification]
#[verifier::external_body]
pub struct ExAesGcmError(aes_gcm::Error);

/// The base64 crate's decode error, carried through unread.
#[verifier::external_type_specification]
#[verifier::external_body]
pub struct ExBase64DecodeError(base64::DecodeError);

/// std's I/O error, carried through unread.
#[verifier::external_type_specification]
#[verifier::external_body]
pub struct ExIoError(std::io::Error);

/// Relies on flate2's `write::GzEncoder` and `GzEncoder::finish`: gzip
/// compression of the input at the given effort level, a deterministic
/// function of the two (the header carries no timestamp and a fixed
/// operating-system byte). Decompressing the produced stream yields the
/// input again; writing into a `Vec` cannot fail. Levels above gzip's scale
/// are excluded: the backend asserts on them in debug builds.
#[verifier::external_body]
fn gzip_compress(data: &Vec<u8>, level: u32) -> (r: Vec<u8>)
    requires
        level <= 9,
    ensures
        r@ == gzip_of(data@, level),
        gunzip_of(r@) == Some(data@),
{
    let mut encoder = flate2::write::GzEncoder::new(Vec::new(), flate2::Compression::new(level));
    encoder.write_all(data.as_slice()).expect("a Vec accepts all writes");
    encoder.finish().expect("a Vec accepts all writes")
}

/// Relies on flate2's `read::GzDecoder`: gzip decompression, a deterministic
/// function of the byte stream, failing exactly on streams that are not
/// valid gzip.
#[verifier::external_body]
fn gzip_decompress(data: &Vec<u8>) -> (r: Result<Vec<u8>, std::io::Error>)
    ensures
        match r {
            Ok(v) => gunzip_of(data@) == Some(v@),
            Err(_) => gunzip_of(data@) is None,
        },
{
    let mut decoder = flate2::read::GzDecoder::new(data.as_slice());
    let mut out = Vec::new();
    match decoder.read_to_end(&mut out) {
        Ok(_) => Ok(out),
        Err(e) => Err(e),
    }
}

/// Relies on aes_gcm's `Aes256Gcm::new_from_slice` and `Aead::encrypt`:
/// encryption appends a 16-byte authentication tag, fails exactly when the
/// plaintext exceeds the AES-GCM length bound `P_MAX` (2^36 bytes), and
/// decrypting the result under the same key and nonce yields the plaintext.
#[verifier::external_body]
fn aes256gcm_encrypt(key: &Vec<u8>, nonce: &Vec<u8>, data: &Vec<u8>) -> (r: Result<
    Vec<u8>,
    aes_gcm::Error,
>)
    requires
        key@.len() == 32,
        nonce@.len() == 12,
    ensures
        match r {
            Ok(v) => data@.len() <= 0x10_0000_0000 && v@.len() == data@.len() + 16
                && aes_gcm_plaintext_of(key@, nonce@, v@) == Some(data@),
            Err(_) => data@.len() > 0x10_0000_0000,
        },
{
    let cipher = aes_gcm::Aes256Gcm::new_from_slice(key.as_slice())
        .expect("the key is exactly 32 bytes");
    cipher.encrypt(aes_gcm::Nonce::from_slice(nonce.as_slice()), data.as_slice())
}

/// Relies on aes_gcm's `Aes256Gcm::new_from_slice` and `Aead::decrypt`:
/// decryption is a deterministic function of key, nonce and
/// ciphertext-with-tag, failing exactly when the tag does not verify.
#[verifier::external_body]
fn aes256gcm_decrypt(key: &Vec<u8>, nonce: &Vec<u8>, data: &Vec<u8>) -> (r: Result<
    Vec<u8>,
    aes_gcm::Error,
>)
    requires
        key@.len() == 32,
        nonce@.len() == 12,
    ensures
        match r {
            Ok(v) => aes_gcm_plaintext_of(key@, nonce@, data@) == Some(v@),
            Err(_) => aes_gcm_plaintext_of(key@, nonce@, data@) is None,
        },
{
    let cipher = aes_gcm::Aes256Gcm::new_from_slice(key.as_slice())
        .expect("the key is exactly 32 bytes");
    cipher.decrypt(aes_gcm::Nonce::from_slice(nonce.as_slice()), data.as_slice())
}

/// Relies on base64's standard-alphabet `Engine::decode`: a deterministic
/// function of the string, failing exactly on strings that are not valid
/// base64.
#[verifier::external_body]
fn b64_decode(s: &str) -> (r: Result<Vec<u8>, base64::DecodeError>)
    ensures
        match r {
            Ok(v) => b64_decode_of(s@) == Some(v@),
            Err(_) => b64_decode_of(s@) is None,
        },
{
    base64::engine::general_purpose::STANDARD.decode(s)
}

/// Relies on base64's standard-alphabet `Engine::encode`: decoding the
/// produced string yields the input bytes again, and the padded output has
/// four characters for every three input bytes, rounded up.
#[verifier::external_body]
fn b64_encode(data: &Vec<u8>) -> (r: String)
    ensures
        b64_decode_of(r@) == Some(data@),
        r@.len() == 4 * ((data@.len() + 2) / 3),
{
    base64::engine::general_purpose::STANDARD.encode(data.as_slice())
}

/// Relies on rand's `OsRng` (`RngCore::fill_bytes`): fills a fresh buffer
/// with bytes from the operating system's randomness. Nothing is promised
/// of the values beyond the length.
#[verifier::external_body]
fn random_bytes(n: usize) -> (r: Vec<u8>)
    ensures
        r@.len() == n,
{
    let mut buf = vec![0u8; n];
    rand::RngCore::fill_bytes(&mut rand::rngs::OsRng, &mut buf);
    buf
}

/// The length of the nonce prefix on encrypted payloads, in bytes.
pub const NONCE_LEN: usize = 12;

/// The largest plaintext AES-GCM accepts, in bytes.
pub const MAX_PLAINTEXT_LEN: u64 = 0x10_0000_0000;

/// The encryption stage accepts this configuration: when enabled, the
/// algorithm is the supported one and the key decodes to exactly 32 bytes.
pub open spec fn encryption_config_valid(c: EncryptionConfig) -> bool {
    c.enabled ==> {
        &&& c.algorithm@ == "AES-256-GCM"@
        &&& c.key matches Some(ks)
        &&& b64_decode_of(ks@) matches Some(k)
        &&& k.len() == 32
    }
}

/// The compression stage accepts this configuration: when enabled, the
/// algorithm is the supported one and the level is on gzip's 0..=9 scale.
pub open spec fn compression_config_valid(c: CompressionConfig) -> bool {
    c.enabled ==> c.algorithm@ == "gzip"@ && c.level <= 9
}

/// The configuration error `CryptoProcessor::new` reports, or `None` when
/// the configuration is accepted. Checks run in a fixed order: compression
/// algorithm, compression level, encryption algorithm, key presence, key
/// decoding, key length.
pub open spec fn construction_error(ec: EncryptionConfig, cc: CompressionConfig) -> Option<
    CryptoError,
> {
    if cc.enabled && cc.algorithm@ != "gzip"@ {
        Some(CryptoError::UnsupportedAlgorithm)
    } else if cc.enabled && cc.level > 9 {
        Some(CryptoError::InvalidCompressionLevel)
    } else if ec.enabled && ec.algorithm@ != "AES-256-GCM"@ {
        Some(CryptoError::UnsupportedAlgorithm)
    } else if ec.enabled && ec.key is None {
        Some(CryptoError::MissingKey)
    } else if ec.enabled && b64_decode_of(ec.key->Some_0@) is None {
        Some(CryptoError::KeyNotBase64)
    } else if ec.enabled && b64_decode_of(ec.key->Some_0@)->Some_0.len() != 32 {
        Some(CryptoError::BadKeyLength)
    } else {
        None
    }
}

/// The reversible transform applied to objects crossing into durable
/// storage: compression then encryption on write, the inverse on read.
pub struct CryptoProcessor {
    pub encryption_config: EncryptionConfig,
    pub compression_config: CompressionConfig,
    pub encryption_key: Option<Vec<u8>>,
}

impl CryptoProcessor {
    /// The decoded 32-byte key is held exactly when encryption is enabled,
    /// and the enabled stages name supported algorithms.
    pub open spec fn wf(self) -> bool {
        &&& encryption_config_valid(self.encryption_config)
        &&& compression_config_valid(self.compression_config)
        &&& self.encryption_config.enabled <==> self.encryption_key is Some
        &&& self.encryption_config.enabled ==> {
            &&& self.encryption_key->Some_0@.len() == 32
            &&& b64_decode_of(self.encryption_config.key->Some_0@) == Some(
                self.encryption_key->Some_0@,
            )
        }
    }

    /// Whether the encryption stage runs.
    pub open spec fn encryption_enabled(self) -> bool {
        self.encryption_config.enabled
    }

    /// Whether the compression stage runs.
    pub open spec fn compression_enabled(self) -> bool {
        self.compression_config.enabled
    }

    /// The 32-byte encryption key, when encryption is enabled.
    pub open spec fn key_bytes(self) -> Seq<u8> {
        self.encryption_key->Some_0@
    }

    /// What reading a stored payload yields: decryption (when enabled) of
    /// the `nonce || ciphertext` layout, then decompression (when enabled);
    /// `None` when either stage rejects the bytes.
    pub open spec fn retrieval_of(self, data: Seq<u8>) -> Option<Seq<u8>> {
        let decrypted = if self.encryption_enabled() {
            if data.len() >= NONCE_LEN {
                aes_gcm_plaintext_of(
                    self.key_bytes(),
                    data.take(NONCE_LEN as int),
                    data.skip(NONCE_LEN as int),
                )
            } else {
                None
            }
        } else {
            Some(data)
        };
        match decrypted {
            Some(d) => if self.compression_enabled() {
                gunzip_of(d)
            } else {
                Some(d)
            },
            None => None,
        }
    }

    /// A stored payload has the shape the storage transform produces for
    /// `plain`: the middle form is the gzip stream of `plain` at the
    /// configured level when compression is enabled and `plain` itself
    /// otherwise; when encryption is enabled it is wrapped as
    /// `nonce || ciphertext`, 12 + 16 bytes longer than the middle form.
    pub open spec fn storage_shape(self, plain: Seq<u8>, stored: Seq<u8>) -> bool {
        exists|mid: Seq<u8>|
            {
                &&& if self.compression_enabled() {
                    mid == gzip_of(plain, self.compression_config.level) && gunzip_of(mid) == Some(
                        plain,
                    )
                } else {
                    mid == plain
                }
                &&& if self.encryption_enabled() {
                    stored.len() == mid.len() + NONCE_LEN + 16 && aes_gcm_plaintext_of(
                        self.key_bytes(),
                        stored.take(NONCE_LEN as int),
                        stored.skip(NONCE_LEN as int),
                    ) == Some(mid)
                } else {
                    stored == mid
                }
            }
    }

    /// Builds the pipeline from the two stage configurations, decoding and
    /// checking the key. An unsupported algorithm name, a missing key, a key
    /// that is not base64 or not 32 bytes are configuration errors here, at
    /// construction, never at transform time.
    pub fn new(encryption_config: EncryptionConfig, compression_config: CompressionConfig) -> (r:
        Result<Self, CryptoError>)
        ensures
            match r {
                Ok(p) => {
                    &&& construction_error(encryption_config, compression_config) is None
                    &&& p.wf()
                    &&& p.encryption_config == encryption_config
                    &&& p.compression_config == compression_config
                },
                Err(e) => construction_error(encryption_config, compression_config) == Some(e),
            },
    {
        if compression_config.enabled && !str_equal(
            compression_config.algorithm.as_str(),
            "gzip",
        ) {
            return Err(CryptoError::UnsupportedAlgorithm);
        }
        if compression_config.enabled && compression_config.level > 9 {
            return Err(CryptoError::InvalidCompressionLevel);
        }
        let encryption_key: Option<Vec<u8>> = if encryption_config.enabled {
            if !str_equal(encryption_config.algorithm.as_str(), "AES-256-GCM") {
                return Err(CryptoError::UnsupportedAlgorithm);
            }
            match &encryption_config.key {
                None => {
                    return Err(CryptoError::MissingKey);
                },
                Some(key_str) => {
                    match b64_decode(key_str.as_str()) {
                        Err(_) => {
                            return Err(CryptoError::KeyNotBase64);
                        },
                        Ok(key_bytes) => {
                            if key_bytes.len() != 32 {
                                return Err(CryptoError::BadKeyLength);
                            }
                            Some(key_bytes)
                        },
                    }
                },
            }
        } else {
            None
        };
        Ok(CryptoProcessor { encryption_config, compression_config, encryption_key })
    }

    /// The configured compression effort level.
    pub open spec fn spec_compression_level(&self) -> u32 {
        self.compression_config.level
    }

    /// The configured compression effort level.
    #[verifier::when_used_as_spec(spec_compression_level)]
    pub fn compression_level(&self) -> (r: u32)
        ensures
            r == self.spec_compression_level(),
    {
        self.compression_config.level
    }

    /// Compresses with gzip at the configured level.
    fn compress(&self, data: &Vec<u8>) -> (r: Vec<u8>)
        requires
            self.wf(),
            self.compression_enabled(),
        ensures
            r@ == gzip_of(data@, self.compression_config.level),
            gunzip_of(r@) == Some(data@),
    {
        gzip_compress(data, self.compression_config.level)
    }

    /// Reverses the compression stage.
    fn decompress(&self, data: &Vec<u8>) -> (r: Result<Vec<u8>, CryptoError>)
        requires
            self.compression_enabled(),
        ensures
            match r {
                Ok(v) => gunzip_of(data@) == Some(v@),
                Err(e) => gunzip_of(data@) is None && e == CryptoError::CorruptCompressedData,
            },
    {
        match gzip_decompress(data) {
            Ok(v) => Ok(v),
            Err(_) => Err(CryptoError::CorruptCompressedData),
        }
    }

    /// Encrypts under a fresh random 12-byte nonce and prepends the nonce.
    fn encrypt(&self, data: &Vec<u8>) -> (r: Result<Vec<u8>, CryptoError>)
        requires
            self.wf(),
            self.encryption_enabled(),
        ensures
            match r {
                Ok(v) => {
                    &&& v@.len() == data@.len() + 28
                    &&& aes_gcm_plaintext_of(
                        self.key_bytes(),
                        v@.take(NONCE_LEN as int),
                        v@.skip(NONCE_LEN as int),
                    ) == Some(data@)
                },
                Err(e) => data@.len() > MAX_PLAINTEXT_LEN && e == CryptoError::PayloadTooLarge,
            },
    {
        let nonce = random_bytes(NONCE_LEN);
        let key = self.encryption_key.as_ref().unwrap();
        match aes256gcm_encrypt(key, &nonce, data) {
            Ok(mut ciphertext) => {
                let ghost ct = ciphertext@;
                let mut out = nonce;
                out.append(&mut ciphertext);
                proof {
                    assert(out@.take(NONCE_LEN as int) =~= nonce@);
                    assert(out@.skip(NONCE_LEN as int) =~= ct);
                }
                Ok(out)
            },
            Err(_) => Err(CryptoError::PayloadTooLarge),
        }
    }

    /// Splits off the nonce prefix and decrypts the rest.
    fn decrypt(&self, data: &Vec<u8>) -> (r: Result<Vec<u8>, CryptoError>)
        requires
            self.wf(),
            self.encryption_enabled(),
        ensures
            match r {
                Ok(v) => data@.len() >= NONCE_LEN && aes_gcm_plaintext_of(
                    self.key_bytes(),
                    data@.take(NONCE_LEN as int),
                    data@.skip(NONCE_LEN as int),
                ) == Some(v@),
                Err(e) => {
                    ||| data@.len() < NONCE_LEN && e == CryptoError::CiphertextTooShort
                    ||| data@.len() >= NONCE_LEN && aes_gcm_plaintext_of(
                        self.key_bytes(),
                        data@.take(NONCE_LEN as int),
                        data@.skip(NONCE_LEN as int),
                    ) is None && e == CryptoError::AuthenticationFailure
                },
            },
    {
        if data.len() < NONCE_LEN {
            return Err(CryptoError::CiphertextTooShort);
        }
        let key = self.encryption_key.as_ref().unwrap();
        let nonce = slice_to_vec(slice_subrange(data.as_slice(), 0, NONCE_LEN));
        let ciphertext = slice_to_vec(slice_subrange(data.as_slice(), NONCE_LEN, data.len()));
        match aes256gcm_decrypt(key, &nonce, &ciphertext) {
            Ok(v) => Ok(v),
            Err(_) => Err(CryptoError::AuthenticationFailure),
        }
    }

    /// What the encryption stage is asked to seal: the gzip stream of the
    /// input when compression is enabled, the input itself otherwise.
    pub open spec fn middle_form(self, data: Seq<u8>) -> Seq<u8> {
        if self.compression_enabled() {
            gzip_of(data, self.compression_config.level)
        } else {
            data
        }
    }

    /// The transform applied on the way into storage: compression first when
    /// enabled, then encryption when enabled. The result reads back to the
    /// input (see `retrieval_of`); with both stages off it is the input
    /// verbatim. It fails exactly when encryption is enabled and the middle
    /// form exceeds the AES-GCM length bound.
    pub fn process_for_storage(&self, data: &Vec<u8>) -> (r: Result<Vec<u8>, CryptoError>)
        requires
            self.wf(),
        ensures
            match r {
                Ok(v) => {
                    &&& self.storage_shape(data@, v@)
                    &&& self.retrieval_of(v@) == Some(data@)
                    &&& !self.encryption_enabled() && !self.compression_enabled() ==> v@ == data@
                },
                Err(e) => {
                    &&& self.encryption_enabled()
                    &&& e == CryptoError::PayloadTooLarge
                    &&& self.middle_form(data@).len() > MAX_PLAINTEXT_LEN
                },
            },
            (!self.encryption_enabled() || self.middle_form(data@).len() <= MAX_PLAINTEXT_LEN)
                ==> r is Ok,
    {
        let mid: Vec<u8> = if self.compression_config.enabled {
            self.compress(data)
        } else {
            let mut copy: Vec<u8> = Vec::new();
            copy.extend_from_slice(data.as_slice());
            proof {
                assert(copy@ =~= data@);
            }
            copy
        };
        proof {
            assert(mid@ == self.middle_form(data@));
        }
        if self.encryption_config.enabled {
            match self.encrypt(&mid) {
                Ok(v) => {
                    proof {
                        let m = mid@;
                        assert(self.storage_shape(data@, v@)) by {
                            assert(if self.compression_enabled() {
                                m == gzip_of(data@, self.compression_config.level) && gunzip_of(m)
                                    == Some(data@)
                            } else {
                                m == data@
                            });
                            assert(v@.len() == m.len() + NONCE_LEN + 16);
                        }
                        lemma_shape_reads_back(*self, data@, v@);
                    }
                    Ok(v)
                },
                Err(e) => Err(e),
            }
        } else {
            proof {
                let m = mid@;
                assert(self.storage_shape(data@, mid@)) by {
                    assert(if self.compression_enabled() {
                        m == gzip_of(data@, self.compression_config.level) && gunzip_of(m) == Some(
                            data@,
                        )
                    } else {
                        m == data@
                    });
                }
                lemma_shape_reads_back(*self, data@, mid@);
            }
            Ok(mid)
        }
    }

    /// The transform applied on the way out of storage: decryption first
    /// when enabled, then decompression when enabled — the exact inverse
    /// order of `process_for_storage`. Returns exactly what `retrieval_of`
    /// names, and fails exactly when it names nothing, with the exact
    /// error: a payload shorter than the nonce, then a failed
    /// authentication, then a corrupt compressed stream.
    pub fn process_for_retrieval(&self, data: &Vec<u8>) -> (r: Result<Vec<u8>, CryptoError>)
        requires
            self.wf(),
        ensures
            match r {
                Ok(v) => self.retrieval_of(data@) == Some(v@),
                Err(e) => {
                    &&& self.retrieval_of(data@) is None
                    &&& e == (if self.encryption_enabled() && data@.len() < NONCE_LEN {
                        CryptoError::CiphertextTooShort
                    } else if self.encryption_enabled() && aes_gcm_plaintext_of(
                        self.key_bytes(),
                        data@.take(NONCE_LEN as int),
                        data@.skip(NONCE_LEN as int),
                    ) is None {
                        CryptoError::AuthenticationFailure
                    } else {
                        CryptoError::CorruptCompressedData
                    })
                },
            },
    {
        let mid: Vec<u8> = if self.encryption_config.enabled {
            match self.decrypt(data) {
                Ok(v) => v,
                Err(e) => {
                    return Err(e);
                },
            }
        } else {
            let mut copy: Vec<u8> = Vec::new();
            copy.extend_from_slice(data.as_slice());
            proof {
                assert(copy@ =~= data@);
            }
            copy
        };
        if self.compression_config.enabled {
            self.decompress(&mid)
        } else {
            Ok(mid)
        }
    }
}

/// Round-trip law: any payload of the shape the storage transform produces
/// for `plain` reads back to `plain` exactly — for every configuration of
/// the two stages, including empty input.
pub proof fn lemma_shape_reads_back(p: CryptoProcessor, plain: Seq<u8>, stored: Seq<u8>)
    requires
        p.wf(),
        p.storage_shape(plain, stored),
    ensures
        p.retrieval_of(stored) == Some(plain),
{
    let mid = choose|mid: Seq<u8>|
        {
            &&& if p.compression_enabled() {
                mid == gzip_of(plain, p.compression_config.level) && gunzip_of(mid) == Some(plain)
            } else {
                mid == plain
            }
            &&& if p.encryption_enabled() {
                stored.len() == mid.len() + NONCE_LEN + 16 && aes_gcm_plaintext_of(
                    p.key_bytes(),
                    stored.take(NONCE_LEN as int),
                    stored.skip(NONCE_LEN as int),
                ) == Some(mid)
            } else {
                stored == mid
            }
        };
    assert(p.retrieval_of(stored) == Some(plain));
}

/// Draws a fresh 32-byte key from the operating system's randomness and
/// returns it base64-encoded: 44 characters that always decode to a
/// 32-byte key, so the result is accepted by `CryptoProcessor::new` with
/// encryption enabled.
pub fn generate_encryption_key() -> (r: String)
    ensures
        b64_decode_of(r@) matches Some(k) && k.len() == 32,
        r@.len() == 44,
{
    let key = random_bytes(32);
    b64_encode(&key)
}

} // verus!
