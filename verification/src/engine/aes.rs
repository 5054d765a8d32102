//! AES-128 block and key values and the backend dispatcher of single-block
//! ECB encryption. Neither backend provides the cipher: both report
//! `BackendNotImplemented`.
use vstd::prelude::*;

verus! {

/// AES-128 key size in bytes.
pub const AES128_KEY_LEN: usize = 16;

/// AES block size in bytes.
pub const AES128_BLOCK_LEN: usize = 16;

/// AES-128 block.
#[derive(Debug, Clone, Copy, PartialEq, Eq)]
pub struct AesBlock(pub [u8; 16]);

impl AesBlock {
    /// Creates an AES block from raw bytes.
    pub fn new(bytes: [u8; 16]) -> (r: Self)
        ensures
            r.0 == bytes,
    {
        AesBlock(bytes)
    }

    /// Returns the block as raw bytes.
    pub fn as_bytes(&self) -> (r: &[u8; 16])
        ensures
            *r == self.0,
    {
        &self.0
    }

    /// Consumes the block and returns its raw bytes.
    pub fn into_bytes(self) -> (r: [u8; 16])
        ensures
            r == self.0,
    {
        self.0
    }
}

/// AES-128 key material.
#[derive(Debug, Clone, Copy, PartialEq, Eq)]
pub struct Aes128Key(pub [u8; 16]);

impl Aes128Key {
    /// Creates AES-128 key material from raw bytes.
    pub fn new(bytes: [u8; 16]) -> (r: Self)
        ensures
            r.0 == bytes,
    {
        Aes128Key(bytes)
    }

    /// Returns the key as raw bytes.
    pub fn as_bytes(&self) -> (r: &[u8; 16])
        ensures
            *r == self.0,
    {
        &self.0
    }

    /// Consumes the key and returns its raw bytes.
    pub fn into_bytes(self) -> (r: [u8; 16])
        ensures
            r == self.0,
    {
        self.0
    }
}

/// AES backend.
#[derive(Debug, Clone, Copy, PartialEq, Eq)]
pub enum AesBackend {
    /// Apple CommonCrypto backend.
    Apple,
    /// Portable reference backend.
    Reference,
}

impl AesBackend {
    /// The backend of a build target: the Apple one on Apple targets, the
    /// reference one elsewhere.
    pub fn for_target(apple_target: bool) -> (r: Self)
        ensures
            r == (if apple_target {
                AesBackend::Apple
            } else {
                AesBackend::Reference
            }),
    {
        if apple_target {
            AesBackend::Apple
        } else {
            AesBackend::Reference
        }
    }
}

/// Errors of the AES dispatcher.
#[derive(Debug, Clone, Copy, PartialEq, Eq)]
pub enum AesError {
    /// The selected backend does not provide the cipher.
    BackendNotImplemented(AesBackend),
}

impl AesError {
    /// Returns the human-readable description of the error.
    pub fn message(&self) -> (r: &'static str)
        ensures
            r@ == match self {
                AesError::BackendNotImplemented(AesBackend::Apple) => "AES backend Apple is not implemented"@,
                AesError::BackendNotImplemented(AesBackend::Reference) => "AES backend Reference is not implemented"@,
            },
    {
        match self {
            AesError::BackendNotImplemented(AesBackend::Apple) => "AES backend Apple is not implemented",
            AesError::BackendNotImplemented(AesBackend::Reference) => "AES backend Reference is not implemented",
        }
    }
}

/// AES-128 ECB encryptor: a key and a backend.
#[derive(Debug, Clone, Copy, PartialEq, Eq)]
pub struct Aes128Ecb {
    key: Aes128Key,
    backend: AesBackend,
}

impl Aes128Ecb {
    /// The encryptor's key.
    pub closed spec fn spec_key(&self) -> Aes128Key {
        self.key
    }

    /// The encryptor's backend.
    pub closed spec fn spec_backend(&self) -> AesBackend {
        self.backend
    }

    /// Creates an AES-128 ECB encryptor with an explicit backend.
    pub fn new(key: Aes128Key, backend: AesBackend) -> (r: Self)
        ensures
            r.spec_key() == key,
            r.spec_backend() == backend,
    {
        Aes128Ecb { key, backend }
    }

    /// Returns the configured AES-128 key material.
    pub fn key(&self) -> (r: Aes128Key)
        ensures
            r == self.spec_key(),
    {
        self.key
    }

    /// Returns the configured backend.
    pub fn backend(&self) -> (r: AesBackend)
        ensures
            r == self.spec_backend(),
    {
        self.backend
    }

    /// Encrypts one block with the configured backend.
    pub fn encrypt_block(&self, input: AesBlock) -> (r: Result<AesBlock, AesError>)
        ensures
            r == Err::<AesBlock, AesError>(AesError::BackendNotImplemented(self.spec_backend())),
    {
        aes128_ecb_encrypt_with_backend(input, self.key, self.backend)
    }
}

/// Encrypts one block with the given backend.
pub fn aes128_ecb_encrypt_with_backend(input: AesBlock, key: Aes128Key, backend: AesBackend) -> (r: Result<AesBlock, AesError>)
    ensures
        r == Err::<AesBlock, AesError>(AesError::BackendNotImplemented(backend)),
{
    match backend {
        AesBackend::Apple => aes128_ecb_encrypt_apple(input, key),
        AesBackend::Reference => aes128_ecb_encrypt_reference(input, key),
    }
}

fn aes128_ecb_encrypt_apple(_input: AesBlock, _key: Aes128Key) -> (r: Result<AesBlock, AesError>)
    ensures
        r == Err::<AesBlock, AesError>(AesError::BackendNotImplemented(AesBackend::Apple)),
{
    Err(AesError::BackendNotImplemented(AesBackend::Apple))
}

fn aes128_ecb_encrypt_reference(_input: AesBlock, _key: Aes128Key) -> (r: Result<AesBlock, AesError>)
    ensures
        r == Err::<AesBlock, AesError>(AesError::BackendNotImplemented(AesBackend::Reference)),
{
    Err(AesError::BackendNotImplemented(AesBackend::Reference))
}

} // verus!
