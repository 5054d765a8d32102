//! SHA variant parameters and the HMAC digest and error values.
use vstd::prelude::*;

verus! {

/// Maximum SHA message block size of the SHA variants.
pub const USHA_MAX_MESSAGE_BLOCK_SIZE: usize = 128;

/// Maximum digest size of the SHA variants.
pub const USHA_MAX_HASH_SIZE: usize = 64;

/// SHA variant.
#[derive(Debug, Clone, Copy, PartialEq, Eq)]
pub enum ShaVersion {
    /// SHA-1.
    Sha1,
    /// SHA-224.
    Sha224,
    /// SHA-256.
    Sha256,
    /// SHA-384.
    Sha384,
    /// SHA-512.
    Sha512,
}

/// The message block size of each variant, in bytes.
pub open spec fn sha_block_size(v: ShaVersion) -> usize {
    match v {
        ShaVersion::Sha1 | ShaVersion::Sha224 | ShaVersion::Sha256 => 64,
        ShaVersion::Sha384 | ShaVersion::Sha512 => 128,
    }
}

/// The digest size of each variant, in bytes.
pub open spec fn sha_hash_size(v: ShaVersion) -> usize {
    match v {
        ShaVersion::Sha1 => 20,
        ShaVersion::Sha224 => 28,
        ShaVersion::Sha256 => 32,
        ShaVersion::Sha384 => 48,
        ShaVersion::Sha512 => 64,
    }
}

impl ShaVersion {
    /// Returns the message block size in bytes.
    pub fn block_size(self) -> (r: usize)
        ensures
            r == sha_block_size(self),
    {
        match self {
            ShaVersion::Sha1 | ShaVersion::Sha224 | ShaVersion::Sha256 => 64,
            ShaVersion::Sha384 | ShaVersion::Sha512 => 128,
        }
    }

    /// Returns the digest size in bytes.
    pub fn hash_size(self) -> (r: usize)
        ensures
            r == sha_hash_size(self),
    {
        match self {
            ShaVersion::Sha1 => 20,
            ShaVersion::Sha224 => 28,
            ShaVersion::Sha256 => 32,
            ShaVersion::Sha384 => 48,
            ShaVersion::Sha512 => 64,
        }
    }

    /// Returns the digest size in bits.
    pub fn hash_size_bits(self) -> (r: usize)
        ensures
            r == sha_hash_size(self) * 8,
    {
        self.hash_size() * 8
    }
}

/// Every digest fits the largest digest size and every block the largest
/// block size.
pub proof fn lemma_sha_sizes(v: ShaVersion)
    ensures
        sha_hash_size(v) <= USHA_MAX_HASH_SIZE,
        sha_block_size(v) <= USHA_MAX_MESSAGE_BLOCK_SIZE,
        sha_hash_size(v) <= sha_block_size(v),
{
}

/// Error values of the SHA and HMAC operations.
#[derive(Debug, Clone, Copy, PartialEq, Eq)]
pub enum HmacError {
    /// A missing argument.
    Null,
    /// The input stream is too long for the selected SHA variant.
    InputTooLong,
    /// The operation was called after finalization.
    State,
    /// A parameter is outside the accepted range.
    BadParam,
}

/// Result type of the HMAC operations.
pub type HmacResult<T> = Result<T, HmacError>;

/// HMAC output bytes.
#[derive(Debug, Clone, PartialEq, Eq)]
pub struct HmacDigest(pub Vec<u8>);

impl HmacDigest {
    /// Creates an all-zero digest sized for the selected SHA variant.
    pub fn zeroed(which_sha: ShaVersion) -> (r: Self)
        ensures
            r.0@ == Seq::new(sha_hash_size(which_sha) as nat, |i: int| 0u8),
    {
        let n = which_sha.hash_size();
        let mut v: Vec<u8> = Vec::new();
        let mut i: usize = 0;
        while i < n
            invariant
                i <= n,
                v@ == Seq::new(i as nat, |k: int| 0u8),
            decreases n - i,
        {
            v.push(0);
            i = i + 1;
            assert(v@ =~= Seq::new(i as nat, |k: int| 0u8));
        }
        HmacDigest(v)
    }

    /// Returns the digest bytes.
    pub fn as_bytes(&self) -> (r: &[u8])
        ensures
            r@ == self.0@,
    {
        self.0.as_slice()
    }
}

} // verus!
