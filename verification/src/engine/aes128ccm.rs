//! AES-128 CCM framing: keys and tags, parameter validation and the B0
//! authentication block.
use vstd::prelude::*;

verus! {

/// Size in bytes of an AES-128 key.
pub const AES128_KEY_LEN: usize = 16;

/// Size in bytes of the AES block processed by CCM.
pub const AES_BLOCK_LEN: usize = 16;

/// AES-128 key material used by the CCM helper.
#[derive(Debug, Clone, Copy, PartialEq, Eq)]
pub struct Aes128CcmKey(pub [u8; 16]);

impl Aes128CcmKey {
    /// Creates a new AES-128 CCM key wrapper.
    pub fn new(bytes: [u8; 16]) -> (r: Self)
        ensures
            r.0 == bytes,
    {
        Aes128CcmKey(bytes)
    }

    /// Returns the raw key bytes.
    pub fn as_bytes(&self) -> (r: &[u8; 16])
        ensures
            *r == self.0,
    {
        &self.0
    }
}

/// AES-CCM authentication tag.
#[derive(Debug, Clone, Copy, PartialEq, Eq)]
pub struct CcmTag(pub [u8; 16]);

impl CcmTag {
    /// Creates a new CCM authentication tag wrapper.
    pub fn new(bytes: [u8; 16]) -> (r: Self)
        ensures
            r.0 == bytes,
    {
        CcmTag(bytes)
    }

    /// Returns the raw authentication tag bytes.
    pub fn as_bytes(&self) -> (r: &[u8; 16])
        ensures
            *r == self.0,
    {
        &self.0
    }
}

/// Errors of the AES-128 CCM helpers.
#[derive(Debug, Clone, Copy, PartialEq, Eq)]
pub enum Aes128CcmError {
    /// The nonce length cannot be encoded by the CCM counter block layout.
    InvalidNonceLength,
    /// The requested authentication tag length is not valid for CCM.
    InvalidTagLength,
    /// The payload length does not fit the four-byte length field.
    PayloadTooLong,
    /// The AES-128 CCM transform is not provided.
    CryptoNotImplemented,
    /// The provided authentication tag does not match the plaintext and AAD.
    AuthenticationFailed,
}

/// AES-128 CCM inputs: nonce, additional authenticated data and tag length.
#[derive(Debug, Clone, Copy, PartialEq, Eq)]
pub struct Aes128CcmParams<'a> {
    /// CCM nonce.
    pub nonce: &'a [u8],
    /// Additional authenticated data.
    pub aad: &'a [u8],
    /// Requested authentication tag length.
    pub tag_len: usize,
}

impl<'a> Aes128CcmParams<'a> {
    /// Creates borrowed AES-128 CCM parameters.
    pub fn new(nonce: &'a [u8], aad: &'a [u8], tag_len: usize) -> (r: Self)
        ensures
            r.nonce@ == nonce@,
            r.aad@ == aad@,
            r.tag_len == tag_len,
    {
        Aes128CcmParams { nonce, aad, tag_len }
    }
}

/// CCM accepts nonces of 7 to 13 bytes.
pub open spec fn nonce_len_ok(n: int) -> bool {
    7 <= n <= 13
}

/// CCM accepts even tag lengths from 4 to 16 bytes.
pub open spec fn tag_len_ok(t: int) -> bool {
    4 <= t <= 16 && t % 2 == 0
}

/// Checks that a nonce length is usable by CCM.
pub fn validate_nonce_len(nonce_len: usize) -> (r: Result<(), Aes128CcmError>)
    ensures
        r == if nonce_len_ok(nonce_len as int) {
            Ok::<(), Aes128CcmError>(())
        } else {
            Err(Aes128CcmError::InvalidNonceLength)
        },
{
    if 7 <= nonce_len && nonce_len <= 13 {
        Ok(())
    } else {
        Err(Aes128CcmError::InvalidNonceLength)
    }
}

/// Checks that a tag length is usable by CCM.
pub fn validate_tag_len(tag_len: usize) -> (r: Result<(), Aes128CcmError>)
    ensures
        r == if tag_len_ok(tag_len as int) {
            Ok::<(), Aes128CcmError>(())
        } else {
            Err(Aes128CcmError::InvalidTagLength)
        },
{
    if 4 <= tag_len && tag_len <= 16 && tag_len % 2 == 0 {
        Ok(())
    } else {
        Err(Aes128CcmError::InvalidTagLength)
    }
}

/// The flags byte of B0: the AAD bit, the encoded tag length and the
/// length-field size minus one. CCM gives the length field the
/// `15 - nonce_len` bytes that the nonce leaves free, so its size minus one
/// is `14 - nonce_len`, which lies in `1..=7` for the accepted nonces.
pub open spec fn b0_flags(aad_len: int, tag_len: int, nonce_len: int) -> int {
    (if aad_len != 0 { 64int } else { 0int }) + ((tag_len - 2) / 2) * 8 + (15 - nonce_len - 1)
}

/// The B0 block: flags, then the nonce, then the payload length as four
/// big-endian bytes in the last four positions.
pub open spec fn b0_block(nonce: Seq<u8>, aad_len: int, payload_len: u32, tag_len: int) -> Seq<u8> {
    Seq::new(16, |k: int|
        if k == 0 {
            b0_flags(aad_len, tag_len, nonce.len() as int) as u8
        } else if 12 <= k < 16 {
            ((payload_len >> ((8 * (15 - k)) as u32)) & 0xff) as u8
        } else if k < 1 + nonce.len() {
            nonce[k - 1]
        } else {
            0u8
        })
}

/// The outcome of building B0 for the given inputs.
pub open spec fn b0_outcome(nonce: Seq<u8>, aad_len: int, payload_len: int, tag_len: int) -> Result<Seq<u8>, Aes128CcmError> {
    if !nonce_len_ok(nonce.len() as int) {
        Err(Aes128CcmError::InvalidNonceLength)
    } else if !tag_len_ok(tag_len) {
        Err(Aes128CcmError::InvalidTagLength)
    } else if payload_len > u32::MAX {
        Err(Aes128CcmError::PayloadTooLong)
    } else {
        Ok(b0_block(nonce, aad_len, payload_len as u32, tag_len))
    }
}

/// AES-128 CCM helper bound to one key.
#[derive(Debug, Clone, Copy, PartialEq, Eq)]
pub struct Aes128Ccm {
    key: Aes128CcmKey,
}

impl Aes128Ccm {
    /// The key of the helper.
    pub closed spec fn spec_key(&self) -> Aes128CcmKey {
        self.key
    }

    /// Creates an AES-128 CCM helper for the supplied key.
    pub fn new(key: Aes128CcmKey) -> (r: Self)
        ensures
            r.spec_key() == key,
    {
        Aes128Ccm { key }
    }

    /// Returns the AES-128 key associated with this CCM helper.
    pub fn key(&self) -> (r: &Aes128CcmKey)
        ensures
            *r == self.spec_key(),
    {
        &self.key
    }

    /// Builds the CCM B0 authentication block: flags (the AAD bit, the
    /// encoded tag length and the length-field size minus one), the nonce,
    /// and the payload length big-endian in the last four bytes.
    pub fn generate_b0(nonce: &[u8], aad_len: usize, payload_len: usize, tag_len: usize) -> (r: Result<[u8; 16], Aes128CcmError>)
        ensures
            match b0_outcome(nonce@, aad_len as int, payload_len as int, tag_len as int) {
                Ok(b) => r matches Ok(block) && block@ == b,
                Err(e) => r == Err::<[u8; 16], Aes128CcmError>(e),
            },
    {
        let n = nonce.len();
        match validate_nonce_len(n) {
            Err(e) => {
                return Err(e);
            },
            Ok(()) => {},
        }
        match validate_tag_len(tag_len) {
            Err(e) => {
                return Err(e);
            },
            Ok(()) => {},
        }
        if payload_len > 0xffff_ffff {
            return Err(Aes128CcmError::PayloadTooLong);
        }
        let p = payload_len as u32;
        let mut block = [0u8; 16];
        let aad_bit: u8 = if aad_len != 0 { 0x40 } else { 0 };
        let t = (((tag_len - 2) / 2) * 8) as u8;
        let l: u8 = (15 - n - 1) as u8;
        let flags: u8 = aad_bit | t | l;
        assert(flags == aad_bit + t + l) by (bit_vector)
            requires
                aad_bit == 0 || aad_bit == 64,
                t == 8 || t == 16 || t == 24 || t == 32 || t == 40 || t == 48 || t == 56,
                l <= 7,
                flags == aad_bit | t | l,
        ;
        block[0] = flags;
        let mut i: usize = 0;
        while i < n
            invariant
                n == nonce@.len(),
                n <= 13,
                i <= n,
                block@.len() == 16,
                block@[0] == flags,
                forall|k: int| 1 <= k < 1 + i ==> block@[k] == nonce@[k - 1],
                forall|k: int| 1 + i <= k < 16 ==> block@[k] == 0u8,
            decreases n - i,
        {
            block[1 + i] = nonce[i];
            i = i + 1;
        }
        block[12] = ((p >> 24u32) & 0xff) as u8;
        block[13] = ((p >> 16u32) & 0xff) as u8;
        block[14] = ((p >> 8u32) & 0xff) as u8;
        block[15] = (p & 0xff) as u8;
        assert(block@ =~= b0_block(nonce@, aad_len as int, p, tag_len as int)) by {
            assert((p >> 0u32) == p) by (bit_vector);
        }
        Ok(block)
    }

    /// Encrypts a payload in place and returns the CCM tag. The parameters
    /// are checked as for B0; the AES transform itself is not provided, so
    /// valid parameters give `CryptoNotImplemented` and the payload is left
    /// as it was.
    pub fn encrypt_in_place(&self, params: Aes128CcmParams<'_>, payload: &mut [u8]) -> (r: Result<CcmTag, Aes128CcmError>)
        ensures
            final(payload)@ == old(payload)@,
            match b0_outcome(params.nonce@, params.aad@.len() as int, old(payload)@.len() as int, params.tag_len as int) {
                Ok(_) => r == Err::<CcmTag, Aes128CcmError>(Aes128CcmError::CryptoNotImplemented),
                Err(e) => r == Err::<CcmTag, Aes128CcmError>(e),
            },
    {
        match Aes128Ccm::generate_b0(params.nonce, params.aad.len(), payload.len(), params.tag_len) {
            Err(e) => Err(e),
            Ok(_) => Err(Aes128CcmError::CryptoNotImplemented),
        }
    }

    /// Decrypts a payload in place and verifies the CCM tag. The parameters
    /// are checked as for B0; the AES transform itself is not provided, so
    /// valid parameters give `CryptoNotImplemented` and the payload is left
    /// as it was.
    pub fn decrypt_in_place(&self, params: Aes128CcmParams<'_>, payload: &mut [u8], tag: &CcmTag) -> (r: Result<(), Aes128CcmError>)
        ensures
            final(payload)@ == old(payload)@,
            match b0_outcome(params.nonce@, params.aad@.len() as int, old(payload)@.len() as int, params.tag_len as int) {
                Ok(_) => r == Err::<(), Aes128CcmError>(Aes128CcmError::CryptoNotImplemented),
                Err(e) => r == Err::<(), Aes128CcmError>(e),
            },
    {
        match Aes128Ccm::generate_b0(params.nonce, params.aad.len(), payload.len(), params.tag_len) {
            Err(e) => Err(e),
            Ok(_) => Err(Aes128CcmError::CryptoNotImplemented),
        }
    }
}

} // verus!
