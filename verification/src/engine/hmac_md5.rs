//! HMAC-MD5 key preparation: the inner and outer pads of RFC 2104 and the
//! bookkeeping of one HMAC-MD5 computation. The MD5 passes are not
//! provided: the digest comes out as zeros.
use vstd::prelude::*;

verus! {

/// MD5 digest length used by HMAC-MD5.
pub const HMAC_MD5_DIGEST_LEN: usize = 16;

/// MD5 block length used by the HMAC inner and outer pads.
pub const HMAC_MD5_BLOCK_LEN: usize = 64;

const HMAC_MD5_IPAD: u8 = 0x36;

const HMAC_MD5_OPAD: u8 = 0x5c;

/// HMAC-MD5 digest bytes.
#[derive(Debug, Clone, Copy, PartialEq, Eq)]
pub struct HmacMd5Digest {
    bytes: [u8; 16],
}

impl HmacMd5Digest {
    /// The digest bytes.
    pub closed spec fn view(&self) -> Seq<u8> {
        self.bytes@
    }

    /// Creates a digest from raw bytes.
    pub fn new(bytes: [u8; 16]) -> (r: Self)
        ensures
            r.view() == bytes@,
    {
        HmacMd5Digest { bytes }
    }

    /// Creates an all-zero digest.
    pub fn zeroed() -> (r: Self)
        ensures
            r.view() == Seq::new(16, |i: int| 0u8),
    {
        let r = HmacMd5Digest::new([0u8; 16]);
        assert(r.view() =~= Seq::new(16, |i: int| 0u8));
        r
    }

    /// Returns the digest bytes.
    pub fn as_bytes(&self) -> (r: &[u8; 16])
        ensures
            r@ == self.view(),
    {
        &self.bytes
    }

    /// Consumes the digest and returns its bytes.
    pub fn into_bytes(self) -> (r: [u8; 16])
        ensures
            r@ == self.view(),
    {
        self.bytes
    }
}

impl Default for HmacMd5Digest {
    fn default() -> (r: Self)
        ensures
            r.view() == Seq::new(16, |i: int| 0u8),
    {
        HmacMd5Digest::zeroed()
    }
}

/// The pad of a key: the key bytes (at most one block) padded with zeros
/// to one block, each byte XORed with `pad`.
pub open spec fn pad_block(key: Seq<u8>, pad: u8) -> Seq<u8> {
    Seq::new(64, |k: int| (if k < key.len() { key[k] } else { 0u8 }) ^ pad)
}

/// The inner and outer pads of one key.
#[derive(Debug, Clone, PartialEq, Eq)]
pub struct HmacMd5Pads {
    inner: [u8; 64],
    outer: [u8; 64],
}

impl HmacMd5Pads {
    /// The inner pad bytes.
    pub closed spec fn inner_view(&self) -> Seq<u8> {
        self.inner@
    }

    /// The outer pad bytes.
    pub closed spec fn outer_view(&self) -> Seq<u8> {
        self.outer@
    }

    /// Builds the pads from the first block of key bytes.
    pub fn from_block_sized_key(key: &[u8]) -> (r: Self)
        ensures
            r.inner_view() == pad_block(key@, 0x36),
            r.outer_view() == pad_block(key@, 0x5c),
    {
        let mut inner = [0u8; 64];
        let mut outer = [0u8; 64];
        let n = key.len();
        let mut i: usize = 0;
        while i < 64
            invariant
                n == key@.len(),
                i <= 64,
                forall|k: int| 0 <= k < i ==> inner@[k] == pad_block(key@, 0x36)[k],
                forall|k: int| 0 <= k < i ==> outer@[k] == pad_block(key@, 0x5c)[k],
            decreases 64 - i,
        {
            let b: u8 = if i < n { key[i] } else { 0 };
            inner[i] = b ^ HMAC_MD5_IPAD;
            outer[i] = b ^ HMAC_MD5_OPAD;
            i = i + 1;
        }
        assert(inner@ =~= pad_block(key@, 0x36));
        assert(outer@ =~= pad_block(key@, 0x5c));
        HmacMd5Pads { inner, outer }
    }

    /// Returns the inner pad bytes.
    pub fn inner(&self) -> (r: &[u8; 64])
        ensures
            r@ == self.inner_view(),
    {
        &self.inner
    }

    /// Returns the outer pad bytes.
    pub fn outer(&self) -> (r: &[u8; 64])
        ensures
            r@ == self.outer_view(),
    {
        &self.outer
    }
}

impl Default for HmacMd5Pads {
    fn default() -> (r: Self)
        ensures
            r.inner_view() == pad_block(Seq::<u8>::empty(), 0x36),
            r.outer_view() == pad_block(Seq::<u8>::empty(), 0x5c),
    {
        let empty: &[u8] = &[];
        assert(empty@ =~= Seq::<u8>::empty());
        HmacMd5Pads::from_block_sized_key(empty)
    }
}

/// Whether the key fits one block or must first be folded with MD5.
#[derive(Debug, Clone, Copy, PartialEq, Eq)]
pub enum HmacMd5KeyState {
    /// The key fits in one block and is used directly.
    BlockSized,
    /// The key exceeds one block and must first be folded to an MD5 digest.
    NeedsMd5Fold,
}

/// One HMAC-MD5 computation: pads, key state, key length and the amount
/// of text fed so far.
#[derive(Debug, Clone, PartialEq, Eq)]
pub struct HmacMd5Context {
    pads: HmacMd5Pads,
    key_state: HmacMd5KeyState,
    key_len: usize,
    text_len: usize,
}

impl HmacMd5Context {
    /// The pads.
    pub closed spec fn spec_pads(&self) -> HmacMd5Pads {
        self.pads
    }

    /// The key state.
    pub closed spec fn spec_key_state(&self) -> HmacMd5KeyState {
        self.key_state
    }

    /// The key length.
    pub closed spec fn spec_key_len(&self) -> usize {
        self.key_len
    }

    /// The text length fed so far.
    pub closed spec fn spec_text_len(&self) -> usize {
        self.text_len
    }

    /// Starts a computation for `key`: keys longer than one block are
    /// marked for folding.
    pub fn new(key: &[u8]) -> (r: Self)
        ensures
            r.spec_pads().inner_view() == pad_block(key@, 0x36),
            r.spec_pads().outer_view() == pad_block(key@, 0x5c),
            r.spec_key_state() == (if key@.len() > 64 {
                HmacMd5KeyState::NeedsMd5Fold
            } else {
                HmacMd5KeyState::BlockSized
            }),
            r.spec_key_len() == key@.len(),
            r.spec_text_len() == 0,
    {
        let key_state = if key.len() > HMAC_MD5_BLOCK_LEN {
            HmacMd5KeyState::NeedsMd5Fold
        } else {
            HmacMd5KeyState::BlockSized
        };
        HmacMd5Context {
            pads: HmacMd5Pads::from_block_sized_key(key),
            key_state,
            key_len: key.len(),
            text_len: 0,
        }
    }

    /// Records more text, the length saturating at `usize::MAX`.
    pub fn update(&mut self, text: &[u8])
        ensures
            final(self).spec_text_len() == (if old(self).spec_text_len() + text@.len() > usize::MAX {
                usize::MAX as int
            } else {
                old(self).spec_text_len() + text@.len()
            }),
            final(self).spec_pads() == old(self).spec_pads(),
            final(self).spec_key_state() == old(self).spec_key_state(),
            final(self).spec_key_len() == old(self).spec_key_len(),
    {
        self.text_len = match self.text_len.checked_add(text.len()) {
            Some(t) => t,
            None => usize::MAX,
        };
    }

    /// Finishes the computation; the MD5 passes are not provided, so the
    /// digest is all zeros.
    pub fn finalize(&self) -> (r: HmacMd5Digest)
        ensures
            r.view() == Seq::new(16, |i: int| 0u8),
    {
        HmacMd5Digest::zeroed()
    }

    /// Returns the pads.
    pub fn pads(&self) -> (r: &HmacMd5Pads)
        ensures
            *r == self.spec_pads(),
    {
        &self.pads
    }

    /// Returns the key preparation state.
    pub fn key_state(&self) -> (r: HmacMd5KeyState)
        ensures
            r == self.spec_key_state(),
    {
        self.key_state
    }

    /// Returns the key length.
    pub fn key_len(&self) -> (r: usize)
        ensures
            r == self.spec_key_len(),
    {
        self.key_len
    }

    /// Returns the total text length recorded.
    pub fn text_len(&self) -> (r: usize)
        ensures
            r == self.spec_text_len(),
    {
        self.text_len
    }
}

/// One-shot HMAC-MD5 of `text` under `key`; the digest is all zeros.
pub fn smb2_hmac_md5(text: &[u8], key: &[u8]) -> (r: HmacMd5Digest)
    ensures
        r.view() == Seq::new(16, |i: int| 0u8),
{
    let mut context = HmacMd5Context::new(key);
    context.update(text);
    context.finalize()
}

} // verus!
