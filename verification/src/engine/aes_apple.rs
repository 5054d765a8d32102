//! The Apple AES-128 ECB adapter shape: one block and one key in, one block
//! out. Without a CommonCrypto binding it uses the reference backend.
use vstd::prelude::*;

use crate::engine::aes_reference::aes128_ecb_encrypt_reference;

verus! {

/// AES-128 key length accepted by the adapter.
pub const AES128_KEY_LEN: usize = 16;

/// AES-128 block size processed by the adapter.
pub const AES128_BLOCK_SIZE: usize = 16;

/// Fixed-size AES-128 key.
pub type Aes128Key = [u8; 16];

/// Fixed-size AES-128 block.
pub type Aes128Block = [u8; 16];

/// Result of one AES-128 ECB encryption through the adapter.
#[derive(Debug, Clone, Copy, PartialEq, Eq)]
pub struct Aes128EcbEncryption {
    /// Input block.
    pub input: [u8; 16],
    /// Key material.
    pub key: [u8; 16],
    /// Encrypted output block.
    pub output: [u8; 16],
    /// Whether a native CommonCrypto backend produced the output.
    pub backend_available: bool,
}

impl Aes128EcbEncryption {
    /// Encrypts `input` under `key` with the reference backend.
    pub fn new(input: [u8; 16], key: [u8; 16]) -> (r: Self)
        ensures
            r.input == input,
            r.key == key,
            r.output == input,
            !r.backend_available,
    {
        let output = aes128_ecb_encrypt_reference(input, key);
        Aes128EcbEncryption { input, key, output, backend_available: false }
    }

    /// Returns the encrypted block.
    pub fn output(&self) -> (r: [u8; 16])
        ensures
            r == self.output,
    {
        self.output
    }
}

/// The Apple AES-128 ECB adapter.
#[derive(Debug, Clone, Copy, Default, PartialEq, Eq)]
pub struct AppleAes128Ecb;

impl AppleAes128Ecb {
    /// Creates the adapter.
    pub fn new() -> (r: Self)
        ensures
            r == AppleAes128Ecb,
    {
        AppleAes128Ecb
    }

    /// Encrypts one block with one key.
    pub fn encrypt_block(&self, input: [u8; 16], key: [u8; 16]) -> (r: Aes128EcbEncryption)
        ensures
            r.input == input,
            r.key == key,
            r.output == input,
            !r.backend_available,
    {
        Aes128EcbEncryption::new(input, key)
    }
}

/// Encrypts one block with one key through the adapter.
pub fn aes128_ecb_encrypt_apple(input: [u8; 16], key: [u8; 16]) -> (r: [u8; 16])
    ensures
        r == input,
{
    AppleAes128Ecb::new().encrypt_block(input, key).output()
}

} // verus!
