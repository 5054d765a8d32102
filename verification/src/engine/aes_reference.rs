//! The reference AES-128 backend surface: key schedule storage, single-block
//! ECB operations and CBC buffer operations with zero padding of a trailing
//! partial block. The AES round transformations are not provided: blocks
//! pass through unchanged.
use vstd::prelude::*;

verus! {

/// Number of columns comprising an AES state matrix.
pub const NB: usize = 4;

/// Number of 32-bit words in an AES-128 key.
pub const NK: usize = 4;

/// AES-128 key length in bytes.
pub const KEY_LEN: usize = 16;

/// AES block length in bytes.
pub const BLOCK_LEN: usize = 16;

/// Number of AES-128 cipher rounds.
pub const NR: usize = 10;

/// Expanded AES-128 round-key length: `NB * (NR + 1) * 4`.
pub const ROUND_KEY_LEN: usize = 176;

/// AES state matrix.
pub type Smb2State = [[u8; 4]; 4];

/// AES-128 block.
pub type AesBlock = [u8; 16];

/// AES-128 key.
pub type Aes128Key = [u8; 16];

/// Expanded AES-128 round key buffer.
pub type RoundKey = [u8; 176];

/// Result type of the reference helpers.
pub type AesReferenceResult<T> = Result<T, AesReferenceError>;

/// Errors of the reference helpers.
#[derive(Debug, Clone, Copy, PartialEq, Eq)]
pub enum AesReferenceError {
    /// The output buffer is smaller than the required output length.
    OutputTooSmall {
        /// Required output length in bytes.
        required: usize,
        /// Actual output length in bytes.
        actual: usize,
    },
}

/// Reference AES-128 context holding the round-key buffer.
#[derive(Debug, Clone, Copy, PartialEq, Eq)]
pub struct Aes128Reference {
    /// Round-key material: the key in the first block, zeros after it.
    pub round_key: [u8; 176],
}

impl Aes128Reference {
    /// Creates a context whose round-key buffer holds the key followed by
    /// zeros.
    pub fn new(key: &[u8; 16]) -> (r: Self)
        ensures
            forall|i: int| 0 <= i < 16 ==> r.round_key@[i] == key@[i],
            forall|i: int| 16 <= i < 176 ==> r.round_key@[i] == 0u8,
    {
        let mut round_key = [0u8; 176];
        let mut i: usize = 0;
        while i < 16
            invariant
                i <= 16,
                round_key@.len() == 176,
                forall|k: int| 0 <= k < i ==> round_key@[k] == key@[k],
                forall|k: int| i <= k < 176 ==> round_key@[k] == 0u8,
            decreases 16 - i,
        {
            round_key[i] = key[i];
            i = i + 1;
        }
        Aes128Reference { round_key }
    }

    /// Returns the round-key buffer.
    pub fn round_key(&self) -> (r: &[u8; 176])
        ensures
            *r == self.round_key,
    {
        &self.round_key
    }

    /// The forward cipher on one block; the rounds are not provided, so the
    /// block passes through unchanged.
    pub fn cipher_block(&self, input: &[u8; 16]) -> (r: [u8; 16])
        ensures
            r == *input,
    {
        *input
    }

    /// The inverse cipher on one block; the rounds are not provided, so the
    /// block passes through unchanged.
    pub fn inv_cipher_block(&self, input: &[u8; 16]) -> (r: [u8; 16])
        ensures
            r == *input,
    {
        *input
    }
}

/// Direction of an ECB operation.
#[derive(Debug, Clone, Copy, PartialEq, Eq)]
pub enum EcbMode {
    /// Encrypt one block.
    Encrypt,
    /// Decrypt one block.
    Decrypt,
}

/// A single-block ECB operation: direction, input, key and output.
#[derive(Debug, Clone, Copy, PartialEq, Eq)]
pub struct EcbOperation {
    /// Operation direction.
    pub mode: EcbMode,
    /// Input block.
    pub input: [u8; 16],
    /// AES-128 key.
    pub key: [u8; 16],
    /// Output block.
    pub output: [u8; 16],
}

impl EcbOperation {
    /// Encrypts one block.
    pub fn encrypt(input: [u8; 16], key: [u8; 16]) -> (r: Self)
        ensures
            r.mode == EcbMode::Encrypt,
            r.input == input,
            r.key == key,
            r.output == input,
    {
        let output = Aes128Reference::new(&key).cipher_block(&input);
        EcbOperation { mode: EcbMode::Encrypt, input, key, output }
    }

    /// Decrypts one block.
    pub fn decrypt(input: [u8; 16], key: [u8; 16]) -> (r: Self)
        ensures
            r.mode == EcbMode::Decrypt,
            r.input == input,
            r.key == key,
            r.output == input,
    {
        let output = Aes128Reference::new(&key).inv_cipher_block(&input);
        EcbOperation { mode: EcbMode::Decrypt, input, key, output }
    }
}

/// Direction of a CBC buffer operation.
#[derive(Debug, Clone, Copy, PartialEq, Eq)]
pub enum CbcMode {
    /// Encrypt a buffer.
    Encrypt,
    /// Decrypt a buffer.
    Decrypt,
}

/// A CBC buffer operation: direction, input length, padded output length
/// and initial vector.
#[derive(Debug, Clone, PartialEq, Eq)]
pub struct CbcOperation {
    /// Operation direction.
    pub mode: CbcMode,
    /// Number of source bytes requested by the caller.
    pub input_len: usize,
    /// Output length: the input length rounded up to whole blocks.
    pub output_len: usize,
    /// Initial vector.
    pub iv: [u8; 16],
}

/// The least multiple of the block length that is not below `n`.
pub open spec fn padded_len_spec(n: int) -> int {
    if n % 16 == 0 { n } else { n + (16 - n % 16) }
}

/// Whether the padded length of `n` is representable.
pub open spec fn padded_len_fits(n: usize) -> bool {
    padded_len_spec(n as int) <= usize::MAX
}

/// The padded length is the least multiple of 16 not below the length.
pub proof fn lemma_padded_len(n: int)
    requires
        n >= 0,
    ensures
        padded_len_spec(n) % 16 == 0,
        n <= padded_len_spec(n) < n + 16,
{
}

impl CbcOperation {
    /// Rounds a length up to whole blocks.
    pub fn padded_len(input_len: usize) -> (r: usize)
        requires
            padded_len_fits(input_len),
        ensures
            r == padded_len_spec(input_len as int),
    {
        let remainder = input_len % BLOCK_LEN;
        if remainder == 0 {
            input_len
        } else {
            input_len + (BLOCK_LEN - remainder)
        }
    }

    /// Creates a CBC operation summary.
    pub fn new(mode: CbcMode, input_len: usize, iv: [u8; 16]) -> (r: Self)
        requires
            padded_len_fits(input_len),
        ensures
            r.mode == mode,
            r.input_len == input_len,
            r.output_len == padded_len_spec(input_len as int),
            r.iv == iv,
    {
        CbcOperation { mode, input_len, output_len: CbcOperation::padded_len(input_len), iv }
    }
}

/// Encrypts one block with the reference backend; the block passes
/// through unchanged.
pub fn aes128_ecb_encrypt_reference(input: [u8; 16], key: [u8; 16]) -> (r: [u8; 16])
    ensures
        r == input,
{
    EcbOperation::encrypt(input, key).output
}

/// Decrypts one block with the reference backend; the block passes
/// through unchanged.
pub fn aes128_ecb_decrypt_reference(input: [u8; 16], key: [u8; 16]) -> (r: [u8; 16])
    ensures
        r == input,
{
    EcbOperation::decrypt(input, key).output
}

/// What a CBC buffer operation leaves in `output`: the input, zeros up to
/// the padded length, and the old bytes after that.
pub open spec fn padded_copy(old_out: Seq<u8>, input: Seq<u8>, required: int) -> Seq<u8> {
    Seq::new(old_out.len(), |k: int|
        if k < input.len() {
            input[k]
        } else if k < required {
            0u8
        } else {
            old_out[k]
        })
}

/// Copies `input` to the front of `output` and zero-fills up to
/// `required_len`, refusing an output shorter than `required_len`.
pub fn copy_padded_buffer(output: &mut [u8], input: &[u8], required_len: usize) -> (r: AesReferenceResult<()>)
    requires
        input@.len() <= required_len,
    ensures
        final(output)@.len() == old(output)@.len(),
        old(output)@.len() < required_len ==> r == Err::<(), AesReferenceError>(
            AesReferenceError::OutputTooSmall { required: required_len, actual: old(output)@.len() as usize },
        ) && final(output)@ == old(output)@,
        old(output)@.len() >= required_len ==> r == Ok::<(), AesReferenceError>(())
            && final(output)@ == padded_copy(old(output)@, input@, required_len as int),
{
    if output.len() < required_len {
        return Err(AesReferenceError::OutputTooSmall { required: required_len, actual: output.len() });
    }
    let n = input.len();
    let mut i: usize = 0;
    while i < required_len
        invariant
            n == input@.len(),
            n <= required_len,
            required_len <= output@.len(),
            output@.len() == old(output)@.len(),
            i <= required_len,
            forall|k: int| 0 <= k < i ==> output@[k] == (if k < n { input@[k] } else { 0u8 }),
            forall|k: int| i <= k < output@.len() ==> output@[k] == old(output)@[k],
        decreases required_len - i,
    {
        if i < n {
            output[i] = input[i];
        } else {
            output[i] = 0;
        }
        i = i + 1;
    }
    assert(output@ =~= padded_copy(old(output)@, input@, required_len as int));
    Ok(())
}

/// CBC-encrypts a buffer with the reference backend: the input is copied
/// to `output` and zero-padded to whole blocks (the block transform is not
/// provided); refuses an output shorter than the padded length.
pub fn aes128_cbc_encrypt_buffer_reference(output: &mut [u8], input: &[u8], key: &[u8; 16], iv: &[u8; 16]) -> (r: AesReferenceResult<CbcOperation>)
    requires
        padded_len_fits(input@.len() as usize),
    ensures
        final(output)@.len() == old(output)@.len(),
        old(output)@.len() < padded_len_spec(input@.len() as int) ==> r == Err::<CbcOperation, AesReferenceError>(
            AesReferenceError::OutputTooSmall {
                required: padded_len_spec(input@.len() as int) as usize,
                actual: old(output)@.len() as usize,
            },
        ) && final(output)@ == old(output)@,
        old(output)@.len() >= padded_len_spec(input@.len() as int) ==> r == Ok::<CbcOperation, AesReferenceError>(
            CbcOperation {
                mode: CbcMode::Encrypt,
                input_len: input@.len() as usize,
                output_len: padded_len_spec(input@.len() as int) as usize,
                iv: *iv,
            },
        ) && final(output)@ == padded_copy(old(output)@, input@, padded_len_spec(input@.len() as int)),
{
    let operation = CbcOperation::new(CbcMode::Encrypt, input.len(), *iv);
    match copy_padded_buffer(output, input, operation.output_len) {
        Err(e) => Err(e),
        Ok(()) => {
            let _ = Aes128Reference::new(key);
            Ok(operation)
        },
    }
}

/// CBC-decrypts a buffer with the reference backend: the input is copied
/// to `output` and zero-padded to whole blocks (the block transform is not
/// provided); refuses an output shorter than the padded length.
pub fn aes128_cbc_decrypt_buffer_reference(output: &mut [u8], input: &[u8], key: &[u8; 16], iv: &[u8; 16]) -> (r: AesReferenceResult<CbcOperation>)
    requires
        padded_len_fits(input@.len() as usize),
    ensures
        final(output)@.len() == old(output)@.len(),
        old(output)@.len() < padded_len_spec(input@.len() as int) ==> r == Err::<CbcOperation, AesReferenceError>(
            AesReferenceError::OutputTooSmall {
                required: padded_len_spec(input@.len() as int) as usize,
                actual: old(output)@.len() as usize,
            },
        ) && final(output)@ == old(output)@,
        old(output)@.len() >= padded_len_spec(input@.len() as int) ==> r == Ok::<CbcOperation, AesReferenceError>(
            CbcOperation {
                mode: CbcMode::Decrypt,
                input_len: input@.len() as usize,
                output_len: padded_len_spec(input@.len() as int) as usize,
                iv: *iv,
            },
        ) && final(output)@ == padded_copy(old(output)@, input@, padded_len_spec(input@.len() as int)),
{
    let operation = CbcOperation::new(CbcMode::Decrypt, input.len(), *iv);
    match copy_padded_buffer(output, input, operation.output_len) {
        Err(e) => Err(e),
        Ok(()) => {
            let _ = Aes128Reference::new(key);
            Ok(operation)
        },
    }
}

} // verus!
