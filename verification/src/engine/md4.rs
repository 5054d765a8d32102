//! MD4 context bookkeeping: the 64-bit bit count, the staging of input into
//! 64-byte blocks, padding at the end and the little-endian word encoding.
//! The block compression step is not provided: it leaves the state words
//! unchanged.
use vstd::prelude::*;

verus! {

/// Byte length of an MD4 digest.
pub const DIGEST_LEN: usize = 16;

/// Byte length of an MD4 input block.
pub const BLOCK_LEN: usize = 64;

const S11: u32 = 3;

const S12: u32 = 7;

const S13: u32 = 11;

const S14: u32 = 19;

const S21: u32 = 3;

const S22: u32 = 5;

const S23: u32 = 9;

const S24: u32 = 13;

const S31: u32 = 3;

const S32: u32 = 9;

const S33: u32 = 11;

const S34: u32 = 15;

/// The MD4 initial state words.
pub open spec fn md4_initial_state() -> [u32; 4] {
    [0x6745_2301u32, 0xefcd_ab89u32, 0x98ba_dcfeu32, 0x1032_5476u32]
}

/// MD4 context: state words, the bit count as two words (low first), and
/// the bytes of the block being filled.
#[derive(Clone, Debug, Eq, PartialEq)]
pub struct Md4Context {
    /// Current ABCD state words.
    pub state: [u32; 4],
    /// Number of processed bits, low word first.
    pub count: [u32; 2],
    /// Pending input bytes that have not filled a complete block.
    pub buffer: [u8; 64],
}

/// The bit count of a context as one number.
pub open spec fn bit_count(count: [u32; 2]) -> int {
    count[1] as int * 0x1_0000_0000 + count[0] as int
}

/// The position in the block being filled.
pub open spec fn block_index(count: [u32; 2]) -> int {
    ((count[0] >> 3u32) & 0x3f) as int
}

/// The buffer after staging `input` at position `idx`: when the input
/// completes the block, the bytes after the last whole block go to the
/// front; otherwise the input lands at `idx`.
pub open spec fn staged_buffer(buffer: Seq<u8>, idx: int, input: Seq<u8>) -> Seq<u8> {
    let part = 64 - idx;
    if input.len() >= part {
        let done = part + ((input.len() - part) / 64) * 64;
        let rem = input.len() - done;
        Seq::new(64, |k: int|
            if k < rem {
                input[done + k]
            } else if k >= idx {
                input[k - idx]
            } else {
                buffer[k]
            })
    } else {
        Seq::new(64, |k: int| if idx <= k < idx + input.len() { input[k - idx] } else { buffer[k] })
    }
}

/// The little-endian byte `j` of a word.
pub open spec fn le_byte(w: u32, j: int) -> u8 {
    ((w >> ((8 * j) as u32)) & 0xff) as u8
}

/// The little-endian encoding of `words` in `len` bytes: missing words
/// encode as zeros.
pub open spec fn encode_words_spec(words: Seq<u32>, len: int) -> Seq<u8> {
    Seq::new(len as nat, |k: int| if k / 4 < words.len() { le_byte(words[k / 4], k % 4) } else { 0u8 })
}

/// The word of little-endian bytes `chunk` (up to four, missing ones zero).
pub open spec fn le_word(chunk: Seq<u8>) -> u32 {
    let b = |j: int| if j < chunk.len() { chunk[j] as u32 } else { 0u32 };
    (b(0) | (b(1) << 8u32) | (b(2) << 16u32) | (b(3) << 24u32)) as u32
}

fn le_bytes_of(w: u32) -> (r: [u8; 4])
    ensures
        forall|j: int| 0 <= j < 4 ==> r@[j] == le_byte(w, j),
{
    let r = [(w & 0xff) as u8, ((w >> 8u32) & 0xff) as u8, ((w >> 16u32) & 0xff) as u8, ((w >> 24u32) & 0xff) as u8];
    assert(w >> 0u32 == w) by (bit_vector);
    r
}

/// Encodes words little-endian into `len` bytes.
pub fn encode_words(input: &[u32], len: usize) -> (r: Vec<u8>)
    ensures
        r@ == encode_words_spec(input@, len as int),
{
    let mut out: Vec<u8> = Vec::new();
    let mut k: usize = 0;
    while k < len
        invariant
            k <= len,
            out@ == encode_words_spec(input@, len as int).subrange(0, k as int),
        decreases len - k,
    {
        let b = if k / 4 < input.len() {
            let bytes = le_bytes_of(input[k / 4]);
            bytes[k % 4]
        } else {
            0u8
        };
        out.push(b);
        k = k + 1;
        assert(out@ =~= encode_words_spec(input@, len as int).subrange(0, k as int));
    }
    assert(out@ =~= encode_words_spec(input@, len as int));
    out
}

/// Decodes little-endian bytes `input[..len]` into words, four bytes per
/// word, for as many words as `output` holds.
pub fn decode_words(output: &mut [u32], input: &[u8], len: usize)
    requires
        len <= input@.len(),
    ensures
        final(output)@.len() == old(output)@.len(),
        forall|w: int| 0 <= w < old(output)@.len() ==> #[trigger] final(output)@[w] == if 4 * w < len {
            le_word(input@.subrange(4 * w, if 4 * w + 4 <= len { 4 * w + 4 } else { len as int }))
        } else {
            old(output)@[w]
        },
{
    let n = output.len();
    let mut w: usize = 0;
    while w < n
        invariant
            n == output@.len(),
            n == old(output)@.len(),
            len <= input@.len(),
            w <= n,
            forall|v: int| 0 <= v < w ==> #[trigger] output@[v] == if 4 * v < len {
                le_word(input@.subrange(4 * v, if 4 * v + 4 <= len { 4 * v + 4 } else { len as int }))
            } else {
                old(output)@[v]
            },
            forall|v: int| w <= v < n ==> #[trigger] output@[v] == old(output)@[v],
        decreases n - w,
    {
        if w < len / 4 + 1 && 4 * w < len {
            let start = 4 * w;
            let end = if len - start >= 4 { start + 4 } else { len };
            let ghost chunk = input@.subrange(start as int, end as int);
            let b0: u32 = input[start] as u32;
            let b1: u32 = if start + 1 < end { input[start + 1] as u32 } else { 0 };
            let b2: u32 = if start + 2 < end { input[start + 2] as u32 } else { 0 };
            let b3: u32 = if start + 3 < end { input[start + 3] as u32 } else { 0 };
            let word = b0 | (b1 << 8u32) | (b2 << 16u32) | (b3 << 24u32);
            assert(word == le_word(chunk));
            output[w] = word;
        }
        w = w + 1;
    }
}

/// The compression step on one block; it is not provided and leaves the
/// state words unchanged.
fn md4_transform(state: &mut [u32; 4], block: &[u8; 64])
    ensures
        *final(state) == *old(state),
{
    let mut decoded = [0u32; 16];
    decode_words(&mut decoded, block.as_slice(), BLOCK_LEN);
    let schedule = [S11, S12, S13, S14, S21, S22, S23, S24, S31, S32, S33, S34];
    let _ = (decoded, schedule);
}

impl Md4Context {
    /// Creates a new context with the MD4 initial state.
    pub fn new() -> (r: Self)
        ensures
            r.state == md4_initial_state(),
            r.count@ == seq![0u32, 0u32],
            r.buffer@ == Seq::new(64, |i: int| 0u8),
    {
        let r = Md4Context {
            state: [0x6745_2301, 0xefcd_ab89, 0x98ba_dcfe, 0x1032_5476],
            count: [0u32; 2],
            buffer: [0u8; 64],
        };
        assert(r.count@ =~= seq![0u32, 0u32]);
        assert(r.buffer@ =~= Seq::new(64, |i: int| 0u8));
        r
    }

    /// Resets this context to the initial MD4 state.
    pub fn init(&mut self)
        ensures
            final(self).state == md4_initial_state(),
            final(self).count@ == seq![0u32, 0u32],
            final(self).buffer@ == Seq::new(64, |i: int| 0u8),
    {
        *self = Md4Context::new();
    }

    /// Adds the bit length of `input_len` bytes (taken modulo 2^32) to the
    /// bit count, carrying into the high word.
    pub fn add_input_bits(&mut self, input_len: usize)
        ensures
            final(self).state == old(self).state,
            final(self).buffer == old(self).buffer,
            bit_count(final(self).count) == (bit_count(old(self).count) + 8 * (input_len as int % 0x1_0000_0000))
                % 0x1_0000_0000_0000_0000,
    {
        let len32 = input_len as u32;
        let input_bits = len32.wrapping_shl(3);
        let old_low = self.count[0];
        let old_high = self.count[1];
        let low = old_low.wrapping_add(input_bits);
        let carry: u32 = if low < old_low { 1 } else { 0 };
        let high = old_high.wrapping_add(carry).wrapping_add(len32 >> 29u32);
        self.count[0] = low;
        self.count[1] = high;
        proof {
            lemma_count_add(old_low, old_high, len32, input_bits, low, carry, high);
            assert(len32 as int == input_len as int % 0x1_0000_0000) by (bit_vector)
                requires
                    len32 == input_len as u32,
            ;
        }
    }

    /// Feeds `input` to the context: the bit count grows, complete blocks go
    /// through the compression step and the remaining bytes stay staged.
    pub fn update(&mut self, input: &[u8])
        ensures
            final(self).state == old(self).state,
            bit_count(final(self).count) == (bit_count(old(self).count) + 8 * (input@.len() as int % 0x1_0000_0000))
                % 0x1_0000_0000_0000_0000,
            final(self).buffer@ == staged_buffer(old(self).buffer@, block_index(old(self).count), input@),
    {
        let c0 = self.count[0];
        let idx = ((c0 >> 3u32) & 0x3f) as usize;
        assert(((c0 >> 3u32) & 0x3f) < 64) by (bit_vector);
        self.add_input_bits(input.len());
        let ghost cnt = self.count;
        let n = input.len();
        let part_len = BLOCK_LEN - idx;
        let ghost buf0 = old(self).buffer@;
        if n >= part_len {
            let mut i: usize = 0;
            while i < part_len
                invariant
                    idx + part_len == 64,
                    part_len <= n,
                    n == input@.len(),
                    i <= part_len,
                    self.count == cnt,
                    self.state == old(self).state,
                    self.buffer@.len() == 64,
                    forall|k: int| 0 <= k < idx ==> self.buffer@[k] == buf0[k],
                    forall|k: int| idx <= k < idx + i ==> self.buffer@[k] == input@[k - idx],
                    forall|k: int| idx + i <= k < 64 ==> self.buffer@[k] == buf0[k],
                decreases part_len - i,
            {
                self.buffer[idx + i] = input[i];
                i = i + 1;
            }
            let ghost mid = self.buffer@;
            md4_transform(&mut self.state, &self.buffer);
            let mut input_index: usize = part_len;
            while n - input_index > 63
                invariant
                    self.count == cnt,
                    self.buffer@ == mid,
                    part_len <= input_index <= n,
                    n == input@.len(),
                    (input_index - part_len) % 64 == 0,
                    n - input_index <= 63 ==> input_index == part_len + ((n - part_len) / 64) * 64,
                    self.state == old(self).state,
                decreases n - input_index,
            {
                let mut block = [0u8; 64];
                let mut j: usize = 0;
                while j < 64
                    invariant
                        j <= 64,
                        input_index + 64 <= n,
                        n == input@.len(),
                    decreases 64 - j,
                {
                    block[j] = input[input_index + j];
                    j = j + 1;
                }
                md4_transform(&mut self.state, &block);
                input_index = input_index + 64;
                proof {
                    lemma_blocks_done(n as int, part_len as int, input_index as int);
                }
            }
            proof {
                lemma_blocks_done(n as int, part_len as int, input_index as int);
            }
            let remaining = n - input_index;
            assert(remaining < 64);
            let mut k: usize = 0;
            while k < remaining
                invariant
                    remaining == n - input_index,
                    remaining < 64,
                    n == input@.len(),
                    k <= remaining,
                    self.buffer@.len() == 64,
                    self.count == cnt,
                    idx + part_len == 64,
                    mid.len() == 64,
                    input_index == part_len + ((n - part_len) / 64) * 64,
                    forall|t: int| 0 <= t < idx ==> mid[t] == buf0[t],
                    forall|t: int| idx <= t < 64 ==> mid[t] == input@[t - idx],
                    self.state == old(self).state,
                    forall|t: int| 0 <= t < k ==> self.buffer@[t] == input@[input_index + t],
                    forall|t: int| k <= t < 64 ==> self.buffer@[t] == mid[t],
                decreases remaining - k,
            {
                self.buffer[k] = input[input_index + k];
                k = k + 1;
            }
            proof {
                let sb = staged_buffer(buf0, idx as int, input@);
                let done = part_len + ((n - part_len) / 64) * 64;
                assert(done == input_index);
                assert(sb.len() == 64);
                assert forall|t: int| 0 <= t < 64 implies self.buffer@[t] == sb[t] by {
                    if t < remaining {
                        assert(self.buffer@[t] == input@[input_index + t]);
                    } else if t >= idx {
                        assert(self.buffer@[t] == mid[t]);
                    } else {
                        assert(self.buffer@[t] == mid[t]);
                    }
                }
            }
            assert(self.buffer@ =~= staged_buffer(buf0, idx as int, input@));
        } else {
            let mut i: usize = 0;
            while i < n
                invariant
                    idx + n < 64,
                    n == input@.len(),
                    i <= n,
                    self.count == cnt,
                    self.state == old(self).state,
                    self.buffer@.len() == 64,
                    forall|k: int| 0 <= k < idx ==> self.buffer@[k] == buf0[k],
                    forall|k: int| idx <= k < idx + i ==> self.buffer@[k] == input@[k - idx],
                    forall|k: int| idx + i <= k < 64 ==> self.buffer@[k] == buf0[k],
                decreases n - i,
            {
                self.buffer[idx + i] = input[i];
                i = i + 1;
            }
            assert(self.buffer@ =~= staged_buffer(buf0, idx as int, input@));
        }
    }

    /// Finishes the digest: pads to 56 bytes modulo 64, appends the bit
    /// count, returns the state words little-endian and clears the context.
    pub fn final_bytes(&mut self) -> (r: [u8; 16])
        ensures
            r@ == encode_words_spec(old(self).state@, 16),
            final(self).state@ == seq![0u32, 0u32, 0u32, 0u32],
            final(self).count@ == seq![0u32, 0u32],
            final(self).buffer@ == Seq::new(64, |i: int| 0u8),
    {
        let bits = encode_words(self.count.as_slice(), 8);
        let c0 = self.count[0];
        let index = ((c0 >> 3u32) & 0x3f) as usize;
        assert(((c0 >> 3u32) & 0x3f) < 64) by (bit_vector);
        let pad_len = if index < 56 { 56 - index } else { 120 - index };
        let mut padding: Vec<u8> = Vec::new();
        let mut i: usize = 0;
        while i < pad_len
            invariant
                i <= pad_len,
                padding@.len() == i,
            decreases pad_len - i,
        {
            padding.push(if i == 0 { 0x80u8 } else { 0u8 });
            i = i + 1;
        }
        self.update(padding.as_slice());
        self.update(bits.as_slice());
        let digest_vec = encode_words(self.state.as_slice(), DIGEST_LEN);
        let mut digest = [0u8; 16];
        let mut j: usize = 0;
        while j < 16
            invariant
                j <= 16,
                digest_vec@.len() == 16,
                forall|t: int| 0 <= t < j ==> digest@[t] == digest_vec@[t],
            decreases 16 - j,
        {
            digest[j] = digest_vec[j];
            j = j + 1;
        }
        assert(digest@ =~= digest_vec@);
        self.zeroize();
        digest
    }

    /// Clears all state, count, and buffered data from this context.
    pub fn zeroize(&mut self)
        ensures
            final(self).state@ == seq![0u32, 0u32, 0u32, 0u32],
            final(self).count@ == seq![0u32, 0u32],
            final(self).buffer@ == Seq::new(64, |i: int| 0u8),
    {
        self.state = [0u32; 4];
        self.count = [0u32; 2];
        self.buffer = [0u8; 64];
        assert(self.state@ =~= seq![0u32, 0u32, 0u32, 0u32]);
        assert(self.count@ =~= seq![0u32, 0u32]);
        assert(self.buffer@ =~= Seq::new(64, |i: int| 0u8));
    }
}

impl Default for Md4Context {
    fn default() -> (r: Self)
        ensures
            r.state == md4_initial_state(),
            r.count@ == seq![0u32, 0u32],
            r.buffer@ == Seq::new(64, |i: int| 0u8),
    {
        Md4Context::new()
    }
}

proof fn lemma_blocks_done(n: int, part: int, idx: int)
    requires
        part <= idx <= n,
        (idx - part) % 64 == 0,
    ensures
        idx + 63 >= n ==> idx == part + ((n - part) / 64) * 64,
{
    if idx + 63 >= n {
        let q = (idx - part) / 64;
        assert(idx - part == q * 64);
        assert(n - part == q * 64 + (n - idx));
        assert(0 <= n - idx < 64);
        assert((n - part) / 64 == q) by (nonlinear_arith)
            requires
                n - part == q * 64 + (n - idx),
                0 <= n - idx < 64,
        ;
    }
}

proof fn lemma_count_add(old_low: u32, old_high: u32, len32: u32, input_bits: u32, low: u32, carry: u32, high: u32)
    requires
        input_bits == vstd::wrapping::u32_specs::wrapping_shl(len32, 3),
        low == vstd::wrapping::u32_specs::wrapping_add(old_low, input_bits),
        carry == (if low < old_low { 1u32 } else { 0u32 }),
        high == vstd::wrapping::u32_specs::wrapping_add(
            vstd::wrapping::u32_specs::wrapping_add(old_high, carry),
            len32 >> 29u32,
        ),
    ensures
        high as int * 0x1_0000_0000 + low as int == (old_high as int * 0x1_0000_0000 + old_low as int + 8 * len32 as int)
            % 0x1_0000_0000_0000_0000,
{
    assert(input_bits == len32 << 3u32) by (bit_vector)
        requires
            input_bits == vstd::wrapping::u32_specs::wrapping_shl(len32, 3),
    ;
    let h1 = vstd::wrapping::u32_specs::wrapping_add(old_high, carry);
    assert(high as int * 0x1_0000_0000 + low as int == (old_high as int * 0x1_0000_0000 + old_low as int + 8 * len32 as int)
        % 0x1_0000_0000_0000_0000) by (bit_vector)
        requires
            input_bits == len32 << 3u32,
            low == (if old_low + input_bits > 0xffff_ffffu32 { (old_low + input_bits - 0x1_0000_0000) as u32 } else { (old_low + input_bits) as u32 }),
            carry == (if low < old_low { 1u32 } else { 0u32 }),
            h1 == (if old_high + carry > 0xffff_ffffu32 { (old_high + carry - 0x1_0000_0000) as u32 } else { (old_high + carry) as u32 }),
            high == (if h1 + (len32 >> 29u32) > 0xffff_ffffu32 { (h1 + (len32 >> 29u32) - 0x1_0000_0000) as u32 } else { (h1 + (len32 >> 29u32)) as u32 }),
    ;
}

/// Creates a fresh MD4 context.
pub fn md4_init() -> (r: Md4Context)
    ensures
        r.state == md4_initial_state(),
        r.count@ == seq![0u32, 0u32],
        r.buffer@ == Seq::new(64, |i: int| 0u8),
{
    Md4Context::new()
}

/// Feeds input to an MD4 context.
pub fn md4_update(context: &mut Md4Context, input: &[u8])
    ensures
        final(context).state == old(context).state,
        bit_count(final(context).count) == (bit_count(old(context).count) + 8 * (input@.len() as int % 0x1_0000_0000))
            % 0x1_0000_0000_0000_0000,
        final(context).buffer@ == staged_buffer(old(context).buffer@, block_index(old(context).count), input@),
{
    context.update(input);
}

/// Finishes an MD4 context into a 16-byte digest.
pub fn md4_final(context: &mut Md4Context) -> (r: [u8; 16])
    ensures
        r@ == encode_words_spec(old(context).state@, 16),
        final(context).state@ == seq![0u32, 0u32, 0u32, 0u32],
        final(context).count@ == seq![0u32, 0u32],
        final(context).buffer@ == Seq::new(64, |i: int| 0u8),
{
    context.final_bytes()
}

} // verus!
