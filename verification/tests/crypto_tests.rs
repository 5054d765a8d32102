use lib::engine::aes::{
    aes128_ecb_encrypt_with_backend, Aes128Ecb, Aes128Key, AesBackend, AesBlock, AesError,
};
use lib::engine::aes128ccm::{
    validate_nonce_len, validate_tag_len, Aes128Ccm, Aes128CcmError, Aes128CcmKey,
    Aes128CcmParams, CcmTag,
};
use lib::engine::aes_apple::aes128_ecb_encrypt_apple;
use lib::engine::aes_reference::{
    aes128_cbc_encrypt_buffer_reference, aes128_ecb_decrypt_reference,
    aes128_ecb_encrypt_reference, copy_padded_buffer, CbcOperation,
};
use lib::engine::arena::Arena;
use lib::engine::hmac::{HmacDigest, ShaVersion};
use lib::engine::hmac_md5::{smb2_hmac_md5, HmacMd5Context, HmacMd5Pads};
use lib::engine::md4::{decode_words, encode_words, md4_final, md4_init, md4_update, Md4Context};

#[test]
fn aes_backends_report_missing_cipher() {
    let block = AesBlock::new([1u8; 16]);
    let key = Aes128Key::new([2u8; 16]);
    assert_eq!(
        aes128_ecb_encrypt_with_backend(block, key, AesBackend::Apple),
        Err(AesError::BackendNotImplemented(AesBackend::Apple))
    );
    let e = Aes128Ecb::new(key, AesBackend::Reference);
    assert_eq!(e.backend(), AesBackend::Reference);
    assert_eq!(e.key(), key);
    assert_eq!(e.encrypt_block(block), Err(AesError::BackendNotImplemented(AesBackend::Reference)));
    assert_eq!(
        AesError::BackendNotImplemented(AesBackend::Apple).message(),
        "AES backend Apple is not implemented"
    );
    assert_eq!(AesBackend::for_target(true), AesBackend::Apple);
    assert_eq!(AesBackend::for_target(false), AesBackend::Reference);
}

#[test]
fn reference_blocks_pass_through() {
    assert_eq!(aes128_ecb_encrypt_reference([7u8; 16], [0u8; 16]), [7u8; 16]);
    assert_eq!(aes128_ecb_decrypt_reference([9u8; 16], [0u8; 16]), [9u8; 16]);
    assert_eq!(aes128_ecb_encrypt_apple([3u8; 16], [1u8; 16]), [3u8; 16]);
}

#[test]
fn cbc_padding_lengths() {
    assert_eq!(CbcOperation::padded_len(0), 0);
    assert_eq!(CbcOperation::padded_len(1), 16);
    assert_eq!(CbcOperation::padded_len(16), 16);
    assert_eq!(CbcOperation::padded_len(17), 32);
}

#[test]
fn cbc_buffer_is_zero_padded() {
    let mut out = [0xffu8; 32];
    let op = aes128_cbc_encrypt_buffer_reference(&mut out, &[1, 2, 3], &[0u8; 16], &[0u8; 16]);
    assert!(op.is_ok());
    assert_eq!(&out[..3], &[1, 2, 3]);
    assert!(out[3..16].iter().all(|b| *b == 0));
    let mut small = [0u8; 2];
    assert!(copy_padded_buffer(&mut small, &[1, 2, 3], 16).is_err());
}

#[test]
fn ccm_parameter_checks() {
    assert_eq!(validate_nonce_len(11), Ok(()));
    assert_eq!(validate_nonce_len(6), Err(Aes128CcmError::InvalidNonceLength));
    assert_eq!(validate_nonce_len(14), Err(Aes128CcmError::InvalidNonceLength));
    assert_eq!(validate_tag_len(16), Ok(()));
    assert_eq!(validate_tag_len(5), Err(Aes128CcmError::InvalidTagLength));
    assert_eq!(validate_tag_len(18), Err(Aes128CcmError::InvalidTagLength));
}

#[test]
fn ccm_b0_block_layout() {
    let nonce = [0xa0u8, 0xa1, 0xa2, 0xa3, 0xa4, 0xa5, 0xa6, 0xa7, 0xa8, 0xa9, 0xaa];
    let b0 = Aes128Ccm::generate_b0(&nonce, 20, 0x0102, 16).unwrap();
    assert_eq!(b0[0], 0x40 | 0x38 | 0x03);
    assert_eq!(&b0[1..12], &nonce);
    assert_eq!(&b0[12..], &[0, 0, 1, 2]);
    let short = [1u8; 7];
    let b = Aes128Ccm::generate_b0(&short, 0, 5, 4).unwrap();
    assert_eq!(b[0], 0x08 | 0x07);
    assert_eq!(&b[8..12], &[0, 0, 0, 0]);
    assert_eq!(b[15], 5);
    assert_eq!(
        Aes128Ccm::generate_b0(&short, 0, 5, 3),
        Err(Aes128CcmError::InvalidTagLength)
    );
}

#[test]
fn ccm_b0_block_for_smb3_nonce() {
    let nonce = [0xA0u8, 0xA1, 0xA2, 0xA3, 0xA4, 0xA5, 0xA6, 0xA7, 0xA8, 0xA9, 0xAA];
    assert_eq!(
        Aes128Ccm::generate_b0(&nonce, 5, 0x0102_0304, 16),
        Ok([0x7B, 0xA0, 0xA1, 0xA2, 0xA3, 0xA4, 0xA5, 0xA6, 0xA7, 0xA8, 0xA9, 0xAA, 0x01, 0x02, 0x03, 0x04])
    );
    let long = [0u8; 13];
    assert_eq!(Aes128Ccm::generate_b0(&long, 0, 1, 8).unwrap()[0], 0x18 | 0x01);
}

#[test]
fn ccm_transform_is_not_provided() {
    let ccm = Aes128Ccm::new(Aes128CcmKey::new([0u8; 16]));
    let nonce = [0u8; 11];
    let mut payload = [1u8, 2, 3];
    let r = ccm.encrypt_in_place(Aes128CcmParams::new(&nonce, &[], 16), &mut payload);
    assert_eq!(r, Err(Aes128CcmError::CryptoNotImplemented));
    assert_eq!(payload, [1, 2, 3]);
    let bad = ccm.decrypt_in_place(Aes128CcmParams::new(&nonce[..3], &[], 16), &mut payload, &CcmTag::new([0u8; 16]));
    assert_eq!(bad, Err(Aes128CcmError::InvalidNonceLength));
}

#[test]
fn md4_word_encoding() {
    assert_eq!(encode_words(&[0x0403_0201, 0x0807_0605], 8), vec![1, 2, 3, 4, 5, 6, 7, 8]);
    assert_eq!(encode_words(&[0x0403_0201], 6), vec![1, 2, 3, 4, 0, 0]);
    let mut out = [0u32; 2];
    decode_words(&mut out, &[1, 2, 3, 4, 5, 6, 7, 8], 8);
    assert_eq!(out, [0x0403_0201, 0x0807_0605]);
}

#[test]
fn md4_bit_count_and_staging() {
    let mut c = md4_init();
    md4_update(&mut c, b"abc");
    assert_eq!(c.count, [24, 0]);
    assert_eq!(&c.buffer[..3], b"abc");
    let mut d = Md4Context::new();
    d.add_input_bits(0x2000_0000);
    assert_eq!(d.count, [0, 1]);
}

#[test]
fn md4_final_encodes_state_and_clears() {
    let mut c = md4_init();
    md4_update(&mut c, b"hello");
    let digest = md4_final(&mut c);
    assert_eq!(
        digest,
        [0x01, 0x23, 0x45, 0x67, 0x89, 0xab, 0xcd, 0xef, 0xfe, 0xdc, 0xba, 0x98, 0x76, 0x54, 0x32, 0x10]
    );
    assert_eq!(c.state, [0u32; 4]);
    assert_eq!(c.count, [0u32; 2]);
}

#[test]
fn hmac_md5_pads() {
    let pads = HmacMd5Pads::from_block_sized_key(&[0x01, 0x02]);
    assert_eq!(pads.inner()[0], 0x01 ^ 0x36);
    assert_eq!(pads.outer()[1], 0x02 ^ 0x5c);
    assert_eq!(pads.inner()[2], 0x36);
    assert_eq!(pads.outer()[63], 0x5c);
    let mut ctx = HmacMd5Context::new(b"key");
    ctx.update(b"text");
    assert_eq!(ctx.key_len(), 3);
    assert_eq!(ctx.text_len(), 4);
    assert_eq!(ctx.finalize().into_bytes(), [0u8; 16]);
    assert_eq!(smb2_hmac_md5(b"t", b"k").into_bytes(), [0u8; 16]);
}

#[test]
fn sha_sizes_and_zero_digest() {
    assert_eq!(ShaVersion::Sha1.hash_size(), 20);
    assert_eq!(ShaVersion::Sha256.block_size(), 64);
    assert_eq!(ShaVersion::Sha512.block_size(), 128);
    assert_eq!(ShaVersion::Sha384.hash_size_bits(), 384);
    assert_eq!(HmacDigest::zeroed(ShaVersion::Sha224).as_bytes(), &[0u8; 28][..]);
}

#[test]
fn arena_links_children_to_root() {
    let mut a = Arena::new();
    assert!(a.smb2_alloc_data(4).is_none());
    let root = a.smb2_alloc_init(8);
    assert_eq!(root.len(), 8);
    root[0] = 5;
    let h1 = a.smb2_alloc_data(3).unwrap();
    let h2 = a.smb2_alloc_data(2).unwrap();
    assert_eq!(a.allocation_count(), 2);
    assert_eq!(a.allocation(h1).unwrap().as_slice(), &[0, 0, 0]);
    assert_eq!(a.allocation(h2).unwrap().next(), Some(h1));
    assert_eq!(a.header().unwrap().first_allocation(), Some(h2));
    assert_eq!(a.header().unwrap().as_slice()[0], 5);
    a.smb2_free_data();
    assert_eq!(a.allocation_count(), 0);
    assert!(a.header().is_none());
    assert_eq!(a.alloc_zeroed(4), 0);
    assert!(a.header().is_some());
}
