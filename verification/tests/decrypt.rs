use aes::cipher::generic_array::GenericArray;
use aes::cipher::{block_padding::NoPadding, BlockEncryptMut, KeyIvInit};
use aes::Aes128;
use cbc::Encryptor as BlowfishCbcEnc;
use md5::Digest;
use breezer::player::decrypt::{
    decrypt_audio_stream, decrypt_audio_stream_with_key, derive_blowfish_key, DecryptError,
    Md5OriginDecryptor, StreamDecryptor, CHUNK_SIZE, DEEZER_BLOWFISH_IV,
};

/// The key derivation must be stable: `md5("abcxyz")`.
#[test]
fn key_derivation() {
    let d = Md5OriginDecryptor::new("abc", "xyz");
    let mut hasher = md5::Md5::new();
    hasher.update(b"abcxyz");
    let expect = hex::encode(hasher.finalize());
    assert_eq!(hex::encode(d.key()), expect);
}

/// AES-CBC roundtrip with a zero IV.
#[test]
fn cbc_roundtrip() {

    let d = Md5OriginDecryptor::new("keymaterial", "licensetokenvalue");
    let msg: Vec<u8> = (0u8..48).collect(); // exactly 3 AES blocks

    let mut enc = msg.clone();
    let mut cipher = cbc::Encryptor::<Aes128>::new_from_slices(&d.key(), &[0u8; 16]).unwrap();
    for chunk in enc.chunks_exact_mut(16) {
        cipher.encrypt_block_mut(GenericArray::from_mut_slice(chunk));
    }

    let out = d.decrypt(1, &enc).unwrap();
    assert_eq!(out, msg);
}

/// Reference vector: the key derivation must match.
#[test]
fn blowfish_key_stable() {
    let key = derive_blowfish_key("3135556");
    assert_eq!(hex::encode(key), "6c6c666b39662c37652575603c643439");
}

/// Only every 3rd 2048-byte chunk is encrypted; decryption restores data.
#[test]
fn blowfish_decrypts_only_third_chunks() {

    let key = derive_blowfish_key("42");
    let plaintext = vec![0x5a; CHUNK_SIZE * 4];
    let mut encrypted = plaintext.clone();
    for chunk_index in [0usize, 3usize] {
        let start = chunk_index * CHUNK_SIZE;
        let chunk = &mut encrypted[start..start + CHUNK_SIZE];
        let cipher =
            BlowfishCbcEnc::<blowfish::Blowfish>::new_from_slices(&key, &DEEZER_BLOWFISH_IV).unwrap();
        cipher.encrypt_padded_mut::<NoPadding>(chunk, chunk.len()).unwrap();
    }
    let decrypted = decrypt_audio_stream_with_key(&key, &encrypted).unwrap();
    assert_eq!(decrypted, plaintext);
}

#[test]
fn md5_origin_key_is_md5_of_concatenation() {
    let d = Md5OriginDecryptor::new("été", "x");
    let expect: [u8; 16] = md5::Md5::digest("étéx".as_bytes()).into();
    assert_eq!(d.key(), expect);
}

#[test]
fn md5_origin_passes_partial_block_through() {

    let d = Md5OriginDecryptor::new("origin", "token");
    let msg: Vec<u8> = (10u8..42).collect(); // two blocks
    let mut enc = msg.clone();
    let mut cipher = cbc::Encryptor::<Aes128>::new_from_slices(&d.key(), &[0u8; 16]).unwrap();
    for chunk in enc.chunks_exact_mut(16) {
        cipher.encrypt_block_mut(GenericArray::from_mut_slice(chunk));
    }
    enc.extend_from_slice(&[1, 2, 3]);
    let out = d.decrypt(7, &enc).unwrap();
    let mut expect = msg.clone();
    expect.extend_from_slice(&[1, 2, 3]);
    assert_eq!(out, expect);
    // Shorter than a block: returned as is.
    assert_eq!(d.decrypt(7, &[9, 8, 7]).unwrap(), vec![9, 8, 7]);
}

#[test]
fn stream_with_refused_key_fails_only_when_a_block_is_decrypted() {
    let short_key = [1u8, 2, 3];
    // Fewer than 8 bytes: nothing to decrypt, the key is never used.
    assert_eq!(decrypt_audio_stream_with_key(&short_key, &[1, 2, 3, 4, 5, 6, 7]).unwrap(), vec![
        1, 2, 3, 4, 5, 6, 7,
    ]);
    assert_eq!(decrypt_audio_stream_with_key(&short_key, &[0u8; 8]), Err(DecryptError::InvalidKey));
    let long_key = [7u8; 57];
    assert_eq!(decrypt_audio_stream_with_key(&long_key, &[0u8; 100]), Err(DecryptError::InvalidKey));
}

#[test]
fn stream_tail_and_other_chunks_pass_through() {
    let key = derive_blowfish_key("1");
    // 2048 + 13 bytes: chunk 0 is encrypted, chunk 1 is clear.
    let plaintext: Vec<u8> = (0..(CHUNK_SIZE + 13)).map(|i| (i % 251) as u8).collect();
    let mut encrypted = plaintext.clone();
    let cipher =
        cbc::Encryptor::<blowfish::Blowfish>::new_from_slices(&key, &DEEZER_BLOWFISH_IV).unwrap();
    cipher.encrypt_padded_mut::<NoPadding>(&mut encrypted[..CHUNK_SIZE], CHUNK_SIZE).unwrap();
    assert_ne!(encrypted, plaintext);
    assert_eq!(decrypt_audio_stream("1", &encrypted).unwrap(), plaintext);
    // A 12-byte stream: one block decrypted, four trailing bytes kept.
    let mut small: Vec<u8> = (0..12u8).collect();
    let cipher =
        cbc::Encryptor::<blowfish::Blowfish>::new_from_slices(&key, &DEEZER_BLOWFISH_IV).unwrap();
    cipher.encrypt_padded_mut::<NoPadding>(&mut small[..8], 8).unwrap();
    assert_eq!(decrypt_audio_stream("1", &small).unwrap(), (0..12u8).collect::<Vec<u8>>());
}

#[test]
fn empty_stream_decrypts_to_empty() {
    assert_eq!(decrypt_audio_stream("3135556", &[]).unwrap(), Vec::<u8>::new());
}
