use aes::cipher::block_padding::Pkcs7;
use aes::cipher::{BlockDecryptMut, KeyIvInit};
use sha2::Digest;
use zakki::aes_256_cbc::{encode, encode_with_password};

fn decrypt(key: &[u8], payload: &[u8]) -> Vec<u8> {
    let (iv, cipher) = payload.split_at(16);
    cbc::Decryptor::<aes::Aes256>::new_from_slices(key, iv)
        .unwrap()
        .decrypt_padded_vec_mut::<Pkcs7>(cipher)
        .unwrap()
}

fn hex(text: &str) -> Vec<u8> {
    (0..text.len() / 2)
        .map(|i| u8::from_str_radix(&text[2 * i..2 * i + 2], 16).unwrap())
        .collect()
}

#[test]
fn encode_agrees_with_the_published_vector() {
    // NIST SP 800-38A, F.2.5: CBC-AES256.Encrypt, first block
    let key: [u8; 32] =
        hex("603deb1015ca71be2b73aef0857d77811f352c073b6108d72d9810a30914dff4")
            .try_into()
            .unwrap();
    let iv: [u8; 16] = hex("000102030405060708090a0b0c0d0e0f").try_into().unwrap();
    let block = hex("6bc1bee22e409f96e93d7e117393172a");
    let payload = encode(&iv, &key, &block);
    assert_eq!(payload.len(), 16 + 32);
    assert_eq!(&payload[..16], &iv);
    assert_eq!(&payload[16..32], &hex("f58c4c04d6e5f1ba779eabfb5f7bfbd6")[..]);
    assert_eq!(decrypt(&key, &payload), block);
}

#[test]
fn payload_length_is_the_vector_and_whole_blocks() {
    let key = [7u8; 32];
    let iv = [9u8; 16];
    assert_eq!(encode(&iv, &key, b"").len(), 16 + 16);
    assert_eq!(encode(&iv, &key, &[0u8; 15]).len(), 16 + 16);
    assert_eq!(encode(&iv, &key, &[0u8; 16]).len(), 16 + 32);
    assert_eq!(encode(&iv, &key, &[0u8; 17]).len(), 16 + 32);
}

#[test]
fn decrypting_with_the_digest_of_the_password_recovers_the_body() {
    let body = "<h1>秘密</h1><p>The body of a page, longer than one block.</p>";
    let payload = encode_with_password("pass word", body.as_bytes());
    let key = sha2::Sha256::digest("pass word".as_bytes());
    assert_eq!(decrypt(&key, &payload), body.as_bytes());
    // the payload does not carry the body as it is
    assert!(!payload.windows(body.len()).any(|window| window == body.as_bytes()));
}

#[test]
fn key_is_the_sha256_of_the_password() {
    // SHA-256("password")
    let key = hex("5e884898da28047151d0e56f8dc6292773603d0d6aabbdd62a11ef721d1542d8");
    let payload = encode_with_password("password", b"body");
    assert_eq!(decrypt(&key, &payload), b"body");
}

#[test]
fn every_encryption_has_a_fresh_vector() {
    let first = encode_with_password("pw", b"same body");
    let second = encode_with_password("pw", b"same body");
    assert_ne!(&first[..16], &second[..16]);
    assert_ne!(first, second);
}

#[test]
fn the_wrong_password_does_not_recover_the_body() {
    let payload = encode_with_password("right", b"a body of some length, two blocks");
    let key = sha2::Sha256::digest("wrong".as_bytes());
    let (iv, cipher) = payload.split_at(16);
    let plain = cbc::Decryptor::<aes::Aes256>::new_from_slices(&key, iv)
        .unwrap()
        .decrypt_padded_vec_mut::<Pkcs7>(cipher);
    assert_ne!(plain.ok(), Some(b"a body of some length, two blocks".to_vec()));
}
