//! Encryption of a page with a password: AES-256 in CBC mode with PKCS7
//! padding, under the SHA-256 digest of the password and a fresh random
//! initialisation vector, which leads the output.

use crate::vec_ext::VecExt;
use aes::cipher::block_padding::Pkcs7;
use aes::cipher::{BlockEncryptMut, KeyIvInit};
use rand::Rng;
use sha2::Digest;
use vstd::prelude::*;
use vstd::string::StringSliceAdditionalSpecFns;

verus! {

/// The SHA-256 digest of a byte sequence.
pub uninterp spec fn sha256(data: Seq<u8>) -> Seq<u8>;

/// The ciphertext of `data` under AES-256 in CBC mode with PKCS7 padding, for a
/// key of 32 bytes and an initialisation vector of 16.
pub uninterp spec fn aes256_cbc_pkcs7(key: Seq<u8>, iv: Seq<u8>, data: Seq<u8>) -> Seq<u8>;

/// The longest ciphertext of a plaintext of `len` bytes: the plaintext rounded
/// up to whole blocks of 16 bytes, and a whole block more where it is a
/// multiple of 16.
pub open spec fn padded_len(len: nat) -> nat {
    16 * (len / 16 + 1)
}

/// Computes `sha2::Sha256::digest` of `data`. Believed, not proved: the result
/// is the SHA-256 digest, a function of the bytes alone.
#[verifier::external_body]
fn sha256_digest(data: &[u8]) -> (digest: [u8; 32])
    ensures
        digest@ == sha256(data@),
{
    sha2::Sha256::digest(data).into()
}

/// Fills 16 bytes from `rand::rng()`. Nothing is promised of the bytes.
#[verifier::external_body]
fn random_iv() -> (iv: [u8; 16]) {
    let mut iv = [0u8; 16];
    rand::rng().fill(&mut iv);
    iv
}

/// Encrypts `data` with `cbc::Encryptor<aes::Aes256>`, made by `new` of the key
/// and the vector, through `encrypt_padded_vec_mut` with PKCS7 padding.
/// Believed, not proved: the result is a function of the three values alone,
/// and is no longer than the buffer that the `cipher` crate allocates for it.
/// The input is bounded so that the size of that buffer does not overflow.
#[verifier::external_body]
fn aes_encrypt(iv: &[u8; 16], key: &[u8; 32], data: &[u8]) -> (cipher: Vec<u8>)
    requires
        padded_len(data@.len()) <= usize::MAX,
    ensures
        cipher@ == aes256_cbc_pkcs7(key@, iv@, data@),
        cipher@.len() <= padded_len(data@.len()),
{
    cbc::Encryptor::<aes::Aes256>::new(key.into(), iv.into()).encrypt_padded_vec_mut::<Pkcs7>(data)
}

/// What `encode` returns: the vector, then the ciphertext under it.
pub open spec fn sealed(iv: Seq<u8>, key: Seq<u8>, data: Seq<u8>) -> Seq<u8> {
    iv + aes256_cbc_pkcs7(key, iv, data)
}

/// Whether `payload` is an encryption of `data` under `password`: its first
/// 16 bytes are an initialisation vector, and the rest is the ciphertext of
/// `data` under that vector and the SHA-256 digest of the password's UTF-8
/// bytes.
pub open spec fn is_sealed_with(payload: Seq<u8>, password: Seq<u8>, data: Seq<u8>) -> bool {
    &&& payload.len() >= 16
    &&& payload.len() <= 16 + padded_len(data.len())
    &&& payload.skip(16) == aes256_cbc_pkcs7(sha256(password), payload.take(16), data)
}

/// Encrypts `data` under `key` and `iv`, and leads the result with `iv`.
pub fn encode(iv: &[u8; 16], key: &[u8; 32], data: &[u8]) -> (payload: Vec<u8>)
    requires
        padded_len(data@.len()) <= usize::MAX,
    ensures
        payload@ == sealed(iv@, key@, data@),
        payload@.len() <= 16 + padded_len(data@.len()),
{
    let mut lead: Vec<u8> = Vec::new();
    let mut i: usize = 0;
    while i < 16
        invariant
            i <= 16,
            lead@ == iv@.take(i as int),
        decreases 16 - i,
    {
        proof {
            assert(iv@.take(i + 1) =~= iv@.take(i as int).push(iv@[i as int]));
        }
        lead.push(iv[i]);
        i += 1;
    }
    proof {
        assert(iv@.take(16) =~= iv@);
    }
    let cipher = aes_encrypt(iv, key, data);
    lead.extended(cipher)
}

/// Encrypts `data` under `password` with a fresh random initialisation vector.
/// The vector is the first 16 bytes of the result.
pub fn encode_with_password(password: &str, data: &[u8]) -> (payload: Vec<u8>)
    requires
        padded_len(data@.len()) <= usize::MAX,
    ensures
        is_sealed_with(payload@, password.spec_bytes(), data@),
{
    let key = sha256_digest(password.as_bytes());
    let iv = random_iv();
    let payload = encode(&iv, &key, data);
    proof {
        let cipher = aes256_cbc_pkcs7(key@, iv@, data@);
        assert(payload@.take(16) =~= iv@);
        assert(payload@.skip(16) =~= cipher);
    }
    payload
}

} // verus!
