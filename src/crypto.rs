//! Authenticated encryption with AES-256-GCM, 96-bit nonces, a 128-bit tag
//! and empty associated data.

use vstd::prelude::*;
use aes_gcm::aead::{Aead, KeyInit};
use aes_gcm::{Aes256Gcm, Nonce};

verus! {

/// Length in bytes of a key.
pub const KEY_LEN: usize = 32;

/// Length in bytes of a nonce.
pub const NONCE_LEN: usize = 12;

/// Length in bytes of the authentication tag appended to a ciphertext.
pub const TAG_LEN: usize = 16;

/// The longest plaintext that the cipher accepts, in bytes.
pub const MAX_PLAINTEXT: u64 = 0x10_0000_0000;

/// What AES-256-GCM produces for a key, a nonce and a plaintext: the
/// ciphertext followed by the tag.
pub uninterp spec fn aes_gcm_seal(key: Seq<u8>, nonce: Seq<u8>, plaintext: Seq<u8>) -> Seq<u8>;

/// What AES-256-GCM authenticates and decrypts a ciphertext with its tag
/// into, if the tag verifies.
pub uninterp spec fn aes_gcm_open(key: Seq<u8>, nonce: Seq<u8>, sealed: Seq<u8>) -> Option<Seq<u8>>;

/// Relies on `aes_gcm::Aes256Gcm` through `aead::Aead::encrypt`: it refuses a
/// plaintext above the cipher's limit, appends a 16-byte tag, and the same key
/// and nonce open the result to the plaintext.
#[verifier::external_body]
pub(crate) fn seal(key: &[u8], nonce: &[u8], plaintext: &[u8]) -> (r: Option<Vec<u8>>)
    requires
        key@.len() == KEY_LEN,
        nonce@.len() == NONCE_LEN,
    ensures
        r is Some <==> plaintext@.len() <= MAX_PLAINTEXT,
        r matches Some(c) ==> {
            &&& c@ == aes_gcm_seal(key@, nonce@, plaintext@)
            &&& c@.len() == plaintext@.len() + TAG_LEN
            &&& aes_gcm_open(key@, nonce@, c@) == Some(plaintext@)
        },
{
    let cipher = Aes256Gcm::new_from_slice(key).ok()?;
    cipher.encrypt(Nonce::from_slice(nonce), plaintext).ok()
}

/// Relies on `aes_gcm::Aes256Gcm` through `aead::Aead::decrypt`: `None` when
/// the input is shorter than the tag or the tag does not verify under the key
/// and nonce.
#[verifier::external_body]
pub(crate) fn open(key: &[u8], nonce: &[u8], sealed: &[u8]) -> (r: Option<Vec<u8>>)
    requires
        key@.len() == KEY_LEN,
        nonce@.len() == NONCE_LEN,
    ensures
        sealed@.len() < TAG_LEN ==> r is None,
        match r {
            Some(p) => aes_gcm_open(key@, nonce@, sealed@) == Some(p@),
            None => aes_gcm_open(key@, nonce@, sealed@) is None,
        },
{
    let cipher = Aes256Gcm::new_from_slice(key).ok()?;
    cipher.decrypt(Nonce::from_slice(nonce), sealed).ok()
}

} // verus!
