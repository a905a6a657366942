//! The AES-256-GCM primitives of the `aes-gcm` crate, as this library relies on them.

use aes_gcm::aead::rand_core::RngCore;
use aes_gcm::aead::{Aead, KeyInit, OsRng};
use aes_gcm::{Aes256Gcm, Key, Nonce};
use vstd::prelude::*;

verus! {

/// Length in bytes of an AES-256 key.
pub const KEY_LEN: usize = 32;

/// Length in bytes of a GCM nonce.
pub const NONCE_LEN: usize = 12;

/// Length in bytes of the authentication tag appended to every ciphertext.
pub const TAG_LEN: usize = 16;

/// Longest plaintext, in bytes, that AES-GCM accepts under one nonce (2^36).
pub const MAX_PLAINTEXT_LEN: u64 = 0x10_0000_0000;

/// The error that `aes-gcm` reports when it refuses to encrypt.
#[verifier::external_type_specification]
#[verifier::external_body]
pub struct ExAeadError(aes_gcm::Error);

/// What AES-256-GCM produces for a key, a nonce and a plaintext, with no
/// associated data: the encrypted plaintext followed by its tag.
pub uninterp spec fn aes256_gcm_sealed(key: Seq<u8>, nonce: Seq<u8>, plaintext: Seq<u8>) -> Seq<u8>;

/// The error that `rand_core` reports when the operating system's random
/// source cannot be read.
#[verifier::external_type_specification]
#[verifier::external_body]
pub struct ExRandError(aes_gcm::aead::rand_core::Error);

/// Relies on `OsRng::try_fill_bytes`: on success every byte of `buf` has been
/// drawn from the operating system's secure random source; on failure the source
/// could not be read. It never panics and never changes the length of `buf`.
#[verifier::external_body]
pub(crate) fn fill_from_os(buf: &mut Vec<u8>) -> (r: Result<(), aes_gcm::aead::rand_core::Error>)
    ensures
        final(buf)@.len() == old(buf)@.len(),
{
    OsRng.try_fill_bytes(buf.as_mut_slice())
}

/// Relies on `KeyInit::new` and `Aead::encrypt` of `Aes256Gcm`: encryption with no
/// associated data fails exactly when the plaintext is longer than `P_MAX`
/// (2^36 bytes); otherwise the plaintext is encrypted in counter mode, which
/// keeps its length, and the 16-byte tag is appended.
#[verifier::external_body]
pub(crate) fn aes256_gcm_encrypt(key: &[u8], nonce: &[u8], plaintext: &[u8]) -> (r: Result<Vec<u8>, aes_gcm::Error>)
    requires
        key@.len() == KEY_LEN,
        nonce@.len() == NONCE_LEN,
    ensures
        r is Ok <==> plaintext@.len() <= MAX_PLAINTEXT_LEN,
        r is Ok ==> r->Ok_0@ == aes256_gcm_sealed(key@, nonce@, plaintext@),
        r is Ok ==> r->Ok_0@.len() == plaintext@.len() + TAG_LEN,
{
    let cipher = Aes256Gcm::new(Key::<Aes256Gcm>::from_slice(key));
    cipher.encrypt(Nonce::from_slice(nonce), plaintext)
}

} // verus!
