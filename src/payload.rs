//! Sealing a payload before it is hidden in a carrier.

use crate::gcm::{
    aes256_gcm_encrypt, aes256_gcm_sealed, fill_from_os, KEY_LEN, MAX_PLAINTEXT_LEN,
    NONCE_LEN, TAG_LEN,
};
use vstd::prelude::*;

verus! {

/// Why a payload could not be sealed.
#[derive(Debug, Clone, Copy, PartialEq, Eq, Structural)]
pub enum EncryptionError {
    /// The cipher refused its inputs (a key or nonce of the wrong length, or a
    /// plaintext longer than AES-GCM allows), or the secure random source that
    /// the key and nonce are drawn from could not be read.
    EncryptionFailure,
}

/// Whether AES-256-GCM accepts this key, nonce and plaintext.
pub open spec fn sealable(key: Seq<u8>, nonce: Seq<u8>, plaintext: Seq<u8>) -> bool {
    &&& key.len() == KEY_LEN
    &&& nonce.len() == NONCE_LEN
    &&& plaintext.len() <= MAX_PLAINTEXT_LEN
}

/// The ciphertext of `plaintext` under some key and nonce of the right lengths.
pub open spec fn sealed_under_some_key(ciphertext: Seq<u8>, plaintext: Seq<u8>) -> bool {
    exists|key: Seq<u8>, nonce: Seq<u8>|
        #![trigger aes256_gcm_sealed(key, nonce, plaintext)]
        key.len() == KEY_LEN && nonce.len() == NONCE_LEN
            && ciphertext == aes256_gcm_sealed(key, nonce, plaintext)
}

/// `r` is the outcome of sealing `plaintext` under `key` and `nonce`: the
/// AES-256-GCM output when the cipher accepts the three, the failure otherwise.
pub open spec fn seals_to(
    key: Seq<u8>,
    nonce: Seq<u8>,
    plaintext: Seq<u8>,
    r: Result<Vec<u8>, EncryptionError>,
) -> bool {
    match r {
        Ok(c) => sealable(key, nonce, plaintext) && c@ == aes256_gcm_sealed(key, nonce, plaintext),
        Err(e) => !sealable(key, nonce, plaintext) && e == EncryptionError::EncryptionFailure,
    }
}

/// With the key and nonce fixed, sealing is reproducible: two outcomes of
/// sealing the same plaintext agree, both failures or both the same bytes.
pub proof fn lemma_sealing_reproducible(
    key: Seq<u8>,
    nonce: Seq<u8>,
    plaintext: Seq<u8>,
    r1: Result<Vec<u8>, EncryptionError>,
    r2: Result<Vec<u8>, EncryptionError>,
)
    requires
        seals_to(key, nonce, plaintext, r1),
        seals_to(key, nonce, plaintext, r2),
    ensures
        r1 is Ok <==> r2 is Ok,
        r1 is Ok ==> r1->Ok_0@ == r2->Ok_0@,
        r1 is Err ==> r1 == r2,
{
}

/// `len` bytes drawn from the operating system's secure random source, or the
/// failure if it cannot be read.
fn random_bytes(len: usize) -> (r: Result<Vec<u8>, EncryptionError>)
    ensures
        r is Ok ==> r->Ok_0@.len() == len,
        r is Err ==> r->Err_0 == EncryptionError::EncryptionFailure,
{
    let mut buf: Vec<u8> = vec![0u8; len];
    match fill_from_os(&mut buf) {
        Ok(()) => Ok(buf),
        Err(_) => Err(EncryptionError::EncryptionFailure),
    }
}

/// Seals `plaintext` under the given key and nonce.
///
/// The result depends on the three arguments alone, so a caller that supplies
/// its own key and nonce (a fixed pair, in a test) gets reproducible output.
pub fn encrypt_with(key: &[u8], nonce: &[u8], plaintext: &[u8]) -> (r: Result<
    Vec<u8>,
    EncryptionError,
>)
    ensures
        seals_to(key@, nonce@, plaintext@, r),
        r is Ok ==> r->Ok_0@.len() == plaintext@.len() + TAG_LEN,
{
    if key.len() != KEY_LEN || nonce.len() != NONCE_LEN {
        return Err(EncryptionError::EncryptionFailure);
    }
    match aes256_gcm_encrypt(key, nonce, plaintext) {
        Ok(ciphertext) => Ok(ciphertext),
        Err(_) => Err(EncryptionError::EncryptionFailure),
    }
}

/// Seals `data` under a fresh random key and a fresh random nonce, both drawn
/// from the operating system's secure random source.
///
/// The key and the nonce are dropped when the call returns: the result cannot
/// be opened by anyone. A caller that must open it later generates the pair
/// itself and calls `encrypt_with`. A plaintext too long for AES-GCM is refused
/// before anything is drawn; otherwise the call fails only if the random source
/// cannot be read.
pub fn encrypt_payload(data: &[u8]) -> (r: Result<Vec<u8>, EncryptionError>)
    ensures
        data@.len() > MAX_PLAINTEXT_LEN ==> r is Err,
        r is Ok ==> data@.len() <= MAX_PLAINTEXT_LEN,
        r is Ok ==> r->Ok_0@.len() == data@.len() + TAG_LEN,
        r is Ok ==> sealed_under_some_key(r->Ok_0@, data@),
        r is Err ==> r->Err_0 == EncryptionError::EncryptionFailure,
{
    if data.len() as u64 > MAX_PLAINTEXT_LEN {
        return Err(EncryptionError::EncryptionFailure);
    }
    let key = match random_bytes(KEY_LEN) {
        Ok(k) => k,
        Err(e) => return Err(e),
    };
    let nonce = match random_bytes(NONCE_LEN) {
        Ok(n) => n,
        Err(e) => return Err(e),
    };
    let r = encrypt_with(key.as_slice(), nonce.as_slice(), data);
    proof {
        if r is Ok {
            assert(r->Ok_0@ == aes256_gcm_sealed(key@, nonce@, data@));
        }
    }
    r
}

} // verus!
