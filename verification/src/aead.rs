//! The two authenticated ciphers of the media transport.
use aes_gcm::aead::{Aead, KeyInit, Payload};
use aes_gcm::{Aes256Gcm, Nonce};
use chacha20poly1305::{XChaCha20Poly1305, XNonce};
use vstd::prelude::*;

verus! {

/// What `aes_gcm`'s `Aes256Gcm` encryption returns for a key, a nonce, associated
/// data and a plaintext: the ciphertext with the tag behind it.
pub uninterp spec fn aes256_gcm_sealed(
    key: Seq<u8>,
    nonce: Seq<u8>,
    associated: Seq<u8>,
    plaintext: Seq<u8>,
) -> Seq<u8>;

/// What `aes_gcm`'s `Aes256Gcm` decryption returns for a key, a nonce, associated
/// data and a ciphertext with its tag; `None` where it reports an error.
pub uninterp spec fn aes256_gcm_opened(
    key: Seq<u8>,
    nonce: Seq<u8>,
    associated: Seq<u8>,
    ciphertext: Seq<u8>,
) -> Option<Seq<u8>>;

/// What `chacha20poly1305`'s `XChaCha20Poly1305` encryption returns for a key, a
/// nonce, associated data and a plaintext: the ciphertext with the tag behind it.
pub uninterp spec fn xchacha20_poly1305_sealed(
    key: Seq<u8>,
    nonce: Seq<u8>,
    associated: Seq<u8>,
    plaintext: Seq<u8>,
) -> Seq<u8>;

/// What `chacha20poly1305`'s `XChaCha20Poly1305` decryption returns for a key, a
/// nonce, associated data and a ciphertext with its tag; `None` where it reports
/// an error.
pub uninterp spec fn xchacha20_poly1305_opened(
    key: Seq<u8>,
    nonce: Seq<u8>,
    associated: Seq<u8>,
    ciphertext: Seq<u8>,
) -> Option<Seq<u8>>;

/// Whether `Aes256Gcm` encrypts inputs of these lengths.
pub open spec fn aes256_gcm_accepts(plaintext: nat, associated: nat) -> bool {
    plaintext <= 0xF_FFFF_FFE0 && associated <= 0x1FFF_FFFF_FFFF_FFFF
}

/// Whether `XChaCha20Poly1305` encrypts a plaintext of this length.
pub open spec fn xchacha20_poly1305_accepts(plaintext: nat) -> bool {
    plaintext / 64 < 0xFFFF_FFFF
}

/// Encrypts with `aes_gcm::Aes256Gcm` (`Aead::encrypt`).
///
/// Claimed of the crate: encryption fails exactly when the plaintext or the
/// associated data is longer than its limits; otherwise the output is a function
/// of the four inputs, is sixteen bytes longer than the plaintext, and decrypts to
/// the plaintext under the same key, nonce and associated data.
#[verifier::external_body]
pub(crate) fn aes256_gcm_seal(
    key: &[u8; 32],
    nonce: &[u8; 12],
    associated: &[u8],
    plaintext: &[u8],
) -> (sealed: Option<Vec<u8>>)
    ensures
        (sealed is Some) == aes256_gcm_accepts(plaintext@.len(), associated@.len()),
        sealed matches Some(bytes) ==> {
            &&& bytes@ == aes256_gcm_sealed(key@, nonce@, associated@, plaintext@)
            &&& bytes@.len() == plaintext@.len() + 16
            &&& aes256_gcm_opened(key@, nonce@, associated@, bytes@) == Some(plaintext@)
        },
{
    let payload = Payload { msg: plaintext, aad: associated };
    Aes256Gcm::new_from_slice(key).ok()?.encrypt(&Nonce::from(*nonce), payload).ok()
}

/// Decrypts with `aes_gcm::Aes256Gcm` (`Aead::decrypt`).
///
/// Claimed of the crate: the result is a function of the four inputs; a plaintext
/// comes out only of the ciphertext that encrypting it gives.
#[verifier::external_body]
pub(crate) fn aes256_gcm_open(
    key: &[u8; 32],
    nonce: &[u8; 12],
    associated: &[u8],
    ciphertext: &[u8],
) -> (opened: Option<Vec<u8>>)
    ensures
        match opened {
            Some(bytes) => aes256_gcm_opened(key@, nonce@, associated@, ciphertext@) == Some(
                bytes@,
            ),
            None => aes256_gcm_opened(key@, nonce@, associated@, ciphertext@) is None,
        },
        opened matches Some(bytes) ==> {
            &&& ciphertext@ == aes256_gcm_sealed(key@, nonce@, associated@, bytes@)
            &&& ciphertext@.len() == bytes@.len() + 16
        },
{
    let payload = Payload { msg: ciphertext, aad: associated };
    Aes256Gcm::new_from_slice(key).ok()?.decrypt(&Nonce::from(*nonce), payload).ok()
}

/// Encrypts with `chacha20poly1305::XChaCha20Poly1305` (`Aead::encrypt`).
///
/// Claimed of the crate: encryption fails exactly when the plaintext is longer
/// than its limit; otherwise the output is a function of the four inputs, is
/// sixteen bytes longer than the plaintext, and decrypts to the plaintext under the
/// same key, nonce and associated data.
#[verifier::external_body]
pub(crate) fn xchacha20_poly1305_seal(
    key: &[u8; 32],
    nonce: &[u8; 24],
    associated: &[u8],
    plaintext: &[u8],
) -> (sealed: Option<Vec<u8>>)
    ensures
        (sealed is Some) == xchacha20_poly1305_accepts(plaintext@.len()),
        sealed matches Some(bytes) ==> {
            &&& bytes@ == xchacha20_poly1305_sealed(key@, nonce@, associated@, plaintext@)
            &&& bytes@.len() == plaintext@.len() + 16
            &&& xchacha20_poly1305_opened(key@, nonce@, associated@, bytes@) == Some(plaintext@)
        },
{
    let payload = Payload { msg: plaintext, aad: associated };
    XChaCha20Poly1305::new_from_slice(key).ok()?.encrypt(&XNonce::from(*nonce), payload).ok()
}

/// Decrypts with `chacha20poly1305::XChaCha20Poly1305` (`Aead::decrypt`).
///
/// Claimed of the crate: the result is a function of the four inputs; a plaintext
/// comes out only of the ciphertext that encrypting it gives.
#[verifier::external_body]
pub(crate) fn xchacha20_poly1305_open(
    key: &[u8; 32],
    nonce: &[u8; 24],
    associated: &[u8],
    ciphertext: &[u8],
) -> (opened: Option<Vec<u8>>)
    ensures
        match opened {
            Some(bytes) => xchacha20_poly1305_opened(key@, nonce@, associated@, ciphertext@)
                == Some(bytes@),
            None => xchacha20_poly1305_opened(key@, nonce@, associated@, ciphertext@) is None,
        },
        opened matches Some(bytes) ==> {
            &&& ciphertext@ == xchacha20_poly1305_sealed(key@, nonce@, associated@, bytes@)
            &&& ciphertext@.len() == bytes@.len() + 16
        },
{
    let payload = Payload { msg: ciphertext, aad: associated };
    XChaCha20Poly1305::new_from_slice(key).ok()?.decrypt(&XNonce::from(*nonce), payload).ok()
}

} // verus!
