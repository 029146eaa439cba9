//! Message protection: XChaCha20-Poly1305 authenticated encryption, with
//! the per-message nonce taken from the session's base nonce and the
//! caller-supplied message counter.

use crate::nonce::nonce_of;
use crate::next_nonce;
use chacha20poly1305::aead::Aead;
use chacha20poly1305::KeyInit;
use vstd::prelude::*;

verus! {

/// Why an AEAD operation was refused.
#[derive(Clone, Copy, Debug, PartialEq, Eq)]
pub enum AeadError {
    /// Tag verification failed on decrypt: wrong key, wrong counter,
    /// tampered ciphertext, or mismatched associated data. Carries no
    /// further detail, so that failures cannot be told apart.
    AuthenticationFailure,
    /// The input cannot be a well-formed message at all: a ciphertext
    /// shorter than the 16-byte tag, or a plaintext beyond the cipher's
    /// block-count limit.
    MalformedInput,
}

/// The XChaCha20-Poly1305 sealing of `plaintext` under `key` and `nonce`,
/// bound to the associated data `aad`: the encrypted message followed by
/// the 16-byte authentication tag.
pub uninterp spec fn xchacha_seal_of(key: Seq<u8>, nonce: Seq<u8>, aad: Seq<u8>, plaintext: Seq<u8>) -> Seq<u8>;

/// The XChaCha20-Poly1305 opening of `ciphertext` under `key` and `nonce`,
/// bound to the associated data `aad`: the recovered plaintext when the
/// authentication tag verifies, nothing otherwise.
pub uninterp spec fn xchacha_open_of(key: Seq<u8>, nonce: Seq<u8>, aad: Seq<u8>, ciphertext: Seq<u8>) -> Option<Seq<u8>>;

/// What decrypting `ciphertext` at message `counter` of the session
/// `(key, base_nonce)` yields: the plaintext when the tag verifies under
/// the counter's nonce and the same associated data, nothing otherwise.
pub open spec fn decryption_of(
    key: Seq<u8>,
    base_nonce: Seq<u8>,
    counter: u64,
    aad: Seq<u8>,
    ciphertext: Seq<u8>,
) -> Option<Seq<u8>> {
    xchacha_open_of(key, nonce_of(base_nonce, counter), aad, ciphertext)
}

/// Relies on chacha20poly1305::XChaCha20Poly1305 (KeyInit::new, then
/// Aead::encrypt): the ciphertext is the encrypted message followed by the
/// 16-byte Poly1305 tag, a function of key, nonce, associated data and
/// plaintext alone; encryption is refused exactly when the message spans
/// 2^32 - 1 or more 64-byte blocks; and the crate's own decrypt, given the
/// sealed result with the same parameters, verifies the tag and returns the
/// plaintext (AEAD correctness).
#[verifier::external_body]
fn xchacha_seal(key: &[u8; 32], nonce: &[u8; 24], aad: &[u8], plaintext: &[u8]) -> (r: Option<Vec<u8>>)
    ensures
        match r {
            Some(ct) => {
                &&& ct@ == xchacha_seal_of(key@, nonce@, aad@, plaintext@)
                &&& ct@.len() == plaintext@.len() + 16
                &&& xchacha_open_of(key@, nonce@, aad@, ct@) == Some(plaintext@)
            },
            None => plaintext@.len() / 64 >= 0xffff_ffff,
        },
{
    let cipher = chacha20poly1305::XChaCha20Poly1305::new(chacha20poly1305::Key::from_slice(key));
    let payload = chacha20poly1305::aead::Payload { msg: plaintext, aad };
    match cipher.encrypt(chacha20poly1305::XNonce::from_slice(nonce), payload) {
        Ok(ct) => Some(ct),
        Err(_) => None,
    }
}

/// Relies on chacha20poly1305::XChaCha20Poly1305 (KeyInit::new, then
/// Aead::decrypt): verifies the trailing 16-byte tag against key, nonce,
/// associated data and ciphertext, and only then decrypts; the outcome is a
/// function of those four inputs alone, and no plaintext comes back when
/// the tag does not verify, in particular never from a ciphertext shorter
/// than the tag.
#[verifier::external_body]
fn xchacha_open(key: &[u8; 32], nonce: &[u8; 24], aad: &[u8], ciphertext: &[u8]) -> (r: Option<Vec<u8>>)
    ensures
        match r {
            Some(pt) => {
                &&& xchacha_open_of(key@, nonce@, aad@, ciphertext@) == Some(pt@)
                &&& pt@.len() + 16 == ciphertext@.len()
            },
            None => xchacha_open_of(key@, nonce@, aad@, ciphertext@) is None,
        },
        ciphertext@.len() < 16 ==> r is None,
{
    let cipher = chacha20poly1305::XChaCha20Poly1305::new(chacha20poly1305::Key::from_slice(key));
    let payload = chacha20poly1305::aead::Payload { msg: ciphertext, aad };
    match cipher.decrypt(chacha20poly1305::XNonce::from_slice(nonce), payload) {
        Ok(pt) => Some(pt),
        Err(_) => None,
    }
}

/// Encrypt one message at position `counter` of the session
/// `(key, base_nonce)`, binding `aad` into the authentication tag without
/// encrypting it.
///
/// The result is the encrypted message followed by the 16-byte tag, a
/// function of the five inputs alone; the last clause of the `Ok` case is
/// the round trip: decrypting the result at the same counter with the same
/// associated data recovers the plaintext exactly. The caller owns the
/// counter and must never reuse a value within one session: by nonce
/// injectivity, fresh counters make fresh nonces.
pub fn aead_encrypt(
    key: &[u8; 32],
    base_nonce: &[u8; 24],
    counter: u64,
    aad: &[u8],
    plaintext: &[u8],
) -> (r: Result<Vec<u8>, AeadError>)
    ensures
        match r {
            Ok(ct) => {
                &&& ct@ == xchacha_seal_of(key@, nonce_of(base_nonce@, counter), aad@, plaintext@)
                &&& ct@.len() == plaintext@.len() + 16
                &&& decryption_of(key@, base_nonce@, counter, aad@, ct@) == Some(plaintext@)
            },
            Err(e) => {
                &&& e == AeadError::MalformedInput
                &&& plaintext@.len() / 64 >= 0xffff_ffff
            },
        },
{
    let nonce = next_nonce(base_nonce, counter);
    match xchacha_seal(key, &nonce, aad, plaintext) {
        Some(ct) => Ok(ct),
        None => Err(AeadError::MalformedInput),
    }
}

/// Decrypt the message at position `counter` of the session
/// `(key, base_nonce)`, verifying the authentication tag and the binding
/// to `aad` before revealing any plaintext.
///
/// Exactly the ciphertexts sealed under this key, this counter's nonce and
/// this associated data are accepted; anything else is refused whole — no
/// partial plaintext is ever returned. A ciphertext shorter than the
/// 16-byte tag cannot be a message at all and is reported as malformed.
pub fn aead_decrypt(
    key: &[u8; 32],
    base_nonce: &[u8; 24],
    counter: u64,
    aad: &[u8],
    ciphertext: &[u8],
) -> (r: Result<Vec<u8>, AeadError>)
    ensures
        match r {
            Ok(pt) => {
                &&& decryption_of(key@, base_nonce@, counter, aad@, ciphertext@) == Some(pt@)
                &&& pt@.len() + 16 == ciphertext@.len()
            },
            Err(AeadError::MalformedInput) => ciphertext@.len() < 16,
            Err(AeadError::AuthenticationFailure) => {
                &&& ciphertext@.len() >= 16
                &&& decryption_of(key@, base_nonce@, counter, aad@, ciphertext@) is None
            },
        },
{
    if ciphertext.len() < 16 {
        return Err(AeadError::MalformedInput);
    }
    let nonce = next_nonce(base_nonce, counter);
    match xchacha_open(key, &nonce, aad, ciphertext) {
        Some(pt) => Ok(pt),
        None => Err(AeadError::AuthenticationFailure),
    }
}

/// Cross-counter non-interference, the recovery direction: two messages
/// encrypted under one session's key and base nonce at different counters
/// each decrypt, at their own counter, back to their own plaintext. The
/// contract pins the path, not only the end values: each returned
/// plaintext is what decryption yields on the sealing of its message at
/// its own counter.
pub fn messages_recover_at_own_counter(
    key: &[u8; 32],
    base_nonce: &[u8; 24],
    c1: u64,
    c2: u64,
    aad: &[u8],
    pt1: &[u8],
    pt2: &[u8],
) -> (r: Option<(Vec<u8>, Vec<u8>)>)
    requires
        c1 != c2,
    ensures
        match r {
            Some(p) => {
                &&& decryption_of(
                    key@,
                    base_nonce@,
                    c1,
                    aad@,
                    xchacha_seal_of(key@, nonce_of(base_nonce@, c1), aad@, pt1@),
                ) == Some(p.0@)
                &&& decryption_of(
                    key@,
                    base_nonce@,
                    c2,
                    aad@,
                    xchacha_seal_of(key@, nonce_of(base_nonce@, c2), aad@, pt2@),
                ) == Some(p.1@)
                &&& p.0@ == pt1@
                &&& p.1@ == pt2@
            },
            None => pt1@.len() / 64 >= 0xffff_ffff || pt2@.len() / 64 >= 0xffff_ffff,
        },
{
    let ct1 = match aead_encrypt(key, base_nonce, c1, aad, pt1) {
        Ok(ct) => ct,
        Err(_) => {
            return None;
        },
    };
    let ct2 = match aead_encrypt(key, base_nonce, c2, aad, pt2) {
        Ok(ct) => ct,
        Err(_) => {
            return None;
        },
    };
    let p1 = match aead_decrypt(key, base_nonce, c1, aad, ct1.as_slice()) {
        Ok(pt) => pt,
        Err(_) => {
            proof {
                assert(false);
            }
            vstd::pervasive::unreached()
        },
    };
    let p2 = match aead_decrypt(key, base_nonce, c2, aad, ct2.as_slice()) {
        Ok(pt) => pt,
        Err(_) => {
            proof {
                assert(false);
            }
            vstd::pervasive::unreached()
        },
    };
    Some((p1, p2))
}

} // verus!
