//! Session-key derivation: HKDF-SHA256 expansion of an ECDH shared secret
//! into a 32-byte AEAD key and a 24-byte base nonce, under a fixed
//! protocol-version label for domain separation.

use vstd::prelude::*;

verus! {

/// Length in bytes of a derived AEAD key.
pub const AEAD_KEY_LEN: usize = 32;

/// Length in bytes of a derived base nonce (an XChaCha20 nonce).
pub const AEAD_NONCE_LEN: usize = 24;

/// The output keying material of an HKDF-SHA256 expansion (extract with no
/// salt, then expand) of `ikm` under the label `info`, truncated to
/// `out_len` bytes.
pub uninterp spec fn hkdf_okm_of(ikm: Seq<u8>, info: Seq<u8>, out_len: nat) -> Seq<u8>;

/// The fixed ASCII info label of this protocol version, "globalsend v1".
/// Changing it is a breaking protocol change: every derived key changes
/// with it (domain separation).
pub open spec fn protocol_label() -> Seq<u8> {
    seq![
        103u8, 108u8, 111u8, 98u8, 97u8, 108u8, 115u8, 101u8, 110u8, 100u8, 32u8, 118u8, 49u8,
    ]
}

/// The AEAD key derived from a shared secret: the leading 32 bytes of the
/// expanded keying material.
pub open spec fn derived_key_of(shared_secret: Seq<u8>) -> Seq<u8> {
    hkdf_okm_of(shared_secret, protocol_label(), 56).take(32)
}

/// The base nonce derived from a shared secret: the trailing 24 bytes of
/// the same expanded keying material.
pub open spec fn derived_base_nonce_of(shared_secret: Seq<u8>) -> Seq<u8> {
    hkdf_okm_of(shared_secret, protocol_label(), 56).skip(32)
}

/// Relies on hkdf::Hkdf::<sha2::Sha256>::new (extract with no salt) and
/// expand: the output keying material is a function of the input keying
/// material and the info label alone, and expand fails exactly when more
/// than 255 * 32 bytes are requested.
#[verifier::external_body]
fn hkdf_sha256_expand(ikm: &[u8], info: &[u8], out_len: usize) -> (r: Option<Vec<u8>>)
    ensures
        match r {
            Some(okm) => {
                &&& okm@ == hkdf_okm_of(ikm@, info@, out_len as nat)
                &&& okm@.len() == out_len
                &&& out_len <= 8160
            },
            None => out_len > 8160,
        },
{
    let hk = hkdf::Hkdf::<sha2::Sha256>::new(None, ikm);
    let mut okm = vec![0u8; out_len];
    match hk.expand(info, &mut okm) {
        Ok(()) => Some(okm),
        Err(_) => None,
    }
}

/// Derive the session's AEAD key and base nonce from an ECDH shared secret
/// by one HKDF-SHA256 expansion under the fixed protocol label: the leading
/// 32 bytes of the keying material are the key, the trailing 24 the base
/// nonce.
pub fn derive_aead(shared_secret: &[u8]) -> (r: ([u8; 32], [u8; 24]))
    ensures
        r.0@ == derived_key_of(shared_secret@),
        r.1@ == derived_base_nonce_of(shared_secret@),
{
    let info: [u8; 13] = [103, 108, 111, 98, 97, 108, 115, 101, 110, 100, 32, 118, 49];
    proof {
        assert(info@ =~= protocol_label());
    }
    let okm = match hkdf_sha256_expand(shared_secret, &info, 56) {
        Some(okm) => okm,
        None => {
            proof {
                assert(false);
            }
            vstd::pervasive::unreached()
        },
    };
    let mut key = [0u8; 32];
    let mut i: usize = 0;
    while i < 32
        invariant
            i <= 32,
            okm@.len() == 56,
            forall|j: int| 0 <= j < i ==> key@[j] == okm@[j],
        decreases 32 - i,
    {
        key[i] = okm[i];
        i = i + 1;
    }
    let mut base_nonce = [0u8; 24];
    let mut k: usize = 0;
    while k < 24
        invariant
            k <= 24,
            okm@.len() == 56,
            forall|j: int| 0 <= j < k ==> base_nonce@[j] == okm@[32 + j],
        decreases 24 - k,
    {
        base_nonce[k] = okm[32 + k];
        k = k + 1;
    }
    proof {
        assert(key@ =~= derived_key_of(shared_secret@));
        assert(base_nonce@ =~= derived_base_nonce_of(shared_secret@));
    }
    (key, base_nonce)
}

/// Derivation determinism: the derived key and base nonce are a function of
/// the shared secret alone, so the two endpoints of a session, holding the
/// same shared secret, derive identical key material.
pub proof fn lemma_derive_deterministic(s1: Seq<u8>, s2: Seq<u8>)
    requires
        s1 == s2,
    ensures
        derived_key_of(s1) == derived_key_of(s2),
        derived_base_nonce_of(s1) == derived_base_nonce_of(s2),
{
}

} // verus!
