//! Device keypairs: X25519 secret scalar generation, public-point
//! projection, and Diffie-Hellman agreement on a shared secret.

use vstd::prelude::*;

verus! {

/// The X25519 public point derived from a 32-byte secret scalar: the
/// clamped scalar times the curve's basepoint, in byte encoding.
pub uninterp spec fn x25519_public_of(secret: Seq<u8>) -> Seq<u8>;

/// The X25519 shared point computed from one party's 32-byte secret scalar
/// and the other party's public point, in byte encoding.
pub uninterp spec fn x25519_shared_of(secret: Seq<u8>, peer_public: Seq<u8>) -> Seq<u8>;

/// Relies on rand_core::OsRng (RngCore::fill_bytes): fills the buffer from
/// the operating system's secure random source. Nothing is assumed of the
/// value drawn.
#[verifier::external_body]
fn random_scalar_bytes() -> (r: [u8; 32])
{
    let mut bytes = [0u8; 32];
    rand_core::RngCore::fill_bytes(&mut rand_core::OsRng, &mut bytes);
    bytes
}

/// Relies on x25519_dalek::PublicKey::from(&StaticSecret): the public point
/// is a function of the secret scalar alone (the clamped scalar times the
/// basepoint, canonically encoded).
#[verifier::external_body]
fn x25519_public_bytes(secret: &[u8; 32]) -> (r: [u8; 32])
    ensures
        r@ == x25519_public_of(secret@),
{
    let sk = x25519_dalek::StaticSecret::from(*secret);
    x25519_dalek::PublicKey::from(&sk).to_bytes()
}

/// Relies on x25519_dalek::StaticSecret::diffie_hellman (equally the crate's
/// byte-oriented x25519 function): the shared point is a function of the two
/// arguments alone. The second clause is the documented Diffie-Hellman
/// agreement guarantee: when the peer's point is the public point of some
/// scalar, both parties' computations meet in the same shared point, because
/// each is the product of the two clamped scalars with the (torsion-free)
/// basepoint, canonically encoded.
#[verifier::external_body]
fn x25519_shared_bytes(secret: &[u8; 32], peer_public: &[u8; 32]) -> (r: [u8; 32])
    ensures
        r@ == x25519_shared_of(secret@, peer_public@),
        forall|other: Seq<u8>|
            other.len() == 32 && peer_public@ == #[trigger] x25519_public_of(other)
                ==> r@ == x25519_shared_of(other, x25519_public_of(secret@)),
{
    let sk = x25519_dalek::StaticSecret::from(*secret);
    let pk = x25519_dalek::PublicKey::from(*peer_public);
    sk.diffie_hellman(&pk).to_bytes()
}

/// Relies on zeroize::Zeroize for byte arrays: overwrites the buffer with
/// zeros, through a write the compiler will not elide away.
#[verifier::external_body]
fn zeroize_bytes(bytes: &mut [u8; 32])
    ensures
        final(bytes)@ == Seq::new(32, |i: int| 0u8),
{
    zeroize::Zeroize::zeroize(bytes);
}

/// A device's X25519 keypair. Owns the secret scalar; exposes only the
/// public point and the Diffie-Hellman operation.
pub struct DeviceKey {
    secret: [u8; 32],
}

impl DeviceKey {
    /// The secret scalar, visible to specifications only.
    pub closed spec fn secret_bytes(&self) -> Seq<u8> {
        self.secret@
    }

    /// Generate a new device keypair from the system's secure random
    /// source.
    pub fn generate() -> (r: Self)
        ensures
            r.secret_bytes().len() == 32,
    {
        DeviceKey { secret: random_scalar_bytes() }
    }

    /// The public point of this device key.
    pub fn public(&self) -> (r: [u8; 32])
        ensures
            r@ == x25519_public_of(self.secret_bytes()),
    {
        x25519_public_bytes(&self.secret)
    }

    /// Compute the Diffie-Hellman shared secret with a peer's public point.
    ///
    /// The second clause is agreement: if the peer's point is the public
    /// point of some scalar, the result equals what that scalar's owner
    /// computes from this device's public point.
    pub fn ecdh(&self, peer: &[u8; 32]) -> (r: [u8; 32])
        ensures
            r@ == x25519_shared_of(self.secret_bytes(), peer@),
            forall|other: Seq<u8>|
                other.len() == 32 && peer@ == #[trigger] x25519_public_of(other)
                    ==> r@ == x25519_shared_of(other, x25519_public_of(self.secret_bytes())),
    {
        x25519_shared_bytes(&self.secret, peer)
    }

    /// Dispose of this device key: actively overwrite the secret scalar
    /// with zeros. To be called when the key goes out of use, on every
    /// path; afterwards the key holds no secret any more.
    pub fn dispose(&mut self)
        ensures
            final(self).secret_bytes() == Seq::new(32, |i: int| 0u8),
    {
        zeroize_bytes(&mut self.secret);
    }
}

/// ECDH symmetry: two devices that exchange public points compute the same
/// shared secret. The result carries each party's own computation — the
/// Diffie-Hellman product of its secret scalar with the other's public
/// point — and the two are equal.
pub fn shared_secrets_agree(a: &DeviceKey, b: &DeviceKey) -> (r: ([u8; 32], [u8; 32]))
    ensures
        r.0@ == x25519_shared_of(a.secret_bytes(), x25519_public_of(b.secret_bytes())),
        r.1@ == x25519_shared_of(b.secret_bytes(), x25519_public_of(a.secret_bytes())),
        r.0@ == r.1@,
{
    let public_a = a.public();
    let public_b = b.public();
    let shared_a = a.ecdh(&public_b);
    let shared_b = b.ecdh(&public_a);
    (shared_a, shared_b)
}

} // verus!
