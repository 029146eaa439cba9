//! Cryptographic core of a peer-to-peer transfer protocol: X25519 device
//! keys and Diffie-Hellman agreement, HKDF-SHA256 session-key derivation,
//! counter-based nonce sequencing, and XChaCha20-Poly1305 message protection.

pub mod aead;
pub mod derive;
pub mod keys;
pub mod nonce;

pub use aead::aead_decrypt;
pub use aead::aead_encrypt;
pub use aead::messages_recover_at_own_counter;
pub use aead::AeadError;
pub use derive::derive_aead;
pub use derive::lemma_derive_deterministic;
pub use derive::AEAD_KEY_LEN;
pub use derive::AEAD_NONCE_LEN;
pub use keys::shared_secrets_agree;
pub use keys::DeviceKey;
pub use nonce::lemma_next_nonce_injective;
pub use nonce::next_nonce;
