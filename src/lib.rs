//! Local cryptographic identities and end-to-end message encryption.
//!
//! A user owns a keypair on the Ed25519 curve. The private half is kept at
//! rest under a passphrase (PBKDF2-HMAC-SHA256 and AES-256-CBC), and messages
//! are sealed to a recipient with a fresh ephemeral Diffie-Hellman exchange.

pub mod error;
pub mod encoding;
pub mod primitives;
pub mod keyring;
pub mod e2ee;
