//! Key custody and transaction signing for a small wallet client.
//!
//! The crate holds the part of a wallet that decides: which network a
//! signature is bound to, how a secret key is parsed, generated, locked
//! under a password and unlocked again, what is signed for a message and for
//! a transfer, and what becomes of a transfer once the provider has answered.
//! Talking to a node is left to the caller.

pub mod errors;
pub mod network;
pub mod hex;
pub mod scalar;
pub mod text;
pub mod entropy;
pub mod key;
pub mod kdf;
pub mod aead;
pub mod bytes;
pub mod vault;
pub mod security;
pub mod signature;
pub mod transfer;
pub mod message;
pub mod ethereum;
pub mod identity;
pub mod authorizer;
pub mod provider;
