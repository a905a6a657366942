//! Authenticated encryption of steganographic payloads with AES-256-GCM.
//!
//! Each payload is sealed under a fresh 256-bit key and a fresh 96-bit nonce.
//! The result is the encrypted payload followed by a 128-bit tag.

pub mod gcm;
pub mod payload;
