//! Client-side core of a binary messaging protocol: a compact binary XML
//! codec with dictionary-based string compression, and a Noise-XX secure
//! channel (X25519, HKDF-SHA256, AES-256-GCM) that authenticates a static
//! key pair and yields a pair of directional transport ciphers.

pub mod bytes_util;
pub mod cipher;
pub mod decoder;
pub mod encoder;
pub mod framer;
pub mod hkdf;
pub mod jid;
pub mod keypair;
pub mod node;
pub mod message;
pub mod noise;
pub mod numfmt;
pub mod request;
pub mod roundtrip;
pub mod servers;
pub mod tokens;

pub use jid::JID;

pub use bytes_util::{bytes_eq, str_eq};
