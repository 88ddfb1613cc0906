//! A validated boundary over an authenticated cipher (XChaCha20-Poly1305) and a
//! post-quantum key-encapsulation mechanism (Kyber1024).
//!
//! Every fixed-size input is checked before the cryptographic engine is touched;
//! engine failures come back as a single `EngineFailure` kind with its message.
use vstd::prelude::*;

pub mod aead;
pub mod engine;
pub mod error;
pub mod kem;

pub use aead::{
    generate_xchacha_key, generate_xchacha_nonce, xchacha_decrypt, xchacha_encrypt, CIPHERTEXT_TOO_LONG,
    PLAINTEXT_TOO_LONG,
};
pub use engine::XCHACHA_MAX_PLAINTEXT_SIZE;
pub use error::{check_length, FacadeError, Field};
pub use kem::{
    generate_kyber_keypair, kyber_decapsulate, kyber_encapsulate, KyberEncapsulation, KyberKeyPair,
};

verus! {

/// Size in bytes of an XChaCha20-Poly1305 key.
pub const XCHACHA_KEY_SIZE: u32 = 32;

/// Size in bytes of an XChaCha20-Poly1305 nonce.
pub const XCHACHA_NONCE_SIZE: u32 = 24;

/// Size in bytes of the authentication tag appended to every AEAD ciphertext.
pub const XCHACHA_MAC_SIZE: u32 = 16;

/// Size in bytes of a Kyber1024 public key.
pub const KYBER_PUBLIC_KEY_SIZE: u32 = 1568;

/// Size in bytes of a Kyber1024 secret key.
pub const KYBER_SECRET_KEY_SIZE: u32 = 3168;

/// Size in bytes of a Kyber1024 ciphertext.
pub const KYBER_CIPHERTEXT_SIZE: u32 = 1568;

/// Size in bytes of a Kyber1024 shared secret.
pub const KYBER_SHARED_SECRET_SIZE: u32 = 32;

} // verus!
