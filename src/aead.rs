//! Authenticated encryption with XChaCha20-Poly1305.
use vstd::prelude::*;

use crate::engine::{
    aead_failure_text, engine_open, engine_seal, random_xchacha_key, random_xchacha_nonce,
    xchacha_open, xchacha_seal, XCHACHA_MAX_PLAINTEXT_SIZE,
};
use crate::error::{
    bytes_result, check_length, crypto_error_to_facade, is_engine_failure, length_error, FacadeError,
    Field,
};
use crate::{XCHACHA_KEY_SIZE, XCHACHA_MAC_SIZE, XCHACHA_NONCE_SIZE};

verus! {

/// Associated data as the engine sees it: absent is the empty sequence.
pub open spec fn aad_of(associated_data: Option<&[u8]>) -> Seq<u8> {
    match associated_data {
        Some(ad) => ad@,
        None => Seq::empty(),
    }
}

/// The validation of a key and a nonce that comes before any AEAD work: the
/// key is checked first.
pub open spec fn aead_input_check(key: Seq<u8>, nonce: Seq<u8>) -> Result<(), FacadeError> {
    if key.len() != XCHACHA_KEY_SIZE as nat {
        Err(length_error(Field::Key, XCHACHA_KEY_SIZE as nat, key.len()))
    } else if nonce.len() != XCHACHA_NONCE_SIZE as nat {
        Err(length_error(Field::Nonce, XCHACHA_NONCE_SIZE as nat, nonce.len()))
    } else {
        Ok(())
    }
}

/// The failure for a plaintext longer than the cipher can process.
pub const PLAINTEXT_TOO_LONG: &'static str = "Encryption failed: plaintext exceeds the cipher's length limit";

/// The failure for a ciphertext longer than the cipher can process.
pub const CIPHERTEXT_TOO_LONG: &'static str = "Decryption failed: ciphertext exceeds the cipher's length limit";

/// What `xchacha_encrypt` returns, over views: the length error of the key or
/// nonce; else, past the cipher's length limit, an engine failure; else the
/// engine's ciphertext, 16 bytes longer than the plaintext and decrypting back
/// to it.
pub open spec fn encrypt_outcome(
    key: Seq<u8>,
    nonce: Seq<u8>,
    plaintext: Seq<u8>,
    aad: Seq<u8>,
    r: Result<Seq<u8>, FacadeError>,
) -> bool {
    match aead_input_check(key, nonce) {
        Err(e) => r == Err::<Seq<u8>, FacadeError>(e),
        Ok(_) => if plaintext.len() > XCHACHA_MAX_PLAINTEXT_SIZE {
            is_engine_failure(r, PLAINTEXT_TOO_LONG@)
        } else {
            match r {
                Ok(c) => {
                    &&& c == xchacha_seal(key, nonce, plaintext, aad)
                    &&& c.len() == plaintext.len() + XCHACHA_MAC_SIZE as nat
                    &&& xchacha_open(key, nonce, c, aad) == Some(plaintext)
                },
                Err(_) => false,
            }
        },
    }
}

/// What `xchacha_decrypt` returns, over views: the length error of the key or
/// nonce; else, past the cipher's length limit, an engine failure; else the
/// plaintext where the engine verifies the tag, and the engine's
/// authentication failure where it does not.
pub open spec fn decrypt_outcome(
    key: Seq<u8>,
    nonce: Seq<u8>,
    ciphertext: Seq<u8>,
    aad: Seq<u8>,
    r: Result<Seq<u8>, FacadeError>,
) -> bool {
    match aead_input_check(key, nonce) {
        Err(e) => r == Err::<Seq<u8>, FacadeError>(e),
        Ok(_) => if ciphertext.len() > XCHACHA_MAX_PLAINTEXT_SIZE + XCHACHA_MAC_SIZE {
            is_engine_failure(r, CIPHERTEXT_TOO_LONG@)
        } else {
            match xchacha_open(key, nonce, ciphertext, aad) {
                Some(p) => {
                    &&& r == Ok::<Seq<u8>, FacadeError>(p)
                    &&& p.len() + XCHACHA_MAC_SIZE as nat == ciphertext.len()
                },
                None => is_engine_failure(r, aead_failure_text()),
            }
        },
    }
}

fn aad_slice(associated_data: Option<&[u8]>) -> (r: &[u8])
    ensures
        r@ == aad_of(associated_data),
{
    match associated_data {
        Some(ad) => ad,
        None => &[],
    }
}

fn check_aead_inputs(key: &[u8], nonce: &[u8]) -> (r: Result<(), FacadeError>)
    ensures
        r == aead_input_check(key@, nonce@),
{
    check_length(Field::Key, XCHACHA_KEY_SIZE, key)?;
    check_length(Field::Nonce, XCHACHA_NONCE_SIZE, nonce)?;
    Ok(())
}

/// A fresh random 32-byte key.
pub fn generate_xchacha_key() -> (r: Vec<u8>)
    ensures
        r@.len() == XCHACHA_KEY_SIZE as nat,
{
    random_xchacha_key()
}

/// A fresh random 24-byte nonce.
pub fn generate_xchacha_nonce() -> (r: Vec<u8>)
    ensures
        r@.len() == XCHACHA_NONCE_SIZE as nat,
{
    random_xchacha_nonce()
}

/// Encrypts `plaintext` under `key` and `nonce`, authenticating
/// `associated_data` (absent counts as empty) without including it.
///
/// A key that is not 32 bytes, then a nonce that is not 24 bytes, fails with
/// `InvalidLength` before any encryption. A plaintext longer than
/// `XCHACHA_MAX_PLAINTEXT_SIZE` fails with `EngineFailure` and the message
/// `PLAINTEXT_TOO_LONG`. Otherwise the result is the engine's ciphertext, 16
/// bytes longer than the plaintext, which decrypts back to the plaintext under
/// the same key, nonce and associated data.
pub fn xchacha_encrypt(
    key: &[u8],
    nonce: &[u8],
    plaintext: &[u8],
    associated_data: Option<&[u8]>,
) -> (r: Result<Vec<u8>, FacadeError>)
    ensures
        encrypt_outcome(key@, nonce@, plaintext@, aad_of(associated_data), bytes_result(r)),
{
    check_aead_inputs(key, nonce)?;
    if plaintext.len() as u64 > XCHACHA_MAX_PLAINTEXT_SIZE {
        return Err(FacadeError::EngineFailure { message: PLAINTEXT_TOO_LONG.to_owned() });
    }
    let aad = aad_slice(associated_data);
    match engine_seal(key, nonce, plaintext, aad) {
        Ok(ciphertext) => Ok(ciphertext),
        Err(e) => Err(crypto_error_to_facade(e)),
    }
}

/// Decrypts `ciphertext` (body and tag) under `key` and `nonce`, with the
/// associated data given at encryption (absent counts as empty).
///
/// A key that is not 32 bytes, then a nonce that is not 24 bytes, fails with
/// `InvalidLength`. A ciphertext longer than `XCHACHA_MAX_PLAINTEXT_SIZE` plus
/// a tag fails with `EngineFailure` and the message `CIPHERTEXT_TOO_LONG`.
/// Otherwise the plaintext is returned exactly when the tag verifies; on any
/// mismatch (tampering, wrong key, nonce or associated data) the result is the
/// engine's one `EngineFailure`, and no plaintext comes back.
pub fn xchacha_decrypt(
    key: &[u8],
    nonce: &[u8],
    ciphertext: &[u8],
    associated_data: Option<&[u8]>,
) -> (r: Result<Vec<u8>, FacadeError>)
    ensures
        decrypt_outcome(key@, nonce@, ciphertext@, aad_of(associated_data), bytes_result(r)),
{
    check_aead_inputs(key, nonce)?;
    if ciphertext.len() as u64 > XCHACHA_MAX_PLAINTEXT_SIZE + XCHACHA_MAC_SIZE as u64 {
        return Err(FacadeError::EngineFailure { message: CIPHERTEXT_TOO_LONG.to_owned() });
    }
    let aad = aad_slice(associated_data);
    match engine_open(key, nonce, ciphertext, aad) {
        Ok(plaintext) => Ok(plaintext),
        Err(e) => Err(crypto_error_to_facade(e)),
    }
}

/// Decryption undoes encryption: whatever key, nonce, plaintext (empty
/// included) and associated data (absent included) gave a ciphertext,
/// decrypting that ciphertext with the same key, nonce and associated data
/// returns the plaintext.
pub proof fn lemma_round_trip(
    key: Seq<u8>,
    nonce: Seq<u8>,
    plaintext: Seq<u8>,
    aad: Seq<u8>,
    ciphertext: Seq<u8>,
    decrypted: Result<Seq<u8>, FacadeError>,
)
    requires
        encrypt_outcome(key, nonce, plaintext, aad, Ok(ciphertext)),
        decrypt_outcome(key, nonce, ciphertext, aad, decrypted),
    ensures
        decrypted == Ok::<Seq<u8>, FacadeError>(plaintext),
{
}

/// A key that is not 32 bytes or a nonce that is not 24 bytes makes both
/// encryption and decryption fail with `InvalidLength`, whatever the other
/// inputs.
pub proof fn lemma_aead_length_enforced(
    key: Seq<u8>,
    nonce: Seq<u8>,
    data: Seq<u8>,
    aad: Seq<u8>,
    encrypted: Result<Seq<u8>, FacadeError>,
    decrypted: Result<Seq<u8>, FacadeError>,
)
    requires
        key.len() != XCHACHA_KEY_SIZE as nat || nonce.len() != XCHACHA_NONCE_SIZE as nat,
        encrypt_outcome(key, nonce, data, aad, encrypted),
        decrypt_outcome(key, nonce, data, aad, decrypted),
    ensures
        encrypted is Err && encrypted->Err_0 is InvalidLength,
        decrypted is Err && decrypted->Err_0 is InvalidLength,
{
}

} // verus!
