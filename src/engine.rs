//! The cryptographic engine, ever_crypto, behind `external_body` wrappers
//! whose contracts Verus takes as given.
//!
//! Each wrapper takes and returns plain bytes; the engine's key, nonce and
//! ciphertext types are built from those bytes inside it and never leave it,
//! and an engine error comes back as its text.
use vstd::prelude::*;

use ever_crypto::kyber::KyberCiphertext;
use ever_crypto::{
    KyberCrypto, KyberPublicKey, KyberSecretKey, XChaChaCrypto, XChaChaKey,
    XChaChaNonce,
};

verus! {

/// The ciphertext, tag included, that XChaCha20-Poly1305 makes of a plaintext
/// under a key, a nonce and associated data.
pub uninterp spec fn xchacha_seal(key: Seq<u8>, nonce: Seq<u8>, plaintext: Seq<u8>, aad: Seq<u8>) -> Seq<u8>;

/// What XChaCha20-Poly1305 decryption gives back: the plaintext where the tag
/// verifies, `None` where it does not.
pub uninterp spec fn xchacha_open(key: Seq<u8>, nonce: Seq<u8>, ciphertext: Seq<u8>, aad: Seq<u8>) -> Option<Seq<u8>>;

/// The shared secret that Kyber1024 decapsulation derives from a secret key and
/// a ciphertext (implicit rejection: a malformed ciphertext gives a value too).
pub uninterp spec fn kyber_shared_secret(secret_key: Seq<u8>, ciphertext: Seq<u8>) -> Seq<u8>;

/// The public and secret key were generated together as one Kyber1024 pair.
pub uninterp spec fn kyber_key_pair(public_key: Seq<u8>, secret_key: Seq<u8>) -> bool;

/// The longest plaintext the cipher can process: the keystream starts at block
/// 1 of a 32-bit block counter, so `u32::MAX - 1` blocks of 64 bytes remain.
pub const XCHACHA_MAX_PLAINTEXT_SIZE: u64 = 64 * (0xffff_ffff - 1);

/// The text of the engine's one decryption error: ever_crypto's
/// `DecryptionError` around aead's `Error`.
pub open spec fn aead_failure_text() -> Seq<char> {
    "Decryption failed: aead::Error"@
}

/// Every secret key paired with `public_key` recovers `shared_secret` from
/// `ciphertext`.
pub open spec fn encapsulates(public_key: Seq<u8>, ciphertext: Seq<u8>, shared_secret: Seq<u8>) -> bool {
    forall|secret_key: Seq<u8>|
        #[trigger] kyber_key_pair(public_key, secret_key) ==> kyber_shared_secret(secret_key, ciphertext)
            == shared_secret
}

/// Relies on `XChaChaKey::generate`: 32 bytes drawn from the operating system's
/// random source.
#[verifier::external_body]
pub(crate) fn random_xchacha_key() -> (r: Vec<u8>)
    ensures
        r@.len() == 32,
{
    XChaChaKey::generate().as_bytes().to_vec()
}

/// Relies on `XChaChaNonce::generate`: 24 bytes drawn from the operating
/// system's random source.
#[verifier::external_body]
pub(crate) fn random_xchacha_nonce() -> (r: Vec<u8>)
    ensures
        r@.len() == 24,
{
    XChaChaNonce::generate().as_bytes().to_vec()
}

/// Relies on `XChaChaCrypto::encrypt` (with `XChaChaKey::from_bytes` and
/// `XChaChaNonce::from_bytes`, which accept any input of the right length):
/// within the cipher's length limit it succeeds with the ciphertext followed by
/// a 16-byte tag, and decryption with the same key, nonce and associated data
/// gives the plaintext back.
#[verifier::external_body]
pub(crate) fn engine_seal(key: &[u8], nonce: &[u8], plaintext: &[u8], aad: &[u8]) -> (r: Result<Vec<u8>, String>)
    requires
        key@.len() == 32,
        nonce@.len() == 24,
        plaintext@.len() <= XCHACHA_MAX_PLAINTEXT_SIZE,
    ensures
        r is Ok,
        r is Ok ==> r->Ok_0@ == xchacha_seal(key@, nonce@, plaintext@, aad@),
        r is Ok ==> r->Ok_0@.len() == plaintext@.len() + 16,
        r is Ok ==> xchacha_open(key@, nonce@, r->Ok_0@, aad@) == Some(plaintext@),
{
    let key = XChaChaKey::from_bytes(key).map_err(|e| e.to_string())?;
    let nonce = XChaChaNonce::from_bytes(nonce).map_err(|e| e.to_string())?;
    XChaChaCrypto::encrypt(&key, &nonce, plaintext, Some(aad)).map_err(|e| e.to_string())
}

/// Relies on `XChaChaCrypto::decrypt` (with `XChaChaKey::from_bytes` and
/// `XChaChaNonce::from_bytes`): within the cipher's length limit, the plaintext
/// where the tag verifies, which is the input less its 16-byte tag; else the
/// engine's one decryption error, whose text is fixed.
#[verifier::external_body]
pub(crate) fn engine_open(key: &[u8], nonce: &[u8], ciphertext: &[u8], aad: &[u8]) -> (r: Result<Vec<u8>, String>)
    requires
        key@.len() == 32,
        nonce@.len() == 24,
        ciphertext@.len() <= XCHACHA_MAX_PLAINTEXT_SIZE + 16,
    ensures
        r is Ok <==> xchacha_open(key@, nonce@, ciphertext@, aad@) is Some,
        r is Ok ==> xchacha_open(key@, nonce@, ciphertext@, aad@) == Some(r->Ok_0@),
        r is Ok ==> r->Ok_0@.len() + 16 == ciphertext@.len(),
        r is Err ==> r->Err_0@ == aead_failure_text(),
{
    let key = XChaChaKey::from_bytes(key).map_err(|e| e.to_string())?;
    let nonce = XChaChaNonce::from_bytes(nonce).map_err(|e| e.to_string())?;
    XChaChaCrypto::decrypt(&key, &nonce, ciphertext, Some(aad)).map_err(|e| e.to_string())
}

/// Relies on `KyberCrypto::generate_keypair`: a fresh key pair, its public key
/// of 1568 bytes and its secret key of 3168 bytes.
#[verifier::external_body]
pub(crate) fn random_kyber_keypair() -> (r: (Vec<u8>, Vec<u8>))
    ensures
        r.0@.len() == 1568,
        r.1@.len() == 3168,
        kyber_key_pair(r.0@, r.1@),
{
    let pair = KyberCrypto::generate_keypair();
    (pair.public_key.as_bytes().to_vec(), pair.secret_key.as_bytes().to_vec())
}

/// Relies on `KyberCrypto::encapsulate` (with `KyberPublicKey::from_bytes`,
/// which refuses a key on its length alone): a fresh 1568-byte ciphertext and
/// the 32-byte shared secret it carries, handed back in that order. Any secret
/// key generated with the public key recovers that secret from the ciphertext:
/// Kyber's correctness, which its design gives up only with negligible
/// probability (about 2^-174 for Kyber1024).
#[verifier::external_body]
pub(crate) fn engine_encapsulate(public_key: &[u8]) -> (r: Result<(Vec<u8>, Vec<u8>), String>)
    requires
        public_key@.len() == 1568,
    ensures
        r is Ok,
        r is Ok ==> r->Ok_0.0@.len() == 1568 && r->Ok_0.1@.len() == 32,
        r is Ok ==> encapsulates(public_key@, r->Ok_0.0@, r->Ok_0.1@),
{
    let public_key = KyberPublicKey::from_bytes(public_key).map_err(|e| e.to_string())?;
    let (shared_secret, ciphertext) = KyberCrypto::encapsulate(&public_key);
    Ok((ciphertext.as_bytes().to_vec(), shared_secret.as_bytes().to_vec()))
}

/// Relies on `KyberCrypto::decapsulate` (with `KyberSecretKey::from_bytes` and
/// `KyberCiphertext::from_bytes`, which refuse an input on its length alone):
/// a 32-byte shared secret that depends on the secret key and ciphertext only.
#[verifier::external_body]
pub(crate) fn engine_decapsulate(secret_key: &[u8], ciphertext: &[u8]) -> (r: Result<Vec<u8>, String>)
    requires
        secret_key@.len() == 3168,
        ciphertext@.len() == 1568,
    ensures
        r is Ok,
        r is Ok ==> r->Ok_0@ == kyber_shared_secret(secret_key@, ciphertext@),
        r is Ok ==> r->Ok_0@.len() == 32,
{
    let secret_key = KyberSecretKey::from_bytes(secret_key).map_err(|e| e.to_string())?;
    let ciphertext = KyberCiphertext::from_bytes(ciphertext).map_err(|e| e.to_string())?;
    Ok(KyberCrypto::decapsulate(&ciphertext, &secret_key).as_bytes().to_vec())
}

} // verus!
