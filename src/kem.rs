//! Key encapsulation with Kyber1024.
//!
//! Decapsulation uses implicit rejection: a ciphertext of the right size that
//! no encapsulation produced still yields a stable, meaningless secret rather
//! than an error. That is deliberate and must stay so: a distinct error there
//! would hand an attacker a decryption oracle.
use vstd::prelude::*;

use crate::engine::{
    encapsulates, engine_decapsulate, engine_encapsulate, kyber_key_pair, kyber_shared_secret,
    random_kyber_keypair,
};
use crate::error::{bytes_result, check_length, crypto_error_to_facade, length_error, FacadeError, Field};
use crate::{KYBER_CIPHERTEXT_SIZE, KYBER_PUBLIC_KEY_SIZE, KYBER_SECRET_KEY_SIZE, KYBER_SHARED_SECRET_SIZE};

verus! {

/// A Kyber1024 key pair; the caller keeps the two halves together.
pub struct KyberKeyPair {
    pub public_key: Vec<u8>,
    pub secret_key: Vec<u8>,
}

/// What one encapsulation produced: the ciphertext to send and the shared
/// secret it carries.
pub struct KyberEncapsulation {
    pub ciphertext: Vec<u8>,
    pub shared_secret: Vec<u8>,
}

/// What `kyber_decapsulate` returns for a secret key and a ciphertext: the
/// secret key is checked first, then the ciphertext, then the engine derives
/// the secret.
pub open spec fn decapsulation(secret_key: Seq<u8>, ciphertext: Seq<u8>) -> Result<Seq<u8>, FacadeError> {
    if secret_key.len() != KYBER_SECRET_KEY_SIZE as nat {
        Err(length_error(Field::SecretKey, KYBER_SECRET_KEY_SIZE as nat, secret_key.len()))
    } else if ciphertext.len() != KYBER_CIPHERTEXT_SIZE as nat {
        Err(length_error(Field::Ciphertext, KYBER_CIPHERTEXT_SIZE as nat, ciphertext.len()))
    } else {
        Ok(kyber_shared_secret(secret_key, ciphertext))
    }
}

/// A fresh key pair: a 1568-byte public key and a 3168-byte secret key,
/// generated together.
pub fn generate_kyber_keypair() -> (r: KyberKeyPair)
    ensures
        r.public_key@.len() == KYBER_PUBLIC_KEY_SIZE as nat,
        r.secret_key@.len() == KYBER_SECRET_KEY_SIZE as nat,
        kyber_key_pair(r.public_key@, r.secret_key@),
{
    let (public_key, secret_key) = random_kyber_keypair();
    KyberKeyPair { public_key, secret_key }
}

/// Encapsulates a fresh shared secret for `public_key`.
///
/// A public key that is not 1568 bytes fails with `InvalidLength`; any other
/// succeeds with a 1568-byte ciphertext and a 32-byte shared secret, drawn anew
/// on every call, which every secret key paired with `public_key` recovers
/// from that ciphertext.
pub fn kyber_encapsulate(public_key: &[u8]) -> (r: Result<KyberEncapsulation, FacadeError>)
    ensures
        public_key@.len() != KYBER_PUBLIC_KEY_SIZE as nat ==> (r is Err && r->Err_0 == length_error(
            Field::PublicKey,
            KYBER_PUBLIC_KEY_SIZE as nat,
            public_key@.len(),
        )),
        public_key@.len() == KYBER_PUBLIC_KEY_SIZE as nat ==> r is Ok,
        r is Ok ==> r->Ok_0.ciphertext@.len() == KYBER_CIPHERTEXT_SIZE as nat,
        r is Ok ==> r->Ok_0.shared_secret@.len() == KYBER_SHARED_SECRET_SIZE as nat,
        r is Ok ==> encapsulates(public_key@, r->Ok_0.ciphertext@, r->Ok_0.shared_secret@),
{
    check_length(Field::PublicKey, KYBER_PUBLIC_KEY_SIZE, public_key)?;
    match engine_encapsulate(public_key) {
        Ok((ciphertext, shared_secret)) => Ok(KyberEncapsulation { ciphertext, shared_secret }),
        Err(e) => Err(crypto_error_to_facade(e)),
    }
}

/// Recovers the shared secret from `secret_key` and `ciphertext`.
///
/// A secret key that is not 3168 bytes, then a ciphertext that is not 1568
/// bytes, fails with `InvalidLength`. Any other pair succeeds with the 32-byte
/// value the engine derives from the two alone.
pub fn kyber_decapsulate(secret_key: &[u8], ciphertext: &[u8]) -> (r: Result<Vec<u8>, FacadeError>)
    ensures
        bytes_result(r) == decapsulation(secret_key@, ciphertext@),
        r is Ok ==> r->Ok_0@.len() == KYBER_SHARED_SECRET_SIZE as nat,
{
    check_length(Field::SecretKey, KYBER_SECRET_KEY_SIZE, secret_key)?;
    check_length(Field::Ciphertext, KYBER_CIPHERTEXT_SIZE, ciphertext)?;
    match engine_decapsulate(secret_key, ciphertext) {
        Ok(shared_secret) => Ok(shared_secret),
        Err(e) => Err(crypto_error_to_facade(e)),
    }
}

/// Decapsulating with the secret key of a generated pair recovers the shared
/// secret that an encapsulation to its public key produced.
pub proof fn lemma_kem_correctness(
    public_key: Seq<u8>,
    secret_key: Seq<u8>,
    ciphertext: Seq<u8>,
    shared_secret: Seq<u8>,
)
    requires
        secret_key.len() == KYBER_SECRET_KEY_SIZE as nat,
        ciphertext.len() == KYBER_CIPHERTEXT_SIZE as nat,
        kyber_key_pair(public_key, secret_key),
        encapsulates(public_key, ciphertext, shared_secret),
    ensures
        decapsulation(secret_key, ciphertext) == Ok::<Seq<u8>, FacadeError>(shared_secret),
{
}

/// Decapsulation is deterministic: two calls on the same secret key and
/// ciphertext return the same result, whether or not the ciphertext came from
/// a matching encapsulation.
pub proof fn lemma_decapsulation_deterministic(
    secret_key: Seq<u8>,
    ciphertext: Seq<u8>,
    first: Result<Seq<u8>, FacadeError>,
    second: Result<Seq<u8>, FacadeError>,
)
    requires
        first == decapsulation(secret_key, ciphertext),
        second == decapsulation(secret_key, ciphertext),
    ensures
        first == second,
{
}

/// A secret key that is not 3168 bytes or a ciphertext that is not 1568
/// bytes makes decapsulation fail with `InvalidLength`.
pub proof fn lemma_decapsulation_length_enforced(secret_key: Seq<u8>, ciphertext: Seq<u8>)
    requires
        secret_key.len() != KYBER_SECRET_KEY_SIZE as nat || ciphertext.len() != KYBER_CIPHERTEXT_SIZE as nat,
    ensures
        decapsulation(secret_key, ciphertext) is Err,
        decapsulation(secret_key, ciphertext)->Err_0 is InvalidLength,
{
}

} // verus!
