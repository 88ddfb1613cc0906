//! The one error type of the library and the shared length check.
use vstd::prelude::*;

verus! {

/// The fixed-size input that a length check is about.
#[derive(Clone, Copy, Debug, PartialEq, Eq, Structural)]
pub enum Field {
    Key,
    Nonce,
    PublicKey,
    SecretKey,
    Ciphertext,
}

/// Why an operation failed.
///
/// `InvalidLength` is raised before any cryptographic work; `EngineFailure`
/// carries the engine's own message and is not categorised further (an
/// authentication failure on decryption is one of them).
#[derive(Clone, Debug, PartialEq, Eq)]
pub enum FacadeError {
    InvalidLength { field: Field, expected: usize, actual: usize },
    EngineFailure { message: String },
}

/// The error for a `field` of `actual` bytes where `expected` are required.
pub open spec fn length_error(field: Field, expected: nat, actual: nat) -> FacadeError {
    FacadeError::InvalidLength { field, expected: expected as usize, actual: actual as usize }
}

/// The outcome of checking that `field` is exactly `expected` bytes long.
pub open spec fn length_check(field: Field, expected: nat, actual: nat) -> Result<(), FacadeError> {
    if actual == expected {
        Ok(())
    } else {
        Err(length_error(field, expected, actual))
    }
}

/// Checks that `bytes` is exactly `expected` bytes long; the error names the
/// field, the size required and the size given.
pub fn check_length(field: Field, expected: u32, bytes: &[u8]) -> (r: Result<(), FacadeError>)
    ensures
        r == length_check(field, expected as nat, bytes@.len()),
{
    if bytes.len() == expected as usize {
        Ok(())
    } else {
        Err(FacadeError::InvalidLength { field, expected: expected as usize, actual: bytes.len() })
    }
}

/// The view of a byte result.
pub open spec fn bytes_result(r: Result<Vec<u8>, FacadeError>) -> Result<Seq<u8>, FacadeError> {
    match r {
        Ok(v) => Ok(v@),
        Err(e) => Err(e),
    }
}

/// `r` is an `EngineFailure` whose message reads `text`.
pub open spec fn is_engine_failure(r: Result<Seq<u8>, FacadeError>, text: Seq<char>) -> bool {
    match r {
        Err(FacadeError::EngineFailure { message }) => message@ == text,
        _ => false,
    }
}

/// Turns a failure reported by the engine, given as its text, into the
/// library's error, keeping the text word for word.
pub fn crypto_error_to_facade(message: String) -> (r: FacadeError)
    ensures
        r == (FacadeError::EngineFailure { message }),
{
    FacadeError::EngineFailure { message }
}

} // verus!
