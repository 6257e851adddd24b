use vstd::prelude::*;

use crate::error::SignError;
use crate::keys::{
    public_key_from_secret, public_key_of, secret_key_from_bytes, sign_with_keypair,
    signature_of, SigningPair, SECRET_KEY_LENGTH, SIGNATURE_LENGTH,
};

verus! {

/// The Ed25519 signature of `message` under the keypair derived from `seed`.
pub open spec fn ed25519_signature(seed: Seq<u8>, message: Seq<u8>) -> Seq<u8> {
    signature_of(seed, public_key_of(seed), message)
}

/// The outcome of signing `message` with `seed`: a signature exactly when the
/// seed is 32 bytes long, `InvalidSeed` otherwise.
pub open spec fn spec_sign(seed: Seq<u8>, message: Seq<u8>) -> Result<Seq<u8>, SignError> {
    if seed.len() == SECRET_KEY_LENGTH {
        Ok(ed25519_signature(seed, message))
    } else {
        Err(SignError::InvalidSeed)
    }
}

/// The bytes of a returned signature, or the error.
pub open spec fn outcome_view(r: Result<Vec<u8>, SignError>) -> Result<Seq<u8>, SignError> {
    match r {
        Ok(signature) => Ok(signature@),
        Err(e) => Err(e),
    }
}

/// Signs `message` with the Ed25519 keypair derived from `seed`.
///
/// The seed must be exactly 32 bytes of secret-key material; any other length
/// gives `InvalidSeed` and no signature. The message is unconstrained. The
/// keypair lives only for the call.
pub fn sign(seed: &[u8], message: &[u8]) -> (r: Result<Vec<u8>, SignError>)
    ensures
        outcome_view(r) == spec_sign(seed@, message@),
        r is Ok <==> seed@.len() == SECRET_KEY_LENGTH,
        r matches Err(e) ==> e == SignError::InvalidSeed,
        r matches Ok(signature) ==> signature@.len() == SIGNATURE_LENGTH,
{
    let secret = match secret_key_from_bytes(seed) {
        Ok(secret) => secret,
        Err(_) => return Err(SignError::InvalidSeed),
    };
    let public = public_key_from_secret(&secret);
    let keypair = SigningPair::from_parts(secret, public);
    let signature = sign_with_keypair(&keypair, message);
    Ok(vstd::slice::slice_to_vec(signature.as_slice()))
}

/// Signing is deterministic: two calls with the same seed and message give the
/// same outcome, byte for byte.
pub proof fn lemma_sign_deterministic(
    seed: Seq<u8>,
    message: Seq<u8>,
    first: Result<Seq<u8>, SignError>,
    second: Result<Seq<u8>, SignError>,
)
    requires
        first == spec_sign(seed, message),
        second == spec_sign(seed, message),
    ensures
        first == second,
{
}

} // verus!
