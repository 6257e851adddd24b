use vstd::prelude::*;

use ed25519_dalek::Signer;

verus! {

#[verifier::external_type_specification]
#[verifier::external_body]
pub struct ExSecretKey(ed25519_dalek::SecretKey);

#[verifier::external_type_specification]
#[verifier::external_body]
pub struct ExPublicKey(ed25519_dalek::PublicKey);

#[verifier::external_type_specification]
#[verifier::external_body]
pub struct ExSignatureError(ed25519_dalek::SignatureError);

/// The keypair of `ed25519_dalek`; its two fields are public.
#[verifier::external_type_specification]
pub struct ExKeypair(ed25519_dalek::Keypair);

/// Length in bytes of an Ed25519 secret key (the seed).
pub const SECRET_KEY_LENGTH: usize = 32;

/// Length in bytes of an Ed25519 signature.
pub const SIGNATURE_LENGTH: usize = 64;

/// The public key that Ed25519 derives from a 32-byte secret key.
pub uninterp spec fn public_key_of(secret: Seq<u8>) -> Seq<u8>;

/// The Ed25519 signature of `message` under the keypair (`secret`, `public`).
pub uninterp spec fn signature_of(secret: Seq<u8>, public: Seq<u8>, message: Seq<u8>) -> Seq<u8>;

/// A decoded secret key, kept with the bytes it was decoded from.
///
/// Only `secret_key_from_bytes` builds one, taking both fields from the same
/// key; the fields are private, so they stay in step.
pub struct SigningSecret {
    key: ed25519_dalek::SecretKey,
    bytes: [u8; 32],
}

/// A public key, kept with its compressed 32-byte encoding.
///
/// Only `public_key_from_secret` builds one, taking both fields from the same
/// key.
pub struct SigningPublic {
    key: ed25519_dalek::PublicKey,
    bytes: [u8; 32],
}

/// A secret key and the public key derived from it, as `ed25519_dalek`
/// holds them and as bytes.
///
/// Only `from_parts` builds one, moving each key together with its bytes.
pub struct SigningPair {
    pair: ed25519_dalek::Keypair,
    secret: [u8; 32],
    public: [u8; 32],
}

impl View for SigningSecret {
    type V = Seq<u8>;

    closed spec fn view(&self) -> Seq<u8> {
        self.bytes@
    }
}

impl View for SigningPublic {
    type V = Seq<u8>;

    closed spec fn view(&self) -> Seq<u8> {
        self.bytes@
    }
}

impl SigningPair {
    /// The bytes of the secret half.
    pub closed spec fn secret_view(&self) -> Seq<u8> {
        self.secret@
    }

    /// The bytes of the public half.
    pub closed spec fn public_view(&self) -> Seq<u8> {
        self.public@
    }

    /// Assembles a keypair from a secret key and a public key.
    pub fn from_parts(secret: SigningSecret, public: SigningPublic) -> (r: SigningPair)
        ensures
            r.secret_view() == secret@,
            r.public_view() == public@,
    {
        let SigningSecret { key: secret_key, bytes: secret_bytes } = secret;
        let SigningPublic { key: public_key, bytes: public_bytes } = public;
        SigningPair {
            pair: ed25519_dalek::Keypair { secret: secret_key, public: public_key },
            secret: secret_bytes,
            public: public_bytes,
        }
    }
}

/// Relies on `ed25519_dalek::SecretKey::from_bytes`: it fails exactly when the
/// slice is not 32 bytes long, and otherwise keeps those bytes, which
/// `SecretKey::to_bytes` hands back.
#[verifier::external_body]
pub(crate) fn secret_key_from_bytes(seed: &[u8]) -> (r: Result<SigningSecret, ed25519_dalek::SignatureError>)
    ensures
        r is Ok <==> seed@.len() == SECRET_KEY_LENGTH,
        r matches Ok(k) ==> k@ == seed@,
{
    match ed25519_dalek::SecretKey::from_bytes(seed) {
        Ok(key) => Ok(SigningSecret { bytes: key.to_bytes(), key }),
        Err(e) => Err(e),
    }
}

/// Relies on `ed25519_dalek::PublicKey::from(&SecretKey)`: the public key is a
/// function of the secret key's bytes alone; `PublicKey::to_bytes` gives its
/// 32-byte encoding.
#[verifier::external_body]
pub(crate) fn public_key_from_secret(secret: &SigningSecret) -> (r: SigningPublic)
    ensures
        r@ == public_key_of(secret@),
{
    let key = ed25519_dalek::PublicKey::from(&secret.key);
    SigningPublic { bytes: key.to_bytes(), key }
}

/// Relies on `Signer::sign` for `ed25519_dalek::Keypair`: deterministic
/// Ed25519 signing, which never fails for a keypair (its `try_sign` always
/// returns `Ok`); `Signature::to_bytes` gives the 64 bytes.
#[verifier::external_body]
pub(crate) fn sign_with_keypair(keypair: &SigningPair, message: &[u8]) -> (r: [u8; 64])
    ensures
        r@ == signature_of(keypair.secret_view(), keypair.public_view(), message@),
{
    keypair.pair.sign(message).to_bytes()
}

} // verus!
