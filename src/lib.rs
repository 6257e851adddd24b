//! Ed25519 signing from a caller-supplied 32-byte seed.
//!
//! The elliptic-curve work is done by `ed25519_dalek`; this crate validates the
//! seed, assembles the keypair and hands back the signature bytes, with each
//! step stated as a contract.
mod error;
mod keys;
mod signer;

pub use error::SignError;
pub use keys::{public_key_of, signature_of, SECRET_KEY_LENGTH, SIGNATURE_LENGTH};
pub use signer::{ed25519_signature, lemma_sign_deterministic, outcome_view, sign, spec_sign};
