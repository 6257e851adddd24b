use vstd::prelude::*;

verus! {

/// Why no signature was produced.
#[derive(Clone, Copy, Debug, PartialEq, Eq, Structural)]
pub enum SignError {
    /// The seed is not valid secret-key material: its length is not 32 bytes.
    InvalidSeed,
}

impl SignError {
    /// A human-readable description of the error.
    pub fn message(&self) -> (r: String)
        ensures
            r@ == self.spec_message(),
    {
        match self {
            SignError::InvalidSeed => String::from_str("invalid seed length"),
        }
    }

    pub open spec fn spec_message(&self) -> Seq<char> {
        match self {
            SignError::InvalidSeed => "invalid seed length"@,
        }
    }
}

} // verus!
