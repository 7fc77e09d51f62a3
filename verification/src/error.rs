use vstd::prelude::*;

verus! {

/// Why a descriptor could not be built or read back.
///
/// None of these is retried by the library: after a failure the caller
/// restarts the whole operation.
#[derive(Debug, Clone, Copy, PartialEq, Eq, Structural)]
pub enum AeadError {
    /// Construction was asked for with an empty nonce.
    MissingNonce,
    /// The chaining context is not exactly sixteen bytes long, or its
    /// presence disagrees with the chain flag.
    InvalidChainingContextSize,
    /// A wire field pairs a null pointer with a non-zero length, or a
    /// non-null pointer with length zero.
    NullPointerOnDecode,
}

impl AeadError {
    /// A short description for messages.
    pub fn message(&self) -> (s: &'static str)
        ensures
            s@ == Self::message_of(*self)@,
    {
        match self {
            AeadError::MissingNonce => "nonce is missing",
            AeadError::InvalidChainingContextSize => "chaining context is invalid",
            AeadError::NullPointerOnDecode => "pointer and length disagree",
        }
    }

    /// The text that [`AeadError::message`] returns.
    pub open spec fn message_of(e: AeadError) -> &'static str {
        match e {
            AeadError::MissingNonce => "nonce is missing",
            AeadError::InvalidChainingContextSize => "chaining context is invalid",
            AeadError::NullPointerOnDecode => "pointer and length disagree",
        }
    }
}

} // verus!
