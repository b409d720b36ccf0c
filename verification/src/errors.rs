use vstd::prelude::*;

verus! {

/// Why a mint was rejected. A failed call leaves all durable state exactly
/// as it was before the call.
#[derive(Clone, Copy, PartialEq, Eq, Structural, Debug)]
pub enum LedgerError {
    /// The recipient was the sentinel zero address.
    InvalidRecipient,
    /// The id about to be assigned already holds a real owner. This is a
    /// defensive check: it cannot fire while the mapping and the counter are
    /// in step, but the two are only logically coupled.
    TokenAlreadyMinted,
}

/// Why a message post was rejected.
#[derive(Clone, Copy, PartialEq, Eq, Structural, Debug)]
pub enum GatewayError {
    /// The message had zero length.
    EmptyMessage,
    /// The message exceeded the maximum length.
    MessageTooLong,
}

impl LedgerError {
    /// The short human-readable reason surfaced to callers at the boundary.
    pub fn reason(&self) -> (r: &'static str)
        ensures
            *self is InvalidRecipient ==> r@ == "Invalid address: cannot mint to zero address"@,
            *self is TokenAlreadyMinted ==> r@ == "Token already minted"@,
    {
        match self {
            LedgerError::InvalidRecipient => "Invalid address: cannot mint to zero address",
            LedgerError::TokenAlreadyMinted => "Token already minted",
        }
    }
}

impl GatewayError {
    /// The short human-readable reason surfaced to callers at the boundary.
    pub fn reason(&self) -> (r: &'static str)
        ensures
            *self is EmptyMessage ==> r@ == "Message cannot be empty"@,
            *self is MessageTooLong ==> r@ == "Message too long (max 1000 characters)"@,
    {
        match self {
            GatewayError::EmptyMessage => "Message cannot be empty",
            GatewayError::MessageTooLong => "Message too long (max 1000 characters)",
        }
    }
}

} // verus!
