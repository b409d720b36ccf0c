use vstd::prelude::*;
use crate::address::Address;
use crate::token::TokenId;

verus! {

/// The issuance record appended to the host's log on every successful mint:
/// a zero "from" marker (issuance, not transfer), the recipient, and the
/// token id. Once emitted it is never mutated or deleted.
#[derive(Clone, Copy, Debug)]
pub struct TransferEvent {
    pub from: Address,
    pub to: Address,
    pub token_id: TokenId,
}

/// The record appended to the host's log on every successful message post:
/// the caller identity and the raw message bytes.
#[derive(Debug)]
pub struct MessagePostedEvent {
    pub user: Address,
    pub message: Vec<u8>,
}

} // verus!
