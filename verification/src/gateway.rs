use vstd::prelude::*;
use crate::address::Address;
use crate::errors::GatewayError;
use crate::events::MessagePostedEvent;

verus! {

/// The longest message, in bytes, the gateway accepts.
pub const MAX_MESSAGE_BYTES: usize = 1000;

/// The stateless message gateway: it validates a posted message and
/// produces the event a host appends to its log. It holds no logical state
/// — on chain it declares one structurally required no-op slot, which this
/// model leaves out — and reads and writes nothing durable.
pub struct GaslessApp {}

impl GaslessApp {
    pub fn new() -> (g: GaslessApp) {
        GaslessApp {  }
    }

    /// Validate `message` and, on success, return the event to emit:
    /// the caller identity (supplied by the host context) and the raw
    /// message bytes. An empty message fails with `EmptyMessage`; one over
    /// `MAX_MESSAGE_BYTES` bytes fails with `MessageTooLong`; everything
    /// between succeeds.
    pub fn post_message(&self, caller: &Address, message: Vec<u8>) -> (r: Result<
        MessagePostedEvent,
        GatewayError,
    >)
        ensures
            message@.len() == 0 <==> r == Err::<MessagePostedEvent, GatewayError>(
                GatewayError::EmptyMessage,
            ),
            message@.len() > MAX_MESSAGE_BYTES <==> r == Err::<MessagePostedEvent, GatewayError>(
                GatewayError::MessageTooLong,
            ),
            r is Ok ==> {
                &&& r->Ok_0.user@ == caller@
                &&& r->Ok_0.message@ == message@
            },
            1 <= message@.len() <= MAX_MESSAGE_BYTES ==> r is Ok,
    {
        if message.len() == 0 {
            return Err(GatewayError::EmptyMessage);
        }
        if message.len() > MAX_MESSAGE_BYTES {
            return Err(GatewayError::MessageTooLong);
        }
        Ok(MessagePostedEvent { user: *caller, message })
    }
}

} // verus!
