//! A verified model of a small on-chain token issuance system.
//!
//! The library has two parts. The ownership ledger (`ledger`) is a state
//! machine over two durable slots — a sparse token-id → owner mapping and a
//! next-token-id counter — that mints tokens with strictly increasing ids,
//! answers ownership queries, and records one issuance event per successful
//! mint. The message gateway (`gateway`) is stateless: it validates a posted
//! message and produces the event a host would append to its log.

pub mod address;
pub mod token;
pub mod errors;
pub mod events;
pub mod store;
pub mod ledger;
pub mod gateway;
pub mod codec;
