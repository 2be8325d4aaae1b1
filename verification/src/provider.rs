//! The operations of the data provider, cut at the calls to the chain client.
//!
//! The client is reached over the network, and that is not this library's
//! business. Each operation is therefore written as the steps between the
//! calls: a step says what to ask the client next, or takes the client's
//! answer and says how the operation ends. An answer is a `Result` whose
//! error is what the client printed when the call itself failed.

pub mod balance;
pub mod chain_id;
pub mod object;
pub mod owned_objects;
pub mod protocol_config;
pub mod transaction;
