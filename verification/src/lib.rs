//! Read-side data provider for a chain explorer schema.
//!
//! A schema that shows objects, balances, transactions and protocol settings
//! gets them from a read-only client of the chain. This library holds the
//! rules of that adapter: which arguments are accepted, what is asked of the
//! client, and how each of its answers becomes an entity of the schema or a
//! failure. It makes no call itself; whoever holds the client makes the calls
//! and hands the answers in.
//!
//! - [`types`]: the entities of the schema, each with its model.
//! - [`native`]: the client's answers as plain records.
//! - [`convert`]: from records to entities.
//! - [`provider`]: the operations, step by step between the calls.
//! - [`error`]: the failures.

pub mod convert;
pub mod error;
pub mod model;
pub mod native;
pub mod provider;
pub mod types;
