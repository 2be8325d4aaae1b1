//! The entities of the schema.

pub mod address;
pub mod balance;
pub mod base64;
pub mod big_int;
pub mod gas;
pub mod object;
pub mod protocol_config;
pub mod transaction_block;
