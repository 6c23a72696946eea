//! A small access-controlled greeting ledger: an admin-guarded counter and a
//! per-identity record of the last greeting, kept in a two-scope key-value
//! store with explicit lifetimes.

pub mod address;
pub mod store;
pub mod contract;
pub mod laws;

pub use address::Address;
pub use contract::{Error, HelloContract};
pub use store::{DataKey, Env, Value};
