//! Confidential-job admission and batch finalization over a deterministic,
//! content-addressed record store, and confidential lending rules over a
//! homomorphic-encryption backend.
//!
//! - `digest`: SHA-256 and the byte strings hashed into addresses and set ids.
//! - `store`: a keyed store with create-if-absent and overwrite access.
//! - `types`: records, events and errors.
//! - `ledger`: the ledger's operations and the transitions they follow.
//! - `laws`: facts about sequences of operations.
//! - `lending`: borrowing, withdrawal, deposit and liquidation rules.

pub mod digest;
pub mod store;
pub mod types;
pub mod ledger;
pub mod laws;
pub mod lending;
