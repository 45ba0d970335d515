//! Data-access core for visa case records.
//!
//! The crate models the state and the decision logic of a record store that
//! sits behind an HTTP service: the lifecycle of the shared connection pool
//! (bounded-retry startup), the partial-update protocol that merges a sparse
//! update into an existing row, and the idempotent status transitions.
//! Database and network I/O stay outside; the functions here take plain
//! values and return plain values, with contracts checked by Verus.

pub mod clock;
pub mod errors;
pub mod merge;
pub mod pool;
pub mod record;
pub mod status;
pub mod store;
