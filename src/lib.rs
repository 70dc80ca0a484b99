//! A latest-value relay: one producer overwrites a shared slot, and any
//! number of independent sessions each observe the newest value.
//!
//! - [`slot`]: the broadcast core, a versioned overwritable cell.
//! - [`ingest`]: decoding and filtering of received packets, and publishing.
//! - [`session`]: the per-connection state machine of a subscriber.
pub mod ingest;
pub mod session;
pub mod slot;
