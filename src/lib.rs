//! Bridges single-fire completion callbacks of IndexedDB requests and
//! transactions to pollable futures.
//!
//! The state that the callbacks and the poller share is modelled here as plain
//! values with exact contracts: a write-once result cell, a wake relay that
//! keeps the handle of the latest pending poll, the listener set of a
//! transaction, the single-result request future and the cursor future that
//! is layered on it.

pub mod completion;
pub mod cursor_future;
pub mod request_future;
pub mod result_cell;
pub mod transaction;
pub mod wake_relay;
pub mod web;
