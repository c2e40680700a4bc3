//! Interpretation of the events and dispatch errors that a DEIP appchain node
//! emits, and the scan of raw storage keys for a 32-bit identifier.
//!
//! Every function here is a pure function of values that were already
//! retrieved from the node: nothing in this crate talks to the network or
//! writes a log line.

pub mod cli;
pub mod codec;
pub mod config;
pub mod develop;
pub mod dispatch;
pub mod event;
pub mod interpreter;
pub mod master;
pub mod pallet;
pub mod storage;
pub mod text;
