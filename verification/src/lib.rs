//! Diagnostics collection for a sled: command descriptors for the common
//! support tools, a timeout-bounded execution model, a fan-out/fan-in
//! aggregator that never drops an outcome, and process discovery for the
//! services installed under the conventional prefix.

pub mod aggregator;
pub mod command;
pub mod discovery;
pub mod executor;
pub mod outcome;
