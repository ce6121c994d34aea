//! Keeps pairs of files the same: the newer side of a pair is propagated to
//! the older one, and only when their contents really differ.
//!
//! The crate holds the decisions and leaves the filesystem to its caller.
//!
//! - `reconciler`: what one pair needs, asked for step by step.
//! - `replica`: the model of a pair, what reconciling does to it, and the
//!   reconciliation of two replicas held in memory.
//! - `digest`: content fingerprints, taken chunk by chunk.
//! - `timestamp`: modification times and their order.
//! - `pair`: declared pairs of paths and the checks they have to pass.
//! - `config`: the pairs that a configuration declares.
//! - `cli`, `decimal`: the command line and the numbers on it.
//! - `error`: what can go wrong.

pub mod cli;
pub mod config;
pub mod decimal;
pub mod digest;
pub mod error;
pub mod pair;
pub mod reconciler;
pub mod replica;
pub mod timestamp;
