//! What holds of every exchange, whatever the device answers.
//!
//! The statements are about the log of an exchange: the requests a caller
//! performs, each with the reply it got, when it hands the replies in one after
//! another.
//!
//! - [`log`]: counting the entries of a log.
//! - [`failure`]: the first failure decides, and every exchange ends.
//! - [`claims`]: what is claimed is released.
//! - [`reattach`]: what was taken from a kernel driver goes back to it.
//! - [`lifetime`]: both, over the whole life of a session.
//! - [`operations`]: the order of a status query, the reads of a drain, and
//!   reading back what was set.

pub mod claims;
pub mod failure;
pub mod lifetime;
pub mod log;
pub mod operations;
pub mod reattach;
