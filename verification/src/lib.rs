//! Configuration core of a small desktop application shell.
//!
//! The shell wires a fixed list of capability plugins into a host runtime and
//! exposes two request handlers to a front end: a greeting and an
//! update-check. This crate holds the decisions those handlers make and the
//! exact texts they answer with; the host runtime and its plugins live
//! outside, in the unverified binary that drives them.

pub mod greeting;
pub mod plugins;
pub mod update;
