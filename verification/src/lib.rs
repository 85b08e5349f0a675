//! Connection establishment and link management for Bluetooth Classic ACL.
//!
//! The controller sets up one link at a time and reports how each attempt
//! ended. This crate keeps the host's side of that: which attempt is under
//! way, which addresses wait behind it, which links are up, and what each
//! request and each notification leads to.
//!
//! It holds the decisions as plain state machines: every function maps a
//! state and one input to the next state and to what has to be done about
//! it. Nothing in here waits, sends or receives; that is left to the caller,
//! who owns the channels and the tasks.
//!
//! - [`manager`]: the coordinator, with the single pending attempt and the
//!   queue.
//! - [`registry`]: the live connections by handle.
//! - [`connection`]: one established connection, from the link's coming up
//!   to its going down.
//! - [`command`] and [`types`]: the values that go in and out.
//! - [`model`] and [`laws`]: the parts put together, and what is proved of
//!   them.

pub mod command;
pub mod connection;
pub mod laws;
pub mod manager;
pub mod model;
pub mod registry;
pub mod types;
