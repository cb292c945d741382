//! An in-process event dispatch engine: requests carry an event key, the key is
//! routed to the module registered for it, and every request ends in exactly one
//! unified response, which an optional callback also receives.
//!
//! This crate holds the routing, the per-request state machine and the response
//! model. Running handlers and callbacks on a worker pool is left to the caller,
//! which feeds their outcomes back into the state machine.

pub mod event;
pub mod registry;
pub mod response;
pub mod request;
pub mod dispatch;
