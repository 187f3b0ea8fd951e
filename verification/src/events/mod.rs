//! Events that domain entities emit.

pub mod domain_events;
