//! Watches a directory tree for files that have finished being written and
//! routes each one to the destination configured for the directory it sits in.
//!
//! The verified core is the event-to-delivery pipeline: classifying raw
//! filesystem events, resolving a changed path against the watched root,
//! looking the parent directory up in the destination map, and the consumer
//! step that turns each event into at most one independent delivery.
pub mod event;
pub mod resolve;
pub mod routing;
pub mod dispatch;
pub mod slack;
