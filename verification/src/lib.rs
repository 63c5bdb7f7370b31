//! Upstream-selection core for a reverse proxy.
//!
//! Given an inbound request's HTTP method, this library decides which backend
//! peer to forward it to and with which transport options: a routing policy
//! maps the method to a tier (writes vs. reads), and a round-robin selector
//! picks the next peer of that tier. The surrounding proxy engine, which owns
//! all I/O, consumes the returned peer descriptor.

pub mod options;
pub mod peer;
pub mod routing;
pub mod backend;
pub mod selector;
pub mod fairness;
