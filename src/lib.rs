//! A broadcast chat relay: clients submit prompts tagged with a backend
//! identifier; every prompt and every backend reply is fanned out to all
//! connected clients.
//!
//! The library holds the relay's decisions: which backend a request names,
//! the text of each published line, how each connection's inbound and
//! outbound flows react to their events, how a connection is torn down, and
//! what is sent to a backend and how its response is read.  The transport
//! and the HTTP round trips are driven by the caller, which hands each
//! outcome back as a plain value.

pub mod message;
pub mod inbound;
pub mod session;
pub mod relay;
pub mod backend;
