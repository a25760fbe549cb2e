//! A verified core for a small translation proxy service.
//!
//! The service forwards a text to an upstream translation / writing-assistance
//! API and collapses every outcome (a reply, an HTTP error, a transport
//! failure, an unreadable body) into one uniform response envelope. The
//! modules here hold the parts of that work that are pure computation: the
//! envelope and its invariant, the outbound JSON payloads, the mapping from
//! an upstream outcome to the envelope, the liveness probe, and the
//! client's blank-input check.

pub mod envelope;
pub mod escape;
pub mod health;
pub mod input;
pub mod numeral;
pub mod payload;
pub mod upstream;
