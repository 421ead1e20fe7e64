//! A validating gateway for analysis requests.
//!
//! The library holds the decisions of the service: which inbound requests are
//! rejected and with what reply, where an accepted request is forwarded, and
//! how the downstream outcome becomes the reply to the caller. Sockets, the
//! environment and JSON encoding stay with the program that drives it.

pub mod magnitude;
pub mod validation;
pub mod relay;
pub mod laws;
