//! Request handling for a paste service ("snips") kept in a hosted REST table.
//!
//! The deletion path is a small state machine: it validates the request,
//! asks for the record, checks that the caller owns it and only then asks
//! for the delete. Every exit is mapped to a fixed JSON response. The
//! network calls themselves are made by the caller; this crate decides.

pub mod authorize;
pub mod json;
pub mod laws;
pub mod request;
pub mod response;
pub mod session;
