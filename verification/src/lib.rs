//! Readiness probe for a local name-service caching daemon.
//!
//! The library holds the wire protocol of one user-by-name lookup: the request
//! frame, the fixed response header, the checks a response has to pass, and the
//! decisions of the retry loop that polls until the daemon answers correctly.
//! Sockets, sleeping and printing are left to the caller.

pub mod attempt;
pub mod byte_order;
pub mod codec;
pub mod decimal;
pub mod failure;
pub mod retry;
pub mod validate;
pub mod wire;

