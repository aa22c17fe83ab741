//! A verified client core for a header-tagged request protocol: an
//! authentication session with overlapping access/refresh expiry, a
//! codec for tagged field-set messages, the session-lifecycle state
//! machine, and the business operations' request builders and
//! response acceptors with a uniform error channel and cost
//! accounting.

pub mod client;
pub mod codec;
pub mod config;
pub mod digits;
