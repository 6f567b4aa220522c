//! DNS quality testing and system DNS configuration.
//!
//! The library measures, per candidate nameserver, whether a domain is
//! reachable over HTTP and how fast a download through that nameserver is,
//! and offers a small cross-platform abstraction for reading and replacing
//! the operating system's active nameserver list.

pub mod pool;
pub mod reachability;
pub mod resolver;
pub mod speed;
pub mod system_dns;
pub mod text;
pub mod url_norm;
