//! The resolver probe's fixed policy and its failure messages. The probe
//! itself contacts one specific nameserver on its standard port, never
//! the OS resolver; the network call lives with the runtime around the
//! library, which is held to these values.

use vstd::prelude::*;
use vstd::string::StringExecFns;

verus! {

/// Total timeout of one resolver probe, in seconds.
pub const RESOLVE_TIMEOUT_SECS: u64 = 5;

/// Maximum number of attempts of one resolver probe.
pub const RESOLVE_ATTEMPTS: u64 = 2;

/// The nameserver port a resolver probe contacts.
pub const NAMESERVER_PORT: u16 = 53;

/// The failure message when a lookup answered without any address.
pub fn no_ip_found_message() -> (r: String)
    ensures
        r@ == "No IP found for host"@,
{
    String::from_str("No IP found for host")
}

/// The failure message when a URL carries no usable host.
pub fn invalid_host_message() -> (r: String)
    ensures
        r@ == "Invalid host"@,
{
    String::from_str("Invalid host")
}

} // verus!
