//! The configurator for platforms without a supported backend: every
//! operation reports `NotSupported`, so that callers can probe for the
//! capability instead of special-casing platforms.

use crate::system_dns::error::SystemDNSError;
use crate::system_dns::{DNSEntry, SystemDNS};
use vstd::prelude::*;

verus! {

/// A backend for platforms the configurator does not support.
pub struct SystemDNSUnsupported;

impl SystemDNS for SystemDNSUnsupported {
    open spec fn configured(&self) -> Seq<Seq<char>> {
        Seq::empty()
    }

    fn set(&mut self, dns: Vec<DNSEntry>) -> (r: Result<(), SystemDNSError>)
        ensures
            (r matches Err(e) && e is NotSupported),
    {
        Err(SystemDNSError::NotSupported)
    }

    fn get(&self) -> (r: Result<Vec<DNSEntry>, SystemDNSError>)
        ensures
            (r matches Err(e) && e is NotSupported),
    {
        Err(SystemDNSError::NotSupported)
    }
}

} // verus!
