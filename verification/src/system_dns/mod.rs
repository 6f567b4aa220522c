//! System DNS configurator: a capability for reading and replacing the
//! operating system's active nameserver list.
//!
//! The capability is one trait with two primitive operations, `set` and
//! `get`, implemented once per backend; `add`, `add_all` and `exists` are
//! derived from the primitives and verified here once for every backend.
//! An implementation whose `set` reports failure must have left the
//! configured list as it was; a partially applied `add_all` is visible to
//! the caller only through which whole entries were applied.

pub mod command_backed;
pub mod error;
pub mod file_backed;
pub mod memory;
pub mod unsupported;

use crate::system_dns::error::SystemDNSError;
use vstd::prelude::*;

verus! {

/// An IP address string as stored by the operating system.
pub type DNSEntry = String;

/// A backend that can read and wholesale-replace the operating system's
/// nameserver list. `configured` is the backend's model of that list.
pub trait SystemDNS: Sized {
    /// The nameserver list this backend currently holds, in order.
    spec fn configured(&self) -> Seq<Seq<char>>;

    /// Replaces the configured list wholesale; on failure the list is left
    /// as it was.
    fn set(&mut self, dns: Vec<DNSEntry>) -> (r: Result<(), SystemDNSError>)
        ensures
            r is Ok ==> final(self).configured() == dns.deep_view(),
            r is Err ==> final(self).configured() == old(self).configured(),
    ;

    /// Reads the configured list.
    fn get(&self) -> (r: Result<Vec<DNSEntry>, SystemDNSError>)
        ensures
            r matches Ok(v) ==> v.deep_view() == self.configured(),
    ;
}

/// Replaces the configured nameserver list wholesale (not a merge).
pub fn set<T: SystemDNS>(sys: &mut T, dns: Vec<DNSEntry>) -> (r: Result<(), SystemDNSError>)
    ensures
        r is Ok ==> final(sys).configured() == dns.deep_view(),
        r is Err ==> final(sys).configured() == old(sys).configured(),
{
    sys.set(dns)
}

/// Reads the configured nameserver list, in order.
pub fn get<T: SystemDNS>(sys: &T) -> (r: Result<Vec<DNSEntry>, SystemDNSError>)
    ensures
        r matches Ok(v) ==> v.deep_view() == sys.configured(),
{
    sys.get()
}

/// Appends one entry to the configured list: reads it, pushes the entry and
/// writes the whole list back. Not atomic against concurrent mutation of
/// the same OS resource.
pub fn add<T: SystemDNS>(sys: &mut T, dns: DNSEntry) -> (r: Result<(), SystemDNSError>)
    ensures
        r is Ok ==> final(sys).configured() == old(sys).configured().push(dns@),
        r is Err ==> final(sys).configured() == old(sys).configured(),
{
    match sys.get() {
        Ok(mut current) => {
            current.push(dns);
            proof {
                assert(current.deep_view() =~= old(sys).configured().push(dns@));
            }
            sys.set(current)
        },
        Err(e) => Err(e),
    }
}

/// Appends the entries one at a time, stopping at the first failure:
/// entries before the failure remain applied, entries from it on are never
/// attempted.
pub fn add_all<T: SystemDNS>(sys: &mut T, dns: Vec<DNSEntry>) -> (r: Result<
    (),
    SystemDNSError,
>)
    ensures
        r is Ok ==> final(sys).configured() == old(sys).configured() + dns.deep_view(),
        r is Err ==> exists|k: int|
            0 <= k < dns.deep_view().len() && final(sys).configured() == old(sys).configured()
                + dns.deep_view().subrange(0, k),
{
    let n = dns.len();
    let mut i: usize = 0;
    proof {
        assert(sys.configured() =~= old(sys).configured() + dns.deep_view().subrange(0, 0));
    }
    while i < n
        invariant
            0 <= i <= n,
            n == dns@.len(),
            sys.configured() == old(sys).configured() + dns.deep_view().subrange(0, i as int),
        decreases n - i,
    {
        let entry = dns[i].clone();
        proof {
            assert(entry@ == dns.deep_view()[i as int]);
        }
        let ghost before = sys.configured();
        match crate::system_dns::add(sys, entry) {
            Ok(()) => {
                proof {
                    assert(sys.configured() =~= old(sys).configured()
                        + dns.deep_view().subrange(0, i + 1));
                }
            },
            Err(e) => {
                proof {
                    assert(sys.configured() == before);
                    assert(0 <= i < dns.deep_view().len());
                }
                return Err(e);
            },
        }
        i = i + 1;
    }
    proof {
        assert(dns.deep_view().subrange(0, n as int) =~= dns.deep_view());
    }
    Ok(())
}

/// Whether the configured list contains the given literal address.
pub fn entry_exists<T: SystemDNS>(sys: &T, dns: DNSEntry) -> (r: Result<bool, SystemDNSError>)
    ensures
        r matches Ok(b) ==> b == sys.configured().contains(dns@),
{
    match sys.get() {
        Ok(list) => Ok(contains_entry(&list, &dns)),
        Err(e) => Err(e),
    }
}

fn contains_entry(list: &Vec<DNSEntry>, x: &DNSEntry) -> (r: bool)
    ensures
        r == list.deep_view().contains(x@),
{
    let mut i: usize = 0;
    while i < list.len()
        invariant
            0 <= i <= list@.len(),
            forall|k: int| 0 <= k < i ==> list.deep_view()[k] != x@,
        decreases list@.len() - i,
    {
        if list[i].eq(x) {
            proof {
                assert(list.deep_view()[i as int] == list@[i as int]@);
            }
            return true;
        }
        proof {
            assert(list.deep_view()[i as int] == list@[i as int]@);
        }
        i = i + 1;
    }
    false
}

/// Judges a `get` outcome for the capability probe: only a `NotSupported`
/// error means the platform is unsupported.
pub fn supported_verdict(r: &Result<Vec<DNSEntry>, SystemDNSError>) -> (b: bool)
    ensures
        b == !(r matches Err(SystemDNSError::NotSupported)),
{
    match r {
        Err(SystemDNSError::NotSupported) => false,
        _ => true,
    }
}

/// Capability probe: attempts `get` and treats only `NotSupported` as an
/// unsupported platform.
pub fn is_supported<T: SystemDNS>(sys: &T) -> bool {
    supported_verdict(&sys.get())
}

} // verus!
