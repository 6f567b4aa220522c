//! An in-memory configurator backend. It gives the engine an injectable,
//! OS-free stand-in: fabricated nameserver lists for tests and demos, with
//! an optional write budget so that a failing `set` — and with it the
//! non-transactional behaviour of `add_all` — can be exercised.

use crate::system_dns::error::SystemDNSError;
use crate::system_dns::{DNSEntry, SystemDNS};
use vstd::prelude::*;
use vstd::string::StringExecFns;

verus! {

/// A backend holding the nameserver list in memory.
///
/// With `sets_remaining` of `None` every `set` succeeds; with `Some(n)`
/// the next `n` calls of `set` succeed and every later one fails with a
/// `CommandError`, leaving the list untouched.
pub struct SystemDNSMemory {
    pub entries: Vec<DNSEntry>,
    pub sets_remaining: Option<u64>,
}

impl SystemDNSMemory {
    /// An empty configuration whose writes always succeed.
    pub fn new() -> (r: SystemDNSMemory)
        ensures
            r.configured() == Seq::<Seq<char>>::empty(),
            r.sets_remaining is None,
    {
        let r = SystemDNSMemory { entries: Vec::new(), sets_remaining: None };
        proof {
            assert(r.entries.deep_view() =~= Seq::<Seq<char>>::empty());
        }
        r
    }
}

impl SystemDNS for SystemDNSMemory {
    open spec fn configured(&self) -> Seq<Seq<char>> {
        self.entries.deep_view()
    }

    fn set(&mut self, dns: Vec<DNSEntry>) -> (r: Result<(), SystemDNSError>)
        ensures
            (r is Ok) == (old(self).sets_remaining != Some(0u64)),
            r is Err ==> (r matches Err(e) && e is CommandError) && *final(self) == *old(self),
            r is Ok ==> final(self).entries.deep_view() == dns.deep_view(),
            r is Ok && old(self).sets_remaining is None ==> final(self).sets_remaining is None,
            r is Ok ==> (old(self).sets_remaining matches Some(n) ==> final(self).sets_remaining
                == Some((n - 1) as u64)),
    {
        match self.sets_remaining {
            None => {
                self.entries = dns;
                Ok(())
            },
            Some(n) => {
                if n == 0 {
                    Err(SystemDNSError::CommandError(String::from_str("write budget exhausted")))
                } else {
                    self.sets_remaining = Some(n - 1);
                    self.entries = dns;
                    Ok(())
                }
            },
        }
    }

    fn get(&self) -> (r: Result<Vec<DNSEntry>, SystemDNSError>)
        ensures
            r is Ok,
    {
        let copy = clone_entries(&self.entries);
        Ok(copy)
    }
}

fn clone_entries(v: &Vec<DNSEntry>) -> (r: Vec<DNSEntry>)
    ensures
        r.deep_view() == v.deep_view(),
{
    let mut r: Vec<DNSEntry> = Vec::new();
    let mut i: usize = 0;
    while i < v.len()
        invariant
            0 <= i <= v@.len(),
            r.deep_view() == v.deep_view().subrange(0, i as int),
        decreases v@.len() - i,
    {
        let ghost old_dv = r.deep_view();
        r.push(v[i].clone());
        proof {
            assert(r.deep_view() =~= old_dv.push(v@[i as int]@));
            assert(old_dv.push(v@[i as int]@) =~= v.deep_view().subrange(0, i + 1));
        }
        i = i + 1;
    }
    proof {
        assert(v.deep_view().subrange(0, v@.len() as int) =~= v.deep_view());
    }
    r
}

} // verus!
