//! The built-in candidate pool: nameserver addresses offered as test
//! subjects. The pool is an injectable value — callers may replace it
//! wholesale with a list of their own — and it enforces no uniqueness.

use vstd::prelude::*;
use vstd::string::StringExecFns;

verus! {

/// The addresses of the built-in candidate pool, in order.
pub open spec fn default_pool() -> Seq<Seq<char>> {
    seq![
        "178.22.122.100"@,
        "185.51.200.2"@,
        "192.104.158.78"@,
        "194.104.158.48"@,
        "172.29.0.100"@,
        "172.29.2.100"@,
        "10.202.10.202"@,
        "10.202.10.102"@,
        "185.55.226.26"@,
        "185.55.225.25"@,
        "10.202.10.10"@,
        "10.202.10.11"@,
        "37.27.41.228"@,
        "87.107.52.11"@,
        "87.107.52.13"@,
        "5.202.100.100"@,
        "5.202.100.101"@,
        "94.103.125.157"@,
        "94.103.125.158"@,
        "8.8.8.8"@,
        "8.8.4.4"@,
        "1.1.1.1"@,
        "1.0.0.1"@,
        "9.9.9.9"@,
        "149.112.112.112"@,
        "149.112.112.112"@,
    ]
}

/// The built-in candidate pool.
pub fn default_dns_servers() -> (r: Vec<String>)
    ensures
        r.deep_view() == default_pool(),
        r@.len() == 26,
{
    let mut v: Vec<String> = Vec::new();
    v.push(String::from_str("178.22.122.100"));
    v.push(String::from_str("185.51.200.2"));
    v.push(String::from_str("192.104.158.78"));
    v.push(String::from_str("194.104.158.48"));
    v.push(String::from_str("172.29.0.100"));
    v.push(String::from_str("172.29.2.100"));
    v.push(String::from_str("10.202.10.202"));
    v.push(String::from_str("10.202.10.102"));
    v.push(String::from_str("185.55.226.26"));
    v.push(String::from_str("185.55.225.25"));
    v.push(String::from_str("10.202.10.10"));
    v.push(String::from_str("10.202.10.11"));
    v.push(String::from_str("37.27.41.228"));
    v.push(String::from_str("87.107.52.11"));
    v.push(String::from_str("87.107.52.13"));
    v.push(String::from_str("5.202.100.100"));
    v.push(String::from_str("5.202.100.101"));
    v.push(String::from_str("94.103.125.157"));
    v.push(String::from_str("94.103.125.158"));
    v.push(String::from_str("8.8.8.8"));
    v.push(String::from_str("8.8.4.4"));
    v.push(String::from_str("1.1.1.1"));
    v.push(String::from_str("1.0.0.1"));
    v.push(String::from_str("9.9.9.9"));
    v.push(String::from_str("149.112.112.112"));
    v.push(String::from_str("149.112.112.112"));
    proof {
        assert(v.deep_view() =~= default_pool());
    }
    v
}

} // verus!
