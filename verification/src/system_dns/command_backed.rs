//! The command-backed configurator's text interface: the network
//! configuration utility is invoked with a read subcommand for a fixed
//! interface name, whose line-oriented output is parsed here (filtering
//! the sentinel line it prints when no servers are configured), and with
//! a write subcommand taking the full desired list as arguments.

use crate::text::{split_lines, split_lines_exec, str_eq};
use crate::system_dns::DNSEntry;
use vstd::prelude::*;
use vstd::string::StrSliceExecFns;
use vstd::string::StringExecFns;

verus! {

/// A line with a trailing carriage return loses it.
pub open spec fn strip_cr(l: Seq<char>) -> Seq<char> {
    if l.len() > 0 && l.last() == '\r' {
        l.drop_last()
    } else {
        l
    }
}

/// The lines of a text, as line iteration sees them: split on newlines,
/// a final newline closes the last line instead of opening an empty one,
/// and each line loses a trailing carriage return.
pub open spec fn lines_spec(s: Seq<char>) -> Seq<Seq<char>> {
    if s.len() == 0 {
        seq![]
    } else if s.last() == '\n' {
        split_lines(s.subrange(0, s.len() - 1)).map_values(|l: Seq<char>| strip_cr(l))
    } else {
        split_lines(s).map_values(|l: Seq<char>| strip_cr(l))
    }
}

/// The utility prints this line instead of addresses when no servers are
/// configured on the interface; it is not an address.
pub open spec fn keep_server_line(l: Seq<char>) -> bool {
    l != "There aren't any DNS Servers set on"@
}

/// The lines that survive the sentinel filter, in order.
pub open spec fn filtered_lines(ls: Seq<Seq<char>>) -> Seq<Seq<char>>
    decreases ls.len(),
{
    if ls.len() == 0 {
        seq![]
    } else {
        (if keep_server_line(ls.first()) {
            seq![ls.first()]
        } else {
            seq![]
        }) + filtered_lines(ls.drop_first())
    }
}

/// The nameserver list in the read subcommand's output.
pub open spec fn parse_command_output_spec(s: Seq<char>) -> Seq<Seq<char>> {
    filtered_lines(lines_spec(s))
}

/// Parses the read subcommand's output: one address per line, filtering
/// the no-servers sentinel line.
pub fn parse_networksetup_output(out: &str) -> (r: Vec<DNSEntry>)
    ensures
        r.deep_view() == parse_command_output_spec(out@),
{
    let n = out.unicode_len();
    let mut servers: Vec<DNSEntry> = Vec::new();
    if n == 0 {
        proof {
            assert(servers.deep_view() =~= parse_command_output_spec(out@));
        }
        return servers;
    }
    let end = if out.get_char(n - 1) == '\n' {
        n - 1
    } else {
        n
    };
    let body = out.substring_char(0, end);
    let raw = split_lines_exec(body);
    let ghost mapped = split_lines(body@).map_values(|l: Seq<char>| strip_cr(l));
    proof {
        assert(out@.subrange(0, out@.len() as int) =~= out@);
        assert(mapped == lines_spec(out@));
        assert(mapped.skip(0) =~= mapped);
        assert(servers.deep_view() + filtered_lines(mapped) =~= filtered_lines(mapped));
    }
    let mut i: usize = 0;
    while i < raw.len()
        invariant
            0 <= i <= raw@.len(),
            raw.deep_view() == split_lines(body@),
            mapped == split_lines(body@).map_values(|l: Seq<char>| strip_cr(l)),
            servers.deep_view() + filtered_lines(mapped.skip(i as int)) == filtered_lines(mapped),
        decreases raw@.len() - i,
    {
        let ghost rest = mapped.skip(i as int);
        proof {
            assert(rest.first() == mapped[i as int]);
            assert(mapped[i as int] == strip_cr(raw.deep_view()[i as int]));
            assert(rest.drop_first() =~= mapped.skip(i as int + 1));
            assert(raw@[i as int]@ == raw.deep_view()[i as int]);
        }
        let ln = raw[i].as_str().unicode_len();
        let line = if ln > 0 && raw[i].as_str().get_char(ln - 1) == '\r' {
            String::from_str(raw[i].as_str().substring_char(0, ln - 1))
        } else {
            raw[i].clone()
        };
        proof {
            assert(line@ == strip_cr(raw.deep_view()[i as int]));
        }
        if !str_eq(line.as_str(), "There aren't any DNS Servers set on") {
            let ghost old_dv = servers.deep_view();
            servers.push(line);
            proof {
                assert(keep_server_line(rest.first()));
                assert(servers.deep_view() =~= old_dv.push(rest.first()));
                assert(servers.deep_view() + filtered_lines(mapped.skip(i as int + 1)) =~= old_dv
                    + (seq![rest.first()] + filtered_lines(rest.drop_first())));
            }
        } else {
            proof {
                assert(!keep_server_line(rest.first()));
                assert(servers.deep_view() + filtered_lines(mapped.skip(i as int + 1))
                    =~= servers.deep_view() + filtered_lines(rest));
            }
        }
        i = i + 1;
    }
    proof {
        assert(mapped.skip(mapped.len() as int) =~= Seq::<Seq<char>>::empty());
        assert(servers.deep_view() + filtered_lines(Seq::<Seq<char>>::empty())
            =~= servers.deep_view());
    }
    servers
}

/// The argument list for the write subcommand: the subcommand, the fixed
/// interface name, then the full desired list.
pub fn networksetup_set_args(dns: &Vec<DNSEntry>) -> (r: Vec<String>)
    ensures
        r.deep_view() == seq!["-setdnsservers"@, "Wi-Fi"@] + dns.deep_view(),
{
    let ghost dv = dns.deep_view();
    let mut args: Vec<String> = Vec::new();
    args.push(String::from_str("-setdnsservers"));
    args.push(String::from_str("Wi-Fi"));
    proof {
        assert(args.deep_view() =~= seq!["-setdnsservers"@, "Wi-Fi"@] + dv.subrange(0, 0));
    }
    let mut i: usize = 0;
    while i < dns.len()
        invariant
            0 <= i <= dns@.len(),
            dv == dns.deep_view(),
            args.deep_view() == seq!["-setdnsservers"@, "Wi-Fi"@] + dv.subrange(0, i as int),
        decreases dns@.len() - i,
    {
        let ghost old_dv = args.deep_view();
        args.push(dns[i].clone());
        proof {
            assert(dns@[i as int]@ == dv[i as int]);
            assert(args.deep_view() =~= old_dv.push(dv[i as int]));
            assert(old_dv.push(dv[i as int]) =~= seq!["-setdnsservers"@, "Wi-Fi"@] + dv.subrange(
                0,
                i as int + 1,
            ));
        }
        i = i + 1;
    }
    proof {
        assert(dv.subrange(0, dv.len() as int) =~= dv);
    }
    args
}

/// The argument list for the read subcommand.
pub fn networksetup_get_args() -> (r: Vec<String>)
    ensures
        r.deep_view() == seq!["-getdnsservers"@, "Wi-Fi"@],
{
    let mut args: Vec<String> = Vec::new();
    args.push(String::from_str("-getdnsservers"));
    args.push(String::from_str("Wi-Fi"));
    proof {
        assert(args.deep_view() =~= seq!["-getdnsservers"@, "Wi-Fi"@]);
    }
    args
}

} // verus!
