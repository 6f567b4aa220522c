//! The file-backed configurator's text format: a POSIX-style resolver
//! configuration, one directive per line. `get` extracts the address of
//! every `nameserver <address>` line, ignoring comment lines that begin
//! with `#`; `set` rewrites the whole file, one `nameserver` line per
//! entry after a leading blank line.

use crate::text::{
    has_prefix, is_ascii_ws, split_lines, split_lines_exec, starts_with_str, trim_ascii,
    trim_end_spec, trim_spec, trim_start_spec,
};
use crate::system_dns::DNSEntry;
use vstd::prelude::*;
use vstd::string::StrSliceExecFns;
use vstd::string::StringExecFns;

verus! {

/// What one configuration line contributes: the address of a trimmed
/// `nameserver <address>` directive; comments and other lines contribute
/// nothing.
pub open spec fn entry_of_line(line: Seq<char>) -> Seq<Seq<char>> {
    let t = trim_spec(line);
    if !has_prefix(t, "#"@) && has_prefix(t, "nameserver "@) {
        seq![t.subrange("nameserver "@.len() as int, t.len() as int)]
    } else {
        seq![]
    }
}

/// The addresses contributed by a sequence of lines, in order.
pub open spec fn entries_of_lines(lines: Seq<Seq<char>>) -> Seq<Seq<char>>
    decreases lines.len(),
{
    if lines.len() == 0 {
        seq![]
    } else {
        entry_of_line(lines.first()) + entries_of_lines(lines.drop_first())
    }
}

/// The nameserver addresses of a resolver configuration text.
pub open spec fn parse_resolv_spec(content: Seq<char>) -> Seq<Seq<char>> {
    entries_of_lines(split_lines(content))
}

/// One `nameserver <address>` line per entry, in order.
pub open spec fn rendered_lines(entries: Seq<Seq<char>>) -> Seq<char>
    decreases entries.len(),
{
    if entries.len() == 0 {
        seq![]
    } else {
        "nameserver "@ + entries.first() + seq!['\n'] + rendered_lines(entries.drop_first())
    }
}

/// The complete file content `set` writes: a leading blank line, then one
/// directive line per entry.
pub open spec fn render_resolv_spec(entries: Seq<Seq<char>>) -> Seq<char> {
    seq!['\n'] + rendered_lines(entries)
}

/// An entry that the format can carry faithfully: non-empty, free of
/// newlines, and not ending in whitespace that trimming would eat.
pub open spec fn valid_entry(e: Seq<char>) -> bool {
    &&& e.len() > 0
    &&& !is_ascii_ws(e.last())
    &&& forall|i: int| 0 <= i < e.len() ==> e[i] != '\n'
}

/// Extracts the nameserver addresses from a resolver configuration text.
pub fn parse_resolv_conf(content: &str) -> (r: Vec<DNSEntry>)
    ensures
        r.deep_view() == parse_resolv_spec(content@),
{
    let lines = split_lines_exec(content);
    let ghost ls = lines.deep_view();
    let mut out: Vec<DNSEntry> = Vec::new();
    let mut i: usize = 0;
    proof {
        assert(ls.skip(0) =~= ls);
        assert(out.deep_view() + entries_of_lines(ls) =~= entries_of_lines(ls));
    }
    while i < lines.len()
        invariant
            0 <= i <= lines@.len(),
            ls == lines.deep_view(),
            ls == split_lines(content@),
            out.deep_view() + entries_of_lines(ls.skip(i as int)) == entries_of_lines(ls),
        decreases lines@.len() - i,
    {
        let ghost rest = ls.skip(i as int);
        proof {
            assert(rest.first() == ls[i as int]);
            assert(rest.drop_first() =~= ls.skip(i as int + 1));
            assert(lines@[i as int]@ == ls[i as int]);
        }
        let t = trim_ascii(lines[i].as_str());
        if starts_with_str(t.as_str(), "#") {
            proof {
                assert(entry_of_line(ls[i as int]) =~= Seq::<Seq<char>>::empty());
                assert(out.deep_view() + entries_of_lines(ls.skip(i as int + 1))
                    =~= out.deep_view() + entries_of_lines(rest));
            }
        } else if starts_with_str(t.as_str(), "nameserver ") {
            let m = "nameserver ".unicode_len();
            let tn = t.as_str().unicode_len();
            let addr = String::from_str(t.as_str().substring_char(m, tn));
            let ghost old_dv = out.deep_view();
            out.push(addr);
            proof {
                assert(entry_of_line(ls[i as int]) =~= seq![addr@]);
                assert(out.deep_view() =~= old_dv.push(addr@));
                assert(out.deep_view() + entries_of_lines(ls.skip(i as int + 1)) =~= old_dv + (
                entry_of_line(rest.first()) + entries_of_lines(rest.drop_first())));
            }
        } else {
            proof {
                assert(entry_of_line(ls[i as int]) =~= Seq::<Seq<char>>::empty());
                assert(out.deep_view() + entries_of_lines(ls.skip(i as int + 1))
                    =~= out.deep_view() + entries_of_lines(rest));
            }
        }
        i = i + 1;
    }
    proof {
        assert(ls.skip(ls.len() as int) =~= Seq::<Seq<char>>::empty());
        assert(out.deep_view() + entries_of_lines(Seq::<Seq<char>>::empty()) =~= out.deep_view());
    }
    out
}

/// Renders the complete file content for `set`: a leading blank line, then
/// one `nameserver <address>` line per entry, in order.
pub fn render_resolv_conf(dns: &Vec<DNSEntry>) -> (r: String)
    ensures
        r@ == render_resolv_spec(dns.deep_view()),
{
    let ghost dv = dns.deep_view();
    let mut out = String::from_str("\n");
    let mut i: usize = 0;
    proof {
        reveal_strlit("\n");
        assert("\n"@ =~= seq!['\n']);
        assert(dv.skip(0) =~= dv);
        assert(out@ + rendered_lines(dv) =~= render_resolv_spec(dv));
    }
    while i < dns.len()
        invariant
            0 <= i <= dns@.len(),
            dv == dns.deep_view(),
            out@ + rendered_lines(dv.skip(i as int)) == render_resolv_spec(dv),
        decreases dns@.len() - i,
    {
        let ghost rest = dv.skip(i as int);
        out.append("nameserver ");
        out.append(dns[i].as_str());
        out.append("\n");
        proof {
            reveal_strlit("\n");
            assert("\n"@ =~= seq!['\n']);
            assert(rest.first() == dv[i as int]);
            assert(rest.drop_first() =~= dv.skip(i as int + 1));
            assert(dns@[i as int]@ == dv[i as int]);
            assert(out@ + rendered_lines(dv.skip(i as int + 1)) =~= (out@ + rendered_lines(
                dv.skip(i as int + 1),
            )));
        }
        i = i + 1;
    }
    proof {
        assert(dv.skip(dv.len() as int) =~= Seq::<Seq<char>>::empty());
        assert(out@ + rendered_lines(Seq::<Seq<char>>::empty()) =~= out@);
    }
    out
}

proof fn lemma_ns_prefix_chars()
    ensures
        "nameserver "@ =~= seq!['n', 'a', 'm', 'e', 's', 'e', 'r', 'v', 'e', 'r', ' '],
        "#"@ =~= seq!['#'],
{
    reveal_strlit("nameserver ");
    reveal_strlit("#");
}

proof fn lemma_ns_line_entry(e: Seq<char>)
    requires
        valid_entry(e),
    ensures
        entry_of_line("nameserver "@ + e) == seq![e],
{
    lemma_ns_prefix_chars();
    let pre = "nameserver "@;
    let line = pre + e;
    assert(line[0] == 'n');
    assert(!is_ascii_ws(line[0]));
    assert(trim_start_spec(line) == line);
    assert(line.last() == e.last());
    assert(!is_ascii_ws(line.last()));
    assert(trim_end_spec(line) == line);
    assert(trim_spec(line) == line);
    assert(line.subrange(0, pre.len() as int) =~= pre);
    assert(has_prefix(line, pre));
    assert(!has_prefix(line, "#"@)) by {
        if has_prefix(line, "#"@) {
            assert(line.subrange(0, 1)[0] == line[0]);
        }
    }
    assert(line.subrange(pre.len() as int, line.len() as int) =~= e);
}

proof fn lemma_round_trip_lines(es: Seq<Seq<char>>)
    requires
        forall|i: int| 0 <= i < es.len() ==> valid_entry(#[trigger] es[i]),
    ensures
        entries_of_lines(split_lines(rendered_lines(es))) == es,
    decreases es.len(),
{
    lemma_ns_prefix_chars();
    if es.len() == 0 {
        let empty = Seq::<char>::empty();
        assert(split_lines(empty) == seq![empty]);
        assert(entry_of_line(empty) =~= Seq::<Seq<char>>::empty());
        assert(seq![empty].first() == empty);
        assert(seq![empty].drop_first() =~= Seq::<Seq<char>>::empty());
        assert(entries_of_lines(Seq::<Seq<char>>::empty()) =~= Seq::<Seq<char>>::empty());
        assert(entries_of_lines(seq![empty]) =~= entry_of_line(empty) + entries_of_lines(
            Seq::<Seq<char>>::empty(),
        ));
        assert(entries_of_lines(seq![empty]) =~= Seq::<Seq<char>>::empty());
        assert(entries_of_lines(split_lines(rendered_lines(es))) =~= es);
    } else {
        let e0 = es.first();
        let rest = es.drop_first();
        let a = "nameserver "@ + e0;
        assert(forall|k: int| 0 <= k < a.len() ==> a[k] != '\n') by {
            assert(forall|k: int| 0 <= k < 11 ==> a[k] != '\n');
            assert(forall|k: int| 11 <= k < a.len() ==> a[k] == e0[k - 11]);
        }
        assert(rendered_lines(es) =~= a + seq!['\n'] + rendered_lines(rest));
        crate::text::lemma_split_lines_step(a, rendered_lines(rest));
        assert(forall|i: int| 0 <= i < rest.len() ==> valid_entry(#[trigger] rest[i]));
        lemma_round_trip_lines(rest);
        lemma_ns_line_entry(e0);
        let tail_lines = split_lines(rendered_lines(rest));
        assert((seq![a] + tail_lines).first() == a);
        assert((seq![a] + tail_lines).drop_first() =~= tail_lines);
        assert(entries_of_lines(seq![a] + tail_lines) == seq![e0] + rest);
        assert(seq![e0] + rest =~= es);
    }
}

/// Law: writing a list of well-formed entries and reading the file back
/// returns exactly that list, in order.
pub proof fn lemma_resolv_round_trip(entries: Seq<Seq<char>>)
    requires
        forall|i: int| 0 <= i < entries.len() ==> valid_entry(#[trigger] entries[i]),
    ensures
        parse_resolv_spec(render_resolv_spec(entries)) == entries,
{
    lemma_ns_prefix_chars();
    let body = rendered_lines(entries);
    let empty = Seq::<char>::empty();
    assert(render_resolv_spec(entries) =~= empty + seq!['\n'] + body);
    crate::text::lemma_split_lines_step(empty, body);
    lemma_round_trip_lines(entries);
    let all_lines = seq![empty] + split_lines(body);
    assert(all_lines.first() == empty);
    assert(all_lines.drop_first() =~= split_lines(body));
    assert(entry_of_line(empty) =~= Seq::<Seq<char>>::empty());
    assert(entries_of_lines(all_lines) == entries);
}

} // verus!
