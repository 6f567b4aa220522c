//! URL normalization for the probes: a caller-supplied domain is turned
//! into an HTTPS URL, and what the probes read of a parsed URL — scheme,
//! host, serialized text — is modelled as plain strings.

use crate::text::{has_prefix, starts_with_str, str_eq, trim_ascii, trim_spec};
use vstd::prelude::*;
use vstd::string::StrSliceExecFns;
use vstd::string::StringExecFns;

verus! {

/// What the probes read of a parsed URL.
pub struct UrlParts {
    pub scheme: String,
    pub host: String,
    pub serialized: String,
}

/// What URL parsing returns for a given text: `None` where no absolute
/// URL with a host can be parsed from it, otherwise the scheme, the host
/// and the serialized form. A function of the text alone.
pub uninterp spec fn url_parse_of(s: Seq<char>) -> Option<(Seq<char>, Seq<char>, Seq<char>)>;

/// Relies on url::Url::parse, with Url::scheme, Url::host_str and
/// Url::as_str reading the parts back: the outcome depends on the input
/// text alone. An input whose URL has no host is treated as unparseable,
/// since every probe needs a host to resolve.
#[verifier::external_body]
fn parse_url_parts(s: &str) -> (r: Option<UrlParts>)
    ensures
        r matches Some(p) ==> (url_parse_of(s@) matches Some(m) && p.scheme@ == m.0 && p.host@
            == m.1 && p.serialized@ == m.2),
        r is None ==> url_parse_of(s@) is None,
{
    match url::Url::parse(s) {
        Ok(u) => {
            let host = match u.host_str() {
                Some(h) => h.to_string(),
                None => {
                    return None;
                },
            };
            let scheme = u.scheme().to_string();
            let serialized = u.as_str().to_string();
            Some(UrlParts { scheme, host, serialized })
        },
        Err(_) => None,
    }
}

/// The text `ensure_https_url` hands to the parser: the input trimmed,
/// a leading scheme prefix stripped, then wrapped as an HTTPS URL with a
/// trailing path separator.
pub open spec fn https_candidate(input: Seq<char>) -> Seq<char> {
    "https://"@ + strip_leading(strip_leading(trim_spec(input), "http://"@), "https://"@) + "/"@
}

/// Normalizes a domain into an HTTPS URL: an existing `http://` or
/// `https://` prefix is stripped, `https://` is put back in front and a
/// trailing path separator is appended; `None` where the outcome is not
/// a parseable URL with a host.
pub fn ensure_https_url(input: &str) -> (r: Option<UrlParts>)
    ensures
        r matches Some(p) ==> (url_parse_of(https_candidate(input@)) matches Some(m) && p.scheme@
            == m.0 && p.host@ == m.1 && p.serialized@ == m.2),
        r is None ==> url_parse_of(https_candidate(input@)) is None,
{
    let t = trim_ascii(input);
    let s1 = strip_prefix_once(t.as_str(), "http://");
    let s2 = strip_prefix_once(s1.as_str(), "https://");
    let mut candidate = String::from_str("https://");
    candidate.append(s2.as_str());
    candidate.append("/");
    parse_url_parts(candidate.as_str())
}

/// `s` with one leading occurrence of `pre` removed.
pub open spec fn strip_leading(s: Seq<char>, pre: Seq<char>) -> Seq<char> {
    if has_prefix(s, pre) {
        s.subrange(pre.len() as int, s.len() as int)
    } else {
        s
    }
}

fn strip_prefix_once(s: &str, pre: &str) -> (r: String)
    ensures
        r@ == strip_leading(s@, pre@),
{
    if starts_with_str(s, pre) {
        let m = pre.unicode_len();
        let n = s.unicode_len();
        String::from_str(s.substring_char(m, n))
    } else {
        String::from_str(s)
    }
}

/// The base URL `ensure_https` builds before asking the parser for the
/// host: the domain with one leading scheme prefix removed, re-prefixed
/// with `https://`.
pub open spec fn https_base(domain: Seq<char>) -> Seq<char> {
    "https://"@ + strip_leading(strip_leading(domain, "http://"@), "https://"@)
}

/// The canonical HTTPS URL text for a domain: where the re-prefixed
/// domain parses, `https://<host>/`; where it does not, the re-prefixed
/// text unchanged.
pub open spec fn canonical_url_text(domain: Seq<char>) -> Seq<char> {
    match url_parse_of(https_base(domain)) {
        Some(m) => "https://"@ + m.1 + "/"@,
        None => https_base(domain),
    }
}

/// Builds the canonical HTTPS URL text for a domain.
pub fn ensure_https(domain: &str) -> (r: String)
    ensures
        r@ == canonical_url_text(domain@),
{
    let s1 = strip_prefix_once(domain, "http://");
    let s2 = strip_prefix_once(s1.as_str(), "https://");
    let mut base = String::from_str("https://");
    base.append(s2.as_str());
    match parse_url_parts(base.as_str()) {
        Some(p) => {
            let mut r = String::from_str("https://");
            r.append(p.host.as_str());
            r.append("/");
            r
        },
        None => base,
    }
}

/// The destination port a URL scheme implies.
pub fn port_for_scheme(scheme: &str) -> (r: Option<u16>)
    ensures
        scheme@ == "https"@ ==> r == Some(443u16),
        scheme@ == "http"@ ==> r == Some(80u16),
        scheme@ != "https"@ && scheme@ != "http"@ ==> r is None,
{
    proof {
        reveal_strlit("https");
        reveal_strlit("http");
        assert("https"@.len() == 5);
        assert("http"@.len() == 4);
    }
    if str_eq(scheme, "https") {
        Some(443)
    } else if str_eq(scheme, "http") {
        Some(80)
    } else {
        None
    }
}

} // verus!
