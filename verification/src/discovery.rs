//! Tunnel URL discovery: scanning the tunnel process's diagnostic output for
//! the first token that names the tunnel domain, and turning the outcome of a
//! timed session into a result.

use vstd::prelude::*;
use crate::text::{
    cleaned, contains_seq, has_prefix, is_space, lead_trim, lemma_scan_result_shape,
    lemma_token_end_all_nonspace, scan_from, scan_text, tail_trim, token_accepted, token_end,
};
use crate::errors::SupError;

verus! {

/// The fixed window, in seconds, a caller waits for the URL before the
/// session is reported as timed out. The timeout does not cancel the tunnel
/// process: it stays running and registered, so a later stop can reap it.
pub const DISCOVERY_TIMEOUT_SECS: u64 = 30;

/// The domain marker the tunnel process prints inside its assigned URL.
pub open spec fn spec_tunnel_marker() -> Seq<char> {
    "trycloudflare.com"@
}

/// The scheme prefix a delivered URL must begin with.
pub open spec fn spec_url_scheme() -> Seq<char> {
    "https://"@
}

/// The URL one diagnostic line yields, if any: the first whitespace-delimited
/// token that, once stray '|' border characters are stripped from its ends,
/// begins with the scheme prefix and contains the domain marker.
pub open spec fn spec_tunnel_url(line: Seq<char>) -> Option<Seq<char>> {
    scan_from(line, 0, spec_tunnel_marker(), true, spec_url_scheme())
}

/// Extracts the tunnel URL from one diagnostic line.
pub fn tunnel_url_from_line(line: &str) -> (r: Option<String>)
    ensures
        match r {
            Some(u) => spec_tunnel_url(line@) == Some(u@),
            None => spec_tunnel_url(line@) is None,
        },
{
    scan_text(line, "trycloudflare.com", true, "https://")
}

/// Discovery never delivers an arbitrary slice of the stream: a URL
/// extracted from a line begins with the scheme prefix, contains the tunnel
/// domain marker, and holds no whitespace and no stray '|' border at its
/// ends — it is one cleaned token.
pub proof fn lemma_tunnel_url_well_formed(line: Seq<char>)
    requires
        spec_tunnel_url(line) is Some,
    ensures
        ({
            let u = spec_tunnel_url(line).unwrap();
            &&& has_prefix(u, spec_url_scheme())
            &&& contains_seq(u, spec_tunnel_marker())
            &&& forall|k: int| 0 <= k < u.len() ==> !is_space(u[k])
        }),
{
    lemma_scan_result_shape(line, 0, spec_tunnel_marker(), true, spec_url_scheme());
}

/// The first URL any line of `lines` yields at or after index `i`, scanning
/// the lines in the order they were emitted: the first match wins.
pub open spec fn spec_first_url(lines: Seq<Seq<char>>, i: int) -> Option<Seq<char>>
    decreases lines.len() - i when 0 <= i <= lines.len()
{
    if i >= lines.len() {
        None
    } else if spec_tunnel_url(lines[i]) is Some {
        spec_tunnel_url(lines[i])
    } else {
        spec_first_url(lines, i + 1)
    }
}

/// Scans emitted diagnostic lines in order and returns the first URL found.
pub fn tunnel_url_from_lines(lines: &Vec<String>) -> (r: Option<String>)
    ensures
        match r {
            Some(u) => spec_first_url(lines@.map_values(|l: String| l@), 0) == Some(u@),
            None => spec_first_url(lines@.map_values(|l: String| l@), 0) is None,
        },
{
    let mut i: usize = 0;
    while i < lines.len()
        invariant
            0 <= i <= lines@.len(),
            spec_first_url(lines@.map_values(|l: String| l@), 0) == spec_first_url(
                lines@.map_values(|l: String| l@),
                i as int,
            ),
        decreases lines@.len() - i,
    {
        let found = tunnel_url_from_line(lines[i].as_str());
        if let Some(u) = found {
            return Some(u);
        }
        i += 1;
    }
    None
}

/// Border characters are ignored: a line that holds a well-formed URL as its
/// only token, wrapped in one '|' border on each side, yields exactly the
/// bare URL — the borders never become part of what is delivered.
pub proof fn lemma_borders_ignored(u: Seq<char>)
    requires
        u.len() > 0,
        forall|k: int| 0 <= k < u.len() ==> !is_space(u[k]) && u[k] != '|',
        has_prefix(u, spec_url_scheme()),
        contains_seq(u, spec_tunnel_marker()),
    ensures
        spec_tunnel_url(seq!['|'] + u + seq!['|']) == Some(u),
{
    let line = seq!['|'] + u + seq!['|'];
    let n = line.len() as int;
    assert(n == u.len() + 2);
    assert(line[0] == '|');
    assert(line[n - 1] == '|');
    assert(forall|k: int| 1 <= k < n - 1 ==> line[k] == u[k - 1]);
    assert(forall|k: int| 0 <= k < n ==> !is_space(line[k]));
    lemma_token_end_all_nonspace(line, 0);
    assert(token_end(line, 0) == n);
    // The leading border is trimmed and nothing after it: the URL begins
    // with the scheme, whose first character is no '|'.
    reveal_strlit("https://");
    assert(spec_url_scheme().len() == 8);
    assert(u[0] == spec_url_scheme()[0]);
    assert(u[0] == 'h');
    assert(lead_trim(line, 1, n) == 1);
    assert(lead_trim(line, 0, n) == 1);
    // The trailing border is trimmed and nothing before it.
    assert(line[n - 2] == u[u.len() - 1]);
    assert(tail_trim(line, 1, n - 1) == n - 1);
    assert(tail_trim(line, 1, n) == n - 1);
    assert(line.subrange(1, n - 1) =~= u);
    assert(cleaned(line, 0, n, true) == u);
    assert(token_accepted(u, spec_tunnel_marker(), true, spec_url_scheme()));
    assert(scan_from(line, 0, spec_tunnel_marker(), true, spec_url_scheme()) == Some(u));
}

/// A line that is exactly a well-formed URL yields that URL unchanged.
pub proof fn lemma_bare_url_delivered(u: Seq<char>)
    requires
        u.len() > 0,
        forall|k: int| 0 <= k < u.len() ==> !is_space(u[k]) && u[k] != '|',
        has_prefix(u, spec_url_scheme()),
        contains_seq(u, spec_tunnel_marker()),
    ensures
        spec_tunnel_url(u) == Some(u),
{
    let n = u.len() as int;
    lemma_token_end_all_nonspace(u, 0);
    assert(lead_trim(u, 0, n) == 0);
    assert(tail_trim(u, 0, n) == n);
    assert(u.subrange(0, n) =~= u);
    assert(cleaned(u, 0, n, true) == u);
    assert(scan_from(u, 0, spec_tunnel_marker(), true, spec_url_scheme()) == Some(u));
}

/// The first match wins: a delivered URL comes from some matching line, and
/// every line emitted before that one yields nothing.
pub proof fn lemma_first_match_wins(lines: Seq<Seq<char>>, i: int)
    requires
        0 <= i <= lines.len(),
        spec_first_url(lines, i) is Some,
    ensures
        exists|j: int|
            i <= j < lines.len() && #[trigger] spec_tunnel_url(lines[j]) == spec_first_url(
                lines,
                i,
            ) && (forall|k: int| i <= k < j ==> spec_tunnel_url(lines[k]) is None),
    decreases lines.len() - i,
{
    if i < lines.len() {
        if spec_tunnel_url(lines[i]) is Some {
            assert(i <= i < lines.len() && spec_tunnel_url(lines[i]) == spec_first_url(lines, i)
                && (forall|k: int| i <= k < i ==> spec_tunnel_url(lines[k]) is None));
        } else {
            lemma_first_match_wins(lines, i + 1);
            let j = choose|j: int|
                i + 1 <= j < lines.len() && #[trigger] spec_tunnel_url(lines[j])
                    == spec_first_url(lines, i + 1) && (forall|k: int|
                    i + 1 <= k < j ==> spec_tunnel_url(lines[k]) is None);
            assert(i <= j < lines.len() && spec_tunnel_url(lines[j]) == spec_first_url(lines, i)
                && (forall|k: int| i <= k < j ==> spec_tunnel_url(lines[k]) is None));
        }
    }
}

/// The outcome of one discovery session that observed exactly `lines` on the
/// diagnostic stream before the fixed window elapsed: the first URL found, or
/// a discovery timeout when no observed line yields one — also when the
/// stream ended early, since an early process exit is reported the same way.
pub fn discovery_result(lines: &Vec<String>) -> (r: Result<String, SupError>)
    ensures
        match r {
            Ok(u) => spec_first_url(lines@.map_values(|l: String| l@), 0) == Some(u@),
            Err(e) => spec_first_url(lines@.map_values(|l: String| l@), 0) is None
                && e is DiscoveryTimeout,
        },
{
    match tunnel_url_from_lines(lines) {
        Some(u) => Ok(u),
        None => Err(SupError::DiscoveryTimeout),
    }
}

} // verus!
