//! Character-level text scanning: substring search, whitespace tokenization,
//! and extraction of the first whitespace-delimited token that satisfies a
//! marker/prefix test. This is the single place where the protocol assumption
//! "the tool prints its URL in a token containing a fixed domain marker" is
//! encoded.

use vstd::prelude::*;
use vstd::string::*;

verus! {

/// The whitespace characters that delimit tokens.
pub open spec fn is_space(c: char) -> bool {
    c == ' ' || c == '\t' || c == '\r' || c == '\n'
}

/// `pat` occurs in `s` starting at position `k`.
pub open spec fn matches_at(s: Seq<char>, pat: Seq<char>, k: int) -> bool {
    &&& 0 <= k
    &&& k + pat.len() <= s.len()
    &&& forall|i: int| 0 <= i < pat.len() ==> s[k + i] == pat[i]
}

/// `pat` occurs somewhere in `s`.
pub open spec fn contains_seq(s: Seq<char>, pat: Seq<char>) -> bool {
    exists|k: int| matches_at(s, pat, k)
}

/// `s` begins with `pat`.
pub open spec fn has_prefix(s: Seq<char>, pat: Seq<char>) -> bool {
    matches_at(s, pat, 0)
}

/// The index just past the whitespace-free run that begins at `i`.
pub open spec fn token_end(s: Seq<char>, i: int) -> int
    decreases s.len() - i when 0 <= i <= s.len()
{
    if i >= s.len() {
        i
    } else if is_space(s[i]) {
        i
    } else {
        token_end(s, i + 1)
    }
}

/// The first index at or after `i` (and below `j`) that does not hold a '|'.
pub open spec fn lead_trim(s: Seq<char>, i: int, j: int) -> int
    decreases j - i when i <= j
{
    if i >= j {
        i
    } else if s[i] == '|' {
        lead_trim(s, i + 1, j)
    } else {
        i
    }
}

/// The index just past the last character at or after `i` (and below `j`)
/// that does not hold a '|'.
pub open spec fn tail_trim(s: Seq<char>, i: int, j: int) -> int
    decreases j - i when i <= j
{
    if j <= i {
        j
    } else if s[j - 1] == '|' {
        tail_trim(s, i, j - 1)
    } else {
        j
    }
}

/// The cleaned form of the token occupying `[i, j)` of `s`: in URL mode any
/// stray '|' delimiters are stripped from both ends, otherwise the token is
/// taken as it stands.
pub open spec fn cleaned(s: Seq<char>, i: int, j: int, url_mode: bool) -> Seq<char> {
    if url_mode {
        let a = lead_trim(s, i, j);
        let b = tail_trim(s, a, j);
        s.subrange(a, b)
    } else {
        s.subrange(i, j)
    }
}

/// Whether a cleaned token is accepted: it must contain the marker, and in
/// URL mode it must additionally begin with the scheme prefix.
pub open spec fn token_accepted(
    c: Seq<char>,
    marker: Seq<char>,
    url_mode: bool,
    scheme: Seq<char>,
) -> bool {
    contains_seq(c, marker) && (url_mode ==> has_prefix(c, scheme))
}

/// The cleaned form of the first accepted whitespace-delimited token whose
/// start lies at or after position `i`, if any.
pub open spec fn scan_from(
    s: Seq<char>,
    i: int,
    marker: Seq<char>,
    url_mode: bool,
    scheme: Seq<char>,
) -> Option<Seq<char>>
    decreases s.len() - i when 0 <= i <= s.len()
{
    if i >= s.len() {
        None
    } else if (i == 0 || is_space(s[i - 1])) && !is_space(s[i]) {
        let c = cleaned(s, i, token_end(s, i), url_mode);
        if token_accepted(c, marker, url_mode, scheme) {
            Some(c)
        } else {
            scan_from(s, i + 1, marker, url_mode, scheme)
        }
    } else {
        scan_from(s, i + 1, marker, url_mode, scheme)
    }
}

/// The whitespace-free run `[i, token_end(s, i))` holds no whitespace and
/// stays within the text.
pub proof fn lemma_token_run(s: Seq<char>, i: int)
    requires
        0 <= i <= s.len(),
    ensures
        i <= token_end(s, i) <= s.len(),
        forall|k: int| i <= k < token_end(s, i) ==> !is_space(s[k]),
    decreases s.len() - i,
{
    if i < s.len() && !is_space(s[i]) {
        lemma_token_run(s, i + 1);
    }
}

/// When every character from `i` on is whitespace-free, the token run
/// beginning at `i` reaches the end of the text.
pub proof fn lemma_token_end_all_nonspace(s: Seq<char>, i: int)
    requires
        0 <= i <= s.len(),
        forall|k: int| i <= k < s.len() ==> !is_space(s[k]),
    ensures
        token_end(s, i) == s.len(),
    decreases s.len() - i,
{
    if i < s.len() {
        lemma_token_end_all_nonspace(s, i + 1);
    }
}

pub proof fn lemma_lead_trim_bounds(s: Seq<char>, i: int, j: int)
    requires
        i <= j,
    ensures
        i <= lead_trim(s, i, j) <= j,
    decreases j - i,
{
    if i < j && s[i] == '|' {
        lemma_lead_trim_bounds(s, i + 1, j);
    }
}

pub proof fn lemma_tail_trim_bounds(s: Seq<char>, i: int, j: int)
    requires
        i <= j,
    ensures
        i <= tail_trim(s, i, j) <= j,
    decreases j - i,
{
    if i < j && s[j - 1] == '|' {
        lemma_tail_trim_bounds(s, i, j - 1);
    }
}

/// What a successful scan hands back is an accepted token — it contains the
/// marker and, in URL mode, begins with the scheme — and it holds no
/// whitespace: a single cleaned token, never a larger slice of the text.
pub proof fn lemma_scan_result_shape(
    s: Seq<char>,
    i: int,
    marker: Seq<char>,
    url_mode: bool,
    scheme: Seq<char>,
)
    requires
        0 <= i <= s.len(),
        scan_from(s, i, marker, url_mode, scheme) is Some,
    ensures
        ({
            let u = scan_from(s, i, marker, url_mode, scheme).unwrap();
            &&& token_accepted(u, marker, url_mode, scheme)
            &&& forall|k: int| 0 <= k < u.len() ==> !is_space(u[k])
        }),
    decreases s.len() - i,
{
    if i < s.len() {
        if (i == 0 || is_space(s[i - 1])) && !is_space(s[i]) {
            let j = token_end(s, i);
            let c = cleaned(s, i, j, url_mode);
            if token_accepted(c, marker, url_mode, scheme) {
                lemma_token_run(s, i);
                if url_mode {
                    let a = lead_trim(s, i, j);
                    lemma_lead_trim_bounds(s, i, j);
                    let b = tail_trim(s, a, j);
                    lemma_tail_trim_bounds(s, a, j);
                    assert(forall|k: int| 0 <= k < c.len() ==> c[k] == s[a + k]);
                } else {
                    assert(forall|k: int| 0 <= k < c.len() ==> c[k] == s[i + k]);
                }
            } else {
                lemma_scan_result_shape(s, i + 1, marker, url_mode, scheme);
            }
        } else {
            lemma_scan_result_shape(s, i + 1, marker, url_mode, scheme);
        }
    }
}

/// Whether `c` is a whitespace character.
pub fn space_char(c: char) -> (r: bool)
    ensures
        r == is_space(c),
{
    c == ' ' || c == '\t' || c == '\r' || c == '\n'
}

/// Whether `pat` occurs in `s` starting at position `at`.
fn matches_from(s: &str, at: usize, pat: &str) -> (r: bool)
    requires
        at + pat@.len() <= s@.len(),
    ensures
        r == matches_at(s@, pat@, at as int),
{
    let n = pat.unicode_len();
    let slen = s.unicode_len();
    let mut i: usize = 0;
    while i < n
        invariant
            n == pat@.len(),
            slen == s@.len(),
            at + n <= s@.len(),
            0 <= i <= n,
            forall|j: int| 0 <= j < i ==> s@[at + j] == pat@[j],
        decreases n - i,
    {
        if s.get_char(at + i) != pat.get_char(i) {
            proof {
                assert(s@[at + i as int] != pat@[i as int]);
            }
            return false;
        }
        i += 1;
    }
    true
}

proof fn lemma_matches_at_subrange(s: Seq<char>, pat: Seq<char>, lo: int, hi: int, k: int)
    requires
        0 <= lo <= hi <= s.len(),
        lo <= k,
        k + pat.len() <= hi,
    ensures
        matches_at(s, pat, k) == matches_at(s.subrange(lo, hi), pat, k - lo),
{
    let sub = s.subrange(lo, hi);
    assert(forall|i: int| 0 <= i < pat.len() ==> #[trigger] sub[k - lo + i] == s[k + i]);
}

/// Whether `pat` occurs in `s[lo..hi]`.
pub fn contains_in(s: &str, lo: usize, hi: usize, pat: &str) -> (r: bool)
    requires
        lo <= hi <= s@.len(),
    ensures
        r == contains_seq(s@.subrange(lo as int, hi as int), pat@),
{
    let n = pat.unicode_len();
    if hi - lo < n {
        proof {
            assert forall|k: int| !matches_at(s@.subrange(lo as int, hi as int), pat@, k) by {
                assert(s@.subrange(lo as int, hi as int).len() == hi - lo);
            }
        }
        return false;
    }
    if n == 0 {
        proof {
            assert(matches_at(s@.subrange(lo as int, hi as int), pat@, 0));
        }
        return true;
    }
    let mut k: usize = lo;
    while k <= hi - n
        invariant
            n == pat@.len(),
            0 < n,
            lo <= hi <= s@.len(),
            n <= hi - lo,
            lo <= k <= hi - n + 1,
            forall|k2: int| lo <= k2 < k ==> !matches_at(s@, pat@, k2),
        decreases hi - k,
    {
        if matches_from(s, k, pat) {
            proof {
                lemma_matches_at_subrange(s@, pat@, lo as int, hi as int, k as int);
                assert(matches_at(s@.subrange(lo as int, hi as int), pat@, k - lo as int));
            }
            return true;
        }
        k += 1;
    }
    proof {
        let sub = s@.subrange(lo as int, hi as int);
        assert forall|k2: int| !matches_at(sub, pat@, k2) by {
            if 0 <= k2 && k2 + pat@.len() <= sub.len() {
                lemma_matches_at_subrange(s@, pat@, lo as int, hi as int, k2 + lo);
                assert(!matches_at(s@, pat@, k2 + lo));
            }
        }
    }
    false
}

/// Whether `s[lo..hi]` begins with `pat`.
pub fn prefix_in(s: &str, lo: usize, hi: usize, pat: &str) -> (r: bool)
    requires
        lo <= hi <= s@.len(),
    ensures
        r == has_prefix(s@.subrange(lo as int, hi as int), pat@),
{
    let n = pat.unicode_len();
    if hi - lo < n {
        proof {
            assert(s@.subrange(lo as int, hi as int).len() == hi - lo);
        }
        return false;
    }
    let r = matches_from(s, lo, pat);
    proof {
        lemma_matches_at_subrange(s@, pat@, lo as int, hi as int, lo as int);
    }
    r
}

/// Whether two string slices hold the same characters.
pub fn str_eq(a: &str, b: &str) -> (r: bool)
    ensures
        r == (a@ == b@),
{
    let na = a.unicode_len();
    let nb = b.unicode_len();
    if na != nb {
        proof {
            assert(a@.len() != b@.len());
        }
        return false;
    }
    let r = matches_from(a, 0, b);
    proof {
        if matches_at(a@, b@, 0) {
            assert(a@ =~= b@);
        } else {
            assert(a@ != b@);
        }
    }
    r
}

/// The index just past the whitespace-free run beginning at `k`.
fn find_token_end(s: &str, k: usize) -> (j: usize)
    requires
        k <= s@.len(),
    ensures
        j == token_end(s@, k as int),
        k <= j <= s@.len(),
{
    let n = s.unicode_len();
    let mut j: usize = k;
    while j < n
        invariant_except_break
            n == s@.len(),
            k <= j <= n,
            token_end(s@, k as int) == token_end(s@, j as int),
        ensures
            n == s@.len(),
            k <= j <= n,
            token_end(s@, k as int) == j as int,
        decreases n - j,
    {
        if space_char(s.get_char(j)) {
            proof {
                assert(token_end(s@, j as int) == j as int);
            }
            break;
        }
        j += 1;
    }
    j
}

/// The start of the token `[i, j)` after leading '|' characters.
fn find_lead_trim(s: &str, i: usize, j: usize) -> (a: usize)
    requires
        i <= j <= s@.len(),
    ensures
        a == lead_trim(s@, i as int, j as int),
        i <= a <= j,
{
    let mut a: usize = i;
    while a < j
        invariant_except_break
            i <= a <= j <= s@.len(),
            lead_trim(s@, i as int, j as int) == lead_trim(s@, a as int, j as int),
        ensures
            i <= a <= j <= s@.len(),
            lead_trim(s@, i as int, j as int) == a as int,
        decreases j - a,
    {
        if s.get_char(a) != '|' {
            break;
        }
        a += 1;
    }
    a
}

/// The end of the token `[i, j)` before trailing '|' characters.
fn find_tail_trim(s: &str, i: usize, j: usize) -> (b: usize)
    requires
        i <= j <= s@.len(),
    ensures
        b == tail_trim(s@, i as int, j as int),
        i <= b <= j,
{
    let mut b: usize = j;
    while b > i
        invariant_except_break
            i <= b <= j <= s@.len(),
            tail_trim(s@, i as int, j as int) == tail_trim(s@, i as int, b as int),
        ensures
            i <= b <= j <= s@.len(),
            tail_trim(s@, i as int, j as int) == b as int,
        decreases b - i,
    {
        if s.get_char(b - 1) != '|' {
            break;
        }
        b -= 1;
    }
    b
}

/// Finds the first whitespace-delimited token of `s` that is accepted for the
/// given marker and mode, and returns it in cleaned form.
pub fn scan_text(s: &str, marker: &str, url_mode: bool, scheme: &str) -> (r: Option<String>)
    ensures
        match r {
            Some(u) => scan_from(s@, 0, marker@, url_mode, scheme@) == Some(u@),
            None => scan_from(s@, 0, marker@, url_mode, scheme@) is None,
        },
{
    let n = s.unicode_len();
    let mut k: usize = 0;
    let mut prev_space = true;
    while k < n
        invariant
            n == s@.len(),
            0 <= k <= n,
            prev_space == (k == 0 || is_space(s@[k as int - 1])),
            scan_from(s@, 0, marker@, url_mode, scheme@) == scan_from(
                s@,
                k as int,
                marker@,
                url_mode,
                scheme@,
            ),
        decreases n - k,
    {
        let c = s.get_char(k);
        let sp = space_char(c);
        if prev_space && !sp {
            let j = find_token_end(s, k);
            let (a, b) = if url_mode {
                let a = find_lead_trim(s, k, j);
                let b = find_tail_trim(s, a, j);
                (a, b)
            } else {
                (k, j)
            };
            proof {
                assert(s@.subrange(a as int, b as int) == cleaned(
                    s@,
                    k as int,
                    token_end(s@, k as int),
                    url_mode,
                ));
            }
            let mut acc = contains_in(s, a, b, marker);
            if acc && url_mode {
                acc = prefix_in(s, a, b, scheme);
            }
            if acc {
                let tok = s.substring_char(a, b);
                let out = tok.to_owned();
                proof {
                    assert(token_accepted(
                        cleaned(s@, k as int, token_end(s@, k as int), url_mode),
                        marker@,
                        url_mode,
                        scheme@,
                    ));
                    assert(scan_from(s@, k as int, marker@, url_mode, scheme@) == Some(out@));
                }
                return Some(out);
            }
            proof {
                assert(!token_accepted(
                    cleaned(s@, k as int, token_end(s@, k as int), url_mode),
                    marker@,
                    url_mode,
                    scheme@,
                ));
            }
        }
        k += 1;
        prev_space = sp;
    }
    None
}

} // verus!
