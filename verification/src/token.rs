//! Session token generation: a 32-character random token drawn from a fixed
//! alphanumeric charset, used to authenticate the bridge API.

use vstd::prelude::*;
use vstd::string::*;

verus! {

/// The characters a session token is drawn from.
pub open spec fn spec_token_charset() -> Seq<char> {
    "abcdefghijklmnopqrstuvwxyzABCDEFGHIJKLMNOPQRSTUVWXYZ0123456789"@
}

/// Whether `c` is one of the token charset's characters.
pub open spec fn is_token_char(c: char) -> bool {
    exists|j: int| 0 <= j < spec_token_charset().len() && spec_token_charset()[j] == c
}

/// Token characters need no escaping in the files the token is written
/// into: the charset holds no quote, no backslash, and no line break.
pub proof fn lemma_token_chars_need_no_escape(c: char)
    requires
        is_token_char(c),
    ensures
        c != '"' && c != '\\' && c != '\n' && c != '=',
{
    reveal_strlit("abcdefghijklmnopqrstuvwxyzABCDEFGHIJKLMNOPQRSTUVWXYZ0123456789");
    let j = choose|j: int|
        0 <= j < spec_token_charset().len() && spec_token_charset()[j] == c;
    assert(('a' <= c && c <= 'z') || ('A' <= c && c <= 'Z') || ('0' <= c && c <= '9'));
}

/// Relies on rand's `Rng::gen_range` over `0..bound`: it returns a value of
/// the given range, and panics only when the range is empty.
#[verifier::external_body]
fn random_index(bound: usize) -> (r: usize)
    requires
        0 < bound,
    ensures
        r < bound,
{
    rand::Rng::gen_range(&mut rand::thread_rng(), 0..bound)
}

/// Generates a fresh 32-character session token, each character drawn from
/// the fixed alphanumeric charset — characters that need no escaping in any
/// of the files the token is written into.
pub fn generate_token() -> (r: String)
    ensures
        r@.len() == 32,
        forall|i: int| 0 <= i < r@.len() ==> is_token_char(#[trigger] r@[i]),
{
    let charset = "abcdefghijklmnopqrstuvwxyzABCDEFGHIJKLMNOPQRSTUVWXYZ0123456789";
    proof {
        reveal_strlit("abcdefghijklmnopqrstuvwxyzABCDEFGHIJKLMNOPQRSTUVWXYZ0123456789");
        assert(charset@.len() == 62);
    }
    let mut out = String::new();
    let mut i: usize = 0;
    while i < 32
        invariant
            charset@ == spec_token_charset(),
            charset@.len() == 62,
            out@.len() == i,
            0 <= i <= 32,
            forall|k: int| 0 <= k < out@.len() ==> is_token_char(#[trigger] out@[k]),
        decreases 32 - i,
    {
        let idx = random_index(62);
        let one = charset.substring_char(idx, idx + 1);
        proof {
            assert(one@[0] == spec_token_charset()[idx as int]);
            assert(is_token_char(one@[0]));
        }
        out.append(one);
        i += 1;
    }
    out
}

} // verus!
