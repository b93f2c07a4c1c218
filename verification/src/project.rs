//! Project-root resolution and the composed environment and file contents a
//! spawned process receives. The existence probes themselves are I/O and are
//! done by the caller; resolution here is a pure function of the candidate
//! list and the probe outcomes, which is what makes it repeatable.

use vstd::prelude::*;
use vstd::string::*;
use crate::errors::SupError;
use crate::pipeline::pair_views;

verus! {

/// The view of an optional string.
pub open spec fn opt_view(o: Option<String>) -> Option<Seq<char>> {
    match o {
        Some(s) => Some(s@),
        None => None,
    }
}

/// The ordered candidate locations for the project root: the explicitly
/// configured path first, then the conventional home-directory locations.
pub open spec fn spec_candidate_roots(
    cfg_root: Option<Seq<char>>,
    home: Option<Seq<char>>,
) -> Seq<Seq<char>> {
    (match cfg_root {
        Some(c) => seq![c],
        None => Seq::<Seq<char>>::empty(),
    }) + (match home {
        Some(h) => seq![
            h + "/Desktop/cua"@,
            h + "/Desktop/system"@,
            h + "/Projects/system"@,
            h + "/code/system"@,
        ],
        None => Seq::<Seq<char>>::empty(),
    })
}

/// Builds the ordered candidate locations for the project root.
pub fn candidate_roots(cfg_root: &Option<String>, home: &Option<String>) -> (r: Vec<String>)
    ensures
        r@.map_values(|s: String| s@) == spec_candidate_roots(opt_view(*cfg_root), opt_view(*home)),
{
    let mut v: Vec<String> = Vec::new();
    if let Some(c) = cfg_root {
        v.push(c.clone());
    }
    if let Some(h) = home {
        let mut a = h.clone();
        a.append("/Desktop/cua");
        v.push(a);
        let mut b = h.clone();
        b.append("/Desktop/system");
        v.push(b);
        let mut c2 = h.clone();
        c2.append("/Projects/system");
        v.push(c2);
        let mut d = h.clone();
        d.append("/code/system");
        v.push(d);
    }
    proof {
        assert(v@.map_values(|s: String| s@) =~= spec_candidate_roots(
            opt_view(*cfg_root),
            opt_view(*home),
        ));
    }
    v
}

/// The first candidate whose marker probe succeeded, if any.
pub open spec fn spec_first_root(c: Seq<Seq<char>>, m: Seq<bool>, i: int) -> Option<Seq<char>>
    decreases c.len() - i when 0 <= i <= c.len()
{
    if i >= c.len() {
        None
    } else if i < m.len() && m[i] {
        Some(c[i])
    } else {
        spec_first_root(c, m, i + 1)
    }
}

fn clone_strings(v: &Vec<String>) -> (r: Vec<String>)
    ensures
        r@.map_values(|s: String| s@) == v@.map_values(|s: String| s@),
{
    let mut out: Vec<String> = Vec::new();
    let mut i: usize = 0;
    while i < v.len()
        invariant
            0 <= i <= v@.len(),
            out@.map_values(|s: String| s@) == v@.map_values(|s: String| s@).take(i as int),
        decreases v@.len() - i,
    {
        let c = v[i].clone();
        proof {
            assert(c@ == v@[i as int]@);
        }
        let ghost pre = out@;
        out.push(c);
        proof {
            let f = |s: String| s@;
            assert(pre.map_values(f) == v@.map_values(f).take(i as int));
            assert(pre.map_values(f).len() == pre.len());
            assert(v@.map_values(f).take(i as int).len() == i as int);
            assert(pre.len() == i as int);
            assert forall|k: int| 0 <= k < i + 1 implies #[trigger] out@.map_values(f)[k] == v@
                .map_values(f).take(i + 1)[k] by {
                if k < i {
                    assert(out@[k] == pre[k]);
                    assert(pre.map_values(f)[k] == v@.map_values(f).take(i as int)[k]);
                }
            }
            assert(out@.map_values(f) =~= v@.map_values(f).take(i + 1));
        }
        i += 1;
    }
    proof {
        assert(v@.map_values(|s: String| s@).take(v@.len() as int) =~= v@.map_values(
            |s: String| s@,
        ));
    }
    out
}

/// Resolves the project root: the first candidate whose marker-directory
/// probe succeeded. When no candidate has the marker, fails with an error
/// naming every attempted location — a hard, user-actionable failure.
pub fn find_project_root(candidates: &Vec<String>, marker_found: &Vec<bool>) -> (r: Result<
    String,
    SupError,
>)
    requires
        candidates@.len() == marker_found@.len(),
    ensures
        match r {
            Ok(root) => spec_first_root(
                candidates@.map_values(|s: String| s@),
                marker_found@,
                0,
            ) == Some(root@),
            Err(e) => spec_first_root(candidates@.map_values(|s: String| s@), marker_found@, 0)
                is None && (e matches SupError::ProjectNotFound { attempted } && attempted@
                .map_values(|s: String| s@) == candidates@.map_values(|s: String| s@)),
        },
{
    let ghost cs = candidates@.map_values(|s: String| s@);
    let mut i: usize = 0;
    while i < candidates.len()
        invariant
            candidates@.len() == marker_found@.len(),
            0 <= i <= candidates@.len(),
            cs == candidates@.map_values(|s: String| s@),
            spec_first_root(cs, marker_found@, 0) == spec_first_root(cs, marker_found@, i as int),
        decreases candidates@.len() - i,
    {
        if marker_found[i] {
            return Ok(candidates[i].clone());
        }
        i += 1;
    }
    Err(SupError::ProjectNotFound { attempted: clone_strings(candidates) })
}

/// Re-resolution is repeatable: the resolved root is a function of the
/// candidate list and the marker probe outcomes alone, so a second resolution
/// that sees the same candidates and the same probe outcomes — in particular
/// one made after the runtime-config files were written, which touches no
/// probed directory's presence — yields the same root.
pub proof fn lemma_resolution_repeatable(
    c1: Seq<Seq<char>>,
    m1: Seq<bool>,
    c2: Seq<Seq<char>>,
    m2: Seq<bool>,
)
    requires
        c1 =~~= c2,
        m1 =~= m2,
    ensures
        spec_first_root(c1, m1, 0) == spec_first_root(c2, m2, 0),
{
}

/// The agent subdirectory of a project root: the marker whose presence makes
/// a candidate the project root, and the working directory of the local
/// server and the deployment tools.
pub fn agent_dir(root: &str) -> (r: String)
    ensures
        r@ == root@ + "/cloudflare-agent"@,
{
    let mut out = root.to_owned();
    out.append("/cloudflare-agent");
    out
}

/// The minimal, known-good search path every spawned process receives, so
/// helper binaries are found even under the restricted environment of a GUI
/// launch context.
pub open spec fn spec_base_path() -> Seq<char> {
    "/opt/homebrew/bin:/usr/local/bin:/usr/bin:/bin:/usr/sbin:/sbin"@
}

/// Composes the PATH value for a spawned process: the fixed prefixes, then
/// the inherited path when there is one.
pub fn compose_path_env(existing: &str) -> (r: String)
    ensures
        existing@.len() == 0 ==> r@ == spec_base_path(),
        existing@.len() > 0 ==> r@ == spec_base_path() + ":"@ + existing@,
{
    let mut out = "/opt/homebrew/bin:/usr/local/bin:/usr/bin:/bin:/usr/sbin:/sbin".to_owned();
    if !existing.is_empty() {
        out.append(":");
        out.append(existing);
    }
    out
}

/// The text of the runtime-config file: the API key and the session token,
/// as key=value lines.
pub open spec fn spec_dev_vars(api_key: Seq<char>, api_secret: Seq<char>) -> Seq<char> {
    "ANTHROPIC_API_KEY="@ + api_key + "\nBRIDGE_URL=http://localhost:3000\nBRIDGE_AUTH_TOKEN="@
        + api_secret + "\nAPI_SECRET="@ + api_secret + "\n"@
}

/// The text of the JSON sidecar: the token under an `authToken` field.
pub open spec fn spec_auth_token_json(token: Seq<char>) -> Seq<char> {
    "{\n  \"authToken\": \""@ + token + "\"\n}"@
}

/// The runtime-config file written into the agent directory before the local
/// server starts: the API key and the freshly generated session token, as
/// key=value lines.
pub fn dev_vars_content(api_key: &str, api_secret: &str) -> (r: String)
    ensures
        r@ == spec_dev_vars(api_key@, api_secret@),
{
    let mut out = "ANTHROPIC_API_KEY=".to_owned();
    out.append(api_key);
    out.append("\nBRIDGE_URL=http://localhost:3000\nBRIDGE_AUTH_TOKEN=");
    out.append(api_secret);
    out.append("\nAPI_SECRET=");
    out.append(api_secret);
    out.append("\n");
    out
}

/// The JSON sidecar written to the project root, carrying the session token
/// under an `authToken` field. The token is drawn from characters that need
/// no JSON escaping, so the text is produced directly.
pub fn auth_token_json(token: &str) -> (r: String)
    ensures
        r@ == spec_auth_token_json(token@),
{
    let mut out = "{\n  \"authToken\": \"".to_owned();
    out.append(token);
    out.append("\"\n}");
    out
}

/// The runtime-config files to write before the local server starts, each as
/// a path/content pair: none when no API key is configured; otherwise the
/// key=value file in the agent directory and the JSON sidecar in the project
/// root, both carrying the session token.
pub fn runtime_config_files(anthropic_key: &Option<String>, root: &str, api_secret: &str) -> (r:
    Vec<(String, String)>)
    ensures
        anthropic_key is None ==> r@.len() == 0,
        anthropic_key matches Some(key) ==> pair_views(r@) == seq![
            (root@ + "/cloudflare-agent/.dev.vars"@, spec_dev_vars(key@, api_secret@)),
            (root@ + "/bridge.config.json"@, spec_auth_token_json(api_secret@)),
        ],
{
    let mut v: Vec<(String, String)> = Vec::new();
    if let Some(key) = anthropic_key {
        let mut dev_path = agent_dir(root);
        dev_path.append("/.dev.vars");
        let mut side_path = root.to_owned();
        side_path.append("/bridge.config.json");
        v.push((dev_path, dev_vars_content(key.as_str(), api_secret)));
        v.push((side_path, auth_token_json(api_secret)));
        proof {
            reveal_strlit("/cloudflare-agent");
            reveal_strlit("/.dev.vars");
            reveal_strlit("/cloudflare-agent/.dev.vars");
            assert(root@ + "/cloudflare-agent"@ + "/.dev.vars"@ =~= root@
                + "/cloudflare-agent/.dev.vars"@);
            assert(pair_views(v@) =~~= seq![
                (root@ + "/cloudflare-agent/.dev.vars"@, spec_dev_vars(key@, api_secret@)),
                (root@ + "/bridge.config.json"@, spec_auth_token_json(api_secret@)),
            ]);
        }
    }
    v
}

} // verus!
