//! The deployment pipeline's decision logic: the commands each step runs,
//! extraction of the published endpoint from the tools' combined output, the
//! best-effort secret plan, and the evaluation of one pipeline run from the
//! events its steps produced. Running the tools is I/O and is done by the
//! caller; everything here is a pure function of their outcomes.

use vstd::prelude::*;
use vstd::string::*;
use crate::text::{
    contains_seq, is_space, lemma_scan_result_shape, matches_at, scan_from, scan_text,
};
use crate::errors::SupError;

verus! {

/// The domain marker of the platform's deployed endpoints.
pub open spec fn spec_endpoint_marker() -> Seq<char> {
    "workers.dev"@
}

/// The endpoint URL the combined deploy output yields, if any: the first
/// whitespace-delimited token containing the deployed-domain marker.
pub open spec fn spec_endpoint(output: Seq<char>) -> Option<Seq<char>> {
    scan_from(output, 0, spec_endpoint_marker(), false, Seq::empty())
}

/// Extracts the published endpoint from the combined deploy output.
pub fn endpoint_from_output(output: &str) -> (r: Option<String>)
    ensures
        match r {
            Some(u) => spec_endpoint(output@) == Some(u@),
            None => spec_endpoint(output@) is None,
        },
{
    let r = scan_text(output, "workers.dev", false, "");
    proof {
        reveal_strlit("");
        assert(""@ =~= Seq::<char>::empty());
    }
    r
}

/// A reported endpoint is one whitespace-free token of the output that
/// contains the deployed-domain marker — in particular it is never the empty
/// string, so a run that ends in success always carries a usable URL.
pub proof fn lemma_endpoint_well_formed(output: Seq<char>)
    requires
        spec_endpoint(output) is Some,
    ensures
        ({
            let u = spec_endpoint(output).unwrap();
            &&& contains_seq(u, spec_endpoint_marker())
            &&& u.len() >= spec_endpoint_marker().len()
            &&& u.len() > 0
            &&& forall|k: int| 0 <= k < u.len() ==> !is_space(u[k])
        }),
{
    lemma_scan_result_shape(output, 0, spec_endpoint_marker(), false, Seq::empty());
    let u = spec_endpoint(output).unwrap();
    let k = choose|k: int| matches_at(u, spec_endpoint_marker(), k);
    assert(u.len() >= spec_endpoint_marker().len());
    reveal_strlit("workers.dev");
    assert(spec_endpoint_marker().len() == 11);
}

/// Takes at most the first `n` characters of `s`.
pub fn truncate_chars(s: &str, n: usize) -> (r: String)
    ensures
        r@ == if s@.len() <= n { s@ } else { s@.take(n as int) },
{
    let len = s.unicode_len();
    if len <= n {
        s.to_owned()
    } else {
        s.substring_char(0, n).to_owned()
    }
}

/// The static URL of the local bridge the deployed worker talks back to.
pub open spec fn spec_bridge_url() -> Seq<char> {
    "http://localhost:3000"@
}

/// The view of a sequence of name/value string pairs.
pub open spec fn pair_views(v: Seq<(String, String)>) -> Seq<(Seq<char>, Seq<char>)> {
    v.map_values(|p: (String, String)| (p.0@, p.1@))
}

/// The fixed ordered list of secret entries for one deploy invocation: the
/// API key, the bridge auth token, the secret truncated to 32 characters,
/// and the static local bridge URL.
pub fn secret_entries(api_key: &str, auth_token: &str, api_secret: &str) -> (r: Vec<
    (String, String),
>)
    ensures
        pair_views(r@) == seq![
            ("ANTHROPIC_API_KEY"@, api_key@),
            ("BRIDGE_AUTH_TOKEN"@, auth_token@),
            ("API_SECRET"@, if api_secret@.len() <= 32 { api_secret@ } else { api_secret@.take(32) }),
            ("BRIDGE_URL"@, spec_bridge_url()),
        ],
{
    let mut v: Vec<(String, String)> = Vec::new();
    v.push(("ANTHROPIC_API_KEY".to_owned(), api_key.to_owned()));
    v.push(("BRIDGE_AUTH_TOKEN".to_owned(), auth_token.to_owned()));
    v.push(("API_SECRET".to_owned(), truncate_chars(api_secret, 32)));
    v.push(("BRIDGE_URL".to_owned(), "http://localhost:3000".to_owned()));
    proof {
        assert(pair_views(v@) =~~= seq![
            ("ANTHROPIC_API_KEY"@, api_key@),
            ("BRIDGE_AUTH_TOKEN"@, auth_token@),
            (
                "API_SECRET"@,
                if api_secret@.len() <= 32 {
                    api_secret@
                } else {
                    api_secret@.take(32)
                },
            ),
            ("BRIDGE_URL"@, spec_bridge_url()),
        ]);
    }
    v
}

/// The entries actually sent to the secret-set command: the fixed list with
/// every empty-valued entry skipped, order kept.
pub open spec fn spec_secret_plan(entries: Seq<(Seq<char>, Seq<char>)>) -> Seq<
    (Seq<char>, Seq<char>),
>
    decreases entries.len(),
{
    if entries.len() == 0 {
        Seq::empty()
    } else {
        let rest = spec_secret_plan(entries.drop_last());
        if entries.last().1.len() > 0 {
            rest.push(entries.last())
        } else {
            rest
        }
    }
}

/// Filters the secret entries down to those that are sent: entries with an
/// empty value are skipped, the rest keep their order.
pub fn secret_plan(entries: &Vec<(String, String)>) -> (r: Vec<(String, String)>)
    ensures
        pair_views(r@) == spec_secret_plan(pair_views(entries@)),
{
    let mut out: Vec<(String, String)> = Vec::new();
    let mut i: usize = 0;
    while i < entries.len()
        invariant
            0 <= i <= entries@.len(),
            pair_views(out@) == spec_secret_plan(pair_views(entries@).take(i as int)),
        decreases entries@.len() - i,
    {
        proof {
            let pv = pair_views(entries@);
            assert(pv.take(i + 1).drop_last() =~= pv.take(i as int));
            assert(pv.take(i + 1).last() == pv[i as int]);
        }
        let value_empty = entries[i].1.as_str().is_empty();
        if !value_empty {
            let name = entries[i].0.clone();
            let value = entries[i].1.clone();
            proof {
                assert(name@ == entries@[i as int].0@);
                assert(value@ == entries@[i as int].1@);
            }
            let ghost pre = out@;
            out.push((name, value));
            proof {
                let f = |p: (String, String)| (p.0@, p.1@);
                assert(pre.map_values(f).len() == pre.len());
                assert(out@.map_values(f).len() == out@.len());
                assert forall|k: int| 0 <= k < out@.len() implies #[trigger] out@.map_values(f)[k]
                    == spec_secret_plan(pair_views(entries@).take(i + 1))[k] by {
                    if k < pre.len() {
                        assert(out@[k] == pre[k]);
                        assert(pre.map_values(f)[k] == spec_secret_plan(
                            pair_views(entries@).take(i as int),
                        )[k]);
                    }
                }
                assert(spec_secret_plan(pair_views(entries@).take(i + 1)).len() == out@.len());
                assert(out@.map_values(f) =~~= spec_secret_plan(pair_views(entries@).take(i + 1)));
            }
        }
        i += 1;
    }
    proof {
        assert(pair_views(entries@).take(entries@.len() as int) =~= pair_views(entries@));
    }
    out
}

/// Secret skip rule, first half: no planned entry has an empty value, so an
/// empty secret is never sent to the secret-set command.
pub proof fn lemma_secret_plan_skips_empty(entries: Seq<(Seq<char>, Seq<char>)>, i: int)
    requires
        0 <= i < spec_secret_plan(entries).len(),
    ensures
        spec_secret_plan(entries)[i].1.len() > 0,
    decreases entries.len(),
{
    if entries.len() > 0 {
        let rest = spec_secret_plan(entries.drop_last());
        if entries.last().1.len() > 0 {
            if i < rest.len() {
                lemma_secret_plan_skips_empty(entries.drop_last(), i);
            }
        } else {
            lemma_secret_plan_skips_empty(entries.drop_last(), i);
        }
    }
}

/// How often `p` occurs in `entries`.
pub open spec fn spec_pair_count(
    entries: Seq<(Seq<char>, Seq<char>)>,
    p: (Seq<char>, Seq<char>),
) -> nat
    decreases entries.len(),
{
    if entries.len() == 0 {
        0
    } else {
        spec_pair_count(entries.drop_last(), p) + if entries.last() == p {
            1nat
        } else {
            0nat
        }
    }
}

/// Secret skip rule, second half: a non-empty entry is planned exactly as
/// often as the fixed list holds it — once, for the fixed list of one deploy
/// invocation — and an empty-valued entry is never planned at all.
pub proof fn lemma_secret_plan_count(
    entries: Seq<(Seq<char>, Seq<char>)>,
    p: (Seq<char>, Seq<char>),
)
    ensures
        p.1.len() > 0 ==> spec_pair_count(spec_secret_plan(entries), p) == spec_pair_count(
            entries,
            p,
        ),
        p.1.len() == 0 ==> spec_pair_count(spec_secret_plan(entries), p) == 0,
    decreases entries.len(),
{
    if entries.len() > 0 {
        lemma_secret_plan_count(entries.drop_last(), p);
        let rest = spec_secret_plan(entries.drop_last());
        if entries.last().1.len() > 0 {
            assert(rest.push(entries.last()).drop_last() =~= rest);
            assert(rest.push(entries.last()).last() == entries.last());
        }
    }
}

/// The dependency-install command the pipeline runs, with no arguments.
pub fn install_command() -> (r: Vec<String>)
    ensures
        r@.map_values(|s: String| s@) == seq!["npm"@, "install"@],
{
    let mut v: Vec<String> = Vec::new();
    v.push("npm".to_owned());
    v.push("install".to_owned());
    proof {
        assert(v@.map_values(|s: String| s@) =~= seq!["npm"@, "install"@]);
    }
    v
}

/// The remote-deploy command the pipeline runs, with its fixed subcommand.
pub fn deploy_command() -> (r: Vec<String>)
    ensures
        r@.map_values(|s: String| s@) == seq!["npx"@, "wrangler"@, "deploy"@],
{
    let mut v: Vec<String> = Vec::new();
    v.push("npx".to_owned());
    v.push("wrangler".to_owned());
    v.push("deploy".to_owned());
    proof {
        assert(v@.map_values(|s: String| s@) =~= seq!["npx"@, "wrangler"@, "deploy"@]);
    }
    v
}

/// The secret-set command for one named secret; the literal secret value is
/// piped to it by the caller, never placed on the command line.
pub fn secret_set_command(name: &str) -> (r: Vec<String>)
    ensures
        r@.map_values(|s: String| s@) == seq!["npx"@, "wrangler"@, "secret"@, "put"@, name@],
{
    let mut v: Vec<String> = Vec::new();
    v.push("npx".to_owned());
    v.push("wrangler".to_owned());
    v.push("secret".to_owned());
    v.push("put".to_owned());
    v.push(name.to_owned());
    proof {
        assert(v@.map_values(|s: String| s@) =~= seq![
            "npx"@,
            "wrangler"@,
            "secret"@,
            "put"@,
            name@,
        ]);
    }
    v
}

/// The extra environment of the deploy step: the remote account identifier,
/// when one is configured.
pub fn deploy_env(account_id: &Option<String>) -> (r: Vec<(String, String)>)
    ensures
        account_id matches Some(id) ==> pair_views(r@) == seq![("CLOUDFLARE_ACCOUNT_ID"@, id@)],
        account_id is None ==> r@.len() == 0,
{
    let mut v: Vec<(String, String)> = Vec::new();
    if let Some(id) = account_id {
        v.push(("CLOUDFLARE_ACCOUNT_ID".to_owned(), id.clone()));
        proof {
            assert(pair_views(v@) =~~= seq![("CLOUDFLARE_ACCOUNT_ID"@, id@)]);
        }
    }
    v
}

/// One recorded pipeline step: its name, whether it succeeded, and a note.
#[derive(Debug)]
pub struct StepRecord {
    pub step: String,
    pub success: bool,
    pub message: String,
}

/// A successful pipeline run: the published endpoint and the ordered step
/// outcomes, the secret-push steps recorded best-effort.
#[derive(Debug)]
pub struct DeploymentResult {
    pub deployed_url: String,
    pub steps: Vec<StepRecord>,
}

/// How one pipeline run went, as reported by the caller that ran the tools:
/// how far it got, the combined output of the step that decided, and — when
/// the deploy tool succeeded — the outcome of each planned secret push.
pub enum DeployEvents {
    InstallFailed { output: String },
    DeployFailed { output: String },
    Deployed { output: String, secret_results: Vec<bool> },
}

/// Evaluates one pipeline run. A failed install or deploy is fatal and
/// carries the combined output; a deploy whose output names no endpoint is
/// fatal too, since an unusable empty URL must not be reported as success.
/// Failed secret pushes are recorded in the step outcomes and never escalate:
/// with the tools succeeded and an endpoint found, the run is a success
/// whatever the secret results say.
pub fn pipeline_result(ev: DeployEvents, plan: &Vec<(String, String)>) -> (r: Result<
    DeploymentResult,
    SupError,
>)
    requires
        ev matches DeployEvents::Deployed { secret_results, .. } ==> secret_results@.len()
            == plan@.len(),
    ensures
        match ev {
            DeployEvents::InstallFailed { output } => r matches Err(e) && (
            e matches SupError::ToolFailure { step, output: o } && step@ == "install"@ && o@
                == output@),
            DeployEvents::DeployFailed { output } => r matches Err(e) && (
            e matches SupError::ToolFailure { step, output: o } && step@ == "deploy"@ && o@
                == output@),
            DeployEvents::Deployed { output, secret_results } => {
                match spec_endpoint(output@) {
                    None => r matches Err(e) && e is EndpointNotFound,
                    Some(url) => r matches Ok(res) && {
                        &&& res.deployed_url@ == url
                        &&& res.steps@.len() == 2 + plan@.len()
                        &&& res.steps@[0].step@ == "install"@ && res.steps@[0].success
                        &&& res.steps@[0].message@ == "ok"@
                        &&& res.steps@[1].step@ == "deploy"@ && res.steps@[1].success
                        &&& res.steps@[1].message@ == "ok"@
                        &&& forall|i: int| 0 <= i < plan@.len() ==> {
                            &&& (#[trigger] res.steps@[2 + i]).step@ == plan@[i].0@
                            &&& res.steps@[2 + i].success == secret_results@[i]
                            &&& res.steps@[2 + i].message@ == if secret_results@[i] {
                                "ok"@
                            } else {
                                "best-effort step failed"@
                            }
                        }
                    },
                }
            },
        },
{
    match ev {
        DeployEvents::InstallFailed { output } => Err(
            SupError::ToolFailure { step: "install".to_owned(), output },
        ),
        DeployEvents::DeployFailed { output } => Err(
            SupError::ToolFailure { step: "deploy".to_owned(), output },
        ),
        DeployEvents::Deployed { output, secret_results } => {
            let found = endpoint_from_output(output.as_str());
            match found {
                None => Err(SupError::EndpointNotFound),
                Some(url) => {
                    let mut steps: Vec<StepRecord> = Vec::new();
                    steps.push(
                        StepRecord {
                            step: "install".to_owned(),
                            success: true,
                            message: "ok".to_owned(),
                        },
                    );
                    steps.push(
                        StepRecord {
                            step: "deploy".to_owned(),
                            success: true,
                            message: "ok".to_owned(),
                        },
                    );
                    let mut i: usize = 0;
                    while i < plan.len()
                        invariant
                            0 <= i <= plan@.len(),
                            secret_results@.len() == plan@.len(),
                            steps@.len() == 2 + i,
                            steps@[0].step@ == "install"@ && steps@[0].success,
                            steps@[0].message@ == "ok"@,
                            steps@[1].step@ == "deploy"@ && steps@[1].success,
                            steps@[1].message@ == "ok"@,
                            forall|k: int| 0 <= k < i ==> {
                                &&& (#[trigger] steps@[2 + k]).step@ == plan@[k].0@
                                &&& steps@[2 + k].success == secret_results@[k]
                                &&& steps@[2 + k].message@ == if secret_results@[k] {
                                    "ok"@
                                } else {
                                    "best-effort step failed"@
                                }
                            },
                        decreases plan@.len() - i,
                    {
                        let ok = secret_results[i];
                        let note = if ok {
                            "ok".to_owned()
                        } else {
                            "best-effort step failed".to_owned()
                        };
                        steps.push(
                            StepRecord { step: plan[i].0.clone(), success: ok, message: note },
                        );
                        i += 1;
                    }
                    Ok(DeploymentResult { deployed_url: url, steps })
                },
            }
        },
    }
}

} // verus!
