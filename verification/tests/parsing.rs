use supervisor::config::{config_path, Config};
use supervisor::discovery::{discovery_result, tunnel_url_from_line, tunnel_url_from_lines};
use supervisor::errors::SupError;
use supervisor::pipeline::{
    deploy_command, deploy_env, endpoint_from_output, install_command, pipeline_result,
    secret_entries, secret_plan, secret_set_command, truncate_chars, DeployEvents,
};
use supervisor::project::{
    agent_dir, auth_token_json, candidate_roots, compose_path_env, dev_vars_content,
    find_project_root, runtime_config_files,
};

#[test]
fn discovery_extracts_url_between_border_characters() {
    let lines: Vec<String> = vec![
        String::from("Starting tunnel…"),
        String::from("+--------------------------------+"),
        String::from("|  https://abcd-1234.trycloudflare.com |"),
        String::from("+--------------------------------+"),
    ];
    assert_eq!(
        tunnel_url_from_lines(&lines).as_deref(),
        Some("https://abcd-1234.trycloudflare.com")
    );
    assert_eq!(
        discovery_result(&lines).ok().as_deref(),
        Some("https://abcd-1234.trycloudflare.com")
    );
}

#[test]
fn discovery_url_glued_to_borders() {
    assert_eq!(
        tunnel_url_from_line("|https://x-1.trycloudflare.com|").as_deref(),
        Some("https://x-1.trycloudflare.com")
    );
}

#[test]
fn discovery_first_match_wins() {
    let lines: Vec<String> = vec![
        String::from("tunnel at https://first.trycloudflare.com today"),
        String::from("https://second.trycloudflare.com"),
    ];
    assert_eq!(
        tunnel_url_from_lines(&lines).as_deref(),
        Some("https://first.trycloudflare.com")
    );
}

#[test]
fn discovery_needs_scheme_and_marker() {
    // Marker present but no token starts with the scheme: no match.
    assert_eq!(tunnel_url_from_line("see trycloudflare.com for details"), None);
    // Scheme present but wrong domain: no match.
    assert_eq!(tunnel_url_from_line("https://example.com"), None);
}

#[test]
fn discovery_edge_cases() {
    assert_eq!(tunnel_url_from_line(""), None);
    // Two candidates in one line: the first token wins.
    assert_eq!(
        tunnel_url_from_line("ready https://a.trycloudflare.com https://b.trycloudflare.com")
            .as_deref(),
        Some("https://a.trycloudflare.com")
    );
    // A border glued to one side only.
    assert_eq!(
        tunnel_url_from_line("https://c.trycloudflare.com|").as_deref(),
        Some("https://c.trycloudflare.com")
    );
    // A line whose marker token lacks the scheme does not stop a later line
    // from matching.
    let lines: Vec<String> = vec![
        String::from("route is d.trycloudflare.com"),
        String::from("|  https://d.trycloudflare.com  |"),
    ];
    assert_eq!(
        tunnel_url_from_lines(&lines).as_deref(),
        Some("https://d.trycloudflare.com")
    );
}

#[test]
fn empty_secret_values_leave_an_empty_plan() {
    let entries = secret_entries("", "", "");
    let plan = secret_plan(&entries);
    // Only the static bridge URL is non-empty.
    assert_eq!(plan.len(), 1);
    assert_eq!(plan[0].0, "BRIDGE_URL");
    assert_eq!(endpoint_from_output(""), None);
}

#[test]
fn discovery_without_match_times_out() {
    let lines: Vec<String> = vec![
        String::from("Starting tunnel…"),
        String::from("nothing to see here"),
    ];
    match discovery_result(&lines) {
        Err(SupError::DiscoveryTimeout) => {}
        other => panic!("expected DiscoveryTimeout, got {:?}", other.map_err(|e| e.message())),
    }
    // An empty stream (early process exit) is reported the same way.
    match discovery_result(&Vec::new()) {
        Err(SupError::DiscoveryTimeout) => {}
        _ => panic!("expected DiscoveryTimeout"),
    }
}

#[test]
fn endpoint_extraction_from_deploy_output() {
    let output = "Total Upload: 123 KiB\nPublished my-worker (1.2 sec) https://my-worker.acct.workers.dev\nCurrent Deployment ID: abc";
    assert_eq!(
        endpoint_from_output(output).as_deref(),
        Some("https://my-worker.acct.workers.dev")
    );
    assert_eq!(endpoint_from_output("no url in here"), None);
}

#[test]
fn secret_plan_skips_empty_and_sends_once() {
    // Empty auth token: skipped. Non-empty entries appear exactly once.
    let entries = secret_entries("key-abc", "", "s".repeat(40).as_str());
    let plan = secret_plan(&entries);
    let names: Vec<&str> = plan.iter().map(|p| p.0.as_str()).collect();
    assert_eq!(names, vec!["ANTHROPIC_API_KEY", "API_SECRET", "BRIDGE_URL"]);
    assert!(plan.iter().all(|p| !p.1.is_empty()));
    assert_eq!(
        plan.iter().filter(|p| p.0 == "ANTHROPIC_API_KEY").count(),
        1
    );
    // The derived secret is truncated to 32 characters.
    let api_secret = &plan.iter().find(|p| p.0 == "API_SECRET").unwrap().1;
    assert_eq!(api_secret.len(), 32);
    assert_eq!(
        &plan.iter().find(|p| p.0 == "BRIDGE_URL").unwrap().1,
        "http://localhost:3000"
    );
}

#[test]
fn truncation_formula() {
    assert_eq!(truncate_chars("abcdef", 3), "abc");
    assert_eq!(truncate_chars("ab", 3), "ab");
    assert_eq!(truncate_chars("", 3), "");
}

#[test]
fn pipeline_failures_are_fatal_with_output() {
    let plan: Vec<(String, String)> = Vec::new();
    match pipeline_result(DeployEvents::InstallFailed { output: String::from("E404") }, &plan) {
        Err(SupError::ToolFailure { step, output }) => {
            assert_eq!(step, "install");
            assert_eq!(output, "E404");
        }
        _ => panic!("expected ToolFailure"),
    }
    match pipeline_result(DeployEvents::DeployFailed { output: String::from("denied") }, &plan) {
        Err(SupError::ToolFailure { step, output }) => {
            assert_eq!(step, "deploy");
            assert_eq!(output, "denied");
        }
        _ => panic!("expected ToolFailure"),
    }
    let ev = DeployEvents::Deployed {
        output: String::from("done, but no usable link"),
        secret_results: Vec::new(),
    };
    match pipeline_result(ev, &plan) {
        Err(SupError::EndpointNotFound) => {}
        _ => panic!("expected EndpointNotFound"),
    }
}

#[test]
fn pipeline_success_records_best_effort_secrets() {
    let entries = secret_entries("key", "tok", "secret");
    let plan = secret_plan(&entries);
    assert_eq!(plan.len(), 4);
    // One secret push fails: recorded, never fatal.
    let ev = DeployEvents::Deployed {
        output: String::from("Published w (1 sec) https://w.a.workers.dev"),
        secret_results: vec![true, false, true, true],
    };
    let res = pipeline_result(ev, &plan).expect("pipeline must succeed");
    assert_eq!(res.deployed_url, "https://w.a.workers.dev");
    assert_eq!(res.steps.len(), 6);
    assert_eq!(res.steps[0].step, "install");
    assert!(res.steps[0].success);
    assert_eq!(res.steps[1].step, "deploy");
    assert!(res.steps[1].success);
    assert_eq!(res.steps[2].step, "ANTHROPIC_API_KEY");
    assert!(res.steps[2].success);
    assert_eq!(res.steps[3].step, "BRIDGE_AUTH_TOKEN");
    assert!(!res.steps[3].success);
}

#[test]
fn pipeline_commands() {
    assert_eq!(install_command(), vec!["npm", "install"]);
    assert_eq!(deploy_command(), vec!["npx", "wrangler", "deploy"]);
    assert_eq!(
        secret_set_command("API_SECRET"),
        vec!["npx", "wrangler", "secret", "put", "API_SECRET"]
    );
    assert_eq!(
        deploy_env(&Some(String::from("acct-1"))),
        vec![(String::from("CLOUDFLARE_ACCOUNT_ID"), String::from("acct-1"))]
    );
    assert_eq!(deploy_env(&None), Vec::<(String, String)>::new());
}

#[test]
fn candidate_roots_order() {
    let cfg = Some(String::from("/configured/root"));
    let home = Some(String::from("/Users/me"));
    let roots = candidate_roots(&cfg, &home);
    assert_eq!(
        roots,
        vec![
            "/configured/root",
            "/Users/me/Desktop/cua",
            "/Users/me/Desktop/system",
            "/Users/me/Projects/system",
            "/Users/me/code/system",
        ]
    );
    assert_eq!(candidate_roots(&None, &None), Vec::<String>::new());
}

#[test]
fn project_root_resolution_and_round_trip() {
    let cfg = Some(String::from("/configured/root"));
    let home = Some(String::from("/Users/me"));
    let roots = candidate_roots(&cfg, &home);
    let probes = vec![false, false, true, true, false];
    let first = find_project_root(&roots, &probes).expect("a candidate has the marker");
    assert_eq!(first, "/Users/me/Desktop/system");
    // Writing the runtime-config files changes no probed directory, so a
    // second resolution with the same config sees the same probes and yields
    // the same working directory.
    let _ = dev_vars_content("key", "token");
    let again = find_project_root(&candidate_roots(&cfg, &home), &probes).unwrap();
    assert_eq!(first, again);
}

#[test]
fn project_not_found_names_all_attempts() {
    let roots = vec![String::from("/a"), String::from("/b")];
    match find_project_root(&roots, &vec![false, false]) {
        Err(SupError::ProjectNotFound { attempted }) => {
            assert_eq!(attempted, roots);
        }
        _ => panic!("expected ProjectNotFound"),
    }
}

#[test]
fn generated_file_contents() {
    assert_eq!(
        dev_vars_content("sk-key", "tok123"),
        "ANTHROPIC_API_KEY=sk-key\nBRIDGE_URL=http://localhost:3000\nBRIDGE_AUTH_TOKEN=tok123\nAPI_SECRET=tok123\n"
    );
    assert_eq!(auth_token_json("tok123"), "{\n  \"authToken\": \"tok123\"\n}");
    // The sidecar text is exactly what a pretty JSON writer produces for a
    // one-field object holding the token.
    let v: serde_json::Value = serde_json::from_str(&auth_token_json("tok123")).unwrap();
    assert_eq!(v["authToken"], "tok123");
    let mut m = serde_json::Map::new();
    m.insert(
        String::from("authToken"),
        serde_json::Value::String(String::from("tok123")),
    );
    assert_eq!(
        serde_json::to_string_pretty(&serde_json::Value::Object(m)).unwrap(),
        auth_token_json("tok123")
    );
}

#[test]
fn runtime_config_files_written_only_with_api_key() {
    assert!(runtime_config_files(&None, "/r", "tok").is_empty());
    let files = runtime_config_files(&Some(String::from("sk-key")), "/r", "tok");
    assert_eq!(files.len(), 2);
    assert_eq!(files[0].0, "/r/cloudflare-agent/.dev.vars");
    assert_eq!(files[0].1, dev_vars_content("sk-key", "tok"));
    assert_eq!(files[1].0, "/r/bridge.config.json");
    assert_eq!(files[1].1, auth_token_json("tok"));
}

#[test]
fn path_composition() {
    assert_eq!(
        compose_path_env(""),
        "/opt/homebrew/bin:/usr/local/bin:/usr/bin:/bin:/usr/sbin:/sbin"
    );
    assert_eq!(
        compose_path_env("/inherited/bin"),
        "/opt/homebrew/bin:/usr/local/bin:/usr/bin:/bin:/usr/sbin:/sbin:/inherited/bin"
    );
    assert_eq!(agent_dir("/root/project"), "/root/project/cloudflare-agent");
    assert_eq!(
        config_path("/Users/me"),
        "/Users/me/Library/Application Support/system/config.json"
    );
}

#[test]
fn config_defaults_are_all_absent() {
    let c = Config::default();
    assert!(c.anthropic_key.is_none());
    assert!(c.project_root.is_none());
    assert!(c.tunnel_url.is_none());
    assert!(c.auth_token.is_none());
    assert!(c.mode.is_none());
    assert!(c.deployed.is_none());
    assert!(c.deployed_url.is_none());
    assert!(c.cloudflare_account_id.is_none());
    assert!(c.extensions.is_empty());
}
