use supervisor::errors::SupError;
use supervisor::permissions::{
    automation_script, check_all, get_automation_apps, get_automation_apps_with_status,
    permission_settings_url, PermissionProbes,
};
use supervisor::registry::{Slot, Supervisor};
use supervisor::role::Role;
use supervisor::token::generate_token;

#[test]
fn start_twice_keeps_one_process() {
    let mut sup = Supervisor::new();
    // First start: nothing registered, a spawn is granted and recorded.
    let need1 = sup.plan_start(Role::LocalServer, false);
    assert!(need1);
    sup.record_spawn(Role::LocalServer, 4242);
    // Second start with the process still alive: no spawn, state unchanged.
    let need2 = sup.plan_start(Role::LocalServer, true);
    assert!(!need2);
    assert_eq!(sup.slot(Role::LocalServer), Slot::Live { pid: 4242 });
}

#[test]
fn concurrent_start_gets_no_second_spawn() {
    let mut sup = Supervisor::new();
    // Caller A is granted a spawn and has not yet recorded it.
    let need_a = sup.plan_start(Role::Bridge, false);
    assert!(need_a);
    // Caller B plans while A's spawn is in flight: not granted, either way
    // its probe could go.
    assert!(!sup.plan_start(Role::Bridge, false));
    assert!(!sup.plan_start(Role::Bridge, true));
    // A records; a later start that sees the process alive is not granted.
    sup.record_spawn(Role::Bridge, 7);
    assert!(!sup.plan_start(Role::Bridge, true));
}

#[test]
fn dead_process_is_replaced() {
    let mut sup = Supervisor::new();
    assert!(sup.plan_start(Role::Tunnel, false));
    sup.record_spawn(Role::Tunnel, 9);
    // The probe finds the process exited: a new spawn is granted.
    assert!(sup.plan_start(Role::Tunnel, false));
    assert_eq!(sup.slot(Role::Tunnel), Slot::Starting);
}

#[test]
fn spawn_failure_clears_and_names_command() {
    let mut sup = Supervisor::new();
    assert!(sup.plan_start(Role::LocalServer, false));
    let e = sup.record_spawn_failure(Role::LocalServer, String::from("no such file"));
    assert_eq!(sup.slot(Role::LocalServer), Slot::Empty);
    match &e {
        SupError::SpawnFailed { role, command, detail } => {
            assert_eq!(*role, Role::LocalServer);
            assert_eq!(command, "npx wrangler dev --port 8787");
            assert_eq!(detail, "no such file");
        }
        other => panic!("unexpected error {:?}", other.message()),
    }
    assert_eq!(
        e.message(),
        "Failed to start local-server (npx wrangler dev --port 8787): no such file"
    );
}

#[test]
fn stop_all_clears_every_role_independently() {
    let mut sup = Supervisor::new();
    sup.record_spawn(Role::LocalServer, 1);
    sup.record_spawn(Role::Bridge, 2);
    let handles = sup.stop_all();
    // Role A (local server): suppose its kill fails because the process was
    // already reaped; role B (bridge) succeeds. Both were handed out with
    // their own handles and both slots are cleared regardless.
    assert_eq!(handles.len(), 3);
    assert_eq!(handles[0], (Role::LocalServer, Slot::Live { pid: 1 }));
    assert_eq!(handles[1], (Role::Tunnel, Slot::Empty));
    assert_eq!(handles[2], (Role::Bridge, Slot::Live { pid: 2 }));
    assert_eq!(sup.slot(Role::LocalServer), Slot::Empty);
    assert_eq!(sup.slot(Role::Bridge), Slot::Empty);
    assert_eq!(sup.slot(Role::Tunnel), Slot::Empty);
}

#[test]
fn discovery_reentry_is_an_error() {
    let mut sup = Supervisor::new();
    assert!(sup.plan_discovery(false).is_ok());
    sup.record_spawn(Role::Tunnel, 77);
    match sup.plan_discovery(true) {
        Err(SupError::AlreadyRunning) => {}
        _ => panic!("expected AlreadyRunning"),
    }
    // The registered process is untouched, so a later stop can still reap it.
    assert_eq!(sup.slot(Role::Tunnel), Slot::Live { pid: 77 });
}

#[test]
fn role_commands_are_fixed() {
    assert_eq!(
        Role::LocalServer.command(),
        vec!["npx", "wrangler", "dev", "--port", "8787"]
    );
    assert_eq!(Role::Bridge.command(), vec!["node", "dist/bridge/http-server.js"]);
    assert_eq!(
        Role::Tunnel.command(),
        vec!["cloudflared", "tunnel", "--url", "http://localhost:8787"]
    );
    assert_eq!(Role::LocalServer.name(), "local-server");
    assert_eq!(Role::Bridge.name(), "bridge");
    assert_eq!(Role::Tunnel.name(), "tunnel");
}

#[test]
fn generated_tokens_are_32_alphanumeric_chars() {
    for _ in 0..16 {
        let t = generate_token();
        assert_eq!(t.chars().count(), 32);
        assert!(t.chars().all(|c| c.is_ascii_alphanumeric()));
    }
}

#[test]
fn tokens_differ_between_draws() {
    // 62^32 values: two equal draws would point at a broken generator.
    let a = generate_token();
    let b = generate_token();
    assert_ne!(a, b);
}

#[test]
fn check_all_pairs_names_with_probes() {
    let probes = PermissionProbes {
        full_disk: true,
        accessibility: false,
        screen_recording: true,
        contacts: false,
        automation: true,
    };
    let r = check_all(&probes);
    assert_eq!(
        r,
        vec![
            (String::from("full_disk"), true),
            (String::from("accessibility"), false),
            (String::from("screen_recording"), true),
            (String::from("contacts"), false),
            (String::from("automation"), true),
        ]
    );
}

#[test]
fn settings_urls_by_permission() {
    assert_eq!(
        permission_settings_url("full_disk").as_deref(),
        Some("x-apple.systempreferences:com.apple.preference.security?Privacy_AllFiles")
    );
    assert_eq!(
        permission_settings_url("screen_recording").as_deref(),
        Some("x-apple.systempreferences:com.apple.preference.security?Privacy_ScreenCapture")
    );
    assert_eq!(permission_settings_url("unknown"), None);
}

#[test]
fn automation_tables() {
    let names = get_automation_apps();
    assert_eq!(names.len(), 10);
    assert_eq!(names[0], "Calendar");
    assert_eq!(names[9], "System Events");
    assert_eq!(
        automation_script("Finder").as_deref(),
        Some("tell application \"Finder\" to get name")
    );
    assert_eq!(automation_script("Terminal"), None);
    let granted: Vec<bool> = vec![true, false, true, false, true, false, true, false, true, false];
    let with_status = get_automation_apps_with_status(&granted);
    assert_eq!(with_status.len(), 10);
    assert_eq!(with_status[0], (String::from("Calendar"), true));
    assert_eq!(with_status[1], (String::from("Contacts"), false));
}

#[test]
fn error_messages() {
    assert_eq!(SupError::AlreadyRunning.message(), "Tunnel already running");
    assert_eq!(SupError::DiscoveryTimeout.message(), "Timeout waiting for tunnel URL");
    assert_eq!(
        SupError::EndpointNotFound.message(),
        "Deploy succeeded but no endpoint URL was found in the output"
    );
    let e = SupError::ProjectNotFound {
        attempted: vec![String::from("/a"), String::from("/b")],
    };
    assert_eq!(e.message(), "Could not find the project root; attempted: /a, /b");
    let t = SupError::ToolFailure {
        step: String::from("install"),
        output: String::from("boom"),
    };
    assert_eq!(t.message(), "install failed: boom");
}
