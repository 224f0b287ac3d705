use rillio::flow::initial_phase;
use rillio::flow::step;
use rillio::flow::Action;
use rillio::flow::Event;
use rillio::flow::Phase;

fn s(v: &str) -> String {
    v.to_string()
}

fn root_env(xdg: Option<&str>, appdata: Option<&str>, home: Option<&str>, windows: bool) -> Event {
    Event::RootEnv {
        xdg: xdg.map(s),
        appdata: appdata.map(s),
        home: home.map(s),
        windows,
    }
}

#[test]
fn full_run_with_status_200() {
    // Root resolution.
    let phase = initial_phase();
    let (phase, action) = step(phase, root_env(None, None, Some("/home/u"), false));
    match action {
        Action::ProbeFiles { dir, config_path, secrets_path } => {
            assert_eq!(dir, s("/home/u/.config/rillio"));
            assert_eq!(config_path, s("/home/u/.config/rillio/config.toml"));
            assert_eq!(secrets_path, s("/home/u/.config/rillio/secrets.env"));
        },
        _ => panic!("expected a filesystem probe"),
    }

    // Fresh root: both files are created, the secrets file restricted.
    let (phase, action) = step(
        phase,
        Event::FsProbed { config_exists: false, secrets_exists: false, posix: true },
    );
    match action {
        Action::ApplyPlan { plan, config_notice, secrets_notice, .. } => {
            assert!(plan.create_config && plan.create_secrets && plan.restrict_secrets);
            assert_eq!(config_notice, Some(s("Created /home/u/.config/rillio/config.toml")));
            assert_eq!(secrets_notice, Some(s("Created /home/u/.config/rillio/secrets.env")));
        },
        _ => panic!("expected the bootstrap plan"),
    }

    // The plan was carried out; next the key is read.
    let (phase, action) = step(phase, Event::PlanApplied);
    assert!(matches!(action, Action::ReadKey));

    // With a key in hand the request goes out.
    let (phase, action) = step(phase, Event::KeyEnv { value: Some(s("the-key")) });
    match action {
        Action::SendRequest { url, auth_header, version_header } => {
            assert_eq!(url, s("https://api.notion.com/v1/pages/2a2a1865b18781fca571e00c54ef8006"));
            assert_eq!(auth_header, s("Bearer the-key"));
            assert_eq!(version_header, s("2025-09-03"));
        },
        _ => panic!("expected the request"),
    }

    // A 200 response is reported verbatim and the run exits 0.
    let (phase, action) = step(
        phase,
        Event::Response { status: 200, body: s("{\"id\":\"abc\"}") },
    );
    match action {
        Action::PrintReport { status_line, body } => {
            assert_eq!(status_line, s("Status 200"));
            assert_eq!(body, s("{\"id\":\"abc\"}"));
        },
        _ => panic!("expected the report"),
    }
    assert!(matches!(phase, Phase::Done { exit_code: 0 }));
}

#[test]
fn non_2xx_status_is_not_fatal() {
    let (phase, action) = step(
        Phase::AwaitResponse,
        Event::Response { status: 404, body: s("{\"object\":\"error\"}") },
    );
    match action {
        Action::PrintReport { status_line, body } => {
            assert_eq!(status_line, s("Status 404"));
            assert_eq!(body, s("{\"object\":\"error\"}"));
        },
        _ => panic!("expected the report"),
    }
    assert!(matches!(phase, Phase::Done { exit_code: 0 }));
}

#[test]
fn transport_failure_prints_no_status_line() {
    let (phase, action) = step(
        Phase::AwaitResponse,
        Event::TransportFailed { message: s("Error: connection refused") },
    );
    match action {
        Action::Fail { stderr_lines, exit_code } => {
            assert_eq!(exit_code, 1);
            assert_eq!(stderr_lines, vec![s("Error: connection refused")]);
        },
        _ => panic!("a transport failure must end the run, not report"),
    }
    assert!(matches!(phase, Phase::Done { exit_code: 1 }));
}

#[test]
fn missing_key_exits_one_without_a_request() {
    let (phase, action) = step(
        Phase::AwaitKey { secrets_path: s("/home/u/.config/rillio/secrets.env") },
        Event::KeyEnv { value: None },
    );
    match action {
        Action::Fail { stderr_lines, exit_code } => {
            assert_eq!(exit_code, 1);
            assert_eq!(stderr_lines.len(), 3);
            assert!(stderr_lines[0].contains("NOTION_API_KEY"));
            assert_eq!(
                stderr_lines[2],
                s("(You now also have /home/u/.config/rillio/secrets.env where you can choose to manage secrets later.)")
            );
        },
        _ => panic!("a missing key must end the run, not send a request"),
    }
    assert!(matches!(phase, Phase::Done { exit_code: 1 }));
}

#[test]
fn unresolvable_root_fails_before_any_request() {
    let (phase, action) = step(initial_phase(), root_env(None, None, None, false));
    match action {
        Action::Fail { stderr_lines, exit_code } => {
            assert_eq!(exit_code, 1);
            assert_eq!(
                stderr_lines,
                vec![s(
                    "Could not determine config directory (XDG_CONFIG_HOME/APPDATA/HOME missing)"
                )]
            );
        },
        _ => panic!("an unresolvable root must end the run"),
    }
    assert!(matches!(phase, Phase::Done { exit_code: 1 }));
}

#[test]
fn second_run_plans_no_changes() {
    // Both files already exist: the plan creates nothing and prints nothing.
    let (_, action) = step(
        Phase::AwaitFsProbe {
            config_path: s("/c/rillio/config.toml"),
            secrets_path: s("/c/rillio/secrets.env"),
        },
        Event::FsProbed { config_exists: true, secrets_exists: true, posix: true },
    );
    match action {
        Action::ApplyPlan { plan, config_notice, secrets_notice, .. } => {
            assert!(!plan.create_config && !plan.create_secrets && !plan.restrict_secrets);
            assert_eq!(config_notice, None);
            assert_eq!(secrets_notice, None);
        },
        _ => panic!("expected the bootstrap plan"),
    }
}

#[test]
fn filesystem_failure_is_fatal() {
    let (phase, action) = step(
        Phase::AwaitFsProbe { config_path: s("/c"), secrets_path: s("/s") },
        Event::FsFailed { message: s("Error: permission denied") },
    );
    match action {
        Action::Fail { stderr_lines, exit_code } => {
            assert_eq!(exit_code, 1);
            assert_eq!(stderr_lines, vec![s("Error: permission denied")]);
        },
        _ => panic!("a filesystem failure must end the run"),
    }
    assert!(matches!(phase, Phase::Done { exit_code: 1 }));
}
