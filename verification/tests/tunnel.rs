use cc_switch_web::json::JsonValue;
use cc_switch_web::web::tunnel::{
    dns_name_from_status, setup_command_args, tunnel_url, StartAction, StartEvent, StartStage,
    Tunnel, TunnelMode, TunnelStart, HTTPS_PORT,
};

fn s(x: &str) -> JsonValue {
    JsonValue::String(x.to_string())
}

fn obj(entries: Vec<(&str, JsonValue)>) -> JsonValue {
    JsonValue::Object(entries.into_iter().map(|(k, v)| (k.to_string(), v)).collect())
}

fn status(dns: &str) -> JsonValue {
    obj(vec![("Self", obj(vec![("DNSName", s(dns))]))])
}

fn failure(action: StartAction) -> String {
    match action {
        StartAction::Fail(e) => e.message().to_string(),
        other => panic!("expected a failure, got {:?}", other),
    }
}

fn exited(success: bool, stderr: &[u8]) -> StartEvent {
    StartEvent::Exited {
        success,
        stderr: stderr.to_vec(),
    }
}

#[test]
fn subcommands_of_modes() {
    assert_eq!(TunnelMode::Serve.subcommand(), "serve");
    assert_eq!(TunnelMode::Funnel.subcommand(), "funnel");
    assert_eq!(HTTPS_PORT, 8443);
}

#[test]
fn setup_and_teardown_arguments() {
    assert_eq!(
        setup_command_args(TunnelMode::Serve, 4321),
        vec!["serve", "--bg", "--https=8443", "--yes", "localhost:4321"]
    );
    let t = Tunnel {
        mode: TunnelMode::Funnel,
        target_port: 80,
    };
    assert_eq!(
        t.teardown_command_args(),
        vec!["funnel", "--https=8443", "--yes", "localhost:80", "off"]
    );
}

#[test]
fn dns_name_is_read_and_trailing_dot_stripped() {
    assert_eq!(
        dns_name_from_status(&status("machine.tailnet.ts.net.")).as_deref(),
        Some("machine.tailnet.ts.net")
    );
    assert_eq!(dns_name_from_status(&status("")), None);
    assert_eq!(dns_name_from_status(&status(".")).as_deref(), Some(""));
    assert_eq!(dns_name_from_status(&obj(vec![])), None);
    assert_eq!(
        dns_name_from_status(&obj(vec![("Self", obj(vec![("DNSName", JsonValue::Null)]))])),
        None
    );
    assert_eq!(tunnel_url("h.ts.net"), "https://h.ts.net:8443");
}

#[test]
fn tunnel_setup_happy_path() {
    let (m, a) = Tunnel::start(TunnelMode::Serve, 5173);
    assert!(matches!(a, StartAction::LocateCli));
    let (m, a) = m.step(StartEvent::CliLocated(true));
    assert_eq!(m.stage, StartStage::CheckStatus);
    match a {
        StartAction::Run(args) => assert_eq!(args, vec!["status"]),
        other => panic!("unexpected {:?}", other),
    }
    let (m, a) = m.step(exited(true, b""));
    assert_eq!(m.stage, StartStage::Expose);
    match a {
        StartAction::Run(args) => assert_eq!(
            args,
            vec!["serve", "--bg", "--https=8443", "--yes", "localhost:5173"]
        ),
        other => panic!("unexpected {:?}", other),
    }
    let (m, a) = m.step(exited(true, b""));
    assert_eq!(m.stage, StartStage::ReadDnsName);
    match a {
        StartAction::RunForJson(args) => assert_eq!(args, vec!["status", "--json"]),
        other => panic!("unexpected {:?}", other),
    }
    let (_, a) = m.step(StartEvent::StatusJson(Ok(status("box.tail.ts.net."))));
    match a {
        StartAction::Finish(t, url) => {
            assert_eq!(t.mode, TunnelMode::Serve);
            assert_eq!(t.target_port, 5173);
            assert_eq!(url, "https://box.tail.ts.net:8443");
        }
        other => panic!("unexpected {:?}", other),
    }
}

fn at(mode: TunnelMode, stage: StartStage) -> TunnelStart {
    TunnelStart {
        mode,
        target_port: 1,
        stage,
    }
}

/// A failure after the mapping is up: first the teardown of that mapping,
/// then, whatever the teardown's outcome, the failure.
fn failure_after_teardown(mode: TunnelMode, event: StartEvent, teardown: StartEvent) -> String {
    let (m, a) = at(mode, StartStage::ReadDnsName).step(event);
    match a {
        StartAction::Run(args) => assert_eq!(
            args,
            Tunnel {
                mode,
                target_port: 1
            }
            .teardown_command_args()
        ),
        other => panic!("expected the teardown, got {:?}", other),
    }
    assert!(matches!(m.stage, StartStage::TearDown(_)));
    assert!(m.accepts(&teardown));
    failure(m.step(teardown).1)
}

#[test]
fn tunnel_setup_failures() {
    assert_eq!(
        failure(at(TunnelMode::Funnel, StartStage::LocateCli).step(StartEvent::CliLocated(false)).1),
        "`tailscale` CLI not found. Install Tailscale and run `tailscale up`, then retry with --tunnel tailscale."
    );
    assert_eq!(
        failure(at(TunnelMode::Funnel, StartStage::CheckStatus).step(exited(false, b"  Logged out.\n")).1),
        "tailscale is not ready — run `tailscale up` first: Logged out."
    );
    assert_eq!(
        failure(
            at(TunnelMode::Funnel, StartStage::CheckStatus)
                .step(StartEvent::RunFailed("No such file".to_string()))
                .1
        ),
        "failed to run `tailscale status`: No such file"
    );
    assert_eq!(
        failure(at(TunnelMode::Funnel, StartStage::Expose).step(exited(false, b"Funnel not available\n")).1),
        "`tailscale funnel` failed: Funnel not available"
    );
    assert_eq!(
        failure(
            at(TunnelMode::Funnel, StartStage::Expose)
                .step(StartEvent::RunFailed("denied".to_string()))
                .1
        ),
        "failed to run `tailscale`: denied"
    );
    assert_eq!(
        failure_after_teardown(TunnelMode::Funnel, exited(false, b""), exited(true, b"")),
        "failed to read tailscale status"
    );
    assert_eq!(
        failure_after_teardown(
            TunnelMode::Serve,
            StartEvent::RunFailed("x".to_string()),
            StartEvent::RunFailed("gone".to_string())
        ),
        "failed to run `tailscale status --json`: x"
    );
    assert_eq!(
        failure_after_teardown(
            TunnelMode::Serve,
            StartEvent::StatusJson(Err("EOF".to_string())),
            exited(false, b"no mapping")
        ),
        "invalid `tailscale status` JSON: EOF"
    );
    assert_eq!(
        failure_after_teardown(
            TunnelMode::Funnel,
            StartEvent::StatusJson(Ok(obj(vec![]))),
            exited(true, b"")
        ),
        "`tailscale status` did not report this node's DNS name"
    );
}

#[test]
fn stderr_is_decoded_lossily() {
    let checking = at(TunnelMode::Serve, StartStage::CheckStatus);
    assert_eq!(
        failure(checking.step(exited(false, b"bad \xff byte")).1),
        "tailscale is not ready — run `tailscale up` first: bad \u{FFFD} byte"
    );
}

#[test]
fn accepts_only_fitting_outcomes() {
    let locate = TunnelStart {
        mode: TunnelMode::Serve,
        target_port: 1,
        stage: StartStage::LocateCli,
    };
    assert!(locate.accepts(&StartEvent::CliLocated(true)));
    assert!(!locate.accepts(&StartEvent::RunFailed("x".to_string())));
    let reading = at(TunnelMode::Serve, StartStage::ReadDnsName);
    assert!(reading.accepts(&StartEvent::StatusJson(Err("e".to_string()))));
    assert!(reading.accepts(&exited(false, b"")));
    assert!(!reading.accepts(&exited(true, b"")));
    let checking = at(TunnelMode::Serve, StartStage::CheckStatus);
    let tearing = at(TunnelMode::Serve, StartStage::TearDown("m".to_string()));
    assert!(tearing.accepts(&exited(false, b"")));
    assert!(!tearing.accepts(&StartEvent::CliLocated(true)));
    assert!(checking.accepts(&exited(true, b"")));
    assert!(!checking.accepts(&StartEvent::StatusJson(Ok(JsonValue::Null))));
}

#[test]
fn teardown_removes_what_setup_made() {
    let mut setup = setup_command_args(TunnelMode::Funnel, 9000);
    setup.remove(1);
    setup.push("off".to_string());
    let t = Tunnel {
        mode: TunnelMode::Funnel,
        target_port: 9000,
    };
    assert_eq!(t.teardown_command_args(), setup);
}
