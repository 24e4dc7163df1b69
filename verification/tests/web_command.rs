use cc_switch_web::cli::commands::web::{
    banner, execute, make_loopback_url, pre_tunnel_lines, make_primary_url, public_warning, startup_error,
    teardown_notice, Lang, ServePlan, StartupFacts, Style, TunnelProvider, WebArgs,
};
use cc_switch_web::web::tunnel::TunnelMode;
use cc_switch_web::AppType;

fn args() -> WebArgs {
    WebArgs {
        port: 0,
        host: "127.0.0.1".to_string(),
        assets: None,
        token: Some("tok".to_string()),
        tunnel: None,
        tunnel_public: false,
    }
}

fn facts(frontend_present: bool, host_is_loopback: Option<bool>) -> StartupFacts {
    StartupFacts {
        frontend_present,
        host_is_loopback,
    }
}

fn plan(token: &str, loopback: bool) -> ServePlan {
    ServePlan {
        port: 0,
        token: token.to_string(),
        host_is_loopback: loopback,
        assets: None,
        tunnel_mode: None,
        bind_loopback: false,
    }
}

fn texts(lines: &[cc_switch_web::cli::commands::web::BannerLine]) -> Vec<(Style, String)> {
    lines.iter().map(|l| (l.style, l.text.clone())).collect()
}

#[test]
fn execute_requires_a_frontend() {
    let err = execute(args(), None, facts(false, Some(true))).unwrap_err();
    assert_eq!(
        err.message(),
        "this build has no embedded frontend and no --assets was given; rebuild with CC_SWITCH_WEB_DIST=<path to dist-web>, or pass --assets <dir>"
    );
    let mut a = args();
    a.assets = Some("/tmp/dist".to_string());
    let err = execute(a, Some(AppType::Claude), facts(false, None)).unwrap_err();
    assert_eq!(
        err.message(),
        "assets directory '/tmp/dist' has no index.html — build the frontend first (pnpm build:web)"
    );
}

#[test]
fn execute_rejects_a_host_that_is_no_ip() {
    let mut a = args();
    a.host = "localhost".to_string();
    let err = execute(a, None, facts(true, None)).unwrap_err();
    assert_eq!(
        err.message(),
        "invalid --host 'localhost': expected an IP address like 127.0.0.1 or 0.0.0.0"
    );
}

#[test]
fn execute_plans_token_and_tunnel() {
    let p = execute(args(), None, facts(true, Some(true))).unwrap();
    assert_eq!(p.token, "tok");
    assert_eq!(p.tunnel_mode, None);
    assert!(p.host_is_loopback);
    assert!(!p.bind_loopback);

    let mut a = args();
    a.token = None;
    a.port = 8080;
    a.tunnel = Some(TunnelProvider::Tailscale);
    a.tunnel_public = true;
    let p = execute(a, None, facts(true, Some(false))).unwrap();
    assert_eq!(p.port, 8080);
    assert_eq!(p.tunnel_mode, Some(TunnelMode::Funnel));
    assert!(!p.host_is_loopback);
    assert!(p.bind_loopback);
    let t: Vec<char> = p.token.chars().collect();
    assert_eq!(t.len(), 36);
    for (i, c) in t.iter().enumerate() {
        if [8, 13, 18, 23].contains(&i) {
            assert_eq!(*c, '-');
        } else {
            assert!(c.is_ascii_hexdigit() && !c.is_ascii_uppercase());
        }
    }
    assert_eq!(t[14], '4');
    assert!(['8', '9', 'a', 'b'].contains(&t[19]));

    let mut a = args();
    a.tunnel = Some(TunnelProvider::Tailscale);
    assert_eq!(
        execute(a, None, facts(true, Some(true))).unwrap().tunnel_mode,
        Some(TunnelMode::Serve)
    );
}

#[test]
fn urls_carry_the_token() {
    assert_eq!(make_loopback_url(5173, "abc"), "http://127.0.0.1:5173/?token=abc");
    assert_eq!(
        make_primary_url("127.0.0.1:5173", None, "abc"),
        "http://127.0.0.1:5173/?token=abc"
    );
    assert_eq!(
        make_primary_url("[::1]:80", Some("https://h.ts.net:8443"), "t"),
        "https://h.ts.net:8443/?token=t"
    );
}

#[test]
fn banner_for_loopback_bind() {
    let lines = banner(&plan("t", true), 5173, "127.0.0.1:5173", None, Lang::En);
    assert_eq!(
        texts(&lines),
        vec![
            (Style::Highlight, "Local Web Dashboard".to_string()),
            (Style::Success, "http://127.0.0.1:5173/?token=t".to_string()),
            (
                Style::Info,
                "Headless/remote? Port-forward from your own machine, then open the URL above:"
                    .to_string()
            ),
            (
                Style::Plain,
                "    ssh -L 5173:127.0.0.1:5173 <user>@<this-server>".to_string()
            ),
            (
                Style::Info,
                "No public IP? Try:  cc-switch web --tunnel tailscale".to_string()
            ),
            (
                Style::Info,
                "This URL grants full control of your providers and settings — do not share it."
                    .to_string()
            ),
            (Style::Info, "Press Ctrl-C to stop.".to_string()),
        ]
    );
}

#[test]
fn banner_for_network_bind_and_tunnel() {
    let lines = banner(&plan("t", false), 80, "0.0.0.0:80", None, Lang::En);
    let t = texts(&lines);
    assert_eq!(t.len(), 6);
    assert_eq!(t[1].1, "http://0.0.0.0:80/?token=t");
    assert_eq!(t[2].0, Style::Error);
    assert_eq!(t[2].1, public_warning(Lang::En).text);
    assert_eq!(
        t[3].1,
        "Bound to a network interface — reach it at this machine's IP on this port."
    );

    let lines = banner(&plan("t", true), 80, "127.0.0.1:80", Some("https://n.ts.net:8443"), Lang::Zh);
    let t = texts(&lines);
    assert_eq!(t.len(), 5);
    assert_eq!(t[0].1, "本地 Web 控制台");
    assert_eq!(t[1].1, "https://n.ts.net:8443/?token=t");
    assert_eq!(t[2].1, "本地： http://127.0.0.1:80/?token=t");
    assert_eq!(t[4].1, "按 Ctrl-C 停止。");
}

#[test]
fn notices_and_startup_errors() {
    assert_eq!(teardown_notice(Lang::En).text, "Tearing down tunnel…");
    assert_eq!(teardown_notice(Lang::Zh).text, "正在拆除隧道…");
    assert!(public_warning(Lang::En).text.starts_with("⚠ PUBLIC exposure"));
    assert_eq!(
        startup_error("failed to bind 127.0.0.1:0", "address in use").message(),
        "failed to bind 127.0.0.1:0: address in use"
    );
}

#[test]
fn funnel_warning_comes_before_the_tunnel() {
    let mut p = plan("t", false);
    assert!(pre_tunnel_lines(&p, Lang::En).is_empty());
    p.tunnel_mode = Some(TunnelMode::Serve);
    assert!(pre_tunnel_lines(&p, Lang::En).is_empty());
    p.tunnel_mode = Some(TunnelMode::Funnel);
    let lines = pre_tunnel_lines(&p, Lang::En);
    assert_eq!(lines.len(), 1);
    assert_eq!(lines[0].style, Style::Error);
    assert_eq!(lines[0].text, public_warning(Lang::En).text);
}

#[test]
fn public_flag_without_tunnel_changes_nothing() {
    let mut a = args();
    a.tunnel_public = true;
    let p = execute(a, None, facts(true, Some(true))).unwrap();
    assert_eq!(p.tunnel_mode, None);
    assert!(!p.bind_loopback);
}

#[test]
fn execute_ignores_the_app_argument() {
    for app in [None, Some(AppType::Claude), Some(AppType::OpenClaw)] {
        let p = execute(args(), app, facts(true, Some(true))).unwrap();
        assert_eq!(p.token, "tok");
        assert_eq!(p.port, 0);
        assert!(p.host_is_loopback);
        assert_eq!(p.tunnel_mode, None);
        assert!(!p.bind_loopback);
        let e = execute(args(), app, facts(false, Some(true))).unwrap_err();
        assert!(e.message().contains("no embedded frontend"));
    }
    let mut a = args();
    a.token = None;
    let t1 = execute(a, Some(AppType::Codex), facts(true, Some(true))).unwrap().token;
    assert_eq!(t1.len(), 36);
    assert_eq!(&t1[14..15], "4");
}
