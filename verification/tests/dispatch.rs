use cc_switch_web::json::JsonValue;
use cc_switch_web::web::dispatch::{
    answer, answer_switch, dispatch, invoke, provider_switched_event, settings_arg,
    str_arg, switch_result, Answer, InvokeCommand,
};
use cc_switch_web::web::error::WebError;
use cc_switch_web::web::handlers::proxy_extra::{
    answer_stop, answer_upstream_status, common_proxy_ports, dispatch as proxy_dispatch, domain_str, proxy_test_result,
    scan_local_proxies, upstream_proxy_status, ProxyCommand,
};
use cc_switch_web::AppError;

fn s(x: &str) -> JsonValue {
    JsonValue::String(x.to_string())
}

fn n(x: &str) -> JsonValue {
    JsonValue::Number(x.to_string())
}

fn obj(entries: Vec<(&str, JsonValue)>) -> JsonValue {
    JsonValue::Object(entries.into_iter().map(|(k, v)| (k.to_string(), v)).collect())
}

#[test]
fn commands_are_routed_by_name() {
    assert_eq!(dispatch("get_providers").unwrap(), InvokeCommand::GetProviders);
    assert_eq!(dispatch("switch_provider").unwrap(), InvokeCommand::SwitchProvider);
    assert_eq!(dispatch("get_app_version").unwrap(), InvokeCommand::GetAppVersion);
    match dispatch("open_tray") {
        Err(WebError::NotImplemented(name)) => assert_eq!(name, "open_tray"),
        other => panic!("unexpected {:?}", other),
    }
    assert_eq!(InvokeCommand::GetCommonConfigSnippet.app_key(), Some("appType"));
    assert_eq!(InvokeCommand::GetProviders.app_key(), Some("app"));
    assert_eq!(InvokeCommand::GetSettings.app_key(), None);
    assert_eq!(InvokeCommand::IsPortableMode.fixed_answer(), Some(JsonValue::Bool(false)));
    assert_eq!(InvokeCommand::UpdateTrayMenu.fixed_answer(), Some(JsonValue::Bool(true)));
    assert_eq!(InvokeCommand::GetSettings.fixed_answer(), None);
}

#[test]
fn arguments_are_read_or_refused() {
    let args = obj(vec![("id", s("p1")), ("n", n("3")), ("settings", obj(vec![]))]);
    assert_eq!(str_arg(&args, "id").unwrap(), "p1");
    match str_arg(&args, "n") {
        Err(WebError::BadRequest(m)) => assert_eq!(m, "missing 'n' argument"),
        other => panic!("unexpected {:?}", other),
    }
    assert_eq!(settings_arg(&args).unwrap(), obj(vec![]));
    match settings_arg(&obj(vec![])) {
        Err(WebError::BadRequest(m)) => assert_eq!(m, "missing 'settings' argument"),
        other => panic!("unexpected {:?}", other),
    }
}

#[test]
fn switch_answers() {
    assert_eq!(switch_result(), obj(vec![("warnings", JsonValue::Array(vec![]))]));
    assert_eq!(
        provider_switched_event("codex", "p1"),
        obj(vec![
            ("event", s("provider-switched")),
            ("payload", obj(vec![("appType", s("codex")), ("providerId", s("p1"))])),
        ])
    );
}

#[test]
fn web_errors_map_to_status_and_body() {
    let e = WebError::from(AppError::Message("boom".to_string()));
    assert_eq!(e.status(), 500);
    assert_eq!(e.body(), obj(vec![("error", s("boom"))]));
    let e = WebError::NotImplemented("x".to_string());
    assert_eq!(e.status(), 501);
    assert_eq!(e.message(), "command 'x' is not implemented in the web prototype");
    let e = WebError::BadRequest("bad".to_string());
    assert_eq!(e.status(), 400);
    assert_eq!(e.message(), "bad");
}

#[test]
fn proxy_commands_are_routed() {
    let none = obj(vec![]);
    assert!(matches!(
        proxy_dispatch("stop_proxy_server", &none),
        Some(Ok(ProxyCommand::StopProxyServer))
    ));
    assert!(matches!(
        proxy_dispatch("scan_local_proxies", &none),
        Some(Ok(ProxyCommand::ScanLocalProxies))
    ));
    assert!(matches!(
        proxy_dispatch("get_upstream_proxy_status", &none),
        Some(Ok(ProxyCommand::GetUpstreamProxyStatus))
    ));
    match proxy_dispatch("test_proxy_url", &obj(vec![("url", s("http://127.0.0.1:7890"))])) {
        Some(Ok(ProxyCommand::TestProxyUrl(u))) => assert_eq!(u, "http://127.0.0.1:7890"),
        other => panic!("unexpected {:?}", other),
    }
    match proxy_dispatch("test_proxy_url", &none) {
        Some(Err(WebError::BadRequest(m))) => assert_eq!(m, "missing 'url' argument"),
        other => panic!("unexpected {:?}", other),
    }
    assert!(proxy_dispatch("get_providers", &none).is_none());
    match domain_str("oops".to_string()) {
        WebError::Domain(AppError::Message(m)) => assert_eq!(m, "oops"),
        other => panic!("unexpected {:?}", other),
    }
}

#[test]
fn upstream_status_ignores_blank_urls() {
    assert_eq!(
        upstream_proxy_status(Some("http://p:1".to_string())),
        obj(vec![("enabled", JsonValue::Bool(true)), ("proxyUrl", s("http://p:1"))])
    );
    assert_eq!(
        upstream_proxy_status(Some("  ".to_string())),
        obj(vec![("enabled", JsonValue::Bool(false)), ("proxyUrl", JsonValue::Null)])
    );
    assert_eq!(
        upstream_proxy_status(None),
        obj(vec![("enabled", JsonValue::Bool(false)), ("proxyUrl", JsonValue::Null)])
    );
}

#[test]
fn proxy_test_results() {
    assert_eq!(
        proxy_test_result(Ok(123)),
        obj(vec![
            ("success", JsonValue::Bool(true)),
            ("latencyMs", n("123")),
            ("error", JsonValue::Null)
        ])
    );
    assert_eq!(
        proxy_test_result(Err("timeout".to_string())),
        obj(vec![
            ("success", JsonValue::Bool(false)),
            ("latencyMs", n("0")),
            ("error", s("timeout"))
        ])
    );
}

#[test]
fn scan_reports_open_ports_in_order() {
    let ports = common_proxy_ports();
    assert_eq!(ports.len(), 13);
    assert_eq!(ports[0], (7890, "http"));
    assert_eq!(ports[12], (4780, "http"));
    let mut open = vec![false; 13];
    open[1] = true;
    open[7] = true;
    assert_eq!(
        scan_local_proxies(&open),
        JsonValue::Array(vec![
            obj(vec![
                ("url", s("socks5://127.0.0.1:7891")),
                ("proxyType", s("socks5")),
                ("port", n("7891"))
            ]),
            obj(vec![
                ("url", s("socks5://127.0.0.1:10808")),
                ("proxyType", s("socks5")),
                ("port", n("10808"))
            ]),
        ])
    );
    assert_eq!(scan_local_proxies(&vec![false; 13]), JsonValue::Array(vec![]));
}

fn bad_request(r: Result<Answer, WebError>) -> String {
    match r {
        Err(WebError::BadRequest(m)) => m,
        other => panic!("expected BadRequest, got {:?}", other),
    }
}

#[test]
fn answers_fixed_commands_without_services() {
    let none = obj(vec![]);
    match invoke("is_portable_mode", &none, "1.2.3").unwrap() {
        Answer::Value(v) => assert_eq!(v, JsonValue::Bool(false)),
        other => panic!("unexpected {:?}", other),
    }
    match invoke("update_tray_menu", &none, "1.2.3").unwrap() {
        Answer::Value(v) => assert_eq!(v, JsonValue::Bool(true)),
        other => panic!("unexpected {:?}", other),
    }
    match invoke("get_app_version", &none, "1.2.3").unwrap() {
        Answer::Value(v) => assert_eq!(v, s("1.2.3")),
        other => panic!("unexpected {:?}", other),
    }
    match invoke("no_such_command", &none, "1") {
        Err(e) => assert_eq!(e.status(), 501),
        other => panic!("unexpected {:?}", other),
    }
}

#[test]
fn service_commands_check_their_arguments() {
    assert_eq!(
        bad_request(answer(InvokeCommand::GetProviders, &obj(vec![]), "v")),
        "missing 'app' argument"
    );
    assert_eq!(
        bad_request(answer(
            InvokeCommand::GetCommonConfigSnippet,
            &obj(vec![("app", s("codex"))]),
            "v"
        )),
        "missing 'appType' argument"
    );
    assert_eq!(
        bad_request(answer(InvokeCommand::SwitchProvider, &obj(vec![("app", s("codex"))]), "v")),
        "missing 'id' argument"
    );
    assert_eq!(
        bad_request(answer(InvokeCommand::SaveSettings, &obj(vec![]), "v")),
        "missing 'settings' argument"
    );
    match answer(
        InvokeCommand::SwitchProvider,
        &obj(vec![("app", s("codex")), ("id", s("p1"))]),
        "v",
    )
    .unwrap()
    {
        Answer::NeedsService(r) => {
            assert_eq!(r.command, InvokeCommand::SwitchProvider);
            assert_eq!(r.app.as_deref(), Some("codex"));
            assert_eq!(r.id.as_deref(), Some("p1"));
            assert!(r.settings.is_none());
        }
        other => panic!("unexpected {:?}", other),
    }
    match answer(InvokeCommand::SaveSettings, &obj(vec![("settings", obj(vec![]))]), "v").unwrap() {
        Answer::NeedsService(r) => {
            assert!(r.app.is_none());
            assert_eq!(r.settings, Some(obj(vec![])));
        }
        other => panic!("unexpected {:?}", other),
    }
    match answer(InvokeCommand::GetSettings, &obj(vec![]), "v").unwrap() {
        Answer::NeedsService(r) => assert_eq!(r.command, InvokeCommand::GetSettings),
        other => panic!("unexpected {:?}", other),
    }
}

#[test]
fn proxy_service_outcomes_are_answered() {
    assert_eq!(answer_stop(Ok(())).unwrap(), JsonValue::Null);
    match answer_stop(Err("not running".to_string())) {
        Err(WebError::Domain(AppError::Message(m))) => assert_eq!(m, "not running"),
        other => panic!("unexpected {:?}", other),
    }
    assert_eq!(
        answer_upstream_status(Ok(Some(" ".to_string()))).unwrap(),
        obj(vec![("enabled", JsonValue::Bool(false)), ("proxyUrl", JsonValue::Null)])
    );
    match answer_upstream_status(Err(AppError::Message("db".to_string()))) {
        Err(e) => assert_eq!(e.status(), 500),
        other => panic!("unexpected {:?}", other),
    }
}

#[test]
fn switch_outcomes_are_answered() {
    let (r, ev) = answer_switch(Ok(()), "gemini", "p9");
    assert_eq!(r.unwrap(), obj(vec![("warnings", JsonValue::Array(vec![]))]));
    assert_eq!(
        ev.unwrap(),
        obj(vec![
            ("event", s("provider-switched")),
            ("payload", obj(vec![("appType", s("gemini")), ("providerId", s("p9"))])),
        ])
    );
    let (r, ev) = answer_switch(Err(AppError::Message("no such provider".to_string())), "codex", "p9");
    match r {
        Err(WebError::Domain(AppError::Message(m))) => assert_eq!(m, "no such provider"),
        other => panic!("unexpected {:?}", other),
    }
    assert!(ev.is_none());
}
