//! Supplementary proxy commands not covered by the main proxy handlers:
//!   - `stop_proxy_server`: stops the proxy runtime, answers `null`.
//!   - `get_upstream_proxy_status`: the persisted global proxy URL.
//!   - `test_proxy_url`: one timed request through the given proxy.
//!   - `scan_local_proxies`: probes common local proxy-client ports.
//!
//! This module decides which command a name stands for and builds the answers
//! from what the caller observed; the caller stops the runtime, reads the
//! database, sends the request and probes the ports.
use vstd::prelude::*;

use crate::error::AppError;
use crate::json::{entries_model, lemma_array_model, lemma_object_model, Json, JsonValue};
use crate::text::{concat, decimal, decimal_string, opt_string_view, str_eq, trim, trim_str};
use crate::web::dispatch::{missing_argument_message, str_arg};
use crate::web::error::WebError;

verus! {

/// The URL that `test_proxy_url` fetches through the proxy.
pub const PROXY_TEST_URL: &'static str = "https://www.gstatic.com/generate_204";

/// Timeout of the `test_proxy_url` request, in seconds.
pub const PROXY_TEST_TIMEOUT_SECS: u64 = 10;

/// Timeout of each port probe of `scan_local_proxies`, in milliseconds.
pub const PROBE_TIMEOUT_MS: u64 = 200;

/// Map a service-layer `String` error into a domain [`WebError`].
pub fn domain_str(e: String) -> (r: WebError)
    ensures
        r == WebError::Domain(AppError::Message(e)),
{
    WebError::Domain(AppError::Message(e))
}

/// A supplementary proxy command.
#[derive(Debug)]
pub enum ProxyCommand {
    StopProxyServer,
    GetUpstreamProxyStatus,
    /// Test the proxy at this URL.
    TestProxyUrl(String),
    ScanLocalProxies,
}

/// The command a name and its arguments stand for: `None` for a name this
/// module does not handle, an error when `test_proxy_url` has no `url`.
pub fn dispatch(command: &str, args: &JsonValue) -> (r: Option<Result<ProxyCommand, WebError>>)
    ensures
        match r {
            None => command@ != "stop_proxy_server"@ && command@ != "get_upstream_proxy_status"@
                && command@ != "test_proxy_url"@ && command@ != "scan_local_proxies"@,
            Some(Ok(ProxyCommand::StopProxyServer)) => command@ == "stop_proxy_server"@,
            Some(Ok(ProxyCommand::GetUpstreamProxyStatus)) => command@
                == "get_upstream_proxy_status"@,
            Some(Ok(ProxyCommand::TestProxyUrl(url))) => command@ == "test_proxy_url"@
                && args@.field("url"@) == Some(Json::Str(url@)),
            Some(Ok(ProxyCommand::ScanLocalProxies)) => command@ == "scan_local_proxies"@,
            Some(Err(e)) => command@ == "test_proxy_url"@ && !(args@.field("url"@) matches Some(
                Json::Str(_),
            )) && (e matches WebError::BadRequest(m) && m@ == missing_argument_message("url"@)),
        },
{
    if str_eq(command, "stop_proxy_server") {
        Some(Ok(ProxyCommand::StopProxyServer))
    } else if str_eq(command, "get_upstream_proxy_status") {
        Some(Ok(ProxyCommand::GetUpstreamProxyStatus))
    } else if str_eq(command, "test_proxy_url") {
        match str_arg(args, "url") {
            Ok(url) => Some(Ok(ProxyCommand::TestProxyUrl(url))),
            Err(e) => Some(Err(e)),
        }
    } else if str_eq(command, "scan_local_proxies") {
        Some(Ok(ProxyCommand::ScanLocalProxies))
    } else {
        None
    }
}

/// The persisted proxy URL, unless it is blank.
pub open spec fn effective_proxy_url(url: Option<Seq<char>>) -> Option<Seq<char>> {
    match url {
        Some(u) => if trim(u).len() == 0 {
            None
        } else {
            Some(u)
        },
        None => None,
    }
}

/// `{ "enabled": .., "proxyUrl": .. }`
pub open spec fn upstream_status_json(url: Option<Seq<char>>) -> Json {
    let u = effective_proxy_url(url);
    Json::Object(
        seq![
            ("enabled"@, Json::Bool(u is Some)),
            (
                "proxyUrl"@,
                match u {
                    Some(s) => Json::Str(s),
                    None => Json::Null,
                },
            ),
        ],
    )
}

/// The answer of `get_upstream_proxy_status` for the persisted proxy URL: a
/// blank URL counts as none.
pub fn upstream_proxy_status(url: Option<String>) -> (r: JsonValue)
    ensures
        r@ == upstream_status_json(opt_string_view(url)),
{
    let ghost uv = opt_string_view(url);
    let effective: Option<String> = match url {
        Some(u) => if trim_str(u.as_str()).is_empty() {
            None
        } else {
            Some(u)
        },
        None => None,
    };
    assert(opt_string_view(effective) == effective_proxy_url(uv));
    let enabled = effective.is_some();
    let value = match effective {
        Some(u) => JsonValue::String(u),
        None => JsonValue::Null,
    };
    let mut entries: Vec<(String, JsonValue)> = Vec::new();
    entries.push((String::from_str("enabled"), JsonValue::Bool(enabled)));
    entries.push((String::from_str("proxyUrl"), value));
    proof {
        lemma_object_model(entries);
        assert(entries_model(entries@) =~= upstream_status_json(uv)->Object_0);
    }
    JsonValue::Object(entries)
}

/// `{ "success": .., "latencyMs": .., "error": .. }` for a measured latency
/// or the text of the failure.
pub open spec fn proxy_test_json(outcome: Result<u64, Seq<char>>) -> Json {
    match outcome {
        Ok(ms) => Json::Object(
            seq![
                ("success"@, Json::Bool(true)),
                ("latencyMs"@, Json::Number(decimal(ms as nat))),
                ("error"@, Json::Null),
            ],
        ),
        Err(e) => Json::Object(
            seq![
                ("success"@, Json::Bool(false)),
                ("latencyMs"@, Json::Number(decimal(0))),
                ("error"@, Json::Str(e)),
            ],
        ),
    }
}

/// The answer of `test_proxy_url`. A connection failure is reported in the
/// result, never as an error.
pub fn proxy_test_result(outcome: Result<u64, String>) -> (r: JsonValue)
    ensures
        r@ == proxy_test_json(
            match outcome {
                Ok(ms) => Ok(ms),
                Err(e) => Err(e@),
            },
        ),
{
    let ghost o: Result<u64, Seq<char>> = match &outcome {
        Ok(ms) => Ok(*ms),
        Err(e) => Err(e@),
    };
    let mut entries: Vec<(String, JsonValue)> = Vec::new();
    match outcome {
        Ok(ms) => {
            entries.push((String::from_str("success"), JsonValue::Bool(true)));
            entries.push((String::from_str("latencyMs"), JsonValue::Number(decimal_string(ms))));
            entries.push((String::from_str("error"), JsonValue::Null));
        },
        Err(e) => {
            entries.push((String::from_str("success"), JsonValue::Bool(false)));
            entries.push((String::from_str("latencyMs"), JsonValue::Number(decimal_string(0))));
            entries.push((String::from_str("error"), JsonValue::String(e)));
        },
    }
    proof {
        lemma_object_model(entries);
        assert(entries_model(entries@) =~= proxy_test_json(o)->Object_0);
    }
    JsonValue::Object(entries)
}

/// `(port, scheme)` of the usual local proxy clients (Clash, v2rayN, Verge, ...).
pub open spec fn common_ports() -> Seq<(u16, Seq<char>)> {
    seq![
        (7890u16, "http"@),
        (7891u16, "socks5"@),
        (7897u16, "http"@),
        (1080u16, "socks5"@),
        (1087u16, "http"@),
        (8080u16, "http"@),
        (8888u16, "http"@),
        (10808u16, "socks5"@),
        (10809u16, "http"@),
        (2080u16, "http"@),
        (20171u16, "socks5"@),
        (33210u16, "socks5"@),
        (4780u16, "http"@),
    ]
}

/// The ports probed for local proxy clients, in the order they are probed.
pub open spec fn probed_ports() -> Seq<u16> {
    seq![7890u16, 7891, 7897, 1080, 1087, 8080, 8888, 10808, 10809, 2080, 20171, 33210, 4780]
}

/// The ports on which the usual clients listen for SOCKS5 rather than HTTP.
pub open spec fn is_socks5_port(port: u16) -> bool {
    port == 1080 || port == 7891 || port == 10808 || port == 20171 || port == 33210
}

/// The probe table lists each of the probed ports once, in order, with the
/// scheme its clients speak: `socks5` exactly on 1080, 7891, 10808, 20171 and
/// 33210, `http` on the others; so an open port is reported with the scheme
/// that works with it.
pub proof fn law_probe_table_schemes(i: int)
    requires
        0 <= i < probed_ports().len(),
    ensures
        common_ports().len() == probed_ports().len(),
        common_ports()[i].0 == probed_ports()[i],
        common_ports()[i].1 == if is_socks5_port(probed_ports()[i]) {
            "socks5"@
        } else {
            "http"@
        },
{
}

pub open spec fn ports_view(v: Seq<(u16, &'static str)>) -> Seq<(u16, Seq<char>)> {
    v.map_values(|p: (u16, &'static str)| (p.0, p.1@))
}

/// The ports that `scan_local_proxies` probes on 127.0.0.1, in order.
pub fn common_proxy_ports() -> (r: Vec<(u16, &'static str)>)
    ensures
        ports_view(r@) == common_ports(),
{
    let mut v: Vec<(u16, &'static str)> = Vec::new();
    v.push((7890, "http"));
    v.push((7891, "socks5"));
    v.push((7897, "http"));
    v.push((1080, "socks5"));
    v.push((1087, "http"));
    v.push((8080, "http"));
    v.push((8888, "http"));
    v.push((10808, "socks5"));
    v.push((10809, "http"));
    v.push((2080, "http"));
    v.push((20171, "socks5"));
    v.push((33210, "socks5"));
    v.push((4780, "http"));
    assert(ports_view(v@) =~= common_ports());
    v
}

/// `{ "url": "<scheme>://127.0.0.1:<port>", "proxyType": scheme, "port": port }`
pub open spec fn detected_proxy_json(port: u16, scheme: Seq<char>) -> Json {
    Json::Object(
        seq![
            ("url"@, Json::Str(scheme + "://127.0.0.1:"@ + decimal(port as nat))),
            ("proxyType"@, Json::Str(scheme)),
            ("port"@, Json::Number(decimal(port as nat))),
        ],
    )
}

/// The detected proxies among the first `n` probed ports, in probe order.
pub open spec fn detected_upto(ports: Seq<(u16, Seq<char>)>, open: Seq<bool>, n: int) -> Seq<Json>
    decreases n,
{
    if n <= 0 {
        Seq::empty()
    } else if open[n - 1] {
        detected_upto(ports, open, n - 1).push(detected_proxy_json(ports[n - 1].0, ports[n - 1].1))
    } else {
        detected_upto(ports, open, n - 1)
    }
}

fn detected_proxy(port: u16, scheme: &str) -> (r: JsonValue)
    ensures
        r@ == detected_proxy_json(port, scheme@),
{
    let p = decimal_string(port as u64);
    let a = concat(scheme, "://127.0.0.1:");
    let url = concat(a.as_str(), p.as_str());
    let mut entries: Vec<(String, JsonValue)> = Vec::new();
    entries.push((String::from_str("url"), JsonValue::String(url)));
    entries.push((String::from_str("proxyType"), JsonValue::String(String::from_str(scheme))));
    entries.push((String::from_str("port"), JsonValue::Number(p)));
    proof {
        lemma_object_model(entries);
        assert(entries_model(entries@) =~= detected_proxy_json(port, scheme@)->Object_0);
    }
    JsonValue::Object(entries)
}

/// The answer of `scan_local_proxies`: the probed ports that were open
/// (`open[i]` for the `i`-th port of [`common_proxy_ports`]), in probe order.
pub fn scan_local_proxies(open: &Vec<bool>) -> (r: JsonValue)
    requires
        open@.len() == common_ports().len(),
    ensures
        r@ == Json::Array(detected_upto(common_ports(), open@, common_ports().len() as int)),
{
    let ports = common_proxy_ports();
    let mut found: Vec<JsonValue> = Vec::new();
    let mut i: usize = 0;
    while i < ports.len()
        invariant
            ports_view(ports@) == common_ports(),
            open@.len() == ports@.len(),
            0 <= i <= ports@.len(),
            found@.map_values(|x: JsonValue| x@) == detected_upto(common_ports(), open@, i as int),
        decreases ports@.len() - i,
    {
        let (port, scheme) = ports[i];
        assert(ports_view(ports@)[i as int] == (port, scheme@));
        if open[i] {
            let d = detected_proxy(port, scheme);
            let ghost before = found@.map_values(|x: JsonValue| x@);
            found.push(d);
            assert(found@.map_values(|x: JsonValue| x@) =~= before.push(d@));
        }
        i = i + 1;
    }
    proof {
        lemma_array_model(found);
    }
    JsonValue::Array(found)
}

/// The answer of `stop_proxy_server` for the outcome of stopping the proxy
/// runtime: `null`, or the service's error as a domain error.
pub fn answer_stop(outcome: Result<(), String>) -> (r: Result<JsonValue, WebError>)
    ensures
        match outcome {
            Ok(()) => r matches Ok(v) && v@ == Json::Null,
            Err(e) => r matches Err(WebError::Domain(AppError::Message(m))) && m@ == e@,
        },
{
    match outcome {
        Ok(()) => Ok(JsonValue::Null),
        Err(e) => Err(domain_str(e)),
    }
}

/// The answer of `get_upstream_proxy_status` for the outcome of reading the
/// persisted proxy URL: the status object, or the read error as a domain error.
pub fn answer_upstream_status(read: Result<Option<String>, AppError>) -> (r: Result<
    JsonValue,
    WebError,
>)
    ensures
        match read {
            Ok(url) => r matches Ok(v) && v@ == upstream_status_json(opt_string_view(url)),
            Err(e) => r == Err::<JsonValue, WebError>(WebError::Domain(e)),
        },
{
    match read {
        Ok(url) => Ok(upstream_proxy_status(url)),
        Err(e) => Err(WebError::Domain(e)),
    }
}

} // verus!
