//! `cc-switch web`: the decisions of starting the local web dashboard.
//!
//! The frontend is embedded in the binary or given with `--assets`; the server
//! binds the given host (loopback by default) and prints how to reach it. This
//! module decides what is checked, which token guards the session, whether and
//! how a tunnel is set up, and what is printed; the caller binds, serves and
//! runs the tunnel commands.
use vstd::prelude::*;

use crate::app_type::AppType;
use crate::error::AppError;
use crate::text::{concat, decimal, decimal_string, opt_string_view};
use crate::web::tunnel::TunnelMode;

verus! {

#[derive(Copy, Clone, Debug, PartialEq, Eq)]
pub enum TunnelProvider {
    /// Expose via the local `tailscale` CLI (serve = private tailnet, or
    /// funnel = public with --tunnel-public).
    Tailscale,
}

/// The arguments of `cc-switch web`.
#[derive(Debug)]
pub struct WebArgs {
    /// Port to listen on (0 = pick an ephemeral free port).
    pub port: u16,
    /// Address to bind (default 127.0.0.1).
    pub host: String,
    /// Frontend assets on disk overriding the embedded ones (must contain index.html).
    pub assets: Option<String>,
    /// Session token (default: a random token generated per run).
    pub token: Option<String>,
    /// Expose the dashboard through a reverse tunnel.
    pub tunnel: Option<TunnelProvider>,
    /// With `--tunnel tailscale`, expose publicly via Tailscale Funnel.
    pub tunnel_public: bool,
}

/// What the caller found out about the environment before the server starts.
#[derive(Clone, Copy, Debug)]
pub struct StartupFacts {
    /// With `--assets`: whether `<dir>/index.html` is a file. Without: whether
    /// this build embeds a frontend.
    pub frontend_present: bool,
    /// `None` when `--host` is not an IP address; otherwise whether it is a
    /// loopback address.
    pub host_is_loopback: Option<bool>,
}

/// Everything decided before the server binds.
#[derive(Debug)]
pub struct ServePlan {
    pub port: u16,
    pub token: String,
    pub host_is_loopback: bool,
    pub assets: Option<String>,
    /// The tunnel to set up once the server is bound, if any.
    pub tunnel_mode: Option<TunnelMode>,
    /// Bind 127.0.0.1 instead of `--host`: a tunnel forwards to the server
    /// locally, so a tunnelled server is reachable only through it.
    pub bind_loopback: bool,
}

/// The language of the messages.
#[derive(Clone, Copy, Debug, PartialEq, Eq)]
pub enum Lang {
    En,
    Zh,
}

/// How a printed line is styled.
#[derive(Clone, Copy, Debug, PartialEq, Eq)]
pub enum Style {
    Highlight,
    Success,
    Info,
    Error,
    Plain,
}

/// One printed line.
#[derive(Debug)]
pub struct BannerLine {
    pub style: Style,
    pub text: String,
}

pub open spec fn tr(lang: Lang, en: Seq<char>, zh: Seq<char>) -> Seq<char> {
    match lang {
        Lang::En => en,
        Lang::Zh => zh,
    }
}

fn t(lang: Lang, en: &'static str, zh: &'static str) -> (r: &'static str)
    ensures
        r@ == tr(lang, en@, zh@),
{
    match lang {
        Lang::En => en,
        Lang::Zh => zh,
    }
}

/// A lower-case hex digit.
pub open spec fn is_lower_hex(c: char) -> bool {
    ('0' <= c <= '9') || ('a' <= c <= 'f')
}

/// The text of a random (version 4) UUID in hyphenated lower-case form.
pub open spec fn is_uuid_v4_text(s: Seq<char>) -> bool {
    &&& s.len() == 36
    &&& forall|i: int|
        0 <= i < 36 ==> if i == 8 || i == 13 || i == 18 || i == 23 {
            s[i] == '-'
        } else {
            is_lower_hex(#[trigger] s[i])
        }
    &&& s[14] == '4'
    &&& (s[19] == '8' || s[19] == '9' || s[19] == 'a' || s[19] == 'b')
}

/// Calls `uuid::Uuid::new_v4` and renders the result with `to_string`.
/// Claimed: the text is a hyphenated lower-case version-4 UUID (the source sets
/// the version nibble to 4 and the variant bits to `10`; `Display` writes the
/// hyphenated lower-case form). Which UUID comes out is left open: it is random.
#[verifier::external_body]
fn new_session_token() -> (t: String)
    ensures
        is_uuid_v4_text(t@),
{
    uuid::Uuid::new_v4().to_string()
}

pub open spec fn missing_assets_message(dir: Seq<char>) -> Seq<char> {
    "assets directory '"@ + dir
        + "' has no index.html — build the frontend first (pnpm build:web)"@
}

pub open spec fn no_frontend_message() -> Seq<char> {
    "this build has no embedded frontend and no --assets was given; rebuild with CC_SWITCH_WEB_DIST=<path to dist-web>, or pass --assets <dir>"@
}

pub open spec fn invalid_host_message(host: Seq<char>) -> Seq<char> {
    "invalid --host '"@ + host + "': expected an IP address like 127.0.0.1 or 0.0.0.0"@
}

/// The tunnel asked for: Funnel with `--tunnel-public`, Serve otherwise.
pub open spec fn spec_tunnel_mode(tunnel: Option<TunnelProvider>, public: bool) -> Option<TunnelMode> {
    match tunnel {
        Some(TunnelProvider::Tailscale) => Some(
            if public {
                TunnelMode::Funnel
            } else {
                TunnelMode::Serve
            },
        ),
        None => None,
    }
}

/// What starting up gives on the given arguments and facts: the error of the
/// first check that fails (the frontend, then the host), or the plan, whose
/// token is the given one or a fresh random UUID.
pub open spec fn execute_outcome(args: WebArgs, facts: StartupFacts, r: Result<ServePlan, AppError>) -> bool {
    match r {
        Err(e) => if !facts.frontend_present {
            e.text() == match args.assets {
                Some(dir) => missing_assets_message(dir@),
                None => no_frontend_message(),
            }
        } else {
            facts.host_is_loopback is None && e.text() == invalid_host_message(args.host@)
        },
        Ok(plan) => {
            &&& facts.frontend_present
            &&& facts.host_is_loopback == Some(plan.host_is_loopback)
            &&& plan.port == args.port
            &&& opt_string_view(plan.assets) == opt_string_view(args.assets)
            &&& plan.tunnel_mode == spec_tunnel_mode(args.tunnel, args.tunnel_public)
            &&& plan.bind_loopback == (args.tunnel is Some)
            &&& match args.token {
                Some(tok) => plan.token@ == tok@,
                None => is_uuid_v4_text(plan.token@),
            }
        },
    }
}

/// Start `cc-switch web` up to the point where the server binds: check that a
/// frontend is there, that the host is an IP address, and settle the session
/// token (the given one, or a fresh random UUID) and the tunnel. The
/// application argument plays no part in it.
pub fn execute(args: WebArgs, _app: Option<AppType>, facts: StartupFacts) -> (r: Result<
    ServePlan,
    AppError,
>)
    ensures
        execute_outcome(args, facts, r),
{
    let WebArgs { port, host, assets, token, tunnel, tunnel_public } = args;
    if !facts.frontend_present {
        let msg = match &assets {
            Some(dir) => {
                let a = concat("assets directory '", dir.as_str());
                concat(
                    a.as_str(),
                    "' has no index.html — build the frontend first (pnpm build:web)",
                )
            },
            None => String::from_str(
                "this build has no embedded frontend and no --assets was given; rebuild with CC_SWITCH_WEB_DIST=<path to dist-web>, or pass --assets <dir>",
            ),
        };
        return Err(AppError::Message(msg));
    }
    let host_is_loopback = match facts.host_is_loopback {
        Some(l) => l,
        None => {
            let a = concat("invalid --host '", host.as_str());
            return Err(
                AppError::Message(
                    concat(a.as_str(), "': expected an IP address like 127.0.0.1 or 0.0.0.0"),
                ),
            );
        },
    };
    let token = match token {
        Some(t) => t,
        None => new_session_token(),
    };
    let tunnel_mode = match tunnel {
        Some(TunnelProvider::Tailscale) => Some(
            if tunnel_public {
                TunnelMode::Funnel
            } else {
                TunnelMode::Serve
            },
        ),
        None => None,
    };
    let bind_loopback = tunnel.is_some();
    Ok(ServePlan { port, token, host_is_loopback, assets, tunnel_mode, bind_loopback })
}

/// `http://127.0.0.1:<port>/?token=<token>`
pub open spec fn loopback_url(port: u16, token: Seq<char>) -> Seq<char> {
    "http://127.0.0.1:"@ + decimal(port as nat) + "/?token="@ + token
}

/// The URL shown first: the tunnel's when there is one, else the bound address.
pub open spec fn primary_url(local: Seq<char>, tunnel_base: Option<Seq<char>>, token: Seq<char>) -> Seq<
    char,
> {
    match tunnel_base {
        Some(base) => base + "/?token="@ + token,
        None => "http://"@ + local + "/?token="@ + token,
    }
}

pub open spec fn public_warning_text(lang: Lang) -> Seq<char> {
    tr(
        lang,
        "⚠ PUBLIC exposure: this dashboard will be reachable by ANYONE who can reach this address, and it can read/write your provider API keys. Prefer SSH port-forwarding or a private tailnet unless you really need this."@,
        "⚠ 公网暴露：该控制台将对任何能访问此地址的人开放，且能读写你的 provider 密钥。除非确有需要，建议改用 SSH 端口转发或私有 tailnet。"@,
    )
}

/// `    ssh -L <port>:127.0.0.1:<port> <user>@<this-server>`
pub open spec fn ssh_hint(port: u16) -> Seq<char> {
    "    ssh -L "@ + decimal(port as nat) + ":127.0.0.1:"@ + decimal(port as nat)
        + " <user>@<this-server>"@
}

pub open spec fn line(style: Style, text: Seq<char>) -> (Style, Seq<char>) {
    (style, text)
}

/// The lines printed once the server is bound (and the tunnel, if any, is up).
pub open spec fn spec_banner(
    port: u16,
    token: Seq<char>,
    host_is_loopback: bool,
    local: Seq<char>,
    tunnel_base: Option<Seq<char>>,
    lang: Lang,
) -> Seq<(Style, Seq<char>)> {
    let head = seq![
        line(Style::Highlight, tr(lang, "Local Web Dashboard"@, "本地 Web 控制台"@)),
        line(Style::Success, primary_url(local, tunnel_base, token)),
    ];
    let middle = if tunnel_base is Some {
        seq![line(Style::Info, tr(lang, "Local:"@, "本地："@) + " "@ + loopback_url(port, token))]
    } else if host_is_loopback {
        seq![
            line(
                Style::Info,
                tr(
                    lang,
                    "Headless/remote? Port-forward from your own machine, then open the URL above:"@,
                    "无头机/远程？在你自己的电脑上做端口转发，然后打开上面的地址："@,
                ),
            ),
            line(Style::Plain, ssh_hint(port)),
            line(
                Style::Info,
                tr(
                    lang,
                    "No public IP? Try:  cc-switch web --tunnel tailscale"@,
                    "没有公网？可用：  cc-switch web --tunnel tailscale"@,
                ),
            ),
        ]
    } else {
        seq![
            line(Style::Error, public_warning_text(lang)),
            line(
                Style::Info,
                tr(
                    lang,
                    "Bound to a network interface — reach it at this machine's IP on this port."@,
                    "已绑定到网络接口 —— 用本机 IP + 该端口访问。"@,
                ),
            ),
        ]
    };
    let tail = seq![
        line(
            Style::Info,
            tr(
                lang,
                "This URL grants full control of your providers and settings — do not share it."@,
                "该地址可完全控制你的供应商与设置，请勿分享。"@,
            ),
        ),
        line(Style::Info, tr(lang, "Press Ctrl-C to stop."@, "按 Ctrl-C 停止。"@)),
    ];
    head + middle + tail
}

pub open spec fn lines_view(v: Seq<BannerLine>) -> Seq<(Style, Seq<char>)> {
    v.map_values(|l: BannerLine| (l.style, l.text@))
}

fn mk(style: Style, text: String) -> (r: BannerLine)
    ensures
        r.style == style,
        r.text@ == text@,
{
    BannerLine { style, text }
}

/// The warning printed before a public exposure (a Funnel tunnel, or a
/// non-loopback bind).
pub fn public_warning(lang: Lang) -> (r: BannerLine)
    ensures
        r.style == Style::Error,
        r.text@ == public_warning_text(lang),
{
    mk(
        Style::Error,
        String::from_str(
            t(
                lang,
                "⚠ PUBLIC exposure: this dashboard will be reachable by ANYONE who can reach this address, and it can read/write your provider API keys. Prefer SSH port-forwarding or a private tailnet unless you really need this.",
                "⚠ 公网暴露：该控制台将对任何能访问此地址的人开放，且能读写你的 provider 密钥。除非确有需要，建议改用 SSH 端口转发或私有 tailnet。",
            ),
        ),
    )
}

/// The lines printed before the tunnel is set up: the public-exposure
/// warning for a Funnel tunnel, nothing otherwise.
pub open spec fn spec_pre_tunnel(mode: Option<TunnelMode>, lang: Lang) -> Seq<(Style, Seq<char>)> {
    if mode == Some(TunnelMode::Funnel) {
        seq![line(Style::Error, public_warning_text(lang))]
    } else {
        Seq::empty()
    }
}

/// The lines printed before the tunnel is set up.
pub fn pre_tunnel_lines(plan: &ServePlan, lang: Lang) -> (r: Vec<BannerLine>)
    ensures
        lines_view(r@) == spec_pre_tunnel(plan.tunnel_mode, lang),
{
    let mut v: Vec<BannerLine> = Vec::new();
    match plan.tunnel_mode {
        Some(TunnelMode::Funnel) => {
            v.push(public_warning(lang));
        },
        _ => {},
    }
    assert(lines_view(v@) =~= spec_pre_tunnel(plan.tunnel_mode, lang));
    v
}

/// `http://127.0.0.1:<port>/?token=<token>`
pub fn make_loopback_url(port: u16, token: &str) -> (r: String)
    ensures
        r@ == loopback_url(port, token@),
{
    let p = decimal_string(port as u64);
    let a = concat("http://127.0.0.1:", p.as_str());
    let b = concat(a.as_str(), "/?token=");
    concat(b.as_str(), token)
}

/// The URL shown first.
pub fn make_primary_url(local: &str, tunnel_base: Option<&str>, token: &str) -> (r: String)
    ensures
        r@ == primary_url(local@, crate::text::opt_str_view(tunnel_base), token@),
{
    match tunnel_base {
        Some(base) => {
            let a = concat(base, "/?token=");
            concat(a.as_str(), token)
        },
        None => {
            let a = concat("http://", local);
            let b = concat(a.as_str(), "/?token=");
            concat(b.as_str(), token)
        },
    }
}

/// The lines printed once the server is bound on `port` at `local` (its
/// `ip:port` text), with the tunnel's base URL when a tunnel is up.
pub fn banner(
    plan: &ServePlan,
    port: u16,
    local: &str,
    tunnel_base: Option<&str>,
    lang: Lang,
) -> (r: Vec<BannerLine>)
    ensures
        lines_view(r@) == spec_banner(
            port,
            plan.token@,
            plan.host_is_loopback,
            local@,
            crate::text::opt_str_view(tunnel_base),
            lang,
        ),
{
    let mut v: Vec<BannerLine> = Vec::new();
    v.push(mk(Style::Highlight, String::from_str(t(lang, "Local Web Dashboard", "本地 Web 控制台"))));
    v.push(mk(Style::Success, make_primary_url(local, tunnel_base, plan.token.as_str())));
    match tunnel_base {
        Some(_) => {
            let a = concat(t(lang, "Local:", "本地："), " ");
            let u = make_loopback_url(port, plan.token.as_str());
            v.push(mk(Style::Info, concat(a.as_str(), u.as_str())));
        },
        None => {
            if plan.host_is_loopback {
                v.push(
                    mk(
                        Style::Info,
                        String::from_str(
                            t(
                                lang,
                                "Headless/remote? Port-forward from your own machine, then open the URL above:",
                                "无头机/远程？在你自己的电脑上做端口转发，然后打开上面的地址：",
                            ),
                        ),
                    ),
                );
                let p = decimal_string(port as u64);
                let a = concat("    ssh -L ", p.as_str());
                let b = concat(a.as_str(), ":127.0.0.1:");
                let c = concat(b.as_str(), p.as_str());
                v.push(mk(Style::Plain, concat(c.as_str(), " <user>@<this-server>")));
                v.push(
                    mk(
                        Style::Info,
                        String::from_str(
                            t(
                                lang,
                                "No public IP? Try:  cc-switch web --tunnel tailscale",
                                "没有公网？可用：  cc-switch web --tunnel tailscale",
                            ),
                        ),
                    ),
                );
            } else {
                v.push(public_warning(lang));
                v.push(
                    mk(
                        Style::Info,
                        String::from_str(
                            t(
                                lang,
                                "Bound to a network interface — reach it at this machine's IP on this port.",
                                "已绑定到网络接口 —— 用本机 IP + 该端口访问。",
                            ),
                        ),
                    ),
                );
            }
        },
    }
    v.push(
        mk(
            Style::Info,
            String::from_str(
                t(
                    lang,
                    "This URL grants full control of your providers and settings — do not share it.",
                    "该地址可完全控制你的供应商与设置，请勿分享。",
                ),
            ),
        ),
    );
    v.push(mk(Style::Info, String::from_str(t(lang, "Press Ctrl-C to stop.", "按 Ctrl-C 停止。"))));
    assert(lines_view(v@) =~= spec_banner(
        port,
        plan.token@,
        plan.host_is_loopback,
        local@,
        crate::text::opt_str_view(tunnel_base),
        lang,
    ));
    v
}

/// The notice printed after the server stops, before a tunnel is torn down.
pub fn teardown_notice(lang: Lang) -> (r: BannerLine)
    ensures
        r.style == Style::Info,
        r.text@ == tr(lang, "Tearing down tunnel…"@, "正在拆除隧道…"@),
{
    mk(Style::Info, String::from_str(t(lang, "Tearing down tunnel…", "正在拆除隧道…")))
}

/// `<what>: <error>`, the form of every startup failure after the checks
/// (e.g. `failed to bind 127.0.0.1:0: <error>`, `web server error: <error>`).
pub fn startup_error(what: &str, error: &str) -> (r: AppError)
    ensures
        r.text() == what@ + ": "@ + error@,
{
    let a = concat(what, ": ");
    AppError::Message(concat(a.as_str(), error))
}

/// Every URL the dashboard prints ends with `/?token=<session token>`, so
/// opening it authenticates the browser.
pub proof fn law_urls_carry_the_token(
    port: u16,
    local: Seq<char>,
    tunnel_base: Option<Seq<char>>,
    token: Seq<char>,
)
    ensures
        exists|prefix: Seq<char>| primary_url(local, tunnel_base, token) == prefix + "/?token="@ + token,
        exists|prefix: Seq<char>| loopback_url(port, token) == prefix + "/?token="@ + token,
{
    let p1 = match tunnel_base {
        Some(base) => base,
        None => "http://"@ + local,
    };
    assert(primary_url(local, tunnel_base, token) == p1 + "/?token="@ + token);
    let p2 = "http://127.0.0.1:"@ + decimal(port as nat);
    assert(loopback_url(port, token) == p2 + "/?token="@ + token);
}

/// Everything printed at startup: the lines before the tunnel, then the
/// banner (which names a tunnel exactly when one was set up).
pub open spec fn spec_startup_lines(
    port: u16,
    token: Seq<char>,
    host_is_loopback: bool,
    local: Seq<char>,
    mode: Option<TunnelMode>,
    tunnel_base: Option<Seq<char>>,
    lang: Lang,
) -> Seq<(Style, Seq<char>)> {
    spec_pre_tunnel(mode, lang) + spec_banner(port, token, host_is_loopback, local, tunnel_base, lang)
}

/// The public-exposure warning is printed exactly once when the dashboard is
/// public (a Funnel tunnel, or no tunnel and a non-loopback bind) and never
/// otherwise; it is the only error-styled line.
pub proof fn law_public_warning_exactly_when_public(
    port: u16,
    token: Seq<char>,
    host_is_loopback: bool,
    local: Seq<char>,
    mode: Option<TunnelMode>,
    tunnel_base: Option<Seq<char>>,
    lang: Lang,
)
    requires
        tunnel_base is Some <==> mode is Some,
    ensures
        ({
            let lines = spec_startup_lines(port, token, host_is_loopback, local, mode, tunnel_base, lang);
            &&& forall|i: int|
                0 <= i < lines.len() && lines[i].0 == Style::Error ==> lines[i].1
                    == public_warning_text(lang)
            &&& (exists|i: int| 0 <= i < lines.len() && lines[i].0 == Style::Error) <==> (mode
                == Some(TunnelMode::Funnel) || (mode is None && !host_is_loopback))
            &&& forall|i: int, j: int|
                0 <= i < lines.len() && 0 <= j < lines.len() && lines[i].0 == Style::Error
                    && lines[j].0 == Style::Error ==> i == j
        }),
{
    let lines = spec_startup_lines(port, token, host_is_loopback, local, mode, tunnel_base, lang);
    let pre = spec_pre_tunnel(mode, lang);
    let b = spec_banner(port, token, host_is_loopback, local, tunnel_base, lang);
    assert forall|i: int| 0 <= i < lines.len() implies #[trigger] lines[i] == (if i < pre.len() {
        pre[i]
    } else {
        b[i - pre.len()]
    }) by {}
    if mode == Some(TunnelMode::Funnel) {
        assert(lines[0].0 == Style::Error);
    } else if mode is None && !host_is_loopback {
        assert(lines[2].0 == Style::Error);
    }
}

/// Start-up ignores the application argument: two runs of `execute` on the
/// same arguments and facts, whatever application each was given, both fail
/// with the same message or both plan the same server (port, host, assets,
/// tunnel, bind address); the token too is the same when one was given, and
/// otherwise each is a random UUID.
pub proof fn law_execute_ignores_app(
    args: WebArgs,
    facts: StartupFacts,
    r1: Result<ServePlan, AppError>,
    r2: Result<ServePlan, AppError>,
)
    requires
        execute_outcome(args, facts, r1),
        execute_outcome(args, facts, r2),
    ensures
        r1 is Ok <==> r2 is Ok,
        r1 matches Err(e1) ==> (r2 matches Err(e2) && e1.text() == e2.text()),
        r1 matches Ok(p1) ==> (r2 matches Ok(p2) && {
            &&& p1.port == p2.port
            &&& p1.host_is_loopback == p2.host_is_loopback
            &&& opt_string_view(p1.assets) == opt_string_view(p2.assets)
            &&& p1.tunnel_mode == p2.tunnel_mode
            &&& p1.bind_loopback == p2.bind_loopback
            &&& match args.token {
                Some(_) => p1.token@ == p2.token@,
                None => is_uuid_v4_text(p1.token@) && is_uuid_v4_text(p2.token@),
            }
        }),
{
}

} // verus!
