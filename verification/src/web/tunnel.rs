//! Optional reverse tunnel for `cc-switch web --tunnel`.
//!
//! The locally installed `tailscale` CLI exposes the loopback web server to the
//! private tailnet (`tailscale serve`, the default) or to the public internet
//! (`tailscale funnel`, opt-in). The setup is a short exchange with that CLI;
//! [`TunnelStart`] decides each step from the outcome of the previous one, and
//! the caller runs the commands it asks for. A [`Tunnel`] knows the command
//! that turns its mapping off again.
use vstd::prelude::*;

use crate::error::AppError;
use crate::json::{Json, JsonValue};
use crate::text::{
    concat, decimal, decimal_string, string_from_utf8_lossy, strip_trailing, trim, trim_end_char,
    trim_str, utf8_lossy,
};

verus! {

/// Tailnet-side HTTPS port. 8443 (not 443) so an existing `tailscale serve`
/// or `funnel` mapping on the standard port is never clobbered, and so the
/// `off` teardown cannot remove someone else's service.
pub const HTTPS_PORT: u16 = 8443;

#[derive(Clone, Copy, Debug, PartialEq, Eq)]
pub enum TunnelMode {
    /// Private: reachable only by devices on your tailnet (`tailscale serve`).
    Serve,
    /// Public: reachable by anyone with the URL (`tailscale funnel`).
    Funnel,
}

impl TunnelMode {
    pub open spec fn spec_subcommand(self) -> Seq<char> {
        match self {
            TunnelMode::Serve => "serve"@,
            TunnelMode::Funnel => "funnel"@,
        }
    }

    /// The `tailscale` subcommand of the mode.
    pub fn subcommand(self) -> (r: &'static str)
        ensures
            r@ == self.spec_subcommand(),
    {
        match self {
            TunnelMode::Serve => "serve",
            TunnelMode::Funnel => "funnel",
        }
    }
}

/// An active tailscale serve/funnel mapping.
#[derive(Debug)]
pub struct Tunnel {
    pub mode: TunnelMode,
    pub target_port: u16,
}

/// `localhost:<port>`
pub open spec fn local_target(port: u16) -> Seq<char> {
    "localhost:"@ + decimal(port as nat)
}

/// `--https=8443`
pub open spec fn https_flag() -> Seq<char> {
    "--https="@ + decimal(HTTPS_PORT as nat)
}

/// The arguments that set a mapping up in the background.
pub open spec fn setup_args(mode: TunnelMode, port: u16) -> Seq<Seq<char>> {
    seq![mode.spec_subcommand(), "--bg"@, https_flag(), "--yes"@, local_target(port)]
}

/// The arguments that turn a mapping off.
pub open spec fn teardown_args(mode: TunnelMode, port: u16) -> Seq<Seq<char>> {
    seq![mode.spec_subcommand(), https_flag(), "--yes"@, local_target(port), "off"@]
}

pub open spec fn strings_view(v: Seq<String>) -> Seq<Seq<char>> {
    v.map_values(|s: String| s@)
}

fn local_target_string(port: u16) -> (r: String)
    ensures
        r@ == local_target(port),
{
    let p = decimal_string(port as u64);
    concat("localhost:", p.as_str())
}

fn https_flag_string() -> (r: String)
    ensures
        r@ == https_flag(),
{
    let p = decimal_string(HTTPS_PORT as u64);
    concat("--https=", p.as_str())
}

/// The arguments of `tailscale {serve|funnel} --bg --https=8443 --yes localhost:<port>`.
pub fn setup_command_args(mode: TunnelMode, port: u16) -> (r: Vec<String>)
    ensures
        strings_view(r@) == setup_args(mode, port),
{
    let mut v: Vec<String> = Vec::new();
    v.push(String::from_str(mode.subcommand()));
    v.push(String::from_str("--bg"));
    v.push(https_flag_string());
    v.push(String::from_str("--yes"));
    v.push(local_target_string(port));
    assert(strings_view(v@) =~= setup_args(mode, port));
    v
}

impl Tunnel {
    /// Begin setting up `tailscale {serve|funnel}` in front of
    /// `localhost:target_port`: the setup exchange, and its first action (look
    /// the CLI up). Feed each outcome to [`TunnelStart::step`] until it
    /// finishes with the tunnel and its base URL, or fails.
    pub fn start(mode: TunnelMode, target_port: u16) -> (r: (TunnelStart, StartAction))
        ensures
            r.0.mode == mode,
            r.0.target_port == target_port,
            r.0.stage@ == StageView::LocateCli,
            r.1@ == StartActionView::LocateCli,
    {
        (TunnelStart { mode, target_port, stage: StartStage::LocateCli }, StartAction::LocateCli)
    }

    /// The arguments of `tailscale {serve|funnel} --https=8443 --yes localhost:<port> off`,
    /// which remove this mapping.
    pub fn teardown_command_args(&self) -> (r: Vec<String>)
        ensures
            strings_view(r@) == teardown_args(self.mode, self.target_port),
    {
        let mut v: Vec<String> = Vec::new();
        v.push(String::from_str(self.mode.subcommand()));
        v.push(https_flag_string());
        v.push(String::from_str("--yes"));
        v.push(local_target_string(self.target_port));
        v.push(String::from_str("off"));
        assert(strings_view(v@) =~= teardown_args(self.mode, self.target_port));
        v
    }
}

/// The node's MagicDNS name in `tailscale status --json`: `Self.DNSName`, when
/// it is a non-empty string.
pub open spec fn status_dns_name(status: Json) -> Option<Seq<char>> {
    match status.field("Self"@) {
        Some(node) => match node.field("DNSName"@) {
            Some(Json::Str(d)) => if d.len() > 0 {
                Some(d)
            } else {
                None
            },
            _ => None,
        },
        None => None,
    }
}

/// The tunnel's public base URL for a node name: `https://<name>:8443`, the
/// name's trailing dots removed.
pub open spec fn tunnel_base_url(dns: Seq<char>) -> Seq<char> {
    "https://"@ + strip_trailing(dns, '.') + ":"@ + decimal(HTTPS_PORT as nat)
}

/// The node name reported by `tailscale status --json`, trailing dot removed.
pub fn dns_name_from_status(status: &JsonValue) -> (r: Option<String>)
    ensures
        match r {
            Some(h) => status_dns_name(status@) matches Some(d) && h@ == strip_trailing(d, '.'),
            None => status_dns_name(status@) is None,
        },
{
    match status.get("Self") {
        Some(node) => match node.get("DNSName") {
            Some(v) => match v.as_str() {
                Some(d) => if d.is_empty() {
                    None
                } else {
                    Some(String::from_str(trim_end_char(d, '.')))
                },
                None => None,
            },
            None => None,
        },
        None => None,
    }
}

/// `https://<host>:8443`
pub fn tunnel_url(host: &str) -> (r: String)
    ensures
        r@ == "https://"@ + host@ + ":"@ + decimal(HTTPS_PORT as nat),
{
    let a = concat("https://", host);
    let b = concat(a.as_str(), ":");
    let p = decimal_string(HTTPS_PORT as u64);
    concat(b.as_str(), p.as_str())
}

/// Where the setup exchange stands: the command whose outcome is awaited.
#[derive(Clone, Debug, PartialEq, Eq)]
pub enum StartStage {
    /// Looking the `tailscale` CLI up on the `PATH`.
    LocateCli,
    /// `tailscale status`: is the node up?
    CheckStatus,
    /// `tailscale {serve|funnel} --bg ...`: set the mapping up.
    Expose,
    /// `tailscale status --json`: read the node's DNS name.
    ReadDnsName,
    /// The mapping was set up but the setup failed afterwards: it is being
    /// turned off again, and then the setup fails with this message.
    TearDown(String),
}

/// The ghost value of a stage.
pub enum StageView {
    LocateCli,
    CheckStatus,
    Expose,
    ReadDnsName,
    TearDown(Seq<char>),
}

impl View for StartStage {
    type V = StageView;

    open spec fn view(&self) -> StageView {
        match self {
            StartStage::LocateCli => StageView::LocateCli,
            StartStage::CheckStatus => StageView::CheckStatus,
            StartStage::Expose => StageView::Expose,
            StartStage::ReadDnsName => StageView::ReadDnsName,
            StartStage::TearDown(m) => StageView::TearDown(m@),
        }
    }
}

/// The setup of a tunnel for `mode` in front of `localhost:target_port`.
#[derive(Clone, Debug)]
pub struct TunnelStart {
    pub mode: TunnelMode,
    pub target_port: u16,
    pub stage: StartStage,
}

/// What the caller is asked to do next.
#[derive(Debug)]
pub enum StartAction {
    /// Look `tailscale` up on the `PATH`; answer with [`StartEvent::CliLocated`].
    LocateCli,
    /// Run `tailscale` with these arguments; answer with [`StartEvent::RunFailed`]
    /// or [`StartEvent::Exited`].
    Run(Vec<String>),
    /// Run `tailscale` with these arguments and parse its standard output as
    /// JSON; answer with [`StartEvent::RunFailed`], [`StartEvent::Exited`] (on
    /// failure) or [`StartEvent::StatusJson`] (on success).
    RunForJson(Vec<String>),
    /// The mapping is up: the tunnel and its base URL (no token).
    Finish(Tunnel, String),
    /// The setup failed, and no mapping of it is left up.
    Fail(AppError),
}

/// The outcome of the last action.
#[derive(Debug)]
pub enum StartEvent {
    /// Whether `tailscale` was found on the `PATH`.
    CliLocated(bool),
    /// The command could not be run; the text of the error.
    RunFailed(String),
    /// The command ran: whether it succeeded, and its standard error output.
    Exited { success: bool, stderr: Vec<u8> },
    /// The command succeeded and its output was parsed as JSON, or the text of
    /// the parse error.
    StatusJson(Result<JsonValue, String>),
}

/// The ghost value of an action.
pub enum StartActionView {
    LocateCli,
    Run(Seq<Seq<char>>),
    RunForJson(Seq<Seq<char>>),
    Finish(TunnelMode, u16, Seq<char>),
    Fail(Seq<char>),
}

impl View for StartAction {
    type V = StartActionView;

    open spec fn view(&self) -> StartActionView {
        match self {
            StartAction::LocateCli => StartActionView::LocateCli,
            StartAction::Run(args) => StartActionView::Run(strings_view(args@)),
            StartAction::RunForJson(args) => StartActionView::RunForJson(strings_view(args@)),
            StartAction::Finish(t, url) => StartActionView::Finish(t.mode, t.target_port, url@),
            StartAction::Fail(e) => StartActionView::Fail(e.text()),
        }
    }
}

/// The events that can answer the action asked for at a stage.
pub open spec fn event_fits(stage: StageView, event: StartEvent) -> bool {
    match stage {
        StageView::LocateCli => event is CliLocated,
        StageView::ReadDnsName => event is RunFailed || (event matches StartEvent::Exited {
            success,
            ..
        } && !success) || event is StatusJson,
        _ => event is RunFailed || event is Exited,
    }
}

pub open spec fn cli_not_found_message() -> Seq<char> {
    "`tailscale` CLI not found. Install Tailscale and run `tailscale up`, then retry with --tunnel tailscale."@
}

/// The trimmed, lossily decoded standard error output.
pub open spec fn stderr_text(stderr: Seq<u8>) -> Seq<char> {
    trim(
        if vstd::utf8::valid_utf8(stderr) {
            vstd::utf8::decode_utf8(stderr)
        } else {
            utf8_lossy(stderr)
        },
    )
}

/// Reading the DNS name after the mapping was set up: `Ok` with the base URL,
/// or the failure message.
pub open spec fn dns_outcome(event: StartEvent) -> Result<Seq<char>, Seq<char>> {
    match event {
        StartEvent::RunFailed(e) => Err("failed to run `tailscale status --json`: "@ + e@),
        StartEvent::StatusJson(Err(e)) => Err("invalid `tailscale status` JSON: "@ + e@),
        StartEvent::StatusJson(Ok(j)) => match status_dns_name(j@) {
            Some(d) => Ok(tunnel_base_url(d)),
            None => Err("`tailscale status` did not report this node's DNS name"@),
        },
        _ => Err("failed to read tailscale status"@),
    }
}

/// One step of the setup: the next stage and action, given the outcome of the
/// action asked for at `s.stage`. Once the mapping is up, a later failure
/// first turns it off again, then fails with its message.
pub open spec fn spec_step(s: TunnelStart, event: StartEvent) -> (StageView, StartActionView) {
    match s.stage@ {
        StageView::LocateCli => match event {
            StartEvent::CliLocated(true) => (
                StageView::CheckStatus,
                StartActionView::Run(seq!["status"@]),
            ),
            _ => (s.stage@, StartActionView::Fail(cli_not_found_message())),
        },
        StageView::CheckStatus => match event {
            StartEvent::RunFailed(e) => (
                s.stage@,
                StartActionView::Fail("failed to run `tailscale status`: "@ + e@),
            ),
            StartEvent::Exited { success, stderr } => if success {
                (StageView::Expose, StartActionView::Run(setup_args(s.mode, s.target_port)))
            } else {
                (
                    s.stage@,
                    StartActionView::Fail(
                        "tailscale is not ready — run `tailscale up` first: "@ + stderr_text(
                            stderr@,
                        ),
                    ),
                )
            },
            _ => (s.stage@, StartActionView::Fail(Seq::empty())),
        },
        StageView::Expose => match event {
            StartEvent::RunFailed(e) => (
                s.stage@,
                StartActionView::Fail("failed to run `tailscale`: "@ + e@),
            ),
            StartEvent::Exited { success, stderr } => if success {
                (StageView::ReadDnsName, StartActionView::RunForJson(seq!["status"@, "--json"@]))
            } else {
                (
                    s.stage@,
                    StartActionView::Fail(
                        "`tailscale "@ + s.mode.spec_subcommand() + "` failed: "@ + stderr_text(
                            stderr@,
                        ),
                    ),
                )
            },
            _ => (s.stage@, StartActionView::Fail(Seq::empty())),
        },
        StageView::ReadDnsName => match dns_outcome(event) {
            Ok(url) => (s.stage@, StartActionView::Finish(s.mode, s.target_port, url)),
            Err(msg) => (
                StageView::TearDown(msg),
                StartActionView::Run(teardown_args(s.mode, s.target_port)),
            ),
        },
        StageView::TearDown(msg) => (s.stage@, StartActionView::Fail(msg)),
    }
}

fn fail(msg: String) -> (r: StartAction)
    ensures
        r@ == StartActionView::Fail(msg@),
{
    StartAction::Fail(AppError::Message(msg))
}

fn stderr_message(stderr: &Vec<u8>) -> (r: String)
    ensures
        r@ == stderr_text(stderr@),
{
    let s = string_from_utf8_lossy(stderr.as_slice());
    String::from_str(trim_str(s.as_str()))
}

/// The base URL read from the DNS-name outcome, or the failure message.
fn read_dns_outcome(event: StartEvent) -> (r: Result<String, String>)
    requires
        event_fits(StageView::ReadDnsName, event),
    ensures
        match r {
            Ok(u) => dns_outcome(event) == Ok::<Seq<char>, Seq<char>>(u@),
            Err(m) => dns_outcome(event) == Err::<Seq<char>, Seq<char>>(m@),
        },
{
    match event {
        StartEvent::RunFailed(e) => Err(concat("failed to run `tailscale status --json`: ", e.as_str())),
        StartEvent::StatusJson(parsed) => match parsed {
            Err(e) => Err(concat("invalid `tailscale status` JSON: ", e.as_str())),
            Ok(j) => match dns_name_from_status(&j) {
                Some(host) => Ok(tunnel_url(host.as_str())),
                None => Err(String::from_str("`tailscale status` did not report this node's DNS name")),
            },
        },
        _ => Err(String::from_str("failed to read tailscale status")),
    }
}

impl TunnelStart {
    /// Whether `event` answers the action asked for at the current stage.
    pub fn accepts(&self, event: &StartEvent) -> (r: bool)
        ensures
            r == event_fits(self.stage@, *event),
    {
        match &self.stage {
            StartStage::LocateCli => match event {
                StartEvent::CliLocated(_) => true,
                _ => false,
            },
            StartStage::ReadDnsName => match event {
                StartEvent::RunFailed(_) => true,
                StartEvent::Exited { success, .. } => !*success,
                StartEvent::StatusJson(_) => true,
                _ => false,
            },
            _ => match event {
                StartEvent::RunFailed(_) => true,
                StartEvent::Exited { .. } => true,
                _ => false,
            },
        }
    }

    /// The next stage and action after the outcome `event` of the last action.
    pub fn step(self, event: StartEvent) -> (r: (TunnelStart, StartAction))
        requires
            event_fits(self.stage@, event),
        ensures
            r.0.mode == self.mode,
            r.0.target_port == self.target_port,
            (r.0.stage@, r.1@) == spec_step(self, event),
    {
        let mode = self.mode;
        let port = self.target_port;
        match self.stage {
            StartStage::LocateCli => match event {
                StartEvent::CliLocated(found) => {
                    if found {
                        let mut args: Vec<String> = Vec::new();
                        args.push(String::from_str("status"));
                        assert(strings_view(args@) =~= seq!["status"@]);
                        (
                            TunnelStart { mode, target_port: port, stage: StartStage::CheckStatus },
                            StartAction::Run(args),
                        )
                    } else {
                        (
                            TunnelStart { mode, target_port: port, stage: StartStage::LocateCli },
                            fail(
                                String::from_str(
                                    "`tailscale` CLI not found. Install Tailscale and run `tailscale up`, then retry with --tunnel tailscale.",
                                ),
                            ),
                        )
                    }
                },
                _ => (
                    TunnelStart { mode, target_port: port, stage: StartStage::LocateCli },
                    fail(String::new()),
                ),
            },
            StartStage::CheckStatus => {
                let same = TunnelStart { mode, target_port: port, stage: StartStage::CheckStatus };
                match event {
                    StartEvent::RunFailed(e) => (
                        same,
                        fail(concat("failed to run `tailscale status`: ", e.as_str())),
                    ),
                    StartEvent::Exited { success, stderr } => {
                        if success {
                            (
                                TunnelStart { mode, target_port: port, stage: StartStage::Expose },
                                StartAction::Run(setup_command_args(mode, port)),
                            )
                        } else {
                            let text = stderr_message(&stderr);
                            (
                                same,
                                fail(
                                    concat(
                                        "tailscale is not ready — run `tailscale up` first: ",
                                        text.as_str(),
                                    ),
                                ),
                            )
                        }
                    },
                    _ => (same, fail(String::new())),
                }
            },
            StartStage::Expose => {
                let same = TunnelStart { mode, target_port: port, stage: StartStage::Expose };
                match event {
                    StartEvent::RunFailed(e) => (
                        same,
                        fail(concat("failed to run `tailscale`: ", e.as_str())),
                    ),
                    StartEvent::Exited { success, stderr } => {
                        if success {
                            let mut args: Vec<String> = Vec::new();
                            args.push(String::from_str("status"));
                            args.push(String::from_str("--json"));
                            assert(strings_view(args@) =~= seq!["status"@, "--json"@]);
                            (
                                TunnelStart { mode, target_port: port, stage: StartStage::ReadDnsName },
                                StartAction::RunForJson(args),
                            )
                        } else {
                            let text = stderr_message(&stderr);
                            let a = concat("`tailscale ", mode.subcommand());
                            let b = concat(a.as_str(), "` failed: ");
                            (same, fail(concat(b.as_str(), text.as_str())))
                        }
                    },
                    _ => (same, fail(String::new())),
                }
            },
            StartStage::ReadDnsName => match read_dns_outcome(event) {
                Ok(url) => (
                    TunnelStart { mode, target_port: port, stage: StartStage::ReadDnsName },
                    StartAction::Finish(Tunnel { mode, target_port: port }, url),
                ),
                Err(msg) => {
                    let t = Tunnel { mode, target_port: port };
                    let args = t.teardown_command_args();
                    (
                        TunnelStart { mode, target_port: port, stage: StartStage::TearDown(msg) },
                        StartAction::Run(args),
                    )
                },
            },
            StartStage::TearDown(msg) => {
                let ghost m = msg@;
                let again = String::from_str(msg.as_str());
                (
                    TunnelStart { mode, target_port: port, stage: StartStage::TearDown(again) },
                    fail(msg),
                )
            },
        }
    }
}

/// The teardown command removes exactly the mapping the setup command made:
/// the same subcommand, HTTPS port and target, without `--bg`, followed by `off`.
pub proof fn law_teardown_matches_setup(mode: TunnelMode, port: u16)
    ensures
        teardown_args(mode, port) == setup_args(mode, port).remove(1).push("off"@),
{
    assert(teardown_args(mode, port) =~= setup_args(mode, port).remove(1).push("off"@));
}

/// Once `tailscale status` succeeded, the mapping that is set up is the one
/// asked for: `tailscale funnel ...` for a Funnel tunnel and `tailscale serve
/// ...` for a Serve tunnel, with the same subcommand, HTTPS port and target as
/// the teardown of the tunnel the setup finishes with.
pub proof fn law_setup_exposes_requested_mode(s: TunnelStart, event: StartEvent)
    requires
        s.stage@ == StageView::CheckStatus,
        event matches StartEvent::Exited { success, .. } && success,
    ensures
        spec_step(s, event).1 matches StartActionView::Run(a) && {
            &&& a.len() == 5
            &&& a[0] == match s.mode {
                TunnelMode::Serve => "serve"@,
                TunnelMode::Funnel => "funnel"@,
            }
            &&& a[1] == "--bg"@
            &&& a.remove(1).push("off"@) == teardown_args(s.mode, s.target_port)
        },
{
    assert(setup_args(s.mode, s.target_port).remove(1).push("off"@) =~= teardown_args(
        s.mode,
        s.target_port,
    ));
}

/// The setup finishes only after the DNS name was read, and the tunnel it hands
/// out is the one that was asked for; a step never changes mode or port.
pub proof fn law_setup_finishes_with_requested_tunnel(s: TunnelStart, event: StartEvent)
    ensures
        spec_step(s, event).1 matches StartActionView::Finish(m, p, _) ==> s.stage@
            == StageView::ReadDnsName && m == s.mode && p == s.target_port,
{
}

/// Once the mapping is up (the setup command succeeded), the exchange ends in
/// `Finish`, or it runs the teardown of exactly that mapping before it fails,
/// and then fails with the message of the failure that caused the teardown:
/// a failed setup never leaves a mapping behind.
pub proof fn law_failure_after_setup_tears_down(s: TunnelStart, event: StartEvent)
    ensures
        s.stage@ == StageView::ReadDnsName ==> (spec_step(s, event).1 is Finish || (spec_step(
            s,
            event,
        ).1 == StartActionView::Run(teardown_args(s.mode, s.target_port)) && (spec_step(
            s,
            event,
        ).0 matches StageView::TearDown(m) && dns_outcome(event) == Err::<Seq<char>, Seq<char>>(
            m,
        )))),
        s.stage@ matches StageView::TearDown(m) ==> spec_step(s, event).1 == StartActionView::Fail(
            m,
        ),
        spec_step(s, event).1 is Fail ==> !(s.stage@ is ReadDnsName),
{
}

/// The setup walks its stages in order: locate the CLI, check the node, set
/// the mapping up, read the DNS name, and after a late failure tear it down;
/// any other outcome ends it.
pub proof fn law_setup_stage_order(s: TunnelStart, event: StartEvent)
    ensures
        spec_step(s, event).0 != s.stage@ ==> match s.stage@ {
            StageView::LocateCli => spec_step(s, event).0 == StageView::CheckStatus,
            StageView::CheckStatus => spec_step(s, event).0 == StageView::Expose,
            StageView::Expose => spec_step(s, event).0 == StageView::ReadDnsName,
            StageView::ReadDnsName => spec_step(s, event).0 is TearDown,
            StageView::TearDown(_) => false,
        },
        spec_step(s, event).0 == s.stage@ ==> spec_step(s, event).1 is Fail || spec_step(
            s,
            event,
        ).1 is Finish,
{
}

} // verus!
