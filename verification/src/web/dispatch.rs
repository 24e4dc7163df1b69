//! `POST /api/invoke/:command`: the bridge for the frontend's Tauri `invoke()`.
//!
//! `command` is the snake_case command name; the JSON body is the arguments
//! object. This module decides which command a name stands for, where its
//! arguments are, and the answers that need no service.
use vstd::prelude::*;

use crate::error::AppError;
use crate::json::{entries_model, lemma_array_model, lemma_object_model, Json, JsonValue};
use crate::text::{concat, str_eq};
use crate::web::error::WebError;

verus! {

/// The commands of the first wave; every other name is answered 501.
#[derive(Clone, Copy, Debug, PartialEq, Eq, Structural)]
pub enum InvokeCommand {
    GetProviders,
    GetCurrentProvider,
    SwitchProvider,
    GetSettings,
    SaveSettings,
    GetConfigDir,
    GetCommonConfigSnippet,
    ImportDefaultConfig,
    GetAppConfigPath,
    IsPortableMode,
    UpdateTrayMenu,
    GetAppVersion,
}

/// The command a name stands for.
pub open spec fn command_named(name: Seq<char>) -> Option<InvokeCommand> {
    if name == "get_providers"@ {
        Some(InvokeCommand::GetProviders)
    } else if name == "get_current_provider"@ {
        Some(InvokeCommand::GetCurrentProvider)
    } else if name == "switch_provider"@ {
        Some(InvokeCommand::SwitchProvider)
    } else if name == "get_settings"@ {
        Some(InvokeCommand::GetSettings)
    } else if name == "save_settings"@ {
        Some(InvokeCommand::SaveSettings)
    } else if name == "get_config_dir"@ {
        Some(InvokeCommand::GetConfigDir)
    } else if name == "get_common_config_snippet"@ {
        Some(InvokeCommand::GetCommonConfigSnippet)
    } else if name == "import_default_config"@ {
        Some(InvokeCommand::ImportDefaultConfig)
    } else if name == "get_app_config_path"@ {
        Some(InvokeCommand::GetAppConfigPath)
    } else if name == "is_portable_mode"@ {
        Some(InvokeCommand::IsPortableMode)
    } else if name == "update_tray_menu"@ {
        Some(InvokeCommand::UpdateTrayMenu)
    } else if name == "get_app_version"@ {
        Some(InvokeCommand::GetAppVersion)
    } else {
        None
    }
}

impl InvokeCommand {
    /// The name the frontend invokes the command by (its snake_case name).
    pub open spec fn spec_name(self) -> Seq<char> {
        match self {
            InvokeCommand::GetProviders => "get_providers"@,
            InvokeCommand::GetCurrentProvider => "get_current_provider"@,
            InvokeCommand::SwitchProvider => "switch_provider"@,
            InvokeCommand::GetSettings => "get_settings"@,
            InvokeCommand::SaveSettings => "save_settings"@,
            InvokeCommand::GetConfigDir => "get_config_dir"@,
            InvokeCommand::GetCommonConfigSnippet => "get_common_config_snippet"@,
            InvokeCommand::ImportDefaultConfig => "import_default_config"@,
            InvokeCommand::GetAppConfigPath => "get_app_config_path"@,
            InvokeCommand::IsPortableMode => "is_portable_mode"@,
            InvokeCommand::UpdateTrayMenu => "update_tray_menu"@,
            InvokeCommand::GetAppVersion => "get_app_version"@,
        }
    }
}

/// Every command of the table is reached by its own name and by no other:
/// the name routes to the command whose name it is, and a routed name is
/// always the command's own name.
pub proof fn law_commands_routed_by_their_own_name(c: InvokeCommand, name: Seq<char>)
    ensures
        command_named(c.spec_name()) == Some(c),
        command_named(name) == Some(c) ==> name == c.spec_name(),
{
    reveal_strlit("get_providers");
    reveal_strlit("get_current_provider");
    reveal_strlit("switch_provider");
    reveal_strlit("get_settings");
    reveal_strlit("save_settings");
    reveal_strlit("get_config_dir");
    reveal_strlit("get_common_config_snippet");
    reveal_strlit("import_default_config");
    reveal_strlit("get_app_config_path");
    reveal_strlit("is_portable_mode");
    reveal_strlit("update_tray_menu");
    reveal_strlit("get_app_version");
    match c {
        InvokeCommand::GetProviders => {},
        InvokeCommand::GetCurrentProvider => {
            assert("get_current_provider"@.len() != "get_providers"@.len());
        },
        InvokeCommand::SwitchProvider => {
            assert("switch_provider"@.len() != "get_providers"@.len());
            assert("switch_provider"@.len() != "get_current_provider"@.len());
        },
        InvokeCommand::GetSettings => {
            assert("get_settings"@.len() != "get_providers"@.len());
            assert("get_settings"@.len() != "get_current_provider"@.len());
            assert("get_settings"@.len() != "switch_provider"@.len());
        },
        InvokeCommand::SaveSettings => {
            assert("save_settings"@[0] != "get_providers"@[0]);
            assert("save_settings"@.len() != "get_current_provider"@.len());
            assert("save_settings"@.len() != "switch_provider"@.len());
            assert("save_settings"@.len() != "get_settings"@.len());
        },
        InvokeCommand::GetConfigDir => {
            assert("get_config_dir"@.len() != "get_providers"@.len());
            assert("get_config_dir"@.len() != "get_current_provider"@.len());
            assert("get_config_dir"@.len() != "switch_provider"@.len());
            assert("get_config_dir"@.len() != "get_settings"@.len());
            assert("get_config_dir"@.len() != "save_settings"@.len());
        },
        InvokeCommand::GetCommonConfigSnippet => {
            assert("get_common_config_snippet"@.len() != "get_providers"@.len());
            assert("get_common_config_snippet"@.len() != "get_current_provider"@.len());
            assert("get_common_config_snippet"@.len() != "switch_provider"@.len());
            assert("get_common_config_snippet"@.len() != "get_settings"@.len());
            assert("get_common_config_snippet"@.len() != "save_settings"@.len());
            assert("get_common_config_snippet"@.len() != "get_config_dir"@.len());
        },
        InvokeCommand::ImportDefaultConfig => {
            assert("import_default_config"@.len() != "get_providers"@.len());
            assert("import_default_config"@.len() != "get_current_provider"@.len());
            assert("import_default_config"@.len() != "switch_provider"@.len());
            assert("import_default_config"@.len() != "get_settings"@.len());
            assert("import_default_config"@.len() != "save_settings"@.len());
            assert("import_default_config"@.len() != "get_config_dir"@.len());
            assert("import_default_config"@.len() != "get_common_config_snippet"@.len());
        },
        InvokeCommand::GetAppConfigPath => {
            assert("get_app_config_path"@.len() != "get_providers"@.len());
            assert("get_app_config_path"@.len() != "get_current_provider"@.len());
            assert("get_app_config_path"@.len() != "switch_provider"@.len());
            assert("get_app_config_path"@.len() != "get_settings"@.len());
            assert("get_app_config_path"@.len() != "save_settings"@.len());
            assert("get_app_config_path"@.len() != "get_config_dir"@.len());
            assert("get_app_config_path"@.len() != "get_common_config_snippet"@.len());
            assert("get_app_config_path"@.len() != "import_default_config"@.len());
        },
        InvokeCommand::IsPortableMode => {
            assert("is_portable_mode"@.len() != "get_providers"@.len());
            assert("is_portable_mode"@.len() != "get_current_provider"@.len());
            assert("is_portable_mode"@.len() != "switch_provider"@.len());
            assert("is_portable_mode"@.len() != "get_settings"@.len());
            assert("is_portable_mode"@.len() != "save_settings"@.len());
            assert("is_portable_mode"@.len() != "get_config_dir"@.len());
            assert("is_portable_mode"@.len() != "get_common_config_snippet"@.len());
            assert("is_portable_mode"@.len() != "import_default_config"@.len());
            assert("is_portable_mode"@.len() != "get_app_config_path"@.len());
        },
        InvokeCommand::UpdateTrayMenu => {
            assert("update_tray_menu"@.len() != "get_providers"@.len());
            assert("update_tray_menu"@.len() != "get_current_provider"@.len());
            assert("update_tray_menu"@.len() != "switch_provider"@.len());
            assert("update_tray_menu"@.len() != "get_settings"@.len());
            assert("update_tray_menu"@.len() != "save_settings"@.len());
            assert("update_tray_menu"@.len() != "get_config_dir"@.len());
            assert("update_tray_menu"@.len() != "get_common_config_snippet"@.len());
            assert("update_tray_menu"@.len() != "import_default_config"@.len());
            assert("update_tray_menu"@.len() != "get_app_config_path"@.len());
            assert("update_tray_menu"@[0] != "is_portable_mode"@[0]);
        },
        InvokeCommand::GetAppVersion => {
            assert("get_app_version"@.len() != "get_providers"@.len());
            assert("get_app_version"@.len() != "get_current_provider"@.len());
            assert("get_app_version"@[0] != "switch_provider"@[0]);
            assert("get_app_version"@.len() != "get_settings"@.len());
            assert("get_app_version"@.len() != "save_settings"@.len());
            assert("get_app_version"@.len() != "get_config_dir"@.len());
            assert("get_app_version"@.len() != "get_common_config_snippet"@.len());
            assert("get_app_version"@.len() != "import_default_config"@.len());
            assert("get_app_version"@.len() != "get_app_config_path"@.len());
            assert("get_app_version"@.len() != "is_portable_mode"@.len());
            assert("get_app_version"@.len() != "update_tray_menu"@.len());
        },
    }
}

/// Resolve a command name; an unknown name is `NotImplemented(name)`.
pub fn dispatch(command: &str) -> (r: Result<InvokeCommand, WebError>)
    ensures
        match r {
            Ok(c) => command_named(command@) == Some(c),
            Err(e) => command_named(command@) is None && (e matches WebError::NotImplemented(n)
                && n@ == command@),
        },
{
    if str_eq(command, "get_providers") {
        Ok(InvokeCommand::GetProviders)
    } else if str_eq(command, "get_current_provider") {
        Ok(InvokeCommand::GetCurrentProvider)
    } else if str_eq(command, "switch_provider") {
        Ok(InvokeCommand::SwitchProvider)
    } else if str_eq(command, "get_settings") {
        Ok(InvokeCommand::GetSettings)
    } else if str_eq(command, "save_settings") {
        Ok(InvokeCommand::SaveSettings)
    } else if str_eq(command, "get_config_dir") {
        Ok(InvokeCommand::GetConfigDir)
    } else if str_eq(command, "get_common_config_snippet") {
        Ok(InvokeCommand::GetCommonConfigSnippet)
    } else if str_eq(command, "import_default_config") {
        Ok(InvokeCommand::ImportDefaultConfig)
    } else if str_eq(command, "get_app_config_path") {
        Ok(InvokeCommand::GetAppConfigPath)
    } else if str_eq(command, "is_portable_mode") {
        Ok(InvokeCommand::IsPortableMode)
    } else if str_eq(command, "update_tray_menu") {
        Ok(InvokeCommand::UpdateTrayMenu)
    } else if str_eq(command, "get_app_version") {
        Ok(InvokeCommand::GetAppVersion)
    } else {
        Err(WebError::NotImplemented(String::from_str(command)))
    }
}

impl InvokeCommand {
    pub open spec fn spec_app_key(self) -> Option<Seq<char>> {
        match self {
            InvokeCommand::GetProviders => Some("app"@),
            InvokeCommand::GetCurrentProvider => Some("app"@),
            InvokeCommand::SwitchProvider => Some("app"@),
            InvokeCommand::GetConfigDir => Some("app"@),
            InvokeCommand::ImportDefaultConfig => Some("app"@),
            InvokeCommand::GetCommonConfigSnippet => Some("appType"@),
            _ => None,
        }
    }

    /// The argument that names the application the command is about, if any.
    pub fn app_key(self) -> (r: Option<&'static str>)
        ensures
            crate::text::opt_str_view(r) == self.spec_app_key(),
    {
        match self {
            InvokeCommand::GetProviders => Some("app"),
            InvokeCommand::GetCurrentProvider => Some("app"),
            InvokeCommand::SwitchProvider => Some("app"),
            InvokeCommand::GetConfigDir => Some("app"),
            InvokeCommand::ImportDefaultConfig => Some("app"),
            InvokeCommand::GetCommonConfigSnippet => Some("appType"),
            _ => None,
        }
    }

    /// The answer of a command that needs no service: the web dashboard is
    /// never portable, and there is no tray to update.
    pub fn fixed_answer(self) -> (r: Option<JsonValue>)
        ensures
            match r {
                Some(v) => (self == InvokeCommand::IsPortableMode && v@ == Json::Bool(false)) || (
                self == InvokeCommand::UpdateTrayMenu && v@ == Json::Bool(true)),
                None => self != InvokeCommand::IsPortableMode && self
                    != InvokeCommand::UpdateTrayMenu,
            },
    {
        match self {
            InvokeCommand::IsPortableMode => Some(JsonValue::Bool(false)),
            InvokeCommand::UpdateTrayMenu => Some(JsonValue::Bool(true)),
            _ => None,
        }
    }
}

pub open spec fn missing_argument_message(key: Seq<char>) -> Seq<char> {
    "missing '"@ + key + "' argument"@
}

/// The string argument `key`, or `BadRequest` when it is missing or not a string.
pub fn str_arg(args: &JsonValue, key: &str) -> (r: Result<String, WebError>)
    ensures
        match r {
            Ok(s) => args@.field(key@) == Some(Json::Str(s@)),
            Err(e) => !(args@.field(key@) matches Some(Json::Str(_))) && (e matches WebError::BadRequest(
                m,
            ) && m@ == missing_argument_message(key@)),
        },
{
    match args.get(key) {
        Some(v) => match v.as_str() {
            Some(s) => {
                return Ok(String::from_str(s));
            },
            None => {},
        },
        None => {},
    }
    let a = concat("missing '", key);
    Err(WebError::BadRequest(concat(a.as_str(), "' argument")))
}

/// A copy of the `settings` argument of `save_settings`.
pub fn settings_arg(args: &JsonValue) -> (r: Result<JsonValue, WebError>)
    ensures
        match r {
            Ok(v) => args@.field("settings"@) == Some(v@),
            Err(e) => args@.field("settings"@) is None && (e matches WebError::BadRequest(m)
                && m@ == missing_argument_message("settings"@)),
        },
{
    match args.get("settings") {
        Some(v) => Ok(v.deep_clone()),
        None => {
            let a = concat("missing '", "settings");
            Err(WebError::BadRequest(concat(a.as_str(), "' argument")))
        },
    }
}

/// `{ "warnings": [] }`, what a successful switch answers.
pub fn switch_result() -> (r: JsonValue)
    ensures
        r@ == Json::Object(seq![("warnings"@, Json::Array(Seq::empty()))]),
{
    let items: Vec<JsonValue> = Vec::new();
    let list = JsonValue::Array(items);
    proof {
        lemma_array_model(items);
        assert(items@.map_values(|x: JsonValue| x@) =~= Seq::<Json>::empty());
    }
    let mut entries: Vec<(String, JsonValue)> = Vec::new();
    entries.push((String::from_str("warnings"), list));
    proof {
        lemma_object_model(entries);
        assert(entries_model(entries@) =~= seq![("warnings"@, list@)]);
    }
    JsonValue::Object(entries)
}

/// The event announced to the browsers after a switch:
/// `{ "event": "provider-switched", "payload": { "appType": .., "providerId": .. } }`.
pub fn provider_switched_event(app_type: &str, provider_id: &str) -> (r: JsonValue)
    ensures
        r@ == Json::Object(
            seq![
                ("event"@, Json::Str("provider-switched"@)),
                (
                    "payload"@,
                    Json::Object(
                        seq![
                            ("appType"@, Json::Str(app_type@)),
                            ("providerId"@, Json::Str(provider_id@)),
                        ],
                    ),
                ),
            ],
        ),
{
    let mut payload: Vec<(String, JsonValue)> = Vec::new();
    payload.push((String::from_str("appType"), JsonValue::String(String::from_str(app_type))));
    payload.push((String::from_str("providerId"), JsonValue::String(String::from_str(provider_id))));
    let p = JsonValue::Object(payload);
    proof {
        lemma_object_model(payload);
        assert(entries_model(payload@) =~= seq![
            ("appType"@, Json::Str(app_type@)),
            ("providerId"@, Json::Str(provider_id@)),
        ]);
    }
    let mut entries: Vec<(String, JsonValue)> = Vec::new();
    entries.push((String::from_str("event"), JsonValue::String(String::from_str("provider-switched"))));
    entries.push((String::from_str("payload"), p));
    proof {
        lemma_object_model(entries);
        assert(entries_model(entries@) =~= seq![
            ("event"@, Json::Str("provider-switched"@)),
            ("payload"@, p@),
        ]);
    }
    JsonValue::Object(entries)
}

/// The answer of a successful switch.
pub open spec fn switch_result_json() -> Json {
    Json::Object(seq![("warnings"@, Json::Array(Seq::empty()))])
}

/// The event announced after switching `app` to the provider `id`.
pub open spec fn provider_switched_json(app: Seq<char>, id: Seq<char>) -> Json {
    Json::Object(
        seq![
            ("event"@, Json::Str("provider-switched"@)),
            (
                "payload"@,
                Json::Object(seq![("appType"@, Json::Str(app)), ("providerId"@, Json::Str(id))]),
            ),
        ],
    )
}

/// Answer `switch_provider` once the services have tried the switch of the
/// application with identifier `app_type` to the provider `id`: on success
/// `{ "warnings": [] }` and the `provider-switched` event to announce; on
/// failure the service's error and no event.
pub fn answer_switch(outcome: Result<(), AppError>, app_type: &str, id: &str) -> (r: (
    Result<JsonValue, WebError>,
    Option<JsonValue>,
))
    ensures
        match outcome {
            Ok(()) => {
                &&& r.0 matches Ok(v) && v@ == switch_result_json()
                &&& r.1 matches Some(ev) && ev@ == provider_switched_json(app_type@, id@)
            },
            Err(e) => r.0 == Err::<JsonValue, WebError>(WebError::Domain(e)) && r.1 is None,
        },
{
    match outcome {
        Ok(()) => (Ok(switch_result()), Some(provider_switched_event(app_type, id))),
        Err(e) => (Err(WebError::Domain(e)), None),
    }
}

/// What a command needs from the provider services, its arguments read.
#[derive(Debug)]
pub struct ServiceRequest {
    pub command: InvokeCommand,
    /// The application argument (`app`, or `appType`), for the services to parse.
    pub app: Option<String>,
    /// The provider `id` of `switch_provider`.
    pub id: Option<String>,
    /// The `settings` payload of `save_settings`.
    pub settings: Option<JsonValue>,
}

/// The answer of a command: a value, or a request to the services.
#[derive(Debug)]
pub enum Answer {
    Value(JsonValue),
    NeedsService(ServiceRequest),
}

/// The ghost value of an answer.
pub enum AnswerView {
    Value(Json),
    NeedsService(InvokeCommand, Option<Seq<char>>, Option<Seq<char>>, Option<Json>),
}

impl View for Answer {
    type V = AnswerView;

    open spec fn view(&self) -> AnswerView {
        match self {
            Answer::Value(v) => AnswerView::Value(v@),
            Answer::NeedsService(r) => AnswerView::NeedsService(
                r.command,
                crate::text::opt_string_view(r.app),
                crate::text::opt_string_view(r.id),
                match r.settings {
                    Some(v) => Some(v@),
                    None => None,
                },
            ),
        }
    }
}

/// A string argument, if present as a string.
pub open spec fn string_field(args: Json, key: Seq<char>) -> Option<Seq<char>> {
    match args.field(key) {
        Some(Json::Str(s)) => Some(s),
        _ => None,
    }
}

/// The answer of a command: the fixed answers (`is_portable_mode` is false,
/// `update_tray_menu` is true, `get_app_version` is the version); otherwise
/// the arguments are checked in order (the application, then `id` for a
/// switch, `settings` for a save), a missing one answered `BadRequest`, and
/// the request handed to the services. `Err` holds the `BadRequest` message.
pub open spec fn spec_answer(cmd: InvokeCommand, args: Json, version: Seq<char>) -> Result<
    AnswerView,
    Seq<char>,
> {
    if cmd == InvokeCommand::IsPortableMode {
        Ok(AnswerView::Value(Json::Bool(false)))
    } else if cmd == InvokeCommand::UpdateTrayMenu {
        Ok(AnswerView::Value(Json::Bool(true)))
    } else if cmd == InvokeCommand::GetAppVersion {
        Ok(AnswerView::Value(Json::Str(version)))
    } else if cmd.spec_app_key() is Some && string_field(args, cmd.spec_app_key()->0) is None {
        Err(missing_argument_message(cmd.spec_app_key()->0))
    } else if cmd == InvokeCommand::SwitchProvider && string_field(args, "id"@) is None {
        Err(missing_argument_message("id"@))
    } else if cmd == InvokeCommand::SaveSettings && args.field("settings"@) is None {
        Err(missing_argument_message("settings"@))
    } else {
        Ok(
            AnswerView::NeedsService(
                cmd,
                match cmd.spec_app_key() {
                    Some(k) => string_field(args, k),
                    None => None,
                },
                if cmd == InvokeCommand::SwitchProvider {
                    string_field(args, "id"@)
                } else {
                    None
                },
                if cmd == InvokeCommand::SaveSettings {
                    args.field("settings"@)
                } else {
                    None
                },
            ),
        )
    }
}

pub open spec fn answer_matches(r: Result<Answer, WebError>, expected: Result<AnswerView, Seq<char>>) -> bool {
    match r {
        Ok(a) => expected == Ok::<AnswerView, Seq<char>>(a@),
        Err(e) => (e matches WebError::BadRequest(m) && expected == Err::<AnswerView, Seq<char>>(
            m@,
        )),
    }
}

/// The answer of a routed command, `version` being this build's version.
pub fn answer(cmd: InvokeCommand, args: &JsonValue, version: &str) -> (r: Result<Answer, WebError>)
    ensures
        answer_matches(r, spec_answer(cmd, args@, version@)),
{
    match cmd.fixed_answer() {
        Some(v) => {
            return Ok(Answer::Value(v));
        },
        None => {},
    }
    if cmd == InvokeCommand::GetAppVersion {
        return Ok(Answer::Value(JsonValue::String(String::from_str(version))));
    }
    let app = match cmd.app_key() {
        Some(k) => match str_arg(args, k) {
            Ok(a) => Some(a),
            Err(e) => {
                return Err(e);
            },
        },
        None => None,
    };
    let id = if cmd == InvokeCommand::SwitchProvider {
        match str_arg(args, "id") {
            Ok(i) => Some(i),
            Err(e) => {
                return Err(e);
            },
        }
    } else {
        None
    };
    let settings = if cmd == InvokeCommand::SaveSettings {
        match settings_arg(args) {
            Ok(v) => Some(v),
            Err(e) => {
                return Err(e);
            },
        }
    } else {
        None
    };
    Ok(Answer::NeedsService(ServiceRequest { command: cmd, app, id, settings }))
}

/// Route a command name and answer it: unknown names are `NotImplemented`.
pub fn invoke(command: &str, args: &JsonValue, version: &str) -> (r: Result<Answer, WebError>)
    ensures
        match command_named(command@) {
            None => r matches Err(WebError::NotImplemented(n)) && n@ == command@,
            Some(cmd) => answer_matches(r, spec_answer(cmd, args@, version@)),
        },
{
    match dispatch(command) {
        Ok(cmd) => answer(cmd, args, version),
        Err(e) => Err(e),
    }
}

/// Every name outside the first-wave table is answered HTTP 501 with a
/// message naming the command, so the frontend's other panels degrade
/// gracefully; every name in the table is routed to its command.
pub proof fn law_unknown_commands_answer_not_implemented(name: Seq<char>, e: WebError)
    requires
        command_named(name) is None,
        e matches WebError::NotImplemented(n) && n@ == name,
    ensures
        e.spec_status() == 501,
        e.spec_message() == "command '"@ + name + "' is not implemented in the web prototype"@,
{
}

} // verus!
