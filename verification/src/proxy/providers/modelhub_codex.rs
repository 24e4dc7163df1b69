//! ModelHub Codex providers: each request is rewritten onto the ModelHub root,
//! to the native Responses endpoint for GPT models and to the crawl endpoint
//! (Chat format) for every other model, with the model taken from the request.
use vstd::prelude::*;

use crate::json::{
    entries_insert, entries_model, entries_set, keys_distinct, law_insert_keeps_keys_distinct,
    law_lookup_after_insert_other, law_lookup_after_insert_same, lemma_array_model,
    lemma_object_model, Json, JsonValue,
};
use crate::text::{
    clone_opt_string, concat, opt_str_view, opt_string_view, str_eq, strip_trailing, trim,
    trim_end_char, trim_str,
};

verus! {

/// The `meta.providerType` that turns the overlay on.
pub const MODELHUB_PROVIDER_TYPE: &'static str = "modelhub_codex";

/// `meta.modelhubCodex` of a provider.
#[derive(Debug)]
pub struct ModelHubCodexMeta {
    pub root_url: Option<String>,
}

/// The provider metadata the overlay reads and writes.
#[derive(Debug)]
pub struct ProviderMeta {
    pub provider_type: Option<String>,
    pub modelhub_codex: Option<ModelHubCodexMeta>,
    pub is_full_url: Option<bool>,
    pub api_format: Option<String>,
}

/// A configured upstream provider.
#[derive(Debug)]
pub struct Provider {
    pub id: String,
    pub name: String,
    pub settings_config: JsonValue,
    pub website_url: Option<String>,
    pub category: Option<String>,
    pub created_at: Option<i64>,
    pub sort_index: Option<usize>,
    pub notes: Option<String>,
    pub meta: Option<ProviderMeta>,
    pub icon: Option<String>,
    pub icon_color: Option<String>,
    pub in_failover_queue: bool,
}

/// Errors of the proxy layer.
#[derive(Debug)]
pub enum ProxyError {
    /// The provider's configuration cannot serve the request.
    ConfigError(String),
}

pub struct ModelHubCodexMetaView {
    pub root_url: Option<Seq<char>>,
}

pub struct ProviderMetaView {
    pub provider_type: Option<Seq<char>>,
    pub modelhub_codex: Option<ModelHubCodexMetaView>,
    pub is_full_url: Option<bool>,
    pub api_format: Option<Seq<char>>,
}

pub struct ProviderView {
    pub id: Seq<char>,
    pub name: Seq<char>,
    pub settings_config: Json,
    pub website_url: Option<Seq<char>>,
    pub category: Option<Seq<char>>,
    pub created_at: Option<i64>,
    pub sort_index: Option<usize>,
    pub notes: Option<Seq<char>>,
    pub meta: Option<ProviderMetaView>,
    pub icon: Option<Seq<char>>,
    pub icon_color: Option<Seq<char>>,
    pub in_failover_queue: bool,
}

impl View for ModelHubCodexMeta {
    type V = ModelHubCodexMetaView;

    open spec fn view(&self) -> ModelHubCodexMetaView {
        ModelHubCodexMetaView { root_url: opt_string_view(self.root_url) }
    }
}

impl View for ProviderMeta {
    type V = ProviderMetaView;

    open spec fn view(&self) -> ProviderMetaView {
        ProviderMetaView {
            provider_type: opt_string_view(self.provider_type),
            modelhub_codex: match self.modelhub_codex {
                Some(m) => Some(m@),
                None => None,
            },
            is_full_url: self.is_full_url,
            api_format: opt_string_view(self.api_format),
        }
    }
}

pub open spec fn opt_meta_view(m: Option<ProviderMeta>) -> Option<ProviderMetaView> {
    match m {
        Some(x) => Some(x@),
        None => None,
    }
}

impl View for Provider {
    type V = ProviderView;

    open spec fn view(&self) -> ProviderView {
        ProviderView {
            id: self.id@,
            name: self.name@,
            settings_config: self.settings_config@,
            website_url: opt_string_view(self.website_url),
            category: opt_string_view(self.category),
            created_at: self.created_at,
            sort_index: self.sort_index,
            notes: opt_string_view(self.notes),
            meta: opt_meta_view(self.meta),
            icon: opt_string_view(self.icon),
            icon_color: opt_string_view(self.icon_color),
            in_failover_queue: self.in_failover_queue,
        }
    }
}

impl ProxyError {
    /// The message of the error.
    pub open spec fn text(&self) -> Seq<char> {
        match self {
            ProxyError::ConfigError(m) => m@,
        }
    }

    /// The message of the error.
    pub fn message(&self) -> (r: &str)
        ensures
            r@ == self.text(),
    {
        match self {
            ProxyError::ConfigError(m) => m.as_str(),
        }
    }
}

impl Clone for ModelHubCodexMeta {
    fn clone(&self) -> (r: Self)
        ensures
            r@ == self@,
    {
        ModelHubCodexMeta { root_url: clone_opt_string(&self.root_url) }
    }
}

impl Clone for ProviderMeta {
    fn clone(&self) -> (r: Self)
        ensures
            r@ == self@,
    {
        ProviderMeta {
            provider_type: clone_opt_string(&self.provider_type),
            modelhub_codex: match &self.modelhub_codex {
                Some(m) => Some(m.clone()),
                None => None,
            },
            is_full_url: self.is_full_url,
            api_format: clone_opt_string(&self.api_format),
        }
    }
}

pub open spec fn default_meta_view() -> ProviderMetaView {
    ProviderMetaView {
        provider_type: None,
        modelhub_codex: None,
        is_full_url: None,
        api_format: None,
    }
}

impl Default for ProviderMeta {
    fn default() -> (r: Self)
        ensures
            r@ == default_meta_view(),
    {
        ProviderMeta { provider_type: None, modelhub_codex: None, is_full_url: None, api_format: None }
    }
}

impl ProviderMeta {
    pub open spec fn spec_modelhub_codex_root_url(self) -> Option<Seq<char>> {
        match self@.modelhub_codex {
            Some(m) => m.root_url,
            None => None,
        }
    }

    /// `meta.modelhubCodex.rootUrl`, if set.
    pub fn modelhub_codex_root_url(&self) -> (r: Option<&str>)
        ensures
            opt_str_view(r) == self.spec_modelhub_codex_root_url(),
    {
        match &self.modelhub_codex {
            Some(m) => match &m.root_url {
                Some(u) => Some(u.as_str()),
                None => None,
            },
            None => None,
        }
    }
}

/// The overlay applies exactly to providers whose `meta.providerType` is
/// `modelhub_codex` (a settings preset alone does not turn it on).
pub open spec fn spec_is_enabled(p: ProviderView) -> bool {
    match p.meta {
        Some(m) => m.provider_type == Some(MODELHUB_PROVIDER_TYPE@),
        None => false,
    }
}

/// The ModelHub root URL without trailing slashes.
pub open spec fn spec_root_url(p: ProviderView) -> Option<Seq<char>> {
    match p.meta {
        Some(m) => match m.modelhub_codex {
            Some(h) => match h.root_url {
                Some(u) => Some(strip_trailing(u, '/')),
                None => None,
            },
            None => None,
        },
        None => None,
    }
}

/// The message of a ModelHub provider without a root URL.
pub open spec fn root_required_message() -> Seq<char> {
    "ModelHub Codex provider requires meta.modelhubCodex.rootUrl"@
}

/// The trimmed, non-empty `model` string of a request body.
pub open spec fn spec_request_model(body: Json) -> Option<Seq<char>> {
    match body.field("model"@) {
        Some(Json::Str(s)) => if trim(s).len() > 0 {
            Some(trim(s))
        } else {
            None
        },
        _ => None,
    }
}

/// ASCII lower-casing of one character.
pub open spec fn ascii_lower(c: char) -> char {
    if 'A' <= c <= 'Z' {
        ((c as u32) + 32) as char
    } else {
        c
    }
}

/// The ASCII-lowercased text contains `gpt`.
pub open spec fn mentions_gpt(s: Seq<char>) -> bool {
    exists|i: int|
        0 <= i && i + 3 <= s.len() && #[trigger] ascii_lower(s[i]) == 'g' && ascii_lower(s[i + 1])
            == 'p' && ascii_lower(s[i + 2]) == 't'
}

pub open spec fn api_format_for(is_gpt: bool) -> Seq<char> {
    if is_gpt {
        "openai_responses"@
    } else {
        "openai_chat"@
    }
}

pub open spec fn base_url_for(root: Seq<char>, is_gpt: bool) -> Seq<char> {
    if is_gpt {
        root + "/responses"@
    } else {
        root + "/v2/crawl"@
    }
}

/// `{ "models": [ { "model": model } ] }`
pub open spec fn model_catalog(model: Seq<char>) -> Json {
    Json::Object(
        seq![("models"@, Json::Array(seq![Json::Object(seq![("model"@, Json::Str(model))])]))],
    )
}

/// The settings of the overlay: the provider's settings object (or an empty
/// one) with `base_url` set, and, for a request that names a model, `model`
/// and a one-entry `modelCatalog` set to it.
pub open spec fn overlay_settings(settings: Json, base: Seq<char>, model: Seq<char>) -> Json {
    let es0 = match settings {
        Json::Object(es) => es,
        _ => Seq::empty(),
    };
    let es1 = entries_insert(es0, "base_url"@, Json::Str(base));
    if model.len() == 0 {
        Json::Object(es1)
    } else {
        let es2 = entries_insert(es1, "model"@, Json::Str(model));
        Json::Object(entries_insert(es2, "modelCatalog"@, model_catalog(model)))
    }
}

/// The metadata of the overlay: the provider's metadata (or the default) with
/// full-URL mode on and the API format chosen by the model.
pub open spec fn overlay_meta(meta: Option<ProviderMetaView>, is_gpt: bool) -> ProviderMetaView {
    let m = match meta {
        Some(m) => m,
        None => default_meta_view(),
    };
    ProviderMetaView { is_full_url: Some(true), api_format: Some(api_format_for(is_gpt)), ..m }
}

/// What `overlay_provider_for_request` answers: `Ok(None)` for a provider the
/// overlay does not apply to, an error for a ModelHub provider without a root
/// URL, and otherwise the rewritten provider.
pub open spec fn spec_overlay(p: ProviderView, body: Json) -> Result<Option<ProviderView>, Seq<char>> {
    if !spec_is_enabled(p) {
        Ok(None)
    } else {
        let model = match spec_request_model(body) {
            Some(m) => m,
            None => Seq::empty(),
        };
        match spec_root_url(p) {
            None => Err(root_required_message()),
            Some(root) => {
                let g = mentions_gpt(model);
                Ok(
                    Some(
                        ProviderView {
                            meta: Some(overlay_meta(p.meta, g)),
                            settings_config: overlay_settings(
                                p.settings_config,
                                base_url_for(root, g),
                                model,
                            ),
                            ..p
                        },
                    ),
                )
            },
        }
    }
}

pub open spec fn overlay_result_view(r: Result<Option<Provider>, ProxyError>) -> Result<
    Option<ProviderView>,
    Seq<char>,
> {
    match r {
        Ok(Some(p)) => Ok(Some(p@)),
        Ok(None) => Ok(None),
        Err(e) => Err(e.text()),
    }
}

impl Clone for Provider {
    fn clone(&self) -> (r: Self)
        ensures
            r@ == self@,
    {
        Provider {
            id: self.id.clone(),
            name: self.name.clone(),
            settings_config: self.settings_config.deep_clone(),
            website_url: clone_opt_string(&self.website_url),
            category: clone_opt_string(&self.category),
            created_at: self.created_at,
            sort_index: self.sort_index,
            notes: clone_opt_string(&self.notes),
            meta: match &self.meta {
                Some(m) => Some(m.clone()),
                None => None,
            },
            icon: clone_opt_string(&self.icon),
            icon_color: clone_opt_string(&self.icon_color),
            in_failover_queue: self.in_failover_queue,
        }
    }
}

/// Whether the ModelHub overlay applies to the provider.
pub fn is_enabled(provider: &Provider) -> (r: bool)
    ensures
        r == spec_is_enabled(provider@),
{
    match &provider.meta {
        Some(meta) => match &meta.provider_type {
            Some(t) => str_eq(t.as_str(), MODELHUB_PROVIDER_TYPE),
            None => false,
        },
        None => false,
    }
}

/// The ModelHub root URL of the provider, trailing slashes removed.
pub fn modelhub_root_url(provider: &Provider) -> (r: Result<String, ProxyError>)
    ensures
        match r {
            Ok(u) => spec_root_url(provider@) == Some(u@),
            Err(e) => spec_root_url(provider@) is None && e.text() == root_required_message(),
        },
{
    let root = match &provider.meta {
        Some(meta) => meta.modelhub_codex_root_url(),
        None => None,
    };
    match root {
        Some(value) => Ok(String::from_str(trim_end_char(value, '/'))),
        None => Err(
            ProxyError::ConfigError(
                String::from_str("ModelHub Codex provider requires meta.modelhubCodex.rootUrl"),
            ),
        ),
    }
}

/// The trimmed, non-empty `model` of a request body.
pub fn request_model(body: &JsonValue) -> (r: Option<&str>)
    ensures
        opt_str_view(r) == spec_request_model(body@),
{
    match body.get("model") {
        Some(v) => match v.as_str() {
            Some(s) => {
                let t = trim_str(s);
                if t.is_empty() {
                    None
                } else {
                    Some(t)
                }
            },
            None => None,
        },
        None => None,
    }
}

pub fn ascii_lower_char(c: char) -> (r: char)
    ensures
        r == ascii_lower(c),
{
    if 'A' <= c && c <= 'Z' {
        ((c as u8) + 32) as char
    } else {
        c
    }
}

/// Whether the model name, ASCII-lowercased, contains `gpt`.
pub fn is_gpt_model(model: &str) -> (r: bool)
    ensures
        r == mentions_gpt(model@),
{
    let n = model.unicode_len();
    let mut i: usize = 0;
    while n >= 3 && i <= n - 3
        invariant
            n == model@.len(),
            0 <= i,
            forall|j: int|
                0 <= j < i && j + 3 <= n ==> !(#[trigger] ascii_lower(model@[j]) == 'g'
                    && ascii_lower(model@[j + 1]) == 'p' && ascii_lower(model@[j + 2]) == 't'),
        decreases n - i,
    {
        if ascii_lower_char(model.get_char(i)) == 'g' && ascii_lower_char(model.get_char(i + 1))
            == 'p' && ascii_lower_char(model.get_char(i + 2)) == 't' {
            return true;
        }
        i = i + 1;
    }
    false
}

fn model_catalog_value(model: &str) -> (r: JsonValue)
    ensures
        r@ == model_catalog(model@),
{
    let mut inner: Vec<(String, JsonValue)> = Vec::new();
    inner.push((String::from_str("model"), JsonValue::String(String::from_str(model))));
    let mut items: Vec<JsonValue> = Vec::new();
    let entry = JsonValue::Object(inner);
    proof {
        lemma_object_model(inner);
        assert(entries_model(inner@) =~= seq![("model"@, Json::Str(model@))]);
    }
    items.push(entry);
    let list = JsonValue::Array(items);
    proof {
        lemma_array_model(items);
        assert(items@.map_values(|x: JsonValue| x@) =~= seq![entry@]);
    }
    let mut outer: Vec<(String, JsonValue)> = Vec::new();
    outer.push((String::from_str("models"), list));
    proof {
        lemma_object_model(outer);
        assert(entries_model(outer@) =~= seq![("models"@, list@)]);
    }
    JsonValue::Object(outer)
}

/// The provider rewritten for one request, or `None` when the provider is not
/// a ModelHub Codex provider.
pub fn overlay_provider_for_request(provider: &Provider, body: &JsonValue) -> (r: Result<
    Option<Provider>,
    ProxyError,
>)
    ensures
        overlay_result_view(r) == spec_overlay(provider@, body@),
{
    if !is_enabled(provider) {
        return Ok(None);
    }
    let model = request_model(body);
    let root = match modelhub_root_url(provider) {
        Ok(u) => u,
        Err(e) => {
            return Err(e);
        },
    };
    let ghost model_v: Seq<char> = match model {
        Some(m) => m@,
        None => Seq::empty(),
    };
    let is_gpt = match model {
        Some(m) => is_gpt_model(m),
        None => false,
    };
    assert(is_gpt == mentions_gpt(model_v));
    let mut meta = match &provider.meta {
        Some(m) => m.clone(),
        None => ProviderMeta::default(),
    };
    meta.is_full_url = Some(true);
    meta.api_format = Some(
        if is_gpt {
            String::from_str("openai_responses")
        } else {
            String::from_str("openai_chat")
        },
    );
    let mut settings: Vec<(String, JsonValue)> = match provider.settings_config.deep_clone() {
        JsonValue::Object(es) => es,
        _ => Vec::new(),
    };
    proof {
        lemma_object_model(settings);
        let es0 = match provider.settings_config@ {
            Json::Object(es) => es,
            _ => Seq::empty(),
        };
        assert(entries_model(settings@) =~= es0);
    }
    let base = if is_gpt {
        concat(root.as_str(), "/responses")
    } else {
        concat(root.as_str(), "/v2/crawl")
    };
    entries_set(&mut settings, String::from_str("base_url"), JsonValue::String(base));
    match model {
        Some(m) => {
            entries_set(&mut settings, String::from_str("model"), JsonValue::String(String::from_str(m)));
            entries_set(&mut settings, String::from_str("modelCatalog"), model_catalog_value(m));
        },
        None => {},
    }
    proof {
        lemma_object_model(settings);
    }
    let overlay = Provider {
        id: provider.id.clone(),
        name: provider.name.clone(),
        settings_config: JsonValue::Object(settings),
        website_url: clone_opt_string(&provider.website_url),
        category: clone_opt_string(&provider.category),
        created_at: provider.created_at,
        sort_index: provider.sort_index,
        notes: clone_opt_string(&provider.notes),
        meta: Some(meta),
        icon: clone_opt_string(&provider.icon),
        icon_color: clone_opt_string(&provider.icon_color),
        in_failover_queue: provider.in_failover_queue,
    };
    Ok(Some(overlay))
}

/// Copy the request's `model` (trimmed) onto `target`, which becomes an object
/// if it was `null`; nothing changes when the request names no model.
pub fn preserve_request_model(source: &JsonValue, target: &mut JsonValue)
    requires
        spec_request_model(source@) is Some ==> (*old(target) is Object || *old(target) is Null),
    ensures
        match spec_request_model(source@) {
            Some(m) => final(target)@ == Json::Object(
                entries_insert(
                    match old(target)@ {
                        Json::Object(es) => es,
                        _ => Seq::empty(),
                    },
                    "model"@,
                    Json::Str(m),
                ),
            ),
            None => final(target)@ == old(target)@,
        },
{
    match request_model(source) {
        Some(model) => {
            let mut previous = JsonValue::Null;
            std::mem::swap(&mut previous, target);
            assert(previous == *old(target));
            let mut entries: Vec<(String, JsonValue)> = match previous {
                JsonValue::Object(es) => es,
                _ => Vec::new(),
            };
            proof {
                lemma_object_model(entries);
                if old(target)@ is Object {
                    lemma_object_model(old(target)->Object_0);
                }
                assert(entries_model(entries@) =~= match old(target)@ {
                    Json::Object(es) => es,
                    _ => Seq::empty(),
                });
            }
            entries_set(&mut entries, String::from_str("model"), JsonValue::String(String::from_str(model)));
            proof {
                lemma_object_model(entries);
            }
            *target = JsonValue::Object(entries);
        },
        None => {},
    }
}

/// The overlay applies exactly to ModelHub Codex providers: for every other
/// provider the answer is `Ok(None)`, whatever the request.
pub proof fn law_overlay_only_for_modelhub(p: ProviderView, body: Json)
    ensures
        (spec_overlay(p, body) == Ok::<Option<ProviderView>, Seq<char>>(None)) <==> !spec_is_enabled(p),
{
}

/// The overlay applies to exactly the providers whose `meta.providerType` is
/// `"modelhub_codex"`: any other provider (no metadata, metadata without a
/// type, or another type) is used as configured whatever the request, and a
/// ModelHub provider is always either rewritten or refused.
pub proof fn law_overlay_exactly_for_modelhub_type(p: ProviderView, body: Json)
    ensures
        !(p.meta matches Some(m) && m.provider_type == Some("modelhub_codex"@)) ==> spec_overlay(
            p,
            body,
        ) == Ok::<Option<ProviderView>, Seq<char>>(None),
        (p.meta matches Some(m) && m.provider_type == Some("modelhub_codex"@)) ==> !(spec_overlay(
            p,
            body,
        ) == Ok::<Option<ProviderView>, Seq<char>>(None)),
{
}

/// A ModelHub Codex provider without a root URL is refused with a message
/// naming `meta.modelhubCodex.rootUrl`; with one, the overlay is produced.
pub proof fn law_overlay_requires_root_url(p: ProviderView, body: Json)
    requires
        spec_is_enabled(p),
    ensures
        spec_overlay(p, body) is Err <==> spec_root_url(p) is None,
        spec_overlay(p, body) is Err ==> spec_overlay(p, body)->Err_0 == root_required_message(),
{
}

/// The overlay writes `base_url`, and for a request that names a model,
/// `model` and its one-entry `modelCatalog`; every other setting (credentials
/// among them) is kept as the provider had it.
pub proof fn law_overlay_settings(settings: Json, base: Seq<char>, model: Seq<char>, key: Seq<char>)
    requires
        settings is Object,
    ensures
        overlay_settings(settings, base, model).field("base_url"@) == Some(Json::Str(base)),
        model.len() > 0 ==> overlay_settings(settings, base, model).field("model"@) == Some(
            Json::Str(model),
        ),
        model.len() > 0 ==> overlay_settings(settings, base, model).field("modelCatalog"@) == Some(
            model_catalog(model),
        ),
        model.len() == 0 ==> overlay_settings(settings, base, model).field("model"@)
            == settings.field("model"@),
        key != "base_url"@ && key != "model"@ && key != "modelCatalog"@ ==> overlay_settings(
            settings,
            base,
            model,
        ).field(key) == settings.field(key),
        keys_distinct(settings->Object_0) ==> keys_distinct(
            overlay_settings(settings, base, model)->Object_0,
        ),
{
    reveal_strlit("base_url");
    reveal_strlit("model");
    reveal_strlit("modelCatalog");
    assert("base_url"@ != "model"@) by {
        assert("base_url"@.len() != "model"@.len());
    }
    assert("modelCatalog"@ != "model"@) by {
        assert("modelCatalog"@.len() != "model"@.len());
    }
    assert("modelCatalog"@ != "base_url"@) by {
        assert("modelCatalog"@.len() != "base_url"@.len());
    }
    let es0 = settings->Object_0;
    let es1 = entries_insert(es0, "base_url"@, Json::Str(base));
    if keys_distinct(es0) {
        law_insert_keeps_keys_distinct(es0, "base_url"@, Json::Str(base));
        let es2 = entries_insert(es1, "model"@, Json::Str(model));
        law_insert_keeps_keys_distinct(es1, "model"@, Json::Str(model));
        law_insert_keeps_keys_distinct(es2, "modelCatalog"@, model_catalog(model));
    }
    law_lookup_after_insert_same(es0, "base_url"@, Json::Str(base));
    law_lookup_after_insert_other(es0, "base_url"@, Json::Str(base), "model"@);
    if model.len() > 0 {
        let es2 = entries_insert(es1, "model"@, Json::Str(model));
        law_lookup_after_insert_other(es1, "model"@, Json::Str(model), "base_url"@);
        law_lookup_after_insert_same(es1, "model"@, Json::Str(model));
        law_lookup_after_insert_other(es2, "modelCatalog"@, model_catalog(model), "base_url"@);
        law_lookup_after_insert_other(es2, "modelCatalog"@, model_catalog(model), "model"@);
        law_lookup_after_insert_same(es2, "modelCatalog"@, model_catalog(model));
        if key != "base_url"@ && key != "model"@ && key != "modelCatalog"@ {
            law_lookup_after_insert_other(es0, "base_url"@, Json::Str(base), key);
            law_lookup_after_insert_other(es1, "model"@, Json::Str(model), key);
            law_lookup_after_insert_other(es2, "modelCatalog"@, model_catalog(model), key);
        }
    } else {
        if key != "base_url"@ {
            law_lookup_after_insert_other(es0, "base_url"@, Json::Str(base), key);
        }
    }
}

/// Restoring the request's model onto a body makes the body name exactly
/// that model, and leaves every other field of the body as it was.
pub proof fn law_preserved_model_reads_back(body: Seq<(Seq<char>, Json)>, model: Seq<char>, key: Seq<char>)
    ensures
        Json::Object(entries_insert(body, "model"@, Json::Str(model))).field("model"@) == Some(
            Json::Str(model),
        ),
        key != "model"@ ==> Json::Object(entries_insert(body, "model"@, Json::Str(model))).field(key)
            == Json::Object(body).field(key),
{
    law_lookup_after_insert_same(body, "model"@, Json::Str(model));
    if key != "model"@ {
        law_lookup_after_insert_other(body, "model"@, Json::Str(model), key);
    }
}

} // verus!
