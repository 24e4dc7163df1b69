use cc_switch_web::json::JsonValue;
use cc_switch_web::proxy::providers::modelhub_codex::{
    is_enabled, is_gpt_model, modelhub_root_url, overlay_provider_for_request,
    preserve_request_model, request_model, ModelHubCodexMeta, Provider, ProviderMeta,
};

fn s(x: &str) -> JsonValue {
    JsonValue::String(x.to_string())
}

fn obj(entries: Vec<(&str, JsonValue)>) -> JsonValue {
    JsonValue::Object(entries.into_iter().map(|(k, v)| (k.to_string(), v)).collect())
}

fn field<'a>(v: &'a JsonValue, key: &str) -> &'a JsonValue {
    v.get(key).expect("field present")
}

fn create_provider(settings_config: JsonValue, provider_type: Option<&str>) -> Provider {
    Provider {
        id: "modelhub".to_string(),
        name: "ModelHub Codex".to_string(),
        settings_config,
        website_url: None,
        category: Some("codex".to_string()),
        created_at: None,
        sort_index: None,
        notes: None,
        meta: provider_type.map(|value| ProviderMeta {
            provider_type: Some(value.to_string()),
            ..Default::default()
        }),
        icon: None,
        icon_color: None,
        in_failover_queue: false,
    }
}

fn create_modelhub_provider(settings_config: JsonValue, root_url: &str) -> Provider {
    let mut provider = create_provider(settings_config, Some("modelhub_codex"));
    let meta = provider.meta.get_or_insert_with(ProviderMeta::default);
    meta.modelhub_codex = Some(ModelHubCodexMeta {
        root_url: Some(root_url.to_string()),
    });
    provider
}

fn catalog_model(overlay: &Provider) -> &JsonValue {
    let catalog = field(&overlay.settings_config, "modelCatalog");
    let models = field(catalog, "models");
    field(models.at(0).expect("first model"), "model")
}

#[test]
fn modelhub_provider_type_enables_overlay() {
    let provider = create_provider(obj(vec![]), Some("modelhub_codex"));

    assert!(is_enabled(&provider));
}

#[test]
fn modelhub_preset_setting_does_not_enable_overlay() {
    let provider = create_provider(obj(vec![("codexUpstreamPreset", s("modelhub"))]), None);

    assert!(!is_enabled(&provider));
}

#[test]
fn gpt_models_overlay_to_native_responses() {
    let provider = create_modelhub_provider(obj(vec![]), "https://modelhub.example/root");

    let overlay =
        overlay_provider_for_request(&provider, &obj(vec![("model", s("gpt-5.5-codex"))]))
            .expect("valid ModelHub config")
            .expect("modelhub overlay");

    assert_eq!(
        overlay
            .settings_config
            .get("base_url")
            .and_then(JsonValue::as_str),
        Some("https://modelhub.example/root/responses")
    );
    assert_eq!(
        overlay.meta.as_ref().and_then(|meta| meta.is_full_url),
        Some(true)
    );
    assert_eq!(
        overlay
            .meta
            .as_ref()
            .and_then(|meta| meta.api_format.as_deref()),
        Some("openai_responses")
    );
    assert_eq!(field(&overlay.settings_config, "model"), &s("gpt-5.5-codex"));
    assert_eq!(catalog_model(&overlay), &s("gpt-5.5-codex"));
}

#[test]
fn non_gpt_models_overlay_to_crawl_with_request_model_catalog() {
    let provider = create_modelhub_provider(obj(vec![]), "https://modelhub.example/root");

    let overlay = overlay_provider_for_request(&provider, &obj(vec![("model", s("glm-5.2"))]))
        .expect("valid ModelHub config")
        .expect("modelhub overlay");

    assert_eq!(
        overlay
            .settings_config
            .get("base_url")
            .and_then(JsonValue::as_str),
        Some("https://modelhub.example/root/v2/crawl")
    );
    assert_eq!(
        overlay
            .meta
            .as_ref()
            .and_then(|meta| meta.api_format.as_deref()),
        Some("openai_chat")
    );
    assert_eq!(catalog_model(&overlay), &s("glm-5.2"));
}

#[test]
fn overlay_uses_custom_modelhub_root_url() {
    let provider = create_modelhub_provider(obj(vec![]), "https://modelhub.example/root/");

    let overlay = overlay_provider_for_request(&provider, &obj(vec![("model", s("kimi-k2"))]))
        .expect("valid ModelHub config")
        .expect("modelhub overlay");

    assert_eq!(
        overlay
            .settings_config
            .get("base_url")
            .and_then(JsonValue::as_str),
        Some("https://modelhub.example/root/v2/crawl")
    );
}

#[test]
fn modelhub_root_url_is_required() {
    let provider = create_provider(obj(vec![]), Some("modelhub_codex"));

    let error =
        overlay_provider_for_request(&provider, &obj(vec![("model", s("gpt-5.5-codex"))]))
            .expect_err("missing ModelHub root should fail");

    assert!(error.message().contains("meta.modelhubCodex.rootUrl"));
}

#[test]
fn overlay_keeps_auth_settings_but_rebases_model_to_request() {
    let provider = create_modelhub_provider(
        obj(vec![
            ("auth", obj(vec![("OPENAI_API_KEY", s("test-key"))])),
            ("model", s("configured-model")),
        ]),
        "https://modelhub.example/root",
    );

    let overlay = overlay_provider_for_request(&provider, &obj(vec![("model", s("kimi-k2"))]))
        .expect("valid ModelHub config")
        .expect("modelhub overlay");

    assert_eq!(
        field(field(&overlay.settings_config, "auth"), "OPENAI_API_KEY"),
        &s("test-key")
    );
    assert_eq!(field(&overlay.settings_config, "model"), &s("kimi-k2"));
    assert_eq!(catalog_model(&overlay), &s("kimi-k2"));
}

#[test]
fn preserve_request_model_restores_original_body_model() {
    let source = obj(vec![("model", s("glm-5.2"))]);
    let mut target = obj(vec![("model", s("configured-model"))]);

    preserve_request_model(&source, &mut target);

    assert_eq!(field(&target, "model"), &s("glm-5.2"));
}

#[test]
fn overlay_absent_for_other_providers() {
    let provider = create_provider(obj(vec![]), Some("openai"));
    let body = obj(vec![("model", s("gpt-5"))]);
    assert!(overlay_provider_for_request(&provider, &body).unwrap().is_none());
    let bare = create_provider(obj(vec![]), None);
    assert!(overlay_provider_for_request(&bare, &body).unwrap().is_none());
}

#[test]
fn overlay_without_request_model_sets_only_base_url() {
    let provider = create_modelhub_provider(
        obj(vec![("model", s("configured-model"))]),
        "https://modelhub.example/root//",
    );
    let overlay = overlay_provider_for_request(&provider, &obj(vec![("model", s("   "))]))
        .unwrap()
        .unwrap();
    assert_eq!(
        field(&overlay.settings_config, "base_url"),
        &s("https://modelhub.example/root/v2/crawl")
    );
    assert_eq!(field(&overlay.settings_config, "model"), &s("configured-model"));
    assert_eq!(overlay.settings_config.get("modelCatalog"), None);
    assert_eq!(overlay.id, "modelhub");
    assert_eq!(overlay.category.as_deref(), Some("codex"));
}

#[test]
fn overlay_replaces_non_object_settings() {
    let provider = create_modelhub_provider(s("not an object"), "https://m.example");
    let overlay = overlay_provider_for_request(&provider, &obj(vec![("model", s("GPT-4o"))]))
        .unwrap()
        .unwrap();
    assert_eq!(
        overlay.settings_config,
        obj(vec![
            ("base_url", s("https://m.example/responses")),
            ("model", s("GPT-4o")),
            (
                "modelCatalog",
                obj(vec![("models", JsonValue::Array(vec![obj(vec![("model", s("GPT-4o"))])]))])
            ),
        ])
    );
}

#[test]
fn request_model_trims_and_skips_empty() {
    assert_eq!(request_model(&obj(vec![("model", s("  gpt-5 \n"))])), Some("gpt-5"));
    assert_eq!(request_model(&obj(vec![("model", s(" \t"))])), None);
    assert_eq!(request_model(&obj(vec![("model", JsonValue::Null)])), None);
    assert_eq!(request_model(&obj(vec![])), None);
    assert_eq!(request_model(&s("model")), None);
}

#[test]
fn gpt_detection_ignores_case() {
    assert!(is_gpt_model("gpt-5"));
    assert!(is_gpt_model("openai/GPT-4o"));
    assert!(is_gpt_model("xgPtx"));
    assert!(!is_gpt_model("glm-5.2"));
    assert!(!is_gpt_model("gp"));
    assert!(!is_gpt_model(""));
}

#[test]
fn root_url_strips_trailing_slashes() {
    let provider = create_modelhub_provider(obj(vec![]), "https://h.example/a///");
    assert_eq!(modelhub_root_url(&provider).unwrap(), "https://h.example/a");
    let missing = create_provider(obj(vec![]), Some("modelhub_codex"));
    assert_eq!(
        modelhub_root_url(&missing).unwrap_err().message(),
        "ModelHub Codex provider requires meta.modelhubCodex.rootUrl"
    );
}

#[test]
fn preserve_request_model_on_null_and_without_model() {
    let source = obj(vec![("model", s(" kimi "))]);
    let mut target = JsonValue::Null;
    preserve_request_model(&source, &mut target);
    assert_eq!(target, obj(vec![("model", s("kimi"))]));

    let mut untouched = obj(vec![("model", s("keep")), ("x", JsonValue::Bool(true))]);
    preserve_request_model(&obj(vec![]), &mut untouched);
    assert_eq!(untouched, obj(vec![("model", s("keep")), ("x", JsonValue::Bool(true))]));
}
