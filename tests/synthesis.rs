use zeroclaw_onboard::catalog::{ProviderCatalog, ProviderModels};
use zeroclaw_onboard::config::{HardwareConfig, TelegramConfig, StreamMode};
use zeroclaw_onboard::finalize::{
    default_document, finalize_config, memory_config_defaults_for_backend, workspace_context,
};
use zeroclaw_onboard::state::{
    App, ChannelChoice, MemoryBackendProfile, OnboardingMode, ToolModeChoice, TunnelChoice,
    WizardEnv,
};

fn s(v: &str) -> String {
    v.to_string()
}

fn env() -> WizardEnv {
    WizardEnv {
        config_exists: true,
        catalog: ProviderCatalog {
            tiers: vec![],
            models: vec![ProviderModels {
                provider: s("mistral"),
                default_model: s("sonnet-default"),
                curated: vec![],
            }],
            fallback_model: s("fallback-model"),
        },
        memory_backends: vec![
            MemoryBackendProfile { key: s("sqlite"), auto_save_default: true, uses_sqlite_hygiene: true },
            MemoryBackendProfile { key: s("markdown"), auto_save_default: false, uses_sqlite_hygiene: false },
        ],
        fallback_backend: MemoryBackendProfile {
            key: s("sqlite"),
            auto_save_default: true,
            uses_sqlite_hygiene: true,
        },
        nostr_relays: vec![],
    }
}

fn hardware() -> HardwareConfig {
    HardwareConfig {
        enabled: true,
        transport: s("serial"),
        serial_port: Some(s("/dev/ttyUSB0")),
        baud_rate: 115200,
        probe_target: None,
        workspace_datasheets: false,
    }
}

fn telegram(token: &str) -> TelegramConfig {
    TelegramConfig {
        bot_token: s(token),
        allowed_users: vec![s("*")],
        stream_mode: StreamMode::Off,
        draft_update_interval_ms: 1000,
        interrupt_on_new_message: false,
        mention_only: false,
    }
}

fn answered(mode: OnboardingMode) -> App {
    let mut app = App::new(false);
    app.mode = mode;
    app.workspace_dir = s("/home/op/ws");
    app.config_dir = s("/home/op/.cfg");
    app.config_path = s("/home/op/.cfg/config.toml");
    app.provider = s(" mistral ");
    app.model = s("");
    app.api_key = s("  sk-live ");
    app.api_url = Some(s("https://api.example"));
    app
}

#[test]
fn update_provider_only_keeps_other_sections() {
    let env = env();
    let mut existing = default_document(s("/old/ws"), s("/old/config.toml"), &env);
    existing.channels_config.telegram = Some(telegram("old-token"));
    existing.hardware = hardware();
    existing.memory = memory_config_defaults_for_backend(&env.memory_backends[1]);
    existing.secrets.encrypt = false;
    existing.default_provider = Some(s("openrouter"));
    existing.default_model = Some(s("old-model"));
    existing.api_key = Some(s("old-key"));

    let mut app = answered(OnboardingMode::UpdateProviderOnly);
    app.channel_choice = ChannelChoice::Discord;
    app.tunnel_choice = TunnelChoice::Ngrok;
    let out = finalize_config(app, Some(existing.clone()), &env, HardwareConfig::software_only(), None);
    let doc = out.config;
    assert_eq!(doc.channels_config, existing.channels_config);
    assert_eq!(doc.hardware, existing.hardware);
    assert_eq!(doc.memory, existing.memory);
    assert_eq!(doc.tunnel, existing.tunnel);
    assert_eq!(doc.secrets, existing.secrets);
    assert_eq!(doc.default_provider, Some(s("mistral")));
    assert_eq!(doc.default_model, Some(s("sonnet-default")));
    assert_eq!(doc.api_key, Some(s("sk-live")));
    assert_eq!(doc.api_url, Some(s("https://api.example")));
    assert_eq!(doc.workspace_dir, "/home/op/ws");
    assert_eq!(doc.config_path, "/home/op/.cfg/config.toml");
    assert!(out.workspace_context.is_none());
    assert!(!out.autostart_channels);
}

#[test]
fn update_without_existing_document_starts_from_defaults() {
    let env = env();
    let mut app = answered(OnboardingMode::UpdateProviderOnly);
    app.channels_config.telegram = Some(telegram("t"));
    let out = finalize_config(app, None, &env, hardware(), None);
    assert!(out.config.channels_config.telegram.is_none());
    assert_eq!(out.config.tunnel.provider, "none");
    assert!(!out.config.hardware.enabled);
    assert_eq!(out.config.memory.backend, "sqlite");
}

#[test]
fn full_onboarding_writes_every_section() {
    let env = env();
    let mut app = answered(OnboardingMode::FullOnboarding);
    app.channel_choice = ChannelChoice::Telegram;
    app.channels_config.telegram = Some(telegram("tg"));
    app.tunnel_choice = TunnelChoice::Cloudflare;
    app.tunnel_primary_input = s("cf-token");
    app.tool_mode_choice = ToolModeChoice::Composio;
    app.composio_key_input = s("  ");
    app.secrets_encrypt = false;
    app.hardware_datasheets = true;
    app.memory_choice = 1;
    app.memory_auto_save = true;
    app.project_user_input = s("");
    app.project_timezone_input = s(" Europe/Berlin ");
    let existing = default_document(s("/x"), s("/x/config.toml"), &env);
    let out = finalize_config(app, Some(existing), &env, hardware(), Some(s("operator")));
    let doc = &out.config;
    assert_eq!(doc.channels_config.telegram.clone().unwrap().bot_token, "tg");
    assert_eq!(doc.tunnel.provider, "cloudflare");
    assert_eq!(doc.tunnel.cloudflare.clone().unwrap().token, "cf-token");
    assert!(doc.composio.enabled);
    assert_eq!(doc.composio.api_key, None);
    assert_eq!(doc.composio.entity_id, "default");
    assert!(!doc.secrets.encrypt);
    assert!(doc.hardware.enabled);
    assert!(doc.hardware.workspace_datasheets);
    assert_eq!(doc.hardware.serial_port, Some(s("/dev/ttyUSB0")));
    assert_eq!(doc.memory.backend, "markdown");
    assert!(doc.memory.auto_save);
    assert!(!doc.memory.hygiene_enabled);
    assert_eq!(doc.memory.embedding_cache_size, 0);
    assert_eq!(doc.workspace_dir, "/home/op/ws");
    let ctx = out.workspace_context.clone().expect("workspace context");
    assert_eq!(ctx.user_name, "operator");
    assert_eq!(ctx.timezone, "Europe/Berlin");
    assert_eq!(ctx.agent_name, "ZeroClaw");
    assert!(ctx.communication_style.starts_with("Be friendly"));
    assert!(out.autostart_channels);
}

#[test]
fn empty_answers_fall_back_to_defaults() {
    let env = env();
    let mut app = App::new(false);
    app.api_key = s("   ");
    app.tool_mode_choice = ToolModeChoice::Sovereign;
    app.composio_key_input = s("ignored");
    let out = finalize_config(app, None, &env, hardware(), None);
    assert_eq!(out.config.default_provider, Some(s("openrouter")));
    assert_eq!(out.config.default_model, Some(s("fallback-model")));
    assert_eq!(out.config.api_key, None);
    assert!(!out.config.composio.enabled);
    assert_eq!(out.config.composio.api_key, None);
    assert!(out.config.secrets.encrypt);
    let ctx = out.workspace_context.expect("workspace context");
    assert_eq!(ctx.user_name, "User");
    assert_eq!(ctx.timezone, "UTC");
    assert!(!out.autostart_channels);
}

#[test]
fn webhook_with_key_autostarts_listeners() {
    let env = env();
    let mut app = answered(OnboardingMode::FullOnboarding);
    app.channels_config.webhook = Some(zeroclaw_onboard::config::WebhookConfig { port: 8081, secret: None });
    let out = finalize_config(app, None, &env, hardware(), None);
    assert!(out.autostart_channels);

    let app = answered(OnboardingMode::FullOnboarding);
    let out = finalize_config(app, None, &env, hardware(), None);
    assert!(!out.autostart_channels);

    let mut app = answered(OnboardingMode::FullOnboarding);
    app.api_key = s("");
    app.channels_config.telegram = Some(telegram("tg"));
    let out = finalize_config(app, None, &env, hardware(), None);
    assert!(!out.autostart_channels);
}

#[test]
fn explicit_model_is_trimmed() {
    let env = env();
    let mut app = answered(OnboardingMode::FullOnboarding);
    app.model = s("  model-x  ");
    let out = finalize_config(app, None, &env, hardware(), None);
    assert_eq!(out.config.default_model, Some(s("model-x")));
}

#[test]
fn memory_defaults_follow_profile() {
    let env = env();
    let m = memory_config_defaults_for_backend(&env.memory_backends[0]);
    assert_eq!(m.backend, "sqlite");
    assert!(m.auto_save);
    assert!(m.hygiene_enabled);
    assert_eq!(m.archive_after_days, 7);
    assert_eq!(m.purge_after_days, 30);
    assert_eq!(m.embedding_cache_size, 10000);
    assert_eq!(m.embedding_dimensions, 1536);
    assert_eq!(m.vector_weight_milli, 700);
    assert_eq!(m.keyword_weight_milli, 300);
    assert_eq!(m.embedding_model, "text-embedding-3-small");
    let m = memory_config_defaults_for_backend(&env.memory_backends[1]);
    assert_eq!(m.archive_after_days, 0);
    assert_eq!(m.purge_after_days, 0);
    assert!(!m.auto_save);
}

#[test]
fn workspace_context_uses_typed_values() {
    let mut app = App::new(false);
    app.project_user_input = s(" Ada ");
    app.project_agent_input = s("Helper");
    app.project_style_list = Some(2);
    let ctx = workspace_context(&app, Some(s("login")));
    assert_eq!(ctx.user_name, "Ada");
    assert_eq!(ctx.agent_name, "Helper");
    assert!(ctx.communication_style.starts_with("Be professional"));
}
