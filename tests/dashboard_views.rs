use zeroclaw_onboard::catalog::{ProviderCatalog, ProviderModels};
use zeroclaw_onboard::config::{ConfigDocument, WebhookConfig};
use zeroclaw_onboard::dashboard::{
    auth_profile_lines, channel_lines, decimal_text, doctor_full_lines, doctor_lines,
    estop_status_lines, hardware_discover_lines, mark_active_profiles, memory_stats_lines, models_list_lines,
    models_refresh_lines, models_status_lines, provider_lines, run_report_lines, status_lines,
    AuthProfile, AuthProfileData, EstopState, ProviderInfo,
};
use zeroclaw_onboard::finalize::default_document;
use zeroclaw_onboard::state::{MemoryBackendProfile, WizardEnv};

fn s(v: &str) -> String {
    v.to_string()
}

fn catalog(curated: usize) -> ProviderCatalog {
    ProviderCatalog {
        tiers: vec![],
        models: vec![ProviderModels {
            provider: s("openrouter"),
            default_model: s("or/auto"),
            curated: (0..curated).map(|i| (format!("m{i}"), format!("model {i}"))).collect(),
        }],
        fallback_model: s("fallback"),
    }
}

fn document() -> ConfigDocument {
    let env = WizardEnv {
        config_exists: false,
        catalog: catalog(0),
        memory_backends: vec![],
        fallback_backend: MemoryBackendProfile {
            key: s("sqlite"),
            auto_save_default: true,
            uses_sqlite_hygiene: true,
        },
        nostr_relays: vec![],
    };
    default_document(s("/ws"), s("/cfg/config.toml"), &env)
}

#[test]
fn decimal_formatting() {
    assert_eq!(decimal_text(0), "0");
    assert_eq!(decimal_text(7), "7");
    assert_eq!(decimal_text(10), "10");
    assert_eq!(decimal_text(1536), "1536");
    assert_eq!(decimal_text(u64::MAX), u64::MAX.to_string());
}

#[test]
fn status_view() {
    let mut doc = document();
    doc.default_model = Some(s("m1"));
    let lines = status_lines(&doc, "1.2.3", "sqlite");
    assert_eq!(
        lines,
        vec![
            s("Status"),
            s(""),
            s("Version: 1.2.3"),
            s("Workspace: /ws"),
            s("Config: /cfg/config.toml"),
            s("Provider: openrouter"),
            s("Model: m1"),
            s("Memory backend: sqlite"),
            s("Auto-save: on"),
        ]
    );
}

#[test]
fn memory_stats_view() {
    let lines = memory_stats_lines(&document());
    assert_eq!(lines[2], "Backend: sqlite");
    assert_eq!(lines[4], "Retention days: 30");
    assert_eq!(lines[5], "Embedding: none/text-embedding-3-small (dim=1536)");
    assert_eq!(lines[6], "Workspace: /ws");
}

#[test]
fn models_views() {
    let mut doc = document();
    doc.default_provider = Some(s(" openrouter "));
    let lines = models_status_lines(&doc, &catalog(3));
    assert_eq!(lines[2], "Provider: openrouter");
    assert_eq!(lines[3], "Configured model: or/auto");
    assert_eq!(lines[4], "Curated entries: 3");

    let lines = models_list_lines(&doc, &catalog(25));
    assert_eq!(lines.len(), 24);
    assert_eq!(lines[3], "Curated models: 25");
    assert_eq!(lines[4], "1. m0 — model 0");
    assert_eq!(lines[23], "20. m19 — model 19");

    let lines = models_list_lines(&doc, &catalog(0));
    assert_eq!(lines.len(), 5);
    assert_eq!(lines[4], "No curated models available.");
}

#[test]
fn channel_and_doctor_views() {
    let mut doc = document();
    doc.channels_config.webhook = Some(WebhookConfig { port: 8081, secret: None });
    let lines = channel_lines(&doc);
    assert_eq!(lines.len(), 19);
    assert_eq!(lines[2], "CLI: configured");
    assert_eq!(lines[3], "Telegram: not configured");
    assert_eq!(lines[6], "Webhook: configured");

    let lines = doctor_lines(&doc, true, false, false, true);
    assert_eq!(lines[2], "Config file exists: yes");
    assert_eq!(lines[3], "Workspace exists: no");
    assert_eq!(lines[4], "API key configured: no");
    assert_eq!(lines[5], "Configured channels: 1");
    assert_eq!(lines[6], "OTP enabled: false");
    assert_eq!(lines[7], "E-stop enabled: true");
}

#[test]
fn run_reports() {
    assert_eq!(doctor_full_lines(&Ok(()))[2], "Doctor run completed.");
    assert_eq!(
        doctor_full_lines(&Err(s("boom"))),
        vec![s("Doctor (run)"), s(""), s("Doctor run failed: boom")]
    );
    assert_eq!(hardware_discover_lines(&Err(s("x")))[2], "Hardware discovery failed: x");
    assert_eq!(run_report_lines("T", "a", "b", "f: ", &Ok(())), vec![s("T"), s(""), s("a"), s("b")]);
}

#[test]
fn estop_views() {
    let off = estop_status_lines(false, &Err(s("unused")));
    assert_eq!(off, vec![s("Estop Status"), s(""), s("Emergency stop is disabled in config.")]);
    let state = EstopState {
        engaged: true,
        kill_all: false,
        network_kill: true,
        blocked_domains: vec![s("a.com"), s("b.com")],
        frozen_tools: vec![],
        updated_at: Some(s("2024-01-01T00:00:00Z")),
    };
    let lines = estop_status_lines(true, &Ok(state));
    assert_eq!(
        lines,
        vec![
            s("Estop Status"),
            s(""),
            s("engaged: yes"),
            s("kill_all: inactive"),
            s("network_kill: active"),
            s("domain_blocks: a.com, b.com"),
            s("tool_freeze: (none)"),
            s("updated_at: 2024-01-01T00:00:00Z"),
        ]
    );
    let failed = estop_status_lines(true, &Err(s("no state file")));
    assert_eq!(failed[2], "Failed to load estop status: no state file");
}

#[test]
fn auth_profile_views() {
    let none = auth_profile_lines(&Ok(vec![]));
    assert_eq!(
        none,
        vec![s("Auth Profiles"), s(""), s("Total profiles: 0"), s("No auth profiles configured.")]
    );
    let two = auth_profile_lines(&Ok(vec![
        AuthProfile { id: s("work"), provider: s("openai"), active: true },
        AuthProfile { id: s("home"), provider: s("openai"), active: false },
    ]));
    assert_eq!(two[2], "Total profiles: 2");
    assert_eq!(two[3], "- work (openai) [active]");
    assert_eq!(two[4], "- home (openai)");
    let failed = auth_profile_lines(&Err(s("locked")));
    assert_eq!(failed[2], "Failed to load auth profiles: locked");
}

#[test]
fn refresh_and_provider_views() {
    let mut doc = document();
    let lines = models_refresh_lines(&doc, &Ok(()));
    assert_eq!(lines[2], "Model refresh completed for provider: default");
    doc.default_provider = Some(s("OpenRouter "));
    let lines = models_refresh_lines(&doc, &Err(s("timeout")));
    assert_eq!(lines[2], "Model refresh failed for provider OpenRouter : timeout");

    let providers = vec![
        ProviderInfo { name: s("openrouter"), display_name: s("OpenRouter"), aliases: vec![], local: false },
        ProviderInfo { name: s("ollama"), display_name: s("Ollama"), aliases: vec![s("OLLAMA-local")], local: true },
    ];
    let lines = provider_lines(&doc, &providers);
    assert_eq!(lines[2], "Total providers: 2");
    assert_eq!(lines[3], "- openrouter: OpenRouter [active]");
    assert_eq!(lines[4], "- ollama: Ollama [local]");
    doc.default_provider = Some(s("ollama-LOCAL"));
    let lines = provider_lines(&doc, &providers);
    assert_eq!(lines[3], "- openrouter: OpenRouter");
    assert_eq!(lines[4], "- ollama: Ollama [local] [active]");
}

#[test]
fn active_profiles_follow_each_provider() {
    let data = AuthProfileData {
        profiles: vec![(s("work"), s("openai")), (s("home"), s("openai")), (s("main"), s("gemini"))],
        active_profiles: vec![(s("openai"), s("work")), (s("gemini"), s("other"))],
    };
    let marked = mark_active_profiles(&data);
    let flags: Vec<bool> = marked.iter().map(|p| p.active).collect();
    assert_eq!(flags, vec![true, false, false]);
    let lines = auth_profile_lines(&Ok(marked));
    assert_eq!(lines[3], "- work (openai) [active]");
    assert_eq!(lines[4], "- home (openai)");
    assert_eq!(lines[5], "- main (gemini)");
}
