//! Synthesis: the configuration document, and what else a finished session asks for, built
//! from the answer store.
use vstd::prelude::*;

use crate::catalog::default_model_for_provider;
use crate::channels::{optional, optional_text};
use crate::config::{
    ChannelsConfig, ComposioConfig, ConfigDocument, HardwareConfig, MemoryConfig, SecretsConfig,
    TunnelConfig,
};
use crate::flow::{style_text, tunnel_from};
use crate::state::{selected_or, App, MemoryBackendProfile, OnboardingMode, ToolModeChoice, WizardEnv};
use crate::text::trimmed;

verus! {

/// Personalization written into the workspace's files.
#[derive(Clone, Debug, PartialEq, Eq)]
pub struct ProjectContext {
    pub user_name: String,
    pub timezone: String,
    pub agent_name: String,
    pub communication_style: String,
}

/// What a finished session produces.
pub struct Synthesis {
    /// The document to persist.
    pub config: ConfigDocument,
    /// The personalization to scaffold into the workspace; only a full onboarding has one.
    pub workspace_context: Option<ProjectContext>,
    /// Whether the channel listeners should start once the document is saved.
    pub autostart_channels: bool,
}

/// The memory section that backend `p`'s profile calls for.
pub open spec fn memory_defaults(m: MemoryConfig, p: MemoryBackendProfile) -> bool {
    let hygiene = p.uses_sqlite_hygiene;
    &&& m.backend == p.key
    &&& m.auto_save == p.auto_save_default
    &&& m.hygiene_enabled == hygiene
    &&& m.archive_after_days == if hygiene { 7u32 } else { 0u32 }
    &&& m.purge_after_days == if hygiene { 30u32 } else { 0u32 }
    &&& m.conversation_retention_days == 30
    &&& m.embedding_provider@ == "none"@
    &&& m.embedding_model@ == "text-embedding-3-small"@
    &&& m.embedding_dimensions == 1536
    &&& m.vector_weight_milli == 700
    &&& m.keyword_weight_milli == 300
    &&& m.min_relevance_score_milli == 400
    &&& m.embedding_cache_size == if hygiene { 10000u32 } else { 0u32 }
    &&& m.chunk_max_tokens == 512
    &&& !m.response_cache_enabled
    &&& m.response_cache_ttl_minutes == 60
    &&& m.response_cache_max_entries == 5000
    &&& !m.snapshot_enabled
    &&& !m.snapshot_on_hygiene
    &&& m.auto_hydrate
    &&& m.sqlite_open_timeout_secs is None
}

/// The provider a session settles on: the trimmed answer, or `openrouter` where it is empty.
pub open spec fn chosen_provider(a: App) -> Seq<char> {
    if trimmed(a.provider@).len() == 0 {
        "openrouter"@
    } else {
        trimmed(a.provider@)
    }
}

/// The model a session settles on: the trimmed answer, or the provider's default.
pub open spec fn chosen_model(a: App, env: WizardEnv) -> Seq<char> {
    if trimmed(a.model@).len() == 0 {
        env.catalog.spec_default_model(chosen_provider(a))
    } else {
        trimmed(a.model@)
    }
}

/// The document holds the provider answers of `a`.
pub open spec fn provider_fields(d: ConfigDocument, a: App, env: WizardEnv) -> bool {
    &&& d.default_provider matches Some(p) && p@ == chosen_provider(a)
    &&& d.default_model matches Some(m) && m@ == chosen_model(a, env)
    &&& d.api_url == a.api_url
    &&& optional_text(d.api_key, trimmed(a.api_key@))
    &&& d.workspace_dir == a.workspace_dir
    &&& d.config_path == a.config_path
}

/// The sections of a document that nothing has set: the defaults.
pub open spec fn default_sections(d: ConfigDocument, env: WizardEnv) -> bool {
    &&& d.channels_config.cli && d.channels_config.no_channel()
    &&& d.tunnel.provider@ == "none"@ && d.tunnel.cloudflare is None && d.tunnel.tailscale is None
        && d.tunnel.ngrok is None && d.tunnel.custom is None
    &&& !d.composio.enabled && d.composio.api_key is None && d.composio.entity_id@ == "default"@
    &&& d.secrets.encrypt
    &&& !d.hardware.enabled && d.hardware.transport@ == "none"@ && d.hardware.serial_port is None
        && d.hardware.probe_target is None && !d.hardware.workspace_datasheets
    &&& memory_defaults(d.memory, env.fallback_backend)
}

/// The sections that a full onboarding writes from the answers of `a`.
pub open spec fn onboarding_sections(
    d: ConfigDocument,
    a: App,
    env: WizardEnv,
    hardware: HardwareConfig,
) -> bool {
    &&& d.channels_config == a.channels_config
    &&& tunnel_from(
        d.tunnel,
        a.tunnel_choice,
        trimmed(a.tunnel_primary_input@),
        trimmed(a.tunnel_secondary_input@),
        a.tunnel_toggle,
    )
    &&& d.composio.enabled == (a.tool_mode_choice == ToolModeChoice::Composio)
    &&& d.composio.entity_id@ == "default"@
    &&& if a.tool_mode_choice == ToolModeChoice::Composio {
        optional_text(d.composio.api_key, trimmed(a.composio_key_input@))
    } else {
        d.composio.api_key is None
    }
    &&& d.secrets.encrypt == a.secrets_encrypt
    &&& d.hardware == (HardwareConfig { workspace_datasheets: a.hardware_datasheets, ..hardware })
    &&& memory_defaults(
        MemoryConfig { auto_save: env.backend_at(a.memory_choice).auto_save_default, ..d.memory },
        env.backend_at(a.memory_choice),
    )
    &&& d.memory.auto_save == a.memory_auto_save
}

/// `t` is the trimmed `typed`, or `fallback` where that is empty.
pub open spec fn typed_or(t: String, typed: Seq<char>, fallback: Seq<char>) -> bool {
    t@ == if trimmed(typed).len() == 0 {
        fallback
    } else {
        trimmed(typed)
    }
}

/// The personalization that the answers of `a` describe.
pub open spec fn context_of(c: ProjectContext, a: App, login_user: Option<String>) -> bool {
    &&& typed_or(
        c.user_name,
        a.project_user_input@,
        match login_user {
            Some(u) => u@,
            None => "User"@,
        },
    )
    &&& typed_or(c.timezone, a.project_timezone_input@, "UTC"@)
    &&& typed_or(c.agent_name, a.project_agent_input@, "ZeroClaw"@)
    &&& c.communication_style@ == style_text(
        selected_or(a.project_style_list, 1),
        a.project_style_custom_input@,
    )
}

/// The memory section that backend `profile` starts with.
pub fn memory_config_defaults_for_backend(profile: &MemoryBackendProfile) -> (r: MemoryConfig)
    ensures
        memory_defaults(r, *profile),
{
    let hygiene = profile.uses_sqlite_hygiene;
    MemoryConfig {
        backend: profile.key.clone(),
        auto_save: profile.auto_save_default,
        hygiene_enabled: hygiene,
        archive_after_days: if hygiene {
            7
        } else {
            0
        },
        purge_after_days: if hygiene {
            30
        } else {
            0
        },
        conversation_retention_days: 30,
        embedding_provider: String::from_str("none"),
        embedding_model: String::from_str("text-embedding-3-small"),
        embedding_dimensions: 1536,
        vector_weight_milli: 700,
        keyword_weight_milli: 300,
        min_relevance_score_milli: 400,
        embedding_cache_size: if hygiene {
            10000
        } else {
            0
        },
        chunk_max_tokens: 512,
        response_cache_enabled: false,
        response_cache_ttl_minutes: 60,
        response_cache_max_entries: 5000,
        snapshot_enabled: false,
        snapshot_on_hygiene: false,
        auto_hydrate: true,
        sqlite_open_timeout_secs: None,
    }
}

/// A document with every section at its default, for the given paths.
pub fn default_document(
    workspace_dir: String,
    config_path: String,
    env: &WizardEnv,
) -> (r: ConfigDocument)
    ensures
        default_sections(r, *env),
        r.workspace_dir == workspace_dir,
        r.config_path == config_path,
        r.default_provider is None,
        r.default_model is None,
        r.api_key is None,
        r.api_url is None,
{
    ConfigDocument {
        workspace_dir,
        config_path,
        default_provider: None,
        default_model: None,
        api_key: None,
        api_url: None,
        channels_config: ChannelsConfig::cli_only(),
        tunnel: TunnelConfig::disabled(),
        composio: ComposioConfig::disabled(),
        secrets: SecretsConfig { encrypt: true },
        hardware: HardwareConfig::software_only(),
        memory: memory_config_defaults_for_backend(&env.fallback_backend),
    }
}

fn typed_or_fallback(typed: &str, fallback: String) -> (r: String)
    ensures
        typed_or(r, typed@, fallback@),
{
    let t = App::text_value(typed);
    if t.unicode_len() == 0 {
        fallback
    } else {
        t
    }
}

/// The personalization that the session's answers describe; `login_user` is the name of the
/// account the wizard runs under, if known.
pub fn workspace_context(app: &App, login_user: Option<String>) -> (r: ProjectContext)
    ensures
        context_of(r, *app, login_user),
{
    let user_fallback = match login_user {
        Some(u) => u,
        None => String::from_str("User"),
    };
    ProjectContext {
        user_name: typed_or_fallback(app.project_user_input.as_str(), user_fallback),
        timezone: typed_or_fallback(app.project_timezone_input.as_str(), String::from_str("UTC")),
        agent_name: typed_or_fallback(
            app.project_agent_input.as_str(),
            String::from_str("ZeroClaw"),
        ),
        communication_style: app.project_style_text(),
    }
}

/// Builds the configuration document from a finished session.
///
/// `existing` is the document already stored at the configuration path, if any; an update of
/// the provider alone starts from it and changes nothing but the provider answers and the
/// paths. Otherwise the document starts from the defaults, and a full onboarding writes every
/// section from the answers. `hardware` is the hardware section that the discovered devices
/// and the chosen hardware mode give; `login_user` is the name of the account the wizard runs
/// under, if known.
pub fn finalize_config(
    app: App,
    existing: Option<ConfigDocument>,
    env: &WizardEnv,
    hardware: HardwareConfig,
    login_user: Option<String>,
) -> (r: Synthesis)
    ensures
        provider_fields(r.config, app, *env),
        app.mode == OnboardingMode::UpdateProviderOnly && existing is Some ==> r.config == (
        ConfigDocument {
            workspace_dir: r.config.workspace_dir,
            config_path: r.config.config_path,
            default_provider: r.config.default_provider,
            default_model: r.config.default_model,
            api_key: r.config.api_key,
            api_url: r.config.api_url,
            ..existing.unwrap()
        }),
        app.mode == OnboardingMode::UpdateProviderOnly && existing is None ==> default_sections(
            r.config,
            *env,
        ),
        app.mode == OnboardingMode::FullOnboarding ==> onboarding_sections(
            r.config,
            app,
            *env,
            hardware,
        ),
        app.mode == OnboardingMode::FullOnboarding ==> (r.workspace_context matches Some(c)
            && context_of(c, app, login_user)),
        app.mode == OnboardingMode::UpdateProviderOnly ==> r.workspace_context is None,
        r.autostart_channels == (app.mode == OnboardingMode::FullOnboarding
            && !r.config.channels_config.no_channel() && r.config.api_key is Some),
{
    let trimmed_provider = App::text_value(app.provider.as_str());
    let provider = if trimmed_provider.unicode_len() == 0 {
        String::from_str("openrouter")
    } else {
        trimmed_provider
    };
    let trimmed_model = App::text_value(app.model.as_str());
    let model = if trimmed_model.unicode_len() == 0 {
        default_model_for_provider(&env.catalog, provider.as_str())
    } else {
        trimmed_model
    };
    let full = app.mode == OnboardingMode::FullOnboarding;
    let tunnel = app.tunnel_config();
    let context = if full {
        Some(workspace_context(&app, login_user))
    } else {
        None
    };
    let composio_key = optional(App::text_value(app.composio_key_input.as_str()));
    let api_key = optional(App::text_value(app.api_key.as_str()));
    let mut config = match existing {
        Some(loaded) if app.mode == OnboardingMode::UpdateProviderOnly => ConfigDocument {
            workspace_dir: app.workspace_dir.clone(),
            config_path: app.config_path.clone(),
            ..loaded
        },
        _ => default_document(app.workspace_dir.clone(), app.config_path.clone(), env),
    };
    config.default_provider = Some(provider);
    config.default_model = Some(model);
    config.api_url = app.api_url.clone();
    config.api_key = api_key;
    if full {
        config.channels_config = app.channels_config;
        config.tunnel = tunnel;
        config.composio = match app.tool_mode_choice {
            ToolModeChoice::Composio => ComposioConfig {
                enabled: true,
                api_key: composio_key,
                entity_id: String::from_str("default"),
            },
            ToolModeChoice::Sovereign => ComposioConfig::disabled(),
        };
        config.secrets = SecretsConfig { encrypt: app.secrets_encrypt };
        config.hardware = HardwareConfig { workspace_datasheets: app.hardware_datasheets, ..hardware };
        let mut memory = if app.memory_choice < env.memory_backends.len() {
            memory_config_defaults_for_backend(&env.memory_backends[app.memory_choice])
        } else {
            memory_config_defaults_for_backend(&env.fallback_backend)
        };
        memory.auto_save = app.memory_auto_save;
        config.memory = memory;
    }
    let autostart_channels = full && config.channels_config.any_channel()
        && config.api_key.is_some();
    Synthesis { config, workspace_context: context, autostart_channels }
}

} // verus!
