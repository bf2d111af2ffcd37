//! The wizard's steps, its choices, and the answer store that a session fills.
use vstd::prelude::*;

use crate::catalog::ProviderCatalog;
use crate::config::ChannelsConfig;
use crate::text::{same_text, trim, trimmed};

verus! {

/// The model entry that stands for "type a model id of my own".
pub const CUSTOM_MODEL_SENTINEL: &'static str = "__custom_model__";

pub open spec fn sentinel() -> Seq<char> {
    "__custom_model__"@
}

#[derive(Clone, Copy, Debug, PartialEq, Eq, Structural)]
pub enum OnboardingMode {
    FullOnboarding,
    UpdateProviderOnly,
}

#[derive(Clone, Copy, Debug, PartialEq, Eq, Structural)]
pub enum WizardStep {
    Welcome,
    ConfigModeSelection,
    WorkspaceSetup,
    ProviderTierSelection,
    ProviderSelection,
    CustomProviderUrlEntry,
    ProviderEndpointEntry,
    ApiKeyEntry,
    ModelSelection,
    ModelCustomEntry,
    ChannelSelection,
    ChannelTokenEntry,
    ChannelAuxEntry,
    TunnelSelection,
    TunnelPrimaryEntry,
    TunnelSecondaryEntry,
    ToolModeSelection,
    ComposioApiKeyEntry,
    SecretsEncryptChoice,
    HardwareSelection,
    MemorySelection,
    ProjectUserEntry,
    ProjectTimezoneEntry,
    ProjectAgentEntry,
    ProjectStyleSelection,
    ProjectStyleCustomEntry,
    Confirmation,
    Done,
}

#[derive(Clone, Copy, Debug, PartialEq, Eq, Structural)]
pub enum ChannelChoice {
    CliOnly,
    Telegram,
    Discord,
    Slack,
    IMessage,
    Matrix,
    Signal,
    WhatsApp,
    Linq,
    Irc,
    Webhook,
    NextcloudTalk,
    DingTalk,
    QqOfficial,
    Lark,
    Feishu,
    Nostr,
}

#[derive(Clone, Copy, Debug, PartialEq, Eq, Structural)]
pub enum TunnelChoice {
    NoTunnel,
    Cloudflare,
    Tailscale,
    Ngrok,
    Custom,
}

#[derive(Clone, Copy, Debug, PartialEq, Eq, Structural)]
pub enum ToolModeChoice {
    Sovereign,
    Composio,
}

/// The channel at position `i` of the channel menu; positions past the menu mean the CLI.
pub open spec fn channel_at(i: usize) -> ChannelChoice {
    if i == 1 {
        ChannelChoice::Telegram
    } else if i == 2 {
        ChannelChoice::Discord
    } else if i == 3 {
        ChannelChoice::Slack
    } else if i == 4 {
        ChannelChoice::IMessage
    } else if i == 5 {
        ChannelChoice::Matrix
    } else if i == 6 {
        ChannelChoice::Signal
    } else if i == 7 {
        ChannelChoice::WhatsApp
    } else if i == 8 {
        ChannelChoice::Linq
    } else if i == 9 {
        ChannelChoice::Irc
    } else if i == 10 {
        ChannelChoice::Webhook
    } else if i == 11 {
        ChannelChoice::NextcloudTalk
    } else if i == 12 {
        ChannelChoice::DingTalk
    } else if i == 13 {
        ChannelChoice::QqOfficial
    } else if i == 14 {
        ChannelChoice::Lark
    } else if i == 15 {
        ChannelChoice::Feishu
    } else if i == 16 {
        ChannelChoice::Nostr
    } else {
        ChannelChoice::CliOnly
    }
}

/// The tunnel at position `i` of the tunnel menu; positions past the menu mean no tunnel.
pub open spec fn tunnel_at(i: usize) -> TunnelChoice {
    if i == 1 {
        TunnelChoice::Cloudflare
    } else if i == 2 {
        TunnelChoice::Tailscale
    } else if i == 3 {
        TunnelChoice::Ngrok
    } else if i == 4 {
        TunnelChoice::Custom
    } else {
        TunnelChoice::NoTunnel
    }
}

/// The selected position of a list, or `default` when nothing is selected.
pub open spec fn selected_or(sel: Option<usize>, default: usize) -> usize {
    match sel {
        Some(i) => i,
        None => default,
    }
}

/// A memory backend and the defaults that its profile gives.
#[derive(Clone, Debug, PartialEq, Eq)]
pub struct MemoryBackendProfile {
    pub key: String,
    pub auto_save_default: bool,
    pub uses_sqlite_hygiene: bool,
}

/// What a session reads from the rest of the system while it runs.
pub struct WizardEnv {
    /// Whether a configuration document already exists at the resolved path.
    pub config_exists: bool,
    pub catalog: ProviderCatalog,
    /// The memory backends offered, in menu order.
    pub memory_backends: Vec<MemoryBackendProfile>,
    /// The backend used when the selection lies past the menu.
    pub fallback_backend: MemoryBackendProfile,
    /// The relays a Nostr channel starts with.
    pub nostr_relays: Vec<String>,
}

impl WizardEnv {
    pub open spec fn backend_at(&self, i: usize) -> MemoryBackendProfile {
        if i < self.memory_backends@.len() {
            self.memory_backends@[i as int]
        } else {
            self.fallback_backend
        }
    }
}

/// The answer store: every value a session has collected, with the cursor state of its lists.
/// Each text field holds the line being edited at the matching entry step.
pub struct App {
    pub step: WizardStep,
    pub loading: bool,
    pub status_message: String,
    pub config_dir: String,
    pub config_path: String,
    pub workspace_dir: String,
    pub mode: OnboardingMode,
    pub force: bool,
    pub provider: String,
    pub api_key: String,
    pub api_url: Option<String>,
    pub model: String,
    pub workspace_input: String,
    pub use_default_workspace: bool,
    pub custom_provider_url_input: String,
    pub provider_endpoint_input: String,
    pub provider_tier_list: Option<usize>,
    pub provider_list: Option<usize>,
    pub mode_list: Option<usize>,
    pub model_list: Option<usize>,
    pub api_key_input: String,
    pub model_custom_input: String,
    pub provider_tiers: Vec<String>,
    pub current_tier_providers: Vec<(String, String)>,
    pub available_models: Vec<String>,
    pub channel_choice: ChannelChoice,
    pub channel_list: Option<usize>,
    pub channel_token_input: String,
    pub channel_aux_input: String,
    pub channels_config: ChannelsConfig,
    pub tunnel_choice: TunnelChoice,
    pub tunnel_list: Option<usize>,
    pub tunnel_primary_input: String,
    pub tunnel_secondary_input: String,
    pub tunnel_toggle: bool,
    pub tool_mode_choice: ToolModeChoice,
    pub tool_mode_list: Option<usize>,
    pub composio_key_input: String,
    pub secrets_encrypt: bool,
    pub hardware_choice: usize,
    pub hardware_list: Option<usize>,
    pub hardware_datasheets: bool,
    pub memory_choice: usize,
    pub memory_list: Option<usize>,
    pub memory_auto_save: bool,
    pub project_user_input: String,
    pub project_timezone_input: String,
    pub project_agent_input: String,
    pub project_style_list: Option<usize>,
    pub project_style_custom_input: String,
}

impl App {
    /// The store's invariant: it holds no channel section but that of the chosen channel.
    pub open spec fn well_formed(&self) -> bool {
        crate::channels::only_channel(self.channels_config, self.channel_choice)
    }

    /// A fresh session on the welcome screen, with every list on its default entry.
    pub fn new(force: bool) -> (r: App)
        ensures
            r.step == WizardStep::Welcome,
            r.well_formed(),
            r.force == force,
            r.mode == OnboardingMode::FullOnboarding,
            r.channel_choice == ChannelChoice::CliOnly,
            r.tunnel_choice == TunnelChoice::NoTunnel,
            r.tool_mode_choice == ToolModeChoice::Sovereign,
            r.channels_config.cli && r.channels_config.no_channel(),
            r.mode_list == Some(1usize),
            r.channel_list == Some(0usize),
            r.tunnel_list == Some(0usize),
            r.tool_mode_list == Some(0usize),
            r.hardware_list == Some(3usize),
            r.memory_list == Some(0usize),
            r.project_style_list == Some(1usize),
            r.provider_tier_list is None,
            r.provider_list is None,
            r.model_list is None,
            r.secrets_encrypt,
            r.hardware_choice == 3,
            r.memory_choice == 0,
            r.memory_auto_save,
            !r.tunnel_toggle,
            !r.hardware_datasheets,
            r.use_default_workspace,
            !r.loading,
            r.api_url is None,
            r.provider@.len() == 0,
            r.api_key@.len() == 0,
            r.model@.len() == 0,
            r.provider_tiers@.len() == 0,
            r.current_tier_providers@.len() == 0,
            r.available_models@.len() == 0,
    {
        App {
            step: WizardStep::Welcome,
            loading: false,
            status_message: String::new(),
            config_dir: String::new(),
            config_path: String::new(),
            workspace_dir: String::new(),
            mode: OnboardingMode::FullOnboarding,
            force,
            provider: String::new(),
            api_key: String::new(),
            api_url: None,
            model: String::new(),
            workspace_input: String::new(),
            use_default_workspace: true,
            custom_provider_url_input: String::new(),
            provider_endpoint_input: String::new(),
            provider_tier_list: None,
            provider_list: None,
            mode_list: Some(1),
            model_list: None,
            api_key_input: String::new(),
            model_custom_input: String::new(),
            provider_tiers: Vec::new(),
            current_tier_providers: Vec::new(),
            available_models: Vec::new(),
            channel_choice: ChannelChoice::CliOnly,
            channel_list: Some(0),
            channel_token_input: String::new(),
            channel_aux_input: String::new(),
            channels_config: ChannelsConfig::cli_only(),
            tunnel_choice: TunnelChoice::NoTunnel,
            tunnel_list: Some(0),
            tunnel_primary_input: String::new(),
            tunnel_secondary_input: String::new(),
            tunnel_toggle: false,
            tool_mode_choice: ToolModeChoice::Sovereign,
            tool_mode_list: Some(0),
            composio_key_input: String::new(),
            secrets_encrypt: true,
            hardware_choice: 3,
            hardware_list: Some(3),
            hardware_datasheets: false,
            memory_choice: 0,
            memory_list: Some(0),
            memory_auto_save: true,
            project_user_input: String::new(),
            project_timezone_input: String::new(),
            project_agent_input: String::new(),
            project_style_list: Some(1),
            project_style_custom_input: String::new(),
        }
    }

    /// The value of a text field: its line without surrounding whitespace.
    pub fn text_value(input: &str) -> (r: String)
        ensures
            r@ == trimmed(input@),
    {
        trim(input)
    }

    pub open spec fn spec_needs_provider_endpoint(p: Seq<char>) -> bool {
        p == "llamacpp"@ || p == "sglang"@ || p == "vllm"@ || p == "osaurus"@
    }

    /// Whether the provider serves from an endpoint that the operator has to give.
    pub fn needs_provider_endpoint(provider: &str) -> (r: bool)
        ensures
            r == Self::spec_needs_provider_endpoint(provider@),
    {
        same_text(provider, "llamacpp") || same_text(provider, "sglang") || same_text(
            provider,
            "vllm",
        ) || same_text(provider, "osaurus")
    }
}

} // verus!
