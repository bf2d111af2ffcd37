//! The configuration document that a wizard session produces, with the sections it writes.
use vstd::prelude::*;

verus! {

#[derive(Clone, Copy, Debug, PartialEq, Eq, Structural)]
pub enum StreamMode {
    Off,
    Partial,
}

#[derive(Clone, Copy, Debug, PartialEq, Eq, Structural)]
pub enum LarkReceiveMode {
    Websocket,
    Webhook,
}

#[derive(Clone, Debug, PartialEq, Eq)]
pub struct TelegramConfig {
    pub bot_token: String,
    pub allowed_users: Vec<String>,
    pub stream_mode: StreamMode,
    pub draft_update_interval_ms: u64,
    pub interrupt_on_new_message: bool,
    pub mention_only: bool,
}

#[derive(Clone, Debug, PartialEq, Eq)]
pub struct DiscordConfig {
    pub bot_token: String,
    pub guild_id: Option<String>,
    pub allowed_users: Vec<String>,
    pub listen_to_bots: bool,
    pub mention_only: bool,
}

#[derive(Clone, Debug, PartialEq, Eq)]
pub struct SlackConfig {
    pub bot_token: String,
    pub app_token: Option<String>,
    pub channel_id: Option<String>,
    pub allowed_users: Vec<String>,
}

#[derive(Clone, Debug, PartialEq, Eq)]
pub struct WebhookConfig {
    pub port: u16,
    pub secret: Option<String>,
}

#[derive(Clone, Debug, PartialEq, Eq)]
pub struct IMessageConfig {
    pub allowed_contacts: Vec<String>,
}

#[derive(Clone, Debug, PartialEq, Eq)]
pub struct MatrixConfig {
    pub homeserver: String,
    pub access_token: String,
    pub user_id: Option<String>,
    pub device_id: Option<String>,
    pub room_id: String,
    pub allowed_users: Vec<String>,
}

#[derive(Clone, Debug, PartialEq, Eq)]
pub struct SignalConfig {
    pub http_url: String,
    pub account: String,
    pub group_id: Option<String>,
    pub allowed_from: Vec<String>,
    pub ignore_attachments: bool,
    pub ignore_stories: bool,
}

#[derive(Clone, Debug, PartialEq, Eq)]
pub struct WhatsAppConfig {
    pub access_token: Option<String>,
    pub phone_number_id: Option<String>,
    pub verify_token: Option<String>,
    pub app_secret: Option<String>,
    pub session_path: Option<String>,
    pub pair_phone: Option<String>,
    pub pair_code: Option<String>,
    pub allowed_numbers: Vec<String>,
}

#[derive(Clone, Debug, PartialEq, Eq)]
pub struct LinqConfig {
    pub api_token: String,
    pub from_phone: String,
    pub signing_secret: Option<String>,
    pub allowed_senders: Vec<String>,
}

#[derive(Clone, Debug, PartialEq, Eq)]
pub struct IrcConfig {
    pub server: String,
    pub port: u16,
    pub nickname: String,
    pub username: Option<String>,
    pub channels: Vec<String>,
    pub allowed_users: Vec<String>,
    pub server_password: Option<String>,
    pub nickserv_password: Option<String>,
    pub sasl_password: Option<String>,
    pub verify_tls: Option<bool>,
}

#[derive(Clone, Debug, PartialEq, Eq)]
pub struct NextcloudTalkConfig {
    pub base_url: String,
    pub app_token: String,
    pub webhook_secret: Option<String>,
    pub allowed_users: Vec<String>,
}

#[derive(Clone, Debug, PartialEq, Eq)]
pub struct DingTalkConfig {
    pub client_id: String,
    pub client_secret: String,
    pub allowed_users: Vec<String>,
}

#[derive(Clone, Debug, PartialEq, Eq)]
pub struct QQConfig {
    pub app_id: String,
    pub app_secret: String,
    pub allowed_users: Vec<String>,
}

#[derive(Clone, Debug, PartialEq, Eq)]
pub struct LarkConfig {
    pub app_id: String,
    pub app_secret: String,
    pub encrypt_key: Option<String>,
    pub verification_token: Option<String>,
    pub allowed_users: Vec<String>,
    pub mention_only: bool,
    pub use_feishu: bool,
    pub receive_mode: LarkReceiveMode,
    pub port: Option<u16>,
}

#[derive(Clone, Debug, PartialEq, Eq)]
pub struct FeishuConfig {
    pub app_id: String,
    pub app_secret: String,
    pub encrypt_key: Option<String>,
    pub verification_token: Option<String>,
    pub allowed_users: Vec<String>,
    pub receive_mode: LarkReceiveMode,
    pub port: Option<u16>,
}

#[derive(Clone, Debug, PartialEq, Eq)]
pub struct NostrConfig {
    pub private_key: String,
    pub relays: Vec<String>,
    pub allowed_pubkeys: Vec<String>,
}

/// One optional section per messaging channel, beside the always-available CLI.
#[derive(Clone, Debug, PartialEq, Eq)]
pub struct ChannelsConfig {
    pub cli: bool,
    pub telegram: Option<TelegramConfig>,
    pub discord: Option<DiscordConfig>,
    pub slack: Option<SlackConfig>,
    pub webhook: Option<WebhookConfig>,
    pub imessage: Option<IMessageConfig>,
    pub matrix: Option<MatrixConfig>,
    pub signal: Option<SignalConfig>,
    pub whatsapp: Option<WhatsAppConfig>,
    pub linq: Option<LinqConfig>,
    pub irc: Option<IrcConfig>,
    pub nextcloud_talk: Option<NextcloudTalkConfig>,
    pub dingtalk: Option<DingTalkConfig>,
    pub qq: Option<QQConfig>,
    pub lark: Option<LarkConfig>,
    pub feishu: Option<FeishuConfig>,
    pub nostr: Option<NostrConfig>,
}

impl ChannelsConfig {
    /// No channel section is populated.
    pub open spec fn no_channel(&self) -> bool {
        &&& self.telegram is None
        &&& self.discord is None
        &&& self.slack is None
        &&& self.webhook is None
        &&& self.imessage is None
        &&& self.matrix is None
        &&& self.signal is None
        &&& self.whatsapp is None
        &&& self.linq is None
        &&& self.irc is None
        &&& self.nextcloud_talk is None
        &&& self.dingtalk is None
        &&& self.qq is None
        &&& self.lark is None
        &&& self.feishu is None
        &&& self.nostr is None
    }

    /// The CLI alone: CLI enabled, no channel section.
    pub fn cli_only() -> (r: ChannelsConfig)
        ensures
            r.cli,
            r.no_channel(),
    {
        ChannelsConfig {
            cli: true,
            telegram: None,
            discord: None,
            slack: None,
            webhook: None,
            imessage: None,
            matrix: None,
            signal: None,
            whatsapp: None,
            linq: None,
            irc: None,
            nextcloud_talk: None,
            dingtalk: None,
            qq: None,
            lark: None,
            feishu: None,
            nostr: None,
        }
    }

    /// Whether some channel besides the CLI is configured.
    pub fn any_channel(&self) -> (r: bool)
        ensures
            r == !self.no_channel(),
    {
        self.telegram.is_some() || self.discord.is_some() || self.slack.is_some()
            || self.webhook.is_some() || self.imessage.is_some() || self.matrix.is_some()
            || self.signal.is_some() || self.whatsapp.is_some() || self.linq.is_some()
            || self.irc.is_some() || self.nextcloud_talk.is_some() || self.dingtalk.is_some()
            || self.qq.is_some() || self.lark.is_some() || self.feishu.is_some()
            || self.nostr.is_some()
    }
}

#[derive(Clone, Debug, PartialEq, Eq)]
pub struct CloudflareTunnelConfig {
    pub token: String,
}

#[derive(Clone, Debug, PartialEq, Eq)]
pub struct TailscaleTunnelConfig {
    pub funnel: bool,
    pub hostname: Option<String>,
}

#[derive(Clone, Debug, PartialEq, Eq)]
pub struct NgrokTunnelConfig {
    pub auth_token: String,
    pub domain: Option<String>,
}

#[derive(Clone, Debug, PartialEq, Eq)]
pub struct CustomTunnelConfig {
    pub start_command: String,
    pub health_url: Option<String>,
    pub url_pattern: Option<String>,
}

/// The tunnel section: a provider tag and at most one provider-specific part.
#[derive(Clone, Debug, PartialEq, Eq)]
pub struct TunnelConfig {
    pub provider: String,
    pub cloudflare: Option<CloudflareTunnelConfig>,
    pub tailscale: Option<TailscaleTunnelConfig>,
    pub ngrok: Option<NgrokTunnelConfig>,
    pub custom: Option<CustomTunnelConfig>,
}

impl TunnelConfig {
    /// No tunnel: provider `"none"`, no provider-specific part.
    pub fn disabled() -> (r: TunnelConfig)
        ensures
            r.provider@ == "none"@,
            r.cloudflare is None,
            r.tailscale is None,
            r.ngrok is None,
            r.custom is None,
    {
        TunnelConfig {
            provider: String::from_str("none"),
            cloudflare: None,
            tailscale: None,
            ngrok: None,
            custom: None,
        }
    }
}

#[derive(Clone, Debug, PartialEq, Eq)]
pub struct ComposioConfig {
    pub enabled: bool,
    pub api_key: Option<String>,
    pub entity_id: String,
}

impl ComposioConfig {
    /// Composio switched off, with no key and the `"default"` entity.
    pub fn disabled() -> (r: ComposioConfig)
        ensures
            !r.enabled,
            r.api_key is None,
            r.entity_id@ == "default"@,
    {
        ComposioConfig { enabled: false, api_key: None, entity_id: String::from_str("default") }
    }
}

#[derive(Clone, Debug, PartialEq, Eq)]
pub struct SecretsConfig {
    pub encrypt: bool,
}

/// The hardware section, as the hardware collaborator derives it from the discovered devices
/// and the wizard's choice.
#[derive(Clone, Debug, PartialEq, Eq)]
pub struct HardwareConfig {
    pub enabled: bool,
    pub transport: String,
    pub serial_port: Option<String>,
    pub baud_rate: u32,
    pub probe_target: Option<String>,
    pub workspace_datasheets: bool,
}

impl HardwareConfig {
    /// Software only: no device, no transport.
    pub fn software_only() -> (r: HardwareConfig)
        ensures
            !r.enabled,
            r.transport@ == "none"@,
            r.serial_port is None,
            r.probe_target is None,
            !r.workspace_datasheets,
    {
        HardwareConfig {
            enabled: false,
            transport: String::from_str("none"),
            serial_port: None,
            baud_rate: 115200,
            probe_target: None,
            workspace_datasheets: false,
        }
    }
}

/// The memory section. Retrieval weights are kept in thousandths.
#[derive(Clone, Debug, PartialEq, Eq)]
pub struct MemoryConfig {
    pub backend: String,
    pub auto_save: bool,
    pub hygiene_enabled: bool,
    pub archive_after_days: u32,
    pub purge_after_days: u32,
    pub conversation_retention_days: u32,
    pub embedding_provider: String,
    pub embedding_model: String,
    pub embedding_dimensions: u32,
    pub vector_weight_milli: u32,
    pub keyword_weight_milli: u32,
    pub min_relevance_score_milli: u32,
    pub embedding_cache_size: u32,
    pub chunk_max_tokens: u32,
    pub response_cache_enabled: bool,
    pub response_cache_ttl_minutes: u32,
    pub response_cache_max_entries: u32,
    pub snapshot_enabled: bool,
    pub snapshot_on_hygiene: bool,
    pub auto_hydrate: bool,
    pub sqlite_open_timeout_secs: Option<u64>,
}

/// The persisted configuration document.
#[derive(Clone, Debug, PartialEq, Eq)]
pub struct ConfigDocument {
    pub workspace_dir: String,
    pub config_path: String,
    pub default_provider: Option<String>,
    pub default_model: Option<String>,
    pub api_key: Option<String>,
    pub api_url: Option<String>,
    pub channels_config: ChannelsConfig,
    pub tunnel: TunnelConfig,
    pub composio: ComposioConfig,
    pub secrets: SecretsConfig,
    pub hardware: HardwareConfig,
    pub memory: MemoryConfig,
}

} // verus!
