//! The channel answers: which channel was chosen, and the section built from its two fields.
use vstd::prelude::*;

use crate::config::{
    ChannelsConfig, DingTalkConfig, DiscordConfig, FeishuConfig, IMessageConfig, IrcConfig,
    LarkConfig, LarkReceiveMode, LinqConfig, MatrixConfig, NextcloudTalkConfig, NostrConfig,
    QQConfig, SignalConfig, SlackConfig, StreamMode, TelegramConfig, WebhookConfig,
    WhatsAppConfig,
};
use crate::state::{channel_at, selected_or, App, ChannelChoice};
use crate::text::{csv_list, parse_list_csv, parse_port, parse_u16, trimmed};

verus! {

/// The allow-list that admits everyone.
pub open spec fn everyone() -> Seq<Seq<char>> {
    seq!["*"@]
}

/// `o` holds `s`, or nothing where `s` is empty.
pub open spec fn optional_text(o: Option<String>, s: Seq<char>) -> bool {
    if s.len() == 0 {
        o is None
    } else {
        (o matches Some(x) && x@ == s)
    }
}

/// `t` is `s`, or `default` where `s` is empty.
pub open spec fn text_or(t: String, s: Seq<char>, default: Seq<char>) -> bool {
    t@ == if s.len() == 0 {
        default
    } else {
        s
    }
}

pub open spec fn telegram_from(c: TelegramConfig, token: Seq<char>, aux: Seq<char>) -> bool {
    &&& c.bot_token@ == token
    &&& c.allowed_users.deep_view() == csv_list(aux)
    &&& c.stream_mode == StreamMode::Off
    &&& c.draft_update_interval_ms == 1000
    &&& !c.interrupt_on_new_message
    &&& !c.mention_only
}

pub open spec fn discord_from(c: DiscordConfig, token: Seq<char>, aux: Seq<char>) -> bool {
    &&& c.bot_token@ == token
    &&& c.guild_id is None
    &&& c.allowed_users.deep_view() == csv_list(aux)
    &&& !c.listen_to_bots
    &&& !c.mention_only
}

pub open spec fn slack_from(c: SlackConfig, token: Seq<char>, aux: Seq<char>) -> bool {
    &&& c.bot_token@ == token
    &&& c.app_token is None
    &&& c.channel_id is None
    &&& c.allowed_users.deep_view() == csv_list(aux)
}

pub open spec fn webhook_from(c: WebhookConfig, token: Seq<char>, aux: Seq<char>) -> bool {
    &&& c.port == match parse_u16(token) {
        Some(p) => p,
        None => 8081u16,
    }
    &&& optional_text(c.secret, aux)
}

pub open spec fn matrix_from(c: MatrixConfig, token: Seq<char>, aux: Seq<char>) -> bool {
    &&& text_or(c.homeserver, aux, "https://matrix.org"@)
    &&& c.access_token@ == token
    &&& c.user_id is None
    &&& c.device_id is None
    &&& c.room_id@ == "!zeroclaw:matrix.org"@
    &&& c.allowed_users.deep_view() == everyone()
}

pub open spec fn signal_from(c: SignalConfig, token: Seq<char>, aux: Seq<char>) -> bool {
    &&& c.http_url@ == "http://127.0.0.1:8686"@
    &&& c.account@ == token
    &&& optional_text(c.group_id, aux)
    &&& c.allowed_from.deep_view() == everyone()
    &&& !c.ignore_attachments
    &&& c.ignore_stories
}

pub open spec fn whatsapp_from(c: WhatsAppConfig, token: Seq<char>, aux: Seq<char>) -> bool {
    &&& optional_text(c.access_token, token)
    &&& optional_text(c.phone_number_id, aux)
    &&& (c.verify_token matches Some(v) && v@ == "zeroclaw"@)
    &&& c.app_secret is None
    &&& c.session_path is None
    &&& c.pair_phone is None
    &&& c.pair_code is None
    &&& c.allowed_numbers.deep_view() == everyone()
}

pub open spec fn linq_from(c: LinqConfig, token: Seq<char>, aux: Seq<char>) -> bool {
    &&& c.api_token@ == token
    &&& text_or(c.from_phone, aux, "+10000000000"@)
    &&& c.signing_secret is None
    &&& c.allowed_senders.deep_view() == everyone()
}

pub open spec fn irc_from(c: IrcConfig, token: Seq<char>, aux: Seq<char>) -> bool {
    &&& text_or(c.server, token, "irc.libera.chat"@)
    &&& c.port == 6697
    &&& text_or(c.nickname, aux, "zeroclaw"@)
    &&& c.username is None
    &&& c.channels.deep_view() == seq!["#general"@]
    &&& c.allowed_users.deep_view() == everyone()
    &&& c.server_password is None
    &&& c.nickserv_password is None
    &&& c.sasl_password is None
    &&& c.verify_tls == Some(true)
}

pub open spec fn nextcloud_from(c: NextcloudTalkConfig, token: Seq<char>, aux: Seq<char>) -> bool {
    &&& c.base_url@ == token
    &&& c.app_token@ == aux
    &&& c.webhook_secret is None
    &&& c.allowed_users.deep_view() == everyone()
}

pub open spec fn dingtalk_from(c: DingTalkConfig, token: Seq<char>, aux: Seq<char>) -> bool {
    &&& c.client_id@ == token
    &&& c.client_secret@ == aux
    &&& c.allowed_users.deep_view() == everyone()
}

pub open spec fn qq_from(c: QQConfig, token: Seq<char>, aux: Seq<char>) -> bool {
    &&& c.app_id@ == token
    &&& c.app_secret@ == aux
    &&& c.allowed_users.deep_view() == everyone()
}

pub open spec fn lark_from(c: LarkConfig, token: Seq<char>, aux: Seq<char>) -> bool {
    &&& c.app_id@ == token
    &&& c.app_secret@ == aux
    &&& c.encrypt_key is None
    &&& c.verification_token is None
    &&& c.allowed_users.deep_view() == everyone()
    &&& !c.mention_only
    &&& !c.use_feishu
    &&& c.receive_mode == LarkReceiveMode::Websocket
    &&& c.port is None
}

pub open spec fn feishu_from(c: FeishuConfig, token: Seq<char>, aux: Seq<char>) -> bool {
    &&& c.app_id@ == token
    &&& c.app_secret@ == aux
    &&& c.encrypt_key is None
    &&& c.verification_token is None
    &&& c.allowed_users.deep_view() == everyone()
    &&& c.receive_mode == LarkReceiveMode::Websocket
    &&& c.port is None
}

pub open spec fn nostr_from(
    c: NostrConfig,
    token: Seq<char>,
    aux: Seq<char>,
    relays: Seq<Seq<char>>,
) -> bool {
    &&& c.private_key@ == token
    &&& c.relays.deep_view() == relays
    &&& c.allowed_pubkeys.deep_view() == if aux.len() == 0 {
        everyone()
    } else {
        csv_list(aux)
    }
}

/// `new` is `old` with the section of `choice` built from the trimmed `token` and `aux` fields;
/// Telegram, Discord and Slack get a section only when a token was given. iMessage contacts
/// are typed into the token field, so its allow-list comes from `token`.
pub open spec fn channel_applied(
    old: ChannelsConfig,
    new: ChannelsConfig,
    choice: ChannelChoice,
    token: Seq<char>,
    aux: Seq<char>,
    relays: Seq<Seq<char>>,
) -> bool {
    match choice {
        ChannelChoice::CliOnly => new == old,
        ChannelChoice::Telegram => if token.len() == 0 {
            new == old
        } else {
            new == (ChannelsConfig { telegram: new.telegram, ..old }) && (match new.telegram {
                Some(c) => telegram_from(c, token, aux),
                None => false,
            })
        },
        ChannelChoice::Discord => if token.len() == 0 {
            new == old
        } else {
            new == (ChannelsConfig { discord: new.discord, ..old }) && (match new.discord {
                Some(c) => discord_from(c, token, aux),
                None => false,
            })
        },
        ChannelChoice::Slack => if token.len() == 0 {
            new == old
        } else {
            new == (ChannelsConfig { slack: new.slack, ..old }) && (match new.slack {
                Some(c) => slack_from(c, token, aux),
                None => false,
            })
        },
        ChannelChoice::Webhook => new == (ChannelsConfig { webhook: new.webhook, ..old }) && (match new.webhook {
                Some(c) => webhook_from(c, token, aux),
                None => false,
            }),
        ChannelChoice::IMessage => new == (ChannelsConfig { imessage: new.imessage, ..old }) && (match new.imessage {
                Some(c) => c.allowed_contacts.deep_view() == csv_list(token),
                None => false,
            }),
        ChannelChoice::Matrix => new == (ChannelsConfig { matrix: new.matrix, ..old }) && (match new.matrix {
                Some(c) => matrix_from(c, token, aux),
                None => false,
            }),
        ChannelChoice::Signal => new == (ChannelsConfig { signal: new.signal, ..old }) && (match new.signal {
                Some(c) => signal_from(c, token, aux),
                None => false,
            }),
        ChannelChoice::WhatsApp => new == (ChannelsConfig { whatsapp: new.whatsapp, ..old }) && (match new.whatsapp {
                Some(c) => whatsapp_from(c, token, aux),
                None => false,
            }),
        ChannelChoice::Linq => new == (ChannelsConfig { linq: new.linq, ..old }) && (match new.linq {
                Some(c) => linq_from(c, token, aux),
                None => false,
            }),
        ChannelChoice::Irc => new == (ChannelsConfig { irc: new.irc, ..old }) && (match new.irc {
                Some(c) => irc_from(c, token, aux),
                None => false,
            }),
        ChannelChoice::NextcloudTalk => new == (ChannelsConfig { nextcloud_talk: new.nextcloud_talk, ..old }) && (match new.nextcloud_talk {
                Some(c) => nextcloud_from(c, token, aux),
                None => false,
            }),
        ChannelChoice::DingTalk => new == (ChannelsConfig { dingtalk: new.dingtalk, ..old }) && (match new.dingtalk {
                Some(c) => dingtalk_from(c, token, aux),
                None => false,
            }),
        ChannelChoice::QqOfficial => new == (ChannelsConfig { qq: new.qq, ..old }) && (match new.qq {
                Some(c) => qq_from(c, token, aux),
                None => false,
            }),
        ChannelChoice::Lark => new == (ChannelsConfig { lark: new.lark, ..old }) && (match new.lark {
                Some(c) => lark_from(c, token, aux),
                None => false,
            }),
        ChannelChoice::Feishu => new == (ChannelsConfig { feishu: new.feishu, ..old }) && (match new.feishu {
                Some(c) => feishu_from(c, token, aux),
                None => false,
            }),
        ChannelChoice::Nostr => new == (ChannelsConfig { nostr: new.nostr, ..old }) && (match new.nostr {
                Some(c) => nostr_from(c, token, aux, relays),
                None => false,
            }),
    }
}

/// The section of `choice` is the only one that may be populated.
pub open spec fn only_channel(cfg: ChannelsConfig, choice: ChannelChoice) -> bool {
    &&& (cfg.telegram is Some ==> choice == ChannelChoice::Telegram)
    &&& (cfg.discord is Some ==> choice == ChannelChoice::Discord)
    &&& (cfg.slack is Some ==> choice == ChannelChoice::Slack)
    &&& (cfg.webhook is Some ==> choice == ChannelChoice::Webhook)
    &&& (cfg.imessage is Some ==> choice == ChannelChoice::IMessage)
    &&& (cfg.matrix is Some ==> choice == ChannelChoice::Matrix)
    &&& (cfg.signal is Some ==> choice == ChannelChoice::Signal)
    &&& (cfg.whatsapp is Some ==> choice == ChannelChoice::WhatsApp)
    &&& (cfg.linq is Some ==> choice == ChannelChoice::Linq)
    &&& (cfg.irc is Some ==> choice == ChannelChoice::Irc)
    &&& (cfg.nextcloud_talk is Some ==> choice == ChannelChoice::NextcloudTalk)
    &&& (cfg.dingtalk is Some ==> choice == ChannelChoice::DingTalk)
    &&& (cfg.qq is Some ==> choice == ChannelChoice::QqOfficial)
    &&& (cfg.lark is Some ==> choice == ChannelChoice::Lark)
    &&& (cfg.feishu is Some ==> choice == ChannelChoice::Feishu)
    &&& (cfg.nostr is Some ==> choice == ChannelChoice::Nostr)
}

/// The channel at position `i` of the channel menu.
pub fn channel_for_index(i: usize) -> (r: ChannelChoice)
    ensures
        r == channel_at(i),
{
    match i {
        1 => ChannelChoice::Telegram,
        2 => ChannelChoice::Discord,
        3 => ChannelChoice::Slack,
        4 => ChannelChoice::IMessage,
        5 => ChannelChoice::Matrix,
        6 => ChannelChoice::Signal,
        7 => ChannelChoice::WhatsApp,
        8 => ChannelChoice::Linq,
        9 => ChannelChoice::Irc,
        10 => ChannelChoice::Webhook,
        11 => ChannelChoice::NextcloudTalk,
        12 => ChannelChoice::DingTalk,
        13 => ChannelChoice::QqOfficial,
        14 => ChannelChoice::Lark,
        15 => ChannelChoice::Feishu,
        16 => ChannelChoice::Nostr,
        _ => ChannelChoice::CliOnly,
    }
}

fn everyone_list() -> (r: Vec<String>)
    ensures
        r.deep_view() == everyone(),
{
    let r = vec![String::from_str("*")];
    proof {
        assert(r.deep_view() =~= everyone());
    }
    r
}

fn copy_texts(v: &Vec<String>) -> (r: Vec<String>)
    ensures
        r.deep_view() == v.deep_view(),
{
    let mut out: Vec<String> = Vec::new();
    let mut i: usize = 0;
    while i < v.len()
        invariant
            i <= v@.len(),
            out@.len() == i,
            forall|k: int| 0 <= k < i ==> (#[trigger] out@[k])@ == v@[k]@,
        decreases v@.len() - i,
    {
        out.push(v[i].clone());
        i = i + 1;
    }
    proof {
        assert(out.deep_view() =~= v.deep_view());
    }
    out
}

/// `s`, or nothing where it is empty.
pub(crate) fn optional(s: String) -> (r: Option<String>)
    ensures
        optional_text(r, s@),
{
    if s.unicode_len() == 0 {
        None
    } else {
        Some(s)
    }
}

fn text_or_default(s: String, default: &str) -> (r: String)
    ensures
        text_or(r, s@, default@),
{
    if s.unicode_len() == 0 {
        String::from_str(default)
    } else {
        s
    }
}

impl App {
    /// Takes the channel under the menu cursor and starts its answers afresh: CLI enabled, no
    /// channel section.
    pub fn apply_channel_choice(&mut self)
        ensures
            final(self).channel_choice == channel_at(selected_or(old(self).channel_list, 0)),
            final(self).channels_config.cli,
            final(self).channels_config.no_channel(),
            *final(self) == (App {
                channel_choice: final(self).channel_choice,
                channels_config: final(self).channels_config,
                ..*old(self)
            }),
    {
        let selected = match self.channel_list {
            Some(i) => i,
            None => 0,
        };
        self.channel_choice = channel_for_index(selected);
        self.channels_config = ChannelsConfig::cli_only();
    }

    /// Builds the section of the chosen channel from the token and auxiliary fields.
    pub fn apply_channel_token(&mut self, relays: &Vec<String>)
        ensures
            channel_applied(
                old(self).channels_config,
                final(self).channels_config,
                old(self).channel_choice,
                trimmed(old(self).channel_token_input@),
                trimmed(old(self).channel_aux_input@),
                relays.deep_view(),
            ),
            *final(self) == (App { channels_config: final(self).channels_config, ..*old(self) }),
    {
        let token = Self::text_value(self.channel_token_input.as_str());
        let aux = Self::text_value(self.channel_aux_input.as_str());
        let allowed_users = parse_list_csv(aux.as_str());
        match self.channel_choice {
            ChannelChoice::Telegram => {
                if token.unicode_len() > 0 {
                    self.channels_config.telegram = Some(
                        TelegramConfig {
                            bot_token: token,
                            allowed_users,
                            stream_mode: StreamMode::Off,
                            draft_update_interval_ms: 1000,
                            interrupt_on_new_message: false,
                            mention_only: false,
                        },
                    );
                }
            },
            ChannelChoice::Discord => {
                if token.unicode_len() > 0 {
                    self.channels_config.discord = Some(
                        DiscordConfig {
                            bot_token: token,
                            guild_id: None,
                            allowed_users,
                            listen_to_bots: false,
                            mention_only: false,
                        },
                    );
                }
            },
            ChannelChoice::Slack => {
                if token.unicode_len() > 0 {
                    self.channels_config.slack = Some(
                        SlackConfig {
                            bot_token: token,
                            app_token: None,
                            channel_id: None,
                            allowed_users,
                        },
                    );
                }
            },
            ChannelChoice::Webhook => {
                let port = match parse_port(token.as_str()) {
                    Some(p) => p,
                    None => 8081,
                };
                self.channels_config.webhook = Some(
                    WebhookConfig { port, secret: optional(aux) },
                );
            },
            ChannelChoice::IMessage => {
                self.channels_config.imessage = Some(
                    IMessageConfig { allowed_contacts: parse_list_csv(token.as_str()) },
                );
            },
            ChannelChoice::Matrix => {
                self.channels_config.matrix = Some(
                    MatrixConfig {
                        homeserver: text_or_default(aux, "https://matrix.org"),
                        access_token: token,
                        user_id: None,
                        device_id: None,
                        room_id: String::from_str("!zeroclaw:matrix.org"),
                        allowed_users: everyone_list(),
                    },
                );
            },
            ChannelChoice::Signal => {
                self.channels_config.signal = Some(
                    SignalConfig {
                        http_url: String::from_str("http://127.0.0.1:8686"),
                        account: token,
                        group_id: optional(aux),
                        allowed_from: everyone_list(),
                        ignore_attachments: false,
                        ignore_stories: true,
                    },
                );
            },
            ChannelChoice::WhatsApp => {
                self.channels_config.whatsapp = Some(
                    WhatsAppConfig {
                        access_token: optional(token),
                        phone_number_id: optional(aux),
                        verify_token: Some(String::from_str("zeroclaw")),
                        app_secret: None,
                        session_path: None,
                        pair_phone: None,
                        pair_code: None,
                        allowed_numbers: everyone_list(),
                    },
                );
            },
            ChannelChoice::Linq => {
                self.channels_config.linq = Some(
                    LinqConfig {
                        api_token: token,
                        from_phone: text_or_default(aux, "+10000000000"),
                        signing_secret: None,
                        allowed_senders: everyone_list(),
                    },
                );
            },
            ChannelChoice::Irc => {
                let channels = vec![String::from_str("#general")];
                proof {
                    assert(channels.deep_view() =~= seq!["#general"@]);
                }
                self.channels_config.irc = Some(
                    IrcConfig {
                        server: text_or_default(token, "irc.libera.chat"),
                        port: 6697,
                        nickname: text_or_default(aux, "zeroclaw"),
                        username: None,
                        channels,
                        allowed_users: everyone_list(),
                        server_password: None,
                        nickserv_password: None,
                        sasl_password: None,
                        verify_tls: Some(true),
                    },
                );
            },
            ChannelChoice::NextcloudTalk => {
                self.channels_config.nextcloud_talk = Some(
                    NextcloudTalkConfig {
                        base_url: token,
                        app_token: aux,
                        webhook_secret: None,
                        allowed_users: everyone_list(),
                    },
                );
            },
            ChannelChoice::DingTalk => {
                self.channels_config.dingtalk = Some(
                    DingTalkConfig {
                        client_id: token,
                        client_secret: aux,
                        allowed_users: everyone_list(),
                    },
                );
            },
            ChannelChoice::QqOfficial => {
                self.channels_config.qq = Some(
                    QQConfig { app_id: token, app_secret: aux, allowed_users: everyone_list() },
                );
            },
            ChannelChoice::Lark => {
                self.channels_config.lark = Some(
                    LarkConfig {
                        app_id: token,
                        app_secret: aux,
                        encrypt_key: None,
                        verification_token: None,
                        allowed_users: everyone_list(),
                        mention_only: false,
                        use_feishu: false,
                        receive_mode: LarkReceiveMode::Websocket,
                        port: None,
                    },
                );
            },
            ChannelChoice::Feishu => {
                self.channels_config.feishu = Some(
                    FeishuConfig {
                        app_id: token,
                        app_secret: aux,
                        encrypt_key: None,
                        verification_token: None,
                        allowed_users: everyone_list(),
                        receive_mode: LarkReceiveMode::Websocket,
                        port: None,
                    },
                );
            },
            ChannelChoice::Nostr => {
                let allowed_pubkeys = if aux.unicode_len() == 0 {
                    everyone_list()
                } else {
                    allowed_users
                };
                self.channels_config.nostr = Some(
                    NostrConfig { private_key: token, relays: copy_texts(relays), allowed_pubkeys },
                );
            },
            ChannelChoice::CliOnly => {},
        }
    }
}

} // verus!
