use zeroclaw_onboard::catalog::{ProviderCatalog, ProviderModels, ProviderTier};
use zeroclaw_onboard::events::{Intent, Outcome, TextField};
use zeroclaw_onboard::state::{
    App, ChannelChoice, MemoryBackendProfile, OnboardingMode, ToolModeChoice, TunnelChoice,
    WizardEnv, WizardStep, CUSTOM_MODEL_SENTINEL,
};

fn s(v: &str) -> String {
    v.to_string()
}

fn env() -> WizardEnv {
    WizardEnv {
        config_exists: false,
        catalog: ProviderCatalog {
            tiers: vec![
                ProviderTier {
                    label: s("Recommended"),
                    providers: vec![(s("openrouter"), s("OpenRouter")), (s("mistral"), s("Mistral"))],
                },
                ProviderTier {
                    label: s("Local"),
                    providers: vec![(s("ollama"), s("Ollama")), (s("vllm"), s("vLLM"))],
                },
                ProviderTier { label: s("Custom"), providers: vec![] },
            ],
            models: vec![ProviderModels {
                provider: s("openrouter"),
                default_model: s("openrouter/auto"),
                curated: vec![(s("m-b"), s("model b")), (s("m-a"), s("model a"))],
            }],
            fallback_model: s("gpt-5.2"),
        },
        memory_backends: vec![
            MemoryBackendProfile { key: s("sqlite"), auto_save_default: true, uses_sqlite_hygiene: true },
            MemoryBackendProfile { key: s("markdown"), auto_save_default: false, uses_sqlite_hygiene: false },
        ],
        fallback_backend: MemoryBackendProfile {
            key: s("sqlite"),
            auto_save_default: true,
            uses_sqlite_hygiene: true,
        },
        nostr_relays: vec![s("wss://relay.one"), s("wss://relay.two")],
    }
}

fn no_live() -> Result<Vec<String>, String> {
    Ok(vec![])
}

fn app_at(step: WizardStep) -> App {
    let mut app = App::new(false);
    app.step = step;
    app
}

#[test]
fn telegram_token_with_empty_aux_gives_empty_allow_list() {
    let env = env();
    let mut app = app_at(WizardStep::ChannelSelection);
    app.channel_list = Some(1);
    app.next_step(&env, &no_live());
    assert_eq!(app.channel_choice, ChannelChoice::Telegram);
    assert_eq!(app.step, WizardStep::ChannelTokenEntry);
    app.channel_token_input = s("abc123");
    app.next_step(&env, &no_live());
    assert_eq!(app.step, WizardStep::ChannelAuxEntry);
    app.channel_aux_input = s("");
    app.next_step(&env, &no_live());
    assert_eq!(app.step, WizardStep::TunnelSelection);
    let telegram = app.channels_config.telegram.clone().expect("telegram section");
    assert_eq!(telegram.bot_token, "abc123");
    assert!(telegram.allowed_users.is_empty());
    assert_eq!(telegram.draft_update_interval_ms, 1000);
    assert!(app.channels_config.discord.is_none());
    assert!(app.channels_config.cli);
}

#[test]
fn telegram_without_token_adds_no_section() {
    let env = env();
    let mut app = app_at(WizardStep::ChannelAuxEntry);
    app.channel_choice = ChannelChoice::Telegram;
    app.channel_token_input = s("   ");
    app.channel_aux_input = s("alice");
    app.next_step(&env, &no_live());
    assert!(app.channels_config.telegram.is_none());
    assert_eq!(app.step, WizardStep::TunnelSelection);
}

#[test]
fn discord_allow_list_is_split_and_trimmed() {
    let env = env();
    let mut app = app_at(WizardStep::ChannelAuxEntry);
    app.channel_choice = ChannelChoice::Discord;
    app.channel_token_input = s("tok");
    app.channel_aux_input = s(" alice , ,bob,");
    app.next_step(&env, &no_live());
    let discord = app.channels_config.discord.clone().expect("discord section");
    assert_eq!(discord.allowed_users, vec![s("alice"), s("bob")]);
}

#[test]
fn ngrok_tunnel_document() {
    let mut app = App::new(false);
    app.tunnel_choice = TunnelChoice::Ngrok;
    app.tunnel_primary_input = s("tok_1");
    app.tunnel_secondary_input = s("");
    let t = app.tunnel_config();
    assert_eq!(t.provider, "ngrok");
    let ngrok = t.ngrok.expect("ngrok section");
    assert_eq!(ngrok.auth_token, "tok_1");
    assert_eq!(ngrok.domain, None);
    assert!(t.cloudflare.is_none() && t.tailscale.is_none() && t.custom.is_none());
}

#[test]
fn tailscale_and_custom_and_no_tunnel() {
    let mut app = App::new(false);
    app.tunnel_choice = TunnelChoice::Tailscale;
    app.tunnel_toggle = true;
    app.tunnel_secondary_input = s(" host.ts.net ");
    let t = app.tunnel_config();
    assert_eq!(t.provider, "tailscale");
    let ts = t.tailscale.expect("tailscale section");
    assert!(ts.funnel);
    assert_eq!(ts.hostname, Some(s("host.ts.net")));

    app.tunnel_choice = TunnelChoice::Custom;
    app.tunnel_primary_input = s("run-tunnel");
    app.tunnel_secondary_input = s("");
    let t = app.tunnel_config();
    let c = t.custom.expect("custom section");
    assert_eq!(c.start_command, "run-tunnel");
    assert_eq!(c.health_url, None);

    app.tunnel_choice = TunnelChoice::NoTunnel;
    let t = app.tunnel_config();
    assert_eq!(t.provider, "none");
    assert!(t.ngrok.is_none());
}

#[test]
fn vllm_routes_to_endpoint_entry() {
    let env = env();
    let mut app = app_at(WizardStep::ProviderSelection);
    app.current_tier_providers = vec![(s("vllm"), s("vLLM"))];
    app.provider_list = Some(0);
    app.api_url = Some(s("http://old"));
    app.next_step(&env, &no_live());
    assert_eq!(app.step, WizardStep::ProviderEndpointEntry);
    assert_eq!(app.provider, "vllm");
    assert_eq!(app.api_url, None);
}

#[test]
fn hosted_provider_routes_to_api_key() {
    let env = env();
    let mut app = app_at(WizardStep::ProviderSelection);
    app.current_tier_providers = vec![(s("openrouter"), s("OpenRouter"))];
    app.next_step(&env, &no_live());
    assert_eq!(app.step, WizardStep::ApiKeyEntry);
    assert!(!App::needs_provider_endpoint("openrouter"));
    assert!(App::needs_provider_endpoint("llamacpp"));
    assert!(App::needs_provider_endpoint("osaurus"));
}

#[test]
fn provider_cursor_past_list_stays() {
    let env = env();
    let mut app = app_at(WizardStep::ProviderSelection);
    app.current_tier_providers = vec![(s("openrouter"), s("OpenRouter"))];
    app.provider_list = Some(3);
    app.next_step(&env, &no_live());
    assert_eq!(app.step, WizardStep::ProviderSelection);
}

#[test]
fn empty_custom_provider_url_is_a_no_op() {
    let env = env();
    let mut app = app_at(WizardStep::CustomProviderUrlEntry);
    app.custom_provider_url_input = s("");
    let before = app.step;
    app.next_step(&env, &no_live());
    assert_eq!(app.step, before);
    assert_eq!(app.provider, "");
    app.custom_provider_url_input = s("  ///  ");
    app.next_step(&env, &no_live());
    assert_eq!(app.step, WizardStep::CustomProviderUrlEntry);
}

#[test]
fn custom_provider_url_names_provider() {
    let env = env();
    let mut app = app_at(WizardStep::CustomProviderUrlEntry);
    app.custom_provider_url_input = s(" https://api.example.com/v1// ");
    app.next_step(&env, &no_live());
    assert_eq!(app.step, WizardStep::ApiKeyEntry);
    assert_eq!(app.provider, "custom:https://api.example.com/v1");
    assert_eq!(app.api_url, None);
}

#[test]
fn provider_endpoint_is_stored_without_trailing_slash() {
    let env = env();
    let mut app = app_at(WizardStep::ProviderEndpointEntry);
    app.provider_endpoint_input = s("http://localhost:8000/v1/");
    app.next_step(&env, &no_live());
    assert_eq!(app.step, WizardStep::ApiKeyEntry);
    assert_eq!(app.api_url, Some(s("http://localhost:8000/v1")));
}

#[test]
fn tier_without_providers_goes_to_custom_url() {
    let env = env();
    let mut app = app_at(WizardStep::ProviderTierSelection);
    app.provider_tier_list = Some(2);
    app.next_step(&env, &no_live());
    assert_eq!(app.step, WizardStep::CustomProviderUrlEntry);
    let mut app = app_at(WizardStep::ProviderTierSelection);
    app.provider_tier_list = Some(1);
    app.next_step(&env, &no_live());
    assert_eq!(app.step, WizardStep::ProviderSelection);
    assert_eq!(app.current_tier_providers.len(), 2);
    assert_eq!(app.current_tier_providers[1].0, "vllm");
}

#[test]
fn model_menu_merges_curated_and_live() {
    let env = env();
    let mut app = App::new(false);
    app.provider = s("openrouter");
    let mut catalog_env = env;
    catalog_env.catalog.models[0].curated = vec![(s("a"), s("")), (s("b"), s(""))];
    let live: Result<Vec<String>, String> = Ok(vec![s("b"), s(" c "), s("  ")]);
    app.prepare_models(&catalog_env.catalog, &live);
    assert_eq!(app.available_models, vec![s("a"), s("b"), s("c"), s(CUSTOM_MODEL_SENTINEL)]);
    assert_eq!(app.model_list, Some(0));
    assert!(!app.loading);
    assert_eq!(app.status_message, "Loaded live + curated model catalog");
}

#[test]
fn model_menu_is_sorted_and_falls_back_to_default() {
    let env = env();
    let mut app = App::new(false);
    app.provider = s("openrouter");
    app.prepare_models(&env.catalog, &Ok(vec![]));
    assert_eq!(app.available_models, vec![s("m-a"), s("m-b"), s(CUSTOM_MODEL_SENTINEL)]);
    app.prepare_models(&env.catalog, &Err(s("offline")));
    assert_eq!(app.available_models, vec![s("openrouter/auto"), s(CUSTOM_MODEL_SENTINEL)]);
    assert_eq!(app.status_message, "Live fetch unavailable: offline");

    app.provider = s("unknown");
    app.prepare_models(&env.catalog, &Ok(vec![]));
    assert_eq!(app.available_models, vec![s("gpt-5.2"), s(CUSTOM_MODEL_SENTINEL)]);
}

#[test]
fn api_key_step_stores_key_and_builds_menu() {
    let env = env();
    let mut app = app_at(WizardStep::ApiKeyEntry);
    app.provider = s("openrouter");
    app.api_key_input = s("  sk-123 ");
    app.next_step(&env, &Ok(vec![s("live-1")]));
    assert_eq!(app.step, WizardStep::ModelSelection);
    assert_eq!(app.api_key, "sk-123");
    assert_eq!(
        app.available_models,
        vec![s("live-1"), s("m-a"), s("m-b"), s(CUSTOM_MODEL_SENTINEL)]
    );
}

#[test]
fn sentinel_leads_to_custom_model_entry() {
    let env = env();
    let mut app = app_at(WizardStep::ModelSelection);
    app.available_models = vec![s("m-a"), s(CUSTOM_MODEL_SENTINEL)];
    app.model_list = Some(1);
    app.next_step(&env, &no_live());
    assert_eq!(app.step, WizardStep::ModelCustomEntry);
    app.model_custom_input = s("  ");
    app.next_step(&env, &no_live());
    assert_eq!(app.step, WizardStep::ModelCustomEntry);
    app.model_custom_input = s(" my-model ");
    app.next_step(&env, &no_live());
    assert_eq!(app.step, WizardStep::ChannelSelection);
    assert_eq!(app.model, "my-model");
}

#[test]
fn model_selection_stores_model() {
    let env = env();
    let mut app = app_at(WizardStep::ModelSelection);
    app.available_models = vec![s("m-a"), s(CUSTOM_MODEL_SENTINEL)];
    app.model_list = Some(0);
    app.next_step(&env, &no_live());
    assert_eq!(app.step, WizardStep::ChannelSelection);
    assert_eq!(app.model, "m-a");
}

#[test]
fn cli_only_skips_channel_entries() {
    let env = env();
    let mut app = app_at(WizardStep::ChannelSelection);
    app.channel_list = Some(0);
    app.next_step(&env, &no_live());
    assert_eq!(app.channel_choice, ChannelChoice::CliOnly);
    assert_eq!(app.step, WizardStep::TunnelSelection);
}

#[test]
fn imessage_and_webhook_go_through_token_entry() {
    let env = env();
    for (index, choice) in [(4usize, ChannelChoice::IMessage), (10usize, ChannelChoice::Webhook)] {
        let mut app = app_at(WizardStep::ChannelSelection);
        app.channel_list = Some(index);
        app.next_step(&env, &no_live());
        assert_eq!(app.channel_choice, choice);
        assert_eq!(app.step, WizardStep::ChannelTokenEntry);
        app.next_step(&env, &no_live());
        assert_eq!(app.step, WizardStep::ChannelAuxEntry);
    }
}

#[test]
fn channel_selection_past_menu_means_cli() {
    let env = env();
    let mut app = app_at(WizardStep::ChannelSelection);
    app.channel_list = Some(40);
    app.next_step(&env, &no_live());
    assert_eq!(app.channel_choice, ChannelChoice::CliOnly);
    app.channel_list = None;
    app.step = WizardStep::ChannelSelection;
    app.next_step(&env, &no_live());
    assert_eq!(app.channel_choice, ChannelChoice::CliOnly);
}

#[test]
fn channel_selection_clears_earlier_sections() {
    let env = env();
    let mut app = app_at(WizardStep::ChannelAuxEntry);
    app.channel_choice = ChannelChoice::Slack;
    app.channel_token_input = s("xoxb");
    app.next_step(&env, &no_live());
    assert!(app.channels_config.slack.is_some());
    app.step = WizardStep::ChannelSelection;
    app.channel_list = Some(1);
    app.next_step(&env, &no_live());
    assert!(app.channels_config.slack.is_none());
}

fn aux_entry(choice: ChannelChoice, token: &str, aux: &str) -> App {
    let env = env();
    let mut app = app_at(WizardStep::ChannelAuxEntry);
    app.channel_choice = choice;
    app.channel_token_input = s(token);
    app.channel_aux_input = s(aux);
    app.next_step(&env, &no_live());
    app
}

#[test]
fn webhook_port_and_secret() {
    let app = aux_entry(ChannelChoice::Webhook, "9000", "");
    let w = app.channels_config.webhook.clone().expect("webhook section");
    assert_eq!(w.port, 9000);
    assert_eq!(w.secret, None);
    let app = aux_entry(ChannelChoice::Webhook, "not-a-port", "s3cret");
    let w = app.channels_config.webhook.clone().expect("webhook section");
    assert_eq!(w.port, 8081);
    assert_eq!(w.secret, Some(s("s3cret")));
    let app = aux_entry(ChannelChoice::Webhook, "65536", "");
    assert_eq!(app.channels_config.webhook.clone().unwrap().port, 8081);
    let app = aux_entry(ChannelChoice::Webhook, "+80", "");
    assert_eq!(app.channels_config.webhook.clone().unwrap().port, 80);
    let app = aux_entry(ChannelChoice::Webhook, "", "");
    assert_eq!(app.channels_config.webhook.clone().unwrap().port, 8081);
}

#[test]
fn matrix_defaults_homeserver() {
    let app = aux_entry(ChannelChoice::Matrix, "tok", "");
    let m = app.channels_config.matrix.clone().expect("matrix section");
    assert_eq!(m.homeserver, "https://matrix.org");
    assert_eq!(m.access_token, "tok");
    assert_eq!(m.room_id, "!zeroclaw:matrix.org");
    assert_eq!(m.allowed_users, vec![s("*")]);
    let app = aux_entry(ChannelChoice::Matrix, "tok", "https://hs.example");
    assert_eq!(app.channels_config.matrix.clone().unwrap().homeserver, "https://hs.example");
}

#[test]
fn irc_defaults() {
    let app = aux_entry(ChannelChoice::Irc, "", "");
    let irc = app.channels_config.irc.clone().expect("irc section");
    assert_eq!(irc.server, "irc.libera.chat");
    assert_eq!(irc.nickname, "zeroclaw");
    assert_eq!(irc.port, 6697);
    assert_eq!(irc.channels, vec![s("#general")]);
    assert_eq!(irc.verify_tls, Some(true));
}

#[test]
fn signal_whatsapp_linq_sections() {
    let app = aux_entry(ChannelChoice::Signal, "+15550000", "group-1");
    let sig = app.channels_config.signal.clone().expect("signal section");
    assert_eq!(sig.account, "+15550000");
    assert_eq!(sig.group_id, Some(s("group-1")));
    assert_eq!(sig.http_url, "http://127.0.0.1:8686");
    assert!(sig.ignore_stories);

    let app = aux_entry(ChannelChoice::WhatsApp, "", "");
    let wa = app.channels_config.whatsapp.clone().expect("whatsapp section");
    assert_eq!(wa.access_token, None);
    assert_eq!(wa.phone_number_id, None);
    assert_eq!(wa.verify_token, Some(s("zeroclaw")));

    let app = aux_entry(ChannelChoice::Linq, "api", "");
    let linq = app.channels_config.linq.clone().expect("linq section");
    assert_eq!(linq.from_phone, "+10000000000");
    assert_eq!(linq.allowed_senders, vec![s("*")]);
}

#[test]
fn credential_pair_channels() {
    let app = aux_entry(ChannelChoice::NextcloudTalk, "https://cloud", "app-tok");
    let nc = app.channels_config.nextcloud_talk.clone().expect("nextcloud section");
    assert_eq!(nc.base_url, "https://cloud");
    assert_eq!(nc.app_token, "app-tok");
    let app = aux_entry(ChannelChoice::DingTalk, "id", "secret");
    let dt = app.channels_config.dingtalk.clone().expect("dingtalk section");
    assert_eq!((dt.client_id.as_str(), dt.client_secret.as_str()), ("id", "secret"));
    let app = aux_entry(ChannelChoice::QqOfficial, "id", "secret");
    assert_eq!(app.channels_config.qq.clone().unwrap().app_secret, "secret");
    let app = aux_entry(ChannelChoice::Lark, "id", "secret");
    let lark = app.channels_config.lark.clone().expect("lark section");
    assert!(!lark.use_feishu);
    assert_eq!(lark.allowed_users, vec![s("*")]);
    let app = aux_entry(ChannelChoice::Feishu, "id", "secret");
    assert_eq!(app.channels_config.feishu.clone().unwrap().app_id, "id");
}

#[test]
fn imessage_contacts_come_from_token_field() {
    let app = aux_entry(ChannelChoice::IMessage, "+15550001, +15550002", "");
    let im = app.channels_config.imessage.clone().expect("imessage section");
    assert_eq!(im.allowed_contacts, vec![s("+15550001"), s("+15550002")]);
}

#[test]
fn imessage_contacts_typed_at_aux_step_reach_the_section() {
    let env = env();
    let mut app = app_at(WizardStep::ChannelAuxEntry);
    app.channel_choice = ChannelChoice::IMessage;
    let field = app.focused_field().expect("a text field");
    app.set_text(field, s("a@b.c"));
    assert_eq!(app.channel_aux_input, "");
    app.next_step(&env, &no_live());
    let im = app.channels_config.imessage.clone().expect("imessage section");
    assert_eq!(im.allowed_contacts, vec![s("a@b.c")]);
}

#[test]
fn nostr_relays_and_pubkeys() {
    let app = aux_entry(ChannelChoice::Nostr, "nsec1", "");
    let n = app.channels_config.nostr.clone().expect("nostr section");
    assert_eq!(n.private_key, "nsec1");
    assert_eq!(n.relays, vec![s("wss://relay.one"), s("wss://relay.two")]);
    assert_eq!(n.allowed_pubkeys, vec![s("*")]);
    let app = aux_entry(ChannelChoice::Nostr, "nsec1", "npub1,npub2");
    assert_eq!(app.channels_config.nostr.clone().unwrap().allowed_pubkeys, vec![s("npub1"), s("npub2")]);
}

#[test]
fn tunnel_steps_branch_on_choice() {
    let env = env();
    let mut app = app_at(WizardStep::TunnelSelection);
    app.tunnel_list = Some(1);
    app.next_step(&env, &no_live());
    assert_eq!(app.tunnel_choice, TunnelChoice::Cloudflare);
    assert_eq!(app.step, WizardStep::TunnelPrimaryEntry);
    app.next_step(&env, &no_live());
    assert_eq!(app.step, WizardStep::ToolModeSelection);

    let mut app = app_at(WizardStep::TunnelSelection);
    app.tunnel_list = Some(3);
    app.next_step(&env, &no_live());
    app.next_step(&env, &no_live());
    assert_eq!(app.step, WizardStep::TunnelSecondaryEntry);
    app.next_step(&env, &no_live());
    assert_eq!(app.step, WizardStep::ToolModeSelection);

    let mut app = app_at(WizardStep::TunnelSelection);
    app.tunnel_list = Some(0);
    app.next_step(&env, &no_live());
    assert_eq!(app.tunnel_choice, TunnelChoice::NoTunnel);
    assert_eq!(app.step, WizardStep::ToolModeSelection);
}

#[test]
fn tool_mode_hardware_memory_and_style_steps() {
    let env = env();
    let mut app = app_at(WizardStep::ToolModeSelection);
    app.tool_mode_list = Some(1);
    app.next_step(&env, &no_live());
    assert_eq!(app.tool_mode_choice, ToolModeChoice::Composio);
    assert_eq!(app.step, WizardStep::ComposioApiKeyEntry);
    app.next_step(&env, &no_live());
    assert_eq!(app.step, WizardStep::SecretsEncryptChoice);
    app.next_step(&env, &no_live());
    assert_eq!(app.step, WizardStep::HardwareSelection);
    app.hardware_list = None;
    app.next_step(&env, &no_live());
    assert_eq!(app.hardware_choice, 3);
    assert_eq!(app.step, WizardStep::MemorySelection);
    app.memory_list = Some(1);
    app.next_step(&env, &no_live());
    assert_eq!(app.memory_choice, 1);
    assert!(!app.memory_auto_save);
    assert_eq!(app.step, WizardStep::ProjectUserEntry);
    app.next_step(&env, &no_live());
    app.next_step(&env, &no_live());
    app.next_step(&env, &no_live());
    assert_eq!(app.step, WizardStep::ProjectStyleSelection);
    app.project_style_list = Some(6);
    app.next_step(&env, &no_live());
    assert_eq!(app.step, WizardStep::ProjectStyleCustomEntry);
    app.next_step(&env, &no_live());
    assert_eq!(app.step, WizardStep::Confirmation);
    app.next_step(&env, &no_live());
    assert_eq!(app.step, WizardStep::Done);
    app.next_step(&env, &no_live());
    assert_eq!(app.step, WizardStep::Done);
}

#[test]
fn memory_past_menu_uses_fallback_profile() {
    let env = env();
    let mut app = app_at(WizardStep::MemorySelection);
    app.memory_auto_save = false;
    app.memory_list = Some(9);
    app.next_step(&env, &no_live());
    assert_eq!(app.memory_choice, 9);
    assert!(app.memory_auto_save);
}

#[test]
fn welcome_asks_for_mode_when_config_exists() {
    let mut env = env();
    env.config_exists = true;
    let mut app = App::new(false);
    app.next_step(&env, &no_live());
    assert_eq!(app.step, WizardStep::ConfigModeSelection);
    app.mode_list = Some(1);
    app.next_step(&env, &no_live());
    assert_eq!(app.mode, OnboardingMode::UpdateProviderOnly);
    assert_eq!(app.step, WizardStep::WorkspaceSetup);

    let mut forced = App::new(true);
    forced.mode = OnboardingMode::UpdateProviderOnly;
    forced.next_step(&env, &no_live());
    assert_eq!(forced.step, WizardStep::WorkspaceSetup);
    assert_eq!(forced.mode, OnboardingMode::FullOnboarding);
}

#[test]
fn full_session_reaches_done_within_bound() {
    let env = env();
    let mut app = App::new(false);
    let mut confirmations = 0;
    while app.step != WizardStep::Done {
        if let Some(field) = app.focused_field() {
            let line = match field {
                TextField::CustomProviderUrl => "https://llm.example/v1",
                TextField::ProviderEndpoint => "http://localhost:8000/v1",
                TextField::ModelCustom => "custom-model",
                _ => "value",
            };
            app.set_text(field, s(line));
        }
        let outcome = app.handle_intent(&env, &Ok(vec![s("live-model")]), Intent::Confirm);
        confirmations += 1;
        assert!(confirmations <= 27);
        if app.step == WizardStep::Done {
            assert_eq!(outcome, Outcome::Finish);
        }
    }
    assert_eq!(app.provider, "openrouter");
    assert_eq!(app.model, "live-model");
}

#[test]
fn cursor_moves_stop_at_list_ends() {
    let env = env();
    let mut app = app_at(WizardStep::TunnelSelection);
    app.tunnel_list = Some(0);
    assert_eq!(app.handle_intent(&env, &no_live(), Intent::MoveUp), Outcome::Continue);
    assert_eq!(app.tunnel_list, Some(0));
    for _ in 0..10 {
        app.handle_intent(&env, &no_live(), Intent::MoveDown);
    }
    assert_eq!(app.tunnel_list, Some(4));
    app.handle_intent(&env, &no_live(), Intent::MoveUp);
    assert_eq!(app.tunnel_list, Some(3));

    let mut app = app_at(WizardStep::ChannelSelection);
    for _ in 0..40 {
        app.handle_intent(&env, &no_live(), Intent::MoveDown);
    }
    assert_eq!(app.channel_list, Some(16));

    let mut app = app_at(WizardStep::MemorySelection);
    app.memory_list = None;
    app.handle_intent(&env, &no_live(), Intent::MoveDown);
    assert_eq!(app.memory_list, Some(1));
    app.handle_intent(&env, &no_live(), Intent::MoveDown);
    assert_eq!(app.memory_list, Some(1));
}

#[test]
fn toggles_and_cancel() {
    let env = env();
    let mut app = app_at(WizardStep::SecretsEncryptChoice);
    assert!(app.secrets_encrypt);
    app.handle_intent(&env, &no_live(), Intent::ToggleOption);
    assert!(!app.secrets_encrypt);
    assert_eq!(app.handle_intent(&env, &no_live(), Intent::Cancel), Outcome::Cancelled);
    assert_eq!(app.step, WizardStep::SecretsEncryptChoice);

    let mut app = app_at(WizardStep::WorkspaceSetup);
    assert_eq!(app.focused_field(), None);
    app.handle_intent(&env, &no_live(), Intent::ToggleOption);
    assert!(!app.use_default_workspace);
    assert_eq!(app.focused_field(), Some(TextField::Workspace));
}

#[test]
fn imessage_aux_typing_goes_to_token_field() {
    let mut app = app_at(WizardStep::ChannelAuxEntry);
    app.channel_choice = ChannelChoice::IMessage;
    assert_eq!(app.focused_field(), Some(TextField::ChannelToken));
    app.channel_choice = ChannelChoice::Slack;
    assert_eq!(app.focused_field(), Some(TextField::ChannelAux));
    app.set_text(TextField::ChannelAux, s("u1"));
    assert_eq!(app.channel_aux_input, "u1");
    assert_eq!(app.channel_token_input, "");
}

#[test]
fn confirmation_finishes_the_session() {
    let env = env();
    let mut app = app_at(WizardStep::Confirmation);
    assert_eq!(app.handle_intent(&env, &no_live(), Intent::Confirm), Outcome::Finish);
    assert_eq!(app.step, WizardStep::Done);
    let mut app = app_at(WizardStep::Welcome);
    assert_eq!(app.handle_intent(&env, &no_live(), Intent::Confirm), Outcome::Continue);
}

#[test]
fn project_style_text_by_index() {
    let mut app = App::new(false);
    assert!(app.project_style_text().starts_with("Be friendly, human"));
    app.project_style_list = Some(0);
    assert_eq!(app.project_style_text(), "Be direct and concise. Skip pleasantries. Get to the point.");
    app.project_style_list = Some(4);
    assert_eq!(app.project_style_text(), "Be technical and detailed. Thorough explanations, code-first.");
    app.project_style_list = Some(6);
    app.project_style_custom_input = s("  Talk like a pirate ");
    assert_eq!(app.project_style_text(), "Talk like a pirate");
}
