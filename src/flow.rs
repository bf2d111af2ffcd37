//! The step graph: what confirming each step does to the answer store, and where it leads.
use vstd::prelude::*;

use crate::catalog::{
    curated_models_for_provider, default_model_for_provider, get_providers_for_tier,
    ProviderCatalog,
};
use crate::channels::{channel_applied, channel_for_index, optional, optional_text};
use crate::config::{
    CustomTunnelConfig, CloudflareTunnelConfig, NgrokTunnelConfig, TailscaleTunnelConfig,
    TunnelConfig,
};
use crate::laws::lemma_channel_sections_follow_choice;
use crate::state::{
    channel_at, selected_or, sentinel, tunnel_at, App, ChannelChoice, OnboardingMode,
    ToolModeChoice, TunnelChoice, WizardEnv, WizardStep, CUSTOM_MODEL_SENTINEL,
};
use crate::text::{
    lemma_text_lt_total, nonempty_trimmed, same_text, strip_trailing_slashes, strictly_ascending,
    text_less, text_lt, trim, trim_trailing_slashes, trimmed,
};

verus! {

/// The first components of a list of pairs.
pub open spec fn firsts(c: Seq<(Seq<char>, Seq<char>)>) -> Seq<Seq<char>> {
    c.map_values(|p: (Seq<char>, Seq<char>)| p.0)
}

/// The ids that a live listing contributes: each trimmed, the empty ones dropped.
pub open spec fn live_ids(live: Result<Vec<String>, String>) -> Seq<Seq<char>> {
    match live {
        Ok(v) => nonempty_trimmed(v.deep_view()),
        Err(_) => Seq::empty(),
    }
}

/// The models offered for a provider: the curated ids and the live ids together, or the
/// provider's default model alone where both are empty or the live listing failed.
pub open spec fn model_candidates(
    curated: Seq<(Seq<char>, Seq<char>)>,
    live: Result<Vec<String>, String>,
    default_model: Seq<char>,
) -> Set<Seq<char>> {
    let s = firsts(curated).to_set() + live_ids(live).to_set();
    if live is Err || s == Set::<Seq<char>>::empty() {
        set![default_model]
    } else {
        s
    }
}

/// The model menu: the candidates in ascending order, each once, then the custom-model entry.
pub open spec fn is_model_menu(menu: Seq<Seq<char>>, candidates: Set<Seq<char>>) -> bool {
    &&& menu.len() >= 1
    &&& menu.last() == sentinel()
    &&& strictly_ascending(menu.drop_last())
    &&& menu.drop_last().to_set() == candidates
}

/// The text an entry field confirms with: trimmed, trailing slashes removed.
pub open spec fn url_entry(line: Seq<char>) -> Seq<char> {
    strip_trailing_slashes(trimmed(line))
}

/// The step that confirming `a.step` leads to.
pub open spec fn next_of(a: App, env: WizardEnv) -> WizardStep {
    match a.step {
        WizardStep::Welcome => if env.config_exists && !a.force {
            WizardStep::ConfigModeSelection
        } else {
            WizardStep::WorkspaceSetup
        },
        WizardStep::ConfigModeSelection => WizardStep::WorkspaceSetup,
        WizardStep::WorkspaceSetup => WizardStep::ProviderTierSelection,
        WizardStep::ProviderTierSelection => if env.catalog.spec_tier_providers(
            selected_or(a.provider_tier_list, 0) as int,
        ).len() == 0 {
            WizardStep::CustomProviderUrlEntry
        } else {
            WizardStep::ProviderSelection
        },
        WizardStep::ProviderSelection => {
            let idx = selected_or(a.provider_list, 0);
            if idx < a.current_tier_providers@.len() {
                if App::spec_needs_provider_endpoint(a.current_tier_providers@[idx as int].0@) {
                    WizardStep::ProviderEndpointEntry
                } else {
                    WizardStep::ApiKeyEntry
                }
            } else {
                WizardStep::ProviderSelection
            }
        },
        WizardStep::CustomProviderUrlEntry => if url_entry(a.custom_provider_url_input@).len()
            > 0 {
            WizardStep::ApiKeyEntry
        } else {
            WizardStep::CustomProviderUrlEntry
        },
        WizardStep::ProviderEndpointEntry => if url_entry(a.provider_endpoint_input@).len() > 0 {
            WizardStep::ApiKeyEntry
        } else {
            WizardStep::ProviderEndpointEntry
        },
        WizardStep::ApiKeyEntry => WizardStep::ModelSelection,
        WizardStep::ModelSelection => {
            let idx = selected_or(a.model_list, 0);
            if idx < a.available_models@.len() {
                if a.available_models@[idx as int]@ == sentinel() {
                    WizardStep::ModelCustomEntry
                } else {
                    WizardStep::ChannelSelection
                }
            } else {
                WizardStep::ModelSelection
            }
        },
        WizardStep::ModelCustomEntry => if trimmed(a.model_custom_input@).len() > 0 {
            WizardStep::ChannelSelection
        } else {
            WizardStep::ModelCustomEntry
        },
        WizardStep::ChannelSelection => if channel_at(selected_or(a.channel_list, 0))
            == ChannelChoice::CliOnly {
            WizardStep::TunnelSelection
        } else {
            WizardStep::ChannelTokenEntry
        },
        WizardStep::ChannelTokenEntry => if a.channel_choice == ChannelChoice::CliOnly {
            WizardStep::TunnelSelection
        } else {
            WizardStep::ChannelAuxEntry
        },
        WizardStep::ChannelAuxEntry => WizardStep::TunnelSelection,
        WizardStep::TunnelSelection => if tunnel_at(selected_or(a.tunnel_list, 0))
            == TunnelChoice::NoTunnel {
            WizardStep::ToolModeSelection
        } else {
            WizardStep::TunnelPrimaryEntry
        },
        WizardStep::TunnelPrimaryEntry => if a.tunnel_choice == TunnelChoice::Cloudflare {
            WizardStep::ToolModeSelection
        } else {
            WizardStep::TunnelSecondaryEntry
        },
        WizardStep::TunnelSecondaryEntry => WizardStep::ToolModeSelection,
        WizardStep::ToolModeSelection => if selected_or(a.tool_mode_list, 0) == 1 {
            WizardStep::ComposioApiKeyEntry
        } else {
            WizardStep::SecretsEncryptChoice
        },
        WizardStep::ComposioApiKeyEntry => WizardStep::SecretsEncryptChoice,
        WizardStep::SecretsEncryptChoice => WizardStep::HardwareSelection,
        WizardStep::HardwareSelection => WizardStep::MemorySelection,
        WizardStep::MemorySelection => WizardStep::ProjectUserEntry,
        WizardStep::ProjectUserEntry => WizardStep::ProjectTimezoneEntry,
        WizardStep::ProjectTimezoneEntry => WizardStep::ProjectAgentEntry,
        WizardStep::ProjectAgentEntry => WizardStep::ProjectStyleSelection,
        WizardStep::ProjectStyleSelection => if selected_or(a.project_style_list, 1) == 6 {
            WizardStep::ProjectStyleCustomEntry
        } else {
            WizardStep::Confirmation
        },
        WizardStep::ProjectStyleCustomEntry => WizardStep::Confirmation,
        WizardStep::Confirmation => WizardStep::Done,
        WizardStep::Done => WizardStep::Done,
    }
}

/// What confirming `old.step` writes into the answer store; every answer it does not name
/// keeps its value.
pub open spec fn answers_after(
    old: App,
    new: App,
    env: WizardEnv,
    live: Result<Vec<String>, String>,
) -> bool {
    match old.step {
        WizardStep::Welcome => new == (App { step: new.step, mode: new.mode, ..old }) && new.mode
            == if env.config_exists && !old.force {
            old.mode
        } else {
            OnboardingMode::FullOnboarding
        },
        WizardStep::ConfigModeSelection => new == (App { step: new.step, mode: new.mode, ..old })
            && new.mode == if selected_or(old.mode_list, 1) == 0 {
            OnboardingMode::FullOnboarding
        } else {
            OnboardingMode::UpdateProviderOnly
        },
        WizardStep::ProviderTierSelection => new == (App {
            step: new.step,
            current_tier_providers: new.current_tier_providers,
            ..old
        }) && new.current_tier_providers.deep_view() == env.catalog.spec_tier_providers(
            selected_or(old.provider_tier_list, 0) as int,
        ),
        WizardStep::ProviderSelection => {
            let idx = selected_or(old.provider_list, 0);
            if idx < old.current_tier_providers@.len() {
                &&& new == (App {
                    step: new.step,
                    provider: new.provider,
                    api_url: new.api_url,
                    ..old
                })
                &&& new.provider@ == old.current_tier_providers@[idx as int].0@
                &&& new.api_url is None
            } else {
                new == old
            }
        },
        WizardStep::CustomProviderUrlEntry => {
            let u = url_entry(old.custom_provider_url_input@);
            if u.len() > 0 {
                &&& new == (App {
                    step: new.step,
                    provider: new.provider,
                    api_url: new.api_url,
                    ..old
                })
                &&& new.provider@ == "custom:"@ + u
                &&& new.api_url is None
            } else {
                new == old
            }
        },
        WizardStep::ProviderEndpointEntry => {
            let u = url_entry(old.provider_endpoint_input@);
            if u.len() > 0 {
                &&& new == (App { step: new.step, api_url: new.api_url, ..old })
                &&& optional_text(new.api_url, u)
            } else {
                new == old
            }
        },
        WizardStep::ApiKeyEntry => {
            &&& new == (App {
                step: new.step,
                api_key: new.api_key,
                available_models: new.available_models,
                model_list: new.model_list,
                loading: new.loading,
                status_message: new.status_message,
                ..old
            })
            &&& new.api_key@ == trimmed(old.api_key_input@)
            &&& is_model_menu(
                new.available_models.deep_view(),
                model_candidates(
                    env.catalog.spec_curated(old.provider@),
                    live,
                    env.catalog.spec_default_model(old.provider@),
                ),
            )
            &&& new.model_list == Some(0usize)
            &&& !new.loading
        },
        WizardStep::ModelSelection => {
            let idx = selected_or(old.model_list, 0);
            if idx < old.available_models@.len() && old.available_models@[idx as int]@
                != sentinel() {
                &&& new == (App { step: new.step, model: new.model, ..old })
                &&& new.model@ == old.available_models@[idx as int]@
            } else {
                new == (App { step: new.step, ..old })
            }
        },
        WizardStep::ModelCustomEntry => {
            let t = trimmed(old.model_custom_input@);
            if t.len() > 0 {
                &&& new == (App { step: new.step, model: new.model, ..old })
                &&& new.model@ == t
            } else {
                new == old
            }
        },
        WizardStep::ChannelSelection => {
            &&& new == (App {
                step: new.step,
                channel_choice: new.channel_choice,
                channels_config: new.channels_config,
                ..old
            })
            &&& new.channel_choice == channel_at(selected_or(old.channel_list, 0))
            &&& new.channels_config.cli
            &&& new.channels_config.no_channel()
        },
        WizardStep::ChannelAuxEntry => {
            &&& new == (App { step: new.step, channels_config: new.channels_config, ..old })
            &&& channel_applied(
                old.channels_config,
                new.channels_config,
                old.channel_choice,
                trimmed(old.channel_token_input@),
                trimmed(old.channel_aux_input@),
                env.nostr_relays.deep_view(),
            )
        },
        WizardStep::TunnelSelection => new == (App {
            step: new.step,
            tunnel_choice: new.tunnel_choice,
            ..old
        }) && new.tunnel_choice == tunnel_at(selected_or(old.tunnel_list, 0)),
        WizardStep::ToolModeSelection => new == (App {
            step: new.step,
            tool_mode_choice: new.tool_mode_choice,
            ..old
        }) && new.tool_mode_choice == if selected_or(old.tool_mode_list, 0) == 1 {
            ToolModeChoice::Composio
        } else {
            ToolModeChoice::Sovereign
        },
        WizardStep::HardwareSelection => new == (App {
            step: new.step,
            hardware_choice: new.hardware_choice,
            ..old
        }) && new.hardware_choice == selected_or(old.hardware_list, 3),
        WizardStep::MemorySelection => {
            &&& new == (App {
                step: new.step,
                memory_choice: new.memory_choice,
                memory_auto_save: new.memory_auto_save,
                ..old
            })
            &&& new.memory_choice == selected_or(old.memory_list, 0)
            &&& new.memory_auto_save == env.backend_at(new.memory_choice).auto_save_default
        },
        _ => new == (App { step: new.step, ..old }),
    }
}

/// The tunnel section for `choice`, built from the trimmed primary and secondary fields.
pub open spec fn tunnel_from(
    t: TunnelConfig,
    choice: TunnelChoice,
    primary: Seq<char>,
    secondary: Seq<char>,
    toggle: bool,
) -> bool {
    match choice {
        TunnelChoice::NoTunnel => t.provider@ == "none"@ && t.cloudflare is None && t.tailscale is None
            && t.ngrok is None && t.custom is None,
        TunnelChoice::Cloudflare => {
            &&& t.provider@ == "cloudflare"@
            &&& (match t.cloudflare {
                Some(c) => c.token@ == primary,
                None => false,
            })
            &&& t.tailscale is None && t.ngrok is None && t.custom is None
        },
        TunnelChoice::Tailscale => {
            &&& t.provider@ == "tailscale"@
            &&& (match t.tailscale {
                Some(c) => c.funnel == toggle && optional_text(c.hostname, secondary),
                None => false,
            })
            &&& t.cloudflare is None && t.ngrok is None && t.custom is None
        },
        TunnelChoice::Ngrok => {
            &&& t.provider@ == "ngrok"@
            &&& (match t.ngrok {
                Some(c) => c.auth_token@ == primary && optional_text(c.domain, secondary),
                None => false,
            })
            &&& t.cloudflare is None && t.tailscale is None && t.custom is None
        },
        TunnelChoice::Custom => {
            &&& t.provider@ == "custom"@
            &&& (match t.custom {
                Some(c) => c.start_command@ == primary && optional_text(c.health_url, secondary)
                    && c.url_pattern is None,
                None => false,
            })
            &&& t.cloudflare is None && t.tailscale is None && t.ngrok is None
        },
    }
}

/// The communication style at position `sel` of the style menu; the last position takes the
/// custom text.
pub open spec fn style_text(sel: usize, custom: Seq<char>) -> Seq<char> {
    if sel == 0 {
        "Be direct and concise. Skip pleasantries. Get to the point."@
    } else if sel == 1 {
        "Be friendly, human, and conversational. Show warmth and empathy while staying efficient. Use natural contractions."@
    } else if sel == 2 {
        "Be professional and polished. Stay calm, structured, and respectful. Use occasional tone-setting emojis only when appropriate."@
    } else if sel == 3 {
        "Be expressive and playful when appropriate. Use relevant emojis naturally (0-2 max), and keep serious topics emoji-light."@
    } else if sel == 4 {
        "Be technical and detailed. Thorough explanations, code-first."@
    } else if sel == 5 {
        "Adapt to the situation. Default to warm and clear communication; be concise when needed, thorough when it matters."@
    } else {
        trimmed(custom)
    }
}

fn tunnel_for_index(i: usize) -> (r: TunnelChoice)
    ensures
        r == tunnel_at(i),
{
    match i {
        1 => TunnelChoice::Cloudflare,
        2 => TunnelChoice::Tailscale,
        3 => TunnelChoice::Ngrok,
        4 => TunnelChoice::Custom,
        _ => TunnelChoice::NoTunnel,
    }
}

fn selected(sel: Option<usize>, default: usize) -> (r: usize)
    ensures
        r == selected_or(sel, default),
{
    match sel {
        Some(i) => i,
        None => default,
    }
}

/// Adds `s` to an ascending list of distinct texts, keeping it ascending and distinct.
fn insert_sorted(v: &mut Vec<String>, s: String)
    requires
        strictly_ascending(old(v).deep_view()),
    ensures
        strictly_ascending(final(v).deep_view()),
        final(v).deep_view().to_set() == old(v).deep_view().to_set().insert(s@),
{
    let ghost before = v.deep_view();
    let mut i: usize = 0;
    while i < v.len() && text_less(v[i].as_str(), s.as_str())
        invariant
            i <= v@.len(),
            v.deep_view() == before,
            strictly_ascending(before),
            i > 0 ==> text_lt(before[i - 1], s@),
        decreases v@.len() - i,
    {
        i = i + 1;
    }
    if i < v.len() && same_text(v[i].as_str(), s.as_str()) {
        proof {
            assert(before[i as int] == s@);
            assert(before.to_set().insert(s@) =~= before.to_set());
        }
        return;
    }
    proof {
        if i < before.len() {
            lemma_text_lt_total(before[i as int], s@);
        }
    }
    v.insert(i, s);
    proof {
        let after = v.deep_view();
        assert(after =~= before.insert(i as int, s@));
        assert forall|k: int| 0 <= k < after.len() - 1 implies text_lt(
            #[trigger] after[k],
            after[k + 1],
        ) by {
            if k < i - 1 {
                assert(after[k] == before[k] && after[k + 1] == before[k + 1]);
            } else if k == i - 1 {
            } else if k == i {
            } else {
                assert(after[k] == before[k - 1] && after[k + 1] == before[k]);
            }
        }
        assert forall|m: Seq<char>| after.to_set().contains(m) == before.to_set().insert(
            s@,
        ).contains(m) by {
            if after.contains(m) {
                let k = choose|k: int| 0 <= k < after.len() && after[k] == m;
                if k < i {
                    assert(before[k] == m);
                } else if k > i {
                    assert(before[k - 1] == m);
                }
            }
            if before.contains(m) {
                let k = choose|k: int| 0 <= k < before.len() && before[k] == m;
                if k < i {
                    assert(after[k] == m);
                } else {
                    assert(after[k + 1] == m);
                }
            }
            if m == s@ {
                assert(after[i as int] == m);
            }
        }
        assert(after.to_set() =~= before.to_set().insert(s@));
    }
}

/// The model menu for `provider`: its curated models and live listing, in ascending order
/// and each once, then the custom-model entry.
pub fn build_model_menu(
    catalog: &ProviderCatalog,
    provider: &str,
    live: &Result<Vec<String>, String>,
) -> (r: Vec<String>)
    ensures
        is_model_menu(
            r.deep_view(),
            model_candidates(
                catalog.spec_curated(provider@),
                *live,
                catalog.spec_default_model(provider@),
            ),
        ),
{
    if live.is_err() {
        let mut menu = vec![default_model_for_provider(catalog, provider)];
        let ghost body = menu.deep_view();
        proof {
            assert(body.to_set() =~= set![body[0]]) by {
                assert forall|m: Seq<char>| body.contains(m) implies m == body[0] by {}
                assert(body.contains(body[0]));
            }
        }
        menu.push(String::from_str(CUSTOM_MODEL_SENTINEL));
        proof {
            assert(menu.deep_view().drop_last() =~= body);
        }
        return menu;
    }
    let curated = curated_models_for_provider(catalog, provider);
    let ghost cur = curated.deep_view();
    let mut candidates: Vec<String> = Vec::new();
    proof {
        assert(candidates.deep_view() =~= Seq::<Seq<char>>::empty());
        assert(firsts(cur).subrange(0, 0) =~= Seq::<Seq<char>>::empty());
    }
    let mut i: usize = 0;
    while i < curated.len()
        invariant
            cur == curated.deep_view(),
            i <= curated@.len(),
            strictly_ascending(candidates.deep_view()),
            candidates.deep_view().to_set() == firsts(cur).subrange(0, i as int).to_set(),
        decreases curated@.len() - i,
    {
        let id = curated[i].0.clone();
        insert_sorted(&mut candidates, id);
        proof {
            assert(firsts(cur).subrange(0, i + 1) =~= firsts(cur).subrange(0, i as int).push(
                cur[i as int].0,
            ));
            firsts(cur).subrange(0, i as int).lemma_push_to_set_commute(cur[i as int].0);
        }
        i = i + 1;
    }
    proof {
        assert(firsts(cur).subrange(0, cur.len() as int) =~= firsts(cur));
    }
    match live {
        Ok(models) => {
            let ghost lv = models.deep_view();
            let mut j: usize = 0;
            proof {
                assert(lv.subrange(0, 0) =~= Seq::<Seq<char>>::empty());
            }
            while j < models.len()
                invariant
                    lv == models.deep_view(),
                    j <= lv.len(),
                    strictly_ascending(candidates.deep_view()),
                    candidates.deep_view().to_set() == firsts(cur).to_set() + nonempty_trimmed(
                        lv.subrange(0, j as int),
                    ).to_set(),
                decreases lv.len() - j,
            {
                let t = trim(models[j].as_str());
                let ghost prev = nonempty_trimmed(lv.subrange(0, j as int));
                proof {
                    let p = lv.subrange(0, j + 1);
                    assert(p.drop_last() =~= lv.subrange(0, j as int));
                    assert(p.last() == lv[j as int]);
                }
                if t.unicode_len() > 0 {
                    let ghost tv = t@;
                    insert_sorted(&mut candidates, t);
                    proof {
                        prev.lemma_push_to_set_commute(tv);
                        assert((firsts(cur).to_set() + prev.to_set()).insert(tv) =~= firsts(
                            cur,
                        ).to_set() + prev.push(tv).to_set());
                    }
                }
                j = j + 1;
            }
            proof {
                assert(lv.subrange(0, lv.len() as int) =~= lv);
            }
        },
        Err(_) => {
            proof {
                assert(firsts(cur).to_set() + Seq::<Seq<char>>::empty().to_set() =~= firsts(
                    cur,
                ).to_set());
            }
        },
    }
    let ghost s = firsts(cur).to_set() + live_ids(*live).to_set();
    if candidates.len() == 0 {
        proof {
            assert(candidates.deep_view().to_set() =~= Set::<Seq<char>>::empty());
        }
        let d = default_model_for_provider(catalog, provider);
        candidates.push(d);
        proof {
            assert(candidates.deep_view().to_set() =~= set![candidates.deep_view()[0]]) by {
                assert forall|m: Seq<char>| candidates.deep_view().contains(m) implies m
                    == candidates.deep_view()[0] by {}
                assert(candidates.deep_view().contains(candidates.deep_view()[0]));
            }
        }
    } else {
        proof {
            assert(candidates.deep_view().to_set().contains(candidates.deep_view()[0]));
            assert(s.contains(candidates.deep_view()[0]));
        }
    }
    let ghost body = candidates.deep_view();
    candidates.push(String::from_str(CUSTOM_MODEL_SENTINEL));
    proof {
        assert(candidates.deep_view().drop_last() =~= body);
    }
    candidates
}

impl App {
    /// Builds the model menu for the chosen provider from the catalog's curated models and the
    /// live listing, and puts the cursor on its first entry.
    pub fn prepare_models(&mut self, catalog: &ProviderCatalog, live: &Result<Vec<String>, String>)
        ensures
            is_model_menu(
                final(self).available_models.deep_view(),
                model_candidates(
                    catalog.spec_curated(old(self).provider@),
                    *live,
                    catalog.spec_default_model(old(self).provider@),
                ),
            ),
            final(self).model_list == Some(0usize),
            !final(self).loading,
            final(self).status_message@ == match live {
                Ok(_) => "Loaded live + curated model catalog"@,
                Err(e) => "Live fetch unavailable: "@ + e@,
            },
            *final(self) == (App {
                available_models: final(self).available_models,
                model_list: final(self).model_list,
                loading: final(self).loading,
                status_message: final(self).status_message,
                ..*old(self)
            }),
    {
        let menu = build_model_menu(catalog, self.provider.as_str(), live);
        self.status_message = match live {
            Ok(_) => String::from_str("Loaded live + curated model catalog"),
            Err(error) => String::from_str("Live fetch unavailable: ").concat(error.as_str()),
        };
        self.available_models = menu;
        self.model_list = Some(0);
        self.loading = false;
    }
}

impl App {
    /// Takes the tunnel under the menu cursor.
    fn apply_tunnel_choice(&mut self)
        ensures
            *final(self) == (App {
                tunnel_choice: tunnel_at(selected_or(old(self).tunnel_list, 0)),
                ..*old(self)
            }),
    {
        self.tunnel_choice = tunnel_for_index(selected(self.tunnel_list, 0));
    }

    /// The tunnel section that the tunnel answers describe.
    pub fn tunnel_config(&self) -> (r: TunnelConfig)
        ensures
            tunnel_from(
                r,
                self.tunnel_choice,
                trimmed(self.tunnel_primary_input@),
                trimmed(self.tunnel_secondary_input@),
                self.tunnel_toggle,
            ),
    {
        let primary = Self::text_value(self.tunnel_primary_input.as_str());
        let secondary = Self::text_value(self.tunnel_secondary_input.as_str());
        match self.tunnel_choice {
            TunnelChoice::Cloudflare => TunnelConfig {
                provider: String::from_str("cloudflare"),
                cloudflare: Some(CloudflareTunnelConfig { token: primary }),
                tailscale: None,
                ngrok: None,
                custom: None,
            },
            TunnelChoice::Tailscale => TunnelConfig {
                provider: String::from_str("tailscale"),
                cloudflare: None,
                tailscale: Some(
                    TailscaleTunnelConfig { funnel: self.tunnel_toggle, hostname: optional(secondary) },
                ),
                ngrok: None,
                custom: None,
            },
            TunnelChoice::Ngrok => TunnelConfig {
                provider: String::from_str("ngrok"),
                cloudflare: None,
                tailscale: None,
                ngrok: Some(NgrokTunnelConfig { auth_token: primary, domain: optional(secondary) }),
                custom: None,
            },
            TunnelChoice::Custom => TunnelConfig {
                provider: String::from_str("custom"),
                cloudflare: None,
                tailscale: None,
                ngrok: None,
                custom: Some(
                    CustomTunnelConfig {
                        start_command: primary,
                        health_url: optional(secondary),
                        url_pattern: None,
                    },
                ),
            },
            TunnelChoice::NoTunnel => TunnelConfig::disabled(),
        }
    }

    /// The communication style chosen in the style menu.
    pub fn project_style_text(&self) -> (r: String)
        ensures
            r@ == style_text(
                selected_or(self.project_style_list, 1),
                self.project_style_custom_input@,
            ),
    {
        match selected(self.project_style_list, 1) {
            0 => String::from_str("Be direct and concise. Skip pleasantries. Get to the point."),
            1 => String::from_str(
                "Be friendly, human, and conversational. Show warmth and empathy while staying efficient. Use natural contractions.",
            ),
            2 => String::from_str(
                "Be professional and polished. Stay calm, structured, and respectful. Use occasional tone-setting emojis only when appropriate.",
            ),
            3 => String::from_str(
                "Be expressive and playful when appropriate. Use relevant emojis naturally (0-2 max), and keep serious topics emoji-light.",
            ),
            4 => String::from_str("Be technical and detailed. Thorough explanations, code-first."),
            5 => String::from_str(
                "Adapt to the situation. Default to warm and clear communication; be concise when needed, thorough when it matters.",
            ),
            _ => Self::text_value(self.project_style_custom_input.as_str()),
        }
    }

    /// Welcome and mode selection.
    fn confirm_mode(&mut self, env: &WizardEnv, live: &Result<Vec<String>, String>)
        requires
            old(self).step == WizardStep::Welcome || old(self).step == WizardStep::ConfigModeSelection,
        ensures
            final(self).step == next_of(*old(self), *env),
            answers_after(*old(self), *final(self), *env, *live),
    {
        if self.step == WizardStep::Welcome {
            if env.config_exists && !self.force {
                self.step = WizardStep::ConfigModeSelection;
            } else {
                self.mode = OnboardingMode::FullOnboarding;
                self.step = WizardStep::WorkspaceSetup;
            }
        } else {
            self.mode = if selected(self.mode_list, 1) == 0 {
                OnboardingMode::FullOnboarding
            } else {
                OnboardingMode::UpdateProviderOnly
            };
            self.step = WizardStep::WorkspaceSetup;
        }
    }

    /// Provider tier: loads the tier's providers.
    fn confirm_tier(&mut self, env: &WizardEnv, live: &Result<Vec<String>, String>)
        requires
            old(self).step == WizardStep::ProviderTierSelection,
        ensures
            final(self).step == next_of(*old(self), *env),
            answers_after(*old(self), *final(self), *env, *live),
    {
        let tier_idx = selected(self.provider_tier_list, 0);
        self.current_tier_providers = get_providers_for_tier(&env.catalog, tier_idx);
        if self.current_tier_providers.len() == 0 {
            self.step = WizardStep::CustomProviderUrlEntry;
        } else {
            self.step = WizardStep::ProviderSelection;
        }
    }

    /// Provider selection: stores the provider under the cursor.
    fn confirm_provider(&mut self, env: &WizardEnv, live: &Result<Vec<String>, String>)
        requires
            old(self).step == WizardStep::ProviderSelection,
        ensures
            final(self).step == next_of(*old(self), *env),
            answers_after(*old(self), *final(self), *env, *live),
    {
        let idx = selected(self.provider_list, 0);
        if idx < self.current_tier_providers.len() {
            self.provider = self.current_tier_providers[idx].0.clone();
            self.api_url = None;
            if Self::needs_provider_endpoint(self.provider.as_str()) {
                self.step = WizardStep::ProviderEndpointEntry;
            } else {
                self.step = WizardStep::ApiKeyEntry;
            }
        }
    }

    /// Custom provider URL: names the provider after the URL.
    fn confirm_custom_url(&mut self, env: &WizardEnv, live: &Result<Vec<String>, String>)
        requires
            old(self).step == WizardStep::CustomProviderUrlEntry,
        ensures
            final(self).step == next_of(*old(self), *env),
            answers_after(*old(self), *final(self), *env, *live),
    {
        let input = Self::text_value(self.custom_provider_url_input.as_str());
        let normalized = trim_trailing_slashes(input.as_str());
        if normalized.unicode_len() > 0 {
            self.provider = String::from_str("custom:").concat(normalized.as_str());
            self.api_url = None;
            self.step = WizardStep::ApiKeyEntry;
        }
    }

    /// Provider endpoint: stores the endpoint as the API URL.
    fn confirm_endpoint(&mut self, env: &WizardEnv, live: &Result<Vec<String>, String>)
        requires
            old(self).step == WizardStep::ProviderEndpointEntry,
        ensures
            final(self).step == next_of(*old(self), *env),
            answers_after(*old(self), *final(self), *env, *live),
    {
        let input = Self::text_value(self.provider_endpoint_input.as_str());
        let normalized = trim_trailing_slashes(input.as_str());
        if normalized.unicode_len() > 0 {
            self.api_url = Some(normalized);
            self.step = WizardStep::ApiKeyEntry;
        }
    }

    /// API key: stores the key and builds the model menu.
    fn confirm_api_key(&mut self, env: &WizardEnv, live: &Result<Vec<String>, String>)
        requires
            old(self).step == WizardStep::ApiKeyEntry,
        ensures
            final(self).step == next_of(*old(self), *env),
            answers_after(*old(self), *final(self), *env, *live),
    {
        self.api_key = Self::text_value(self.api_key_input.as_str());
        self.prepare_models(&env.catalog, live);
        self.step = WizardStep::ModelSelection;
    }

    /// Model selection and custom model entry.
    fn confirm_model(&mut self, env: &WizardEnv, live: &Result<Vec<String>, String>)
        requires
            old(self).step == WizardStep::ModelSelection || old(self).step == WizardStep::ModelCustomEntry,
        ensures
            final(self).step == next_of(*old(self), *env),
            answers_after(*old(self), *final(self), *env, *live),
    {
        if self.step == WizardStep::ModelSelection {
            let idx = selected(self.model_list, 0);
            if idx < self.available_models.len() {
                if same_text(self.available_models[idx].as_str(), CUSTOM_MODEL_SENTINEL) {
                    self.step = WizardStep::ModelCustomEntry;
                } else {
                    self.model = self.available_models[idx].clone();
                    self.step = WizardStep::ChannelSelection;
                }
            }
        } else {
            let typed = Self::text_value(self.model_custom_input.as_str());
            if typed.unicode_len() > 0 {
                self.model = typed;
                self.step = WizardStep::ChannelSelection;
            }
        }
    }

    /// Channel selection and the channel's two entry fields.
    fn confirm_channel(&mut self, env: &WizardEnv, live: &Result<Vec<String>, String>)
        requires
            old(self).step == WizardStep::ChannelSelection || old(self).step == WizardStep::ChannelTokenEntry || old(self).step == WizardStep::ChannelAuxEntry,
        ensures
            final(self).step == next_of(*old(self), *env),
            answers_after(*old(self), *final(self), *env, *live),
    {
        if self.step == WizardStep::ChannelSelection {
            self.apply_channel_choice();
            match self.channel_choice {
                ChannelChoice::CliOnly => self.step = WizardStep::TunnelSelection,
                _ => self.step = WizardStep::ChannelTokenEntry,
            }
        } else if self.step == WizardStep::ChannelTokenEntry {
            match self.channel_choice {
                ChannelChoice::CliOnly => self.step = WizardStep::TunnelSelection,
                _ => self.step = WizardStep::ChannelAuxEntry,
            }
        } else {
            self.apply_channel_token(&env.nostr_relays);
            self.step = WizardStep::TunnelSelection;
        }
    }

    /// Tunnel selection and the tunnel's entry fields.
    fn confirm_tunnel(&mut self, env: &WizardEnv, live: &Result<Vec<String>, String>)
        requires
            old(self).step == WizardStep::TunnelSelection || old(self).step == WizardStep::TunnelPrimaryEntry || old(self).step == WizardStep::TunnelSecondaryEntry,
        ensures
            final(self).step == next_of(*old(self), *env),
            answers_after(*old(self), *final(self), *env, *live),
    {
        if self.step == WizardStep::TunnelSelection {
            self.apply_tunnel_choice();
            self.step = match self.tunnel_choice {
                TunnelChoice::NoTunnel => WizardStep::ToolModeSelection,
                _ => WizardStep::TunnelPrimaryEntry,
            };
        } else if self.step == WizardStep::TunnelPrimaryEntry {
            self.step = match self.tunnel_choice {
                TunnelChoice::Cloudflare => WizardStep::ToolModeSelection,
                _ => WizardStep::TunnelSecondaryEntry,
            };
        } else {
            self.step = WizardStep::ToolModeSelection;
        }
    }

    /// Tool mode: Composio asks for its key next.
    fn confirm_tool_mode(&mut self, env: &WizardEnv, live: &Result<Vec<String>, String>)
        requires
            old(self).step == WizardStep::ToolModeSelection,
        ensures
            final(self).step == next_of(*old(self), *env),
            answers_after(*old(self), *final(self), *env, *live),
    {
        self.tool_mode_choice = if selected(self.tool_mode_list, 0) == 1 {
            ToolModeChoice::Composio
        } else {
            ToolModeChoice::Sovereign
        };
        self.step = match self.tool_mode_choice {
            ToolModeChoice::Composio => WizardStep::ComposioApiKeyEntry,
            ToolModeChoice::Sovereign => WizardStep::SecretsEncryptChoice,
        };
    }

    /// Hardware and memory selection.
    fn confirm_hardware_memory(&mut self, env: &WizardEnv, live: &Result<Vec<String>, String>)
        requires
            old(self).step == WizardStep::HardwareSelection || old(self).step == WizardStep::MemorySelection,
        ensures
            final(self).step == next_of(*old(self), *env),
            answers_after(*old(self), *final(self), *env, *live),
    {
        if self.step == WizardStep::HardwareSelection {
            self.hardware_choice = selected(self.hardware_list, 3);
            self.step = WizardStep::MemorySelection;
        } else {
            self.memory_choice = selected(self.memory_list, 0);
            self.memory_auto_save = if self.memory_choice < env.memory_backends.len() {
                env.memory_backends[self.memory_choice].auto_save_default
            } else {
                env.fallback_backend.auto_save_default
            };
            self.step = WizardStep::ProjectUserEntry;
        }
    }

    /// The steps that only move on.
    fn confirm_plain(&mut self, env: &WizardEnv, live: &Result<Vec<String>, String>)
        requires
            old(self).step == WizardStep::WorkspaceSetup || old(self).step == WizardStep::ComposioApiKeyEntry || old(self).step == WizardStep::SecretsEncryptChoice || old(self).step == WizardStep::ProjectUserEntry || old(self).step == WizardStep::ProjectTimezoneEntry || old(self).step == WizardStep::ProjectAgentEntry || old(self).step == WizardStep::ProjectStyleSelection || old(self).step == WizardStep::ProjectStyleCustomEntry || old(self).step == WizardStep::Confirmation || old(self).step == WizardStep::Done,
        ensures
            final(self).step == next_of(*old(self), *env),
            answers_after(*old(self), *final(self), *env, *live),
    {
        self.step = match self.step {
            WizardStep::WorkspaceSetup => WizardStep::ProviderTierSelection,
            WizardStep::ComposioApiKeyEntry => WizardStep::SecretsEncryptChoice,
            WizardStep::SecretsEncryptChoice => WizardStep::HardwareSelection,
            WizardStep::ProjectUserEntry => WizardStep::ProjectTimezoneEntry,
            WizardStep::ProjectTimezoneEntry => WizardStep::ProjectAgentEntry,
            WizardStep::ProjectAgentEntry => WizardStep::ProjectStyleSelection,
            WizardStep::ProjectStyleSelection => if selected(self.project_style_list, 1) == 6 {
                WizardStep::ProjectStyleCustomEntry
            } else {
                WizardStep::Confirmation
            },
            WizardStep::ProjectStyleCustomEntry => WizardStep::Confirmation,
            _ => WizardStep::Done,
        };
    }

    /// Confirms the current step: applies its answer to the store and moves to the step the
    /// answers lead to. A step whose required text is empty, or whose cursor lies past its
    /// list, stays where it is. `live` is the provider's live model listing, read only when
    /// the API key is confirmed.
    pub fn next_step(&mut self, env: &WizardEnv, live: &Result<Vec<String>, String>)
        ensures
            final(self).step == next_of(*old(self), *env),
            answers_after(*old(self), *final(self), *env, *live),
            old(self).well_formed() ==> final(self).well_formed(),
    {
        let ghost before = *self;
        match self.step {
            WizardStep::Welcome | WizardStep::ConfigModeSelection => self.confirm_mode(env, live),
            WizardStep::ProviderTierSelection => self.confirm_tier(env, live),
            WizardStep::ProviderSelection => self.confirm_provider(env, live),
            WizardStep::CustomProviderUrlEntry => self.confirm_custom_url(env, live),
            WizardStep::ProviderEndpointEntry => self.confirm_endpoint(env, live),
            WizardStep::ApiKeyEntry => self.confirm_api_key(env, live),
            WizardStep::ModelSelection | WizardStep::ModelCustomEntry => self.confirm_model(
                env,
                live,
            ),
            WizardStep::ChannelSelection | WizardStep::ChannelTokenEntry
            | WizardStep::ChannelAuxEntry => self.confirm_channel(env, live),
            WizardStep::TunnelSelection | WizardStep::TunnelPrimaryEntry
            | WizardStep::TunnelSecondaryEntry => self.confirm_tunnel(env, live),
            WizardStep::ToolModeSelection => self.confirm_tool_mode(env, live),
            WizardStep::HardwareSelection | WizardStep::MemorySelection => self.confirm_hardware_memory(
                env,
                live,
            ),
            _ => self.confirm_plain(env, live),
        }
        proof {
            if before.well_formed() {
                lemma_channel_sections_follow_choice(before, *self, *env, *live);
            }
        }
    }
}

} // verus!
