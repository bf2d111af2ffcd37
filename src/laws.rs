//! Properties of the step graph as a whole.
use vstd::prelude::*;

use crate::channels::only_channel;
use crate::flow::{answers_after, is_model_menu, next_of, url_entry};
use crate::state::{selected_or, sentinel, App, WizardEnv, WizardStep};
use crate::text::{lemma_ascending_distinct, trimmed};

verus! {

/// The position of a step in the wizard's order; every move goes to a later position.
pub open spec fn step_index(s: WizardStep) -> nat {
    match s {
        WizardStep::Welcome => 0,
        WizardStep::ConfigModeSelection => 1,
        WizardStep::WorkspaceSetup => 2,
        WizardStep::ProviderTierSelection => 3,
        WizardStep::ProviderSelection => 4,
        WizardStep::CustomProviderUrlEntry => 5,
        WizardStep::ProviderEndpointEntry => 6,
        WizardStep::ApiKeyEntry => 7,
        WizardStep::ModelSelection => 8,
        WizardStep::ModelCustomEntry => 9,
        WizardStep::ChannelSelection => 10,
        WizardStep::ChannelTokenEntry => 11,
        WizardStep::ChannelAuxEntry => 12,
        WizardStep::TunnelSelection => 13,
        WizardStep::TunnelPrimaryEntry => 14,
        WizardStep::TunnelSecondaryEntry => 15,
        WizardStep::ToolModeSelection => 16,
        WizardStep::ComposioApiKeyEntry => 17,
        WizardStep::SecretsEncryptChoice => 18,
        WizardStep::HardwareSelection => 19,
        WizardStep::MemorySelection => 20,
        WizardStep::ProjectUserEntry => 21,
        WizardStep::ProjectTimezoneEntry => 22,
        WizardStep::ProjectAgentEntry => 23,
        WizardStep::ProjectStyleSelection => 24,
        WizardStep::ProjectStyleCustomEntry => 25,
        WizardStep::Confirmation => 26,
        WizardStep::Done => 27,
    }
}

/// How many confirmations at most still separate step `s` from `Done`.
pub open spec fn steps_left(s: WizardStep) -> nat {
    (27 - step_index(s)) as nat
}

/// Whether the answer on the current step is one the step accepts: a cursor on an entry of
/// its list, or a non-empty required text. Steps without a requirement accept every answer.
pub open spec fn input_accepted(a: App) -> bool {
    match a.step {
        WizardStep::ProviderSelection => selected_or(a.provider_list, 0)
            < a.current_tier_providers@.len(),
        WizardStep::CustomProviderUrlEntry => url_entry(a.custom_provider_url_input@).len() > 0,
        WizardStep::ProviderEndpointEntry => url_entry(a.provider_endpoint_input@).len() > 0,
        WizardStep::ModelSelection => selected_or(a.model_list, 0) < a.available_models@.len(),
        WizardStep::ModelCustomEntry => trimmed(a.model_custom_input@).len() > 0,
        WizardStep::Done => false,
        _ => true,
    }
}

/// The wizard always reaches `Done`: from any step but `Done`, confirming an accepted answer
/// moves to a step strictly closer to `Done` (at most 27 confirmations in all), and confirming
/// a rejected one stays on the same step, the only cycle in the graph. `Done` is the one step
/// with nothing left.
pub proof fn lemma_confirmations_reach_done(a: App, env: WizardEnv)
    ensures
        steps_left(a.step) == 0 <==> a.step == WizardStep::Done,
        steps_left(a.step) <= 27,
        a.step != WizardStep::Done && input_accepted(a) ==> steps_left(next_of(a, env))
            < steps_left(a.step),
        a.step != WizardStep::Done && !input_accepted(a) ==> next_of(a, env) == a.step,
        a.step == WizardStep::Done ==> next_of(a, env) == WizardStep::Done,
{
}

/// The model menu lists each candidate exactly once, and the custom-model entry is always its
/// last entry.
pub proof fn lemma_model_menu_deduplicated(menu: Seq<Seq<char>>, candidates: Set<Seq<char>>)
    requires
        is_model_menu(menu, candidates),
    ensures
        menu.drop_last().no_duplicates(),
        menu.drop_last().to_set() == candidates,
        menu.last() == sentinel(),
{
    lemma_ascending_distinct(menu.drop_last());
}

/// The answer store never holds a channel section other than that of the chosen channel: a
/// fresh session holds none, and confirming any step keeps it so.
pub proof fn lemma_channel_sections_follow_choice(
    old: App,
    new: App,
    env: WizardEnv,
    live: Result<Vec<String>, String>,
)
    requires
        only_channel(old.channels_config, old.channel_choice),
        answers_after(old, new, env, live),
    ensures
        only_channel(new.channels_config, new.channel_choice),
{
}

} // verus!
