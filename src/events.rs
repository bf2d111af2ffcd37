//! What each operator intent does on the current step: cursor moves that stop at the list's
//! ends, toggles, confirmation and cancellation; and which text field takes typed characters.
use vstd::prelude::*;

use crate::flow::{answers_after, next_of};
use crate::state::{selected_or, App, ChannelChoice, WizardEnv, WizardStep};

verus! {

#[derive(Clone, Copy, Debug, PartialEq, Eq, Structural)]
pub enum Intent {
    Confirm,
    MoveUp,
    MoveDown,
    ToggleOption,
    Cancel,
}

/// What the session does after an intent.
#[derive(Clone, Copy, Debug, PartialEq, Eq, Structural)]
pub enum Outcome {
    /// Keep going.
    Continue,
    /// The answers are complete: synthesize the document.
    Finish,
    /// Leave without synthesizing anything.
    Cancelled,
}

/// The text fields of the answer store.
#[derive(Clone, Copy, Debug, PartialEq, Eq, Structural)]
pub enum TextField {
    Workspace,
    CustomProviderUrl,
    ProviderEndpoint,
    ApiKey,
    ModelCustom,
    ChannelToken,
    ChannelAux,
    TunnelPrimary,
    TunnelSecondary,
    ComposioKey,
    ProjectUser,
    ProjectTimezone,
    ProjectAgent,
    ProjectStyleCustom,
}

/// The list cursor of the current step, for the steps that show a list.
pub open spec fn cursor_of(a: App) -> Option<Option<usize>> {
    match a.step {
        WizardStep::ConfigModeSelection => Some(a.mode_list),
        WizardStep::ProviderTierSelection => Some(a.provider_tier_list),
        WizardStep::ProviderSelection => Some(a.provider_list),
        WizardStep::ModelSelection => Some(a.model_list),
        WizardStep::ChannelSelection => Some(a.channel_list),
        WizardStep::TunnelSelection => Some(a.tunnel_list),
        WizardStep::ToolModeSelection => Some(a.tool_mode_list),
        WizardStep::HardwareSelection => Some(a.hardware_list),
        WizardStep::MemorySelection => Some(a.memory_list),
        WizardStep::ProjectStyleSelection => Some(a.project_style_list),
        _ => None,
    }
}

/// `a` with the cursor of its current step set to `c`.
pub open spec fn with_cursor(a: App, c: Option<usize>) -> App {
    match a.step {
        WizardStep::ConfigModeSelection => App { mode_list: c, ..a },
        WizardStep::ProviderTierSelection => App { provider_tier_list: c, ..a },
        WizardStep::ProviderSelection => App { provider_list: c, ..a },
        WizardStep::ModelSelection => App { model_list: c, ..a },
        WizardStep::ChannelSelection => App { channel_list: c, ..a },
        WizardStep::TunnelSelection => App { tunnel_list: c, ..a },
        WizardStep::ToolModeSelection => App { tool_mode_list: c, ..a },
        WizardStep::HardwareSelection => App { hardware_list: c, ..a },
        WizardStep::MemorySelection => App { memory_list: c, ..a },
        WizardStep::ProjectStyleSelection => App { project_style_list: c, ..a },
        _ => a,
    }
}

/// The entry a list starts on when nothing is selected.
pub open spec fn default_entry(step: WizardStep) -> usize {
    match step {
        WizardStep::ConfigModeSelection => 1,
        WizardStep::HardwareSelection => 3,
        WizardStep::ProjectStyleSelection => 1,
        _ => 0,
    }
}

/// The number of entries of the current step's list.
pub open spec fn list_len(a: App, env: WizardEnv) -> nat {
    match a.step {
        WizardStep::ConfigModeSelection => 2,
        WizardStep::ProviderTierSelection => a.provider_tiers@.len(),
        WizardStep::ProviderSelection => a.current_tier_providers@.len(),
        WizardStep::ModelSelection => a.available_models@.len(),
        WizardStep::ChannelSelection => 17,
        WizardStep::TunnelSelection => 5,
        WizardStep::ToolModeSelection => 2,
        WizardStep::HardwareSelection => 4,
        WizardStep::MemorySelection => env.memory_backends@.len(),
        WizardStep::ProjectStyleSelection => 7,
        _ => 0,
    }
}

/// `a` with the option that the current step toggles flipped.
pub open spec fn toggled(a: App) -> App {
    match a.step {
        WizardStep::WorkspaceSetup => App { use_default_workspace: !a.use_default_workspace, ..a },
        WizardStep::TunnelPrimaryEntry => App { tunnel_toggle: !a.tunnel_toggle, ..a },
        WizardStep::SecretsEncryptChoice => App { secrets_encrypt: !a.secrets_encrypt, ..a },
        WizardStep::HardwareSelection => App { hardware_datasheets: !a.hardware_datasheets, ..a },
        WizardStep::MemorySelection => App { memory_auto_save: !a.memory_auto_save, ..a },
        _ => a,
    }
}

/// The field that typed characters go to on step `a.step`.
pub open spec fn spec_focused_field(a: App) -> Option<TextField> {
    match a.step {
        WizardStep::WorkspaceSetup => if a.use_default_workspace {
            None
        } else {
            Some(TextField::Workspace)
        },
        WizardStep::CustomProviderUrlEntry => Some(TextField::CustomProviderUrl),
        WizardStep::ProviderEndpointEntry => Some(TextField::ProviderEndpoint),
        WizardStep::ApiKeyEntry => Some(TextField::ApiKey),
        WizardStep::ModelCustomEntry => Some(TextField::ModelCustom),
        WizardStep::ChannelTokenEntry => Some(TextField::ChannelToken),
        WizardStep::ChannelAuxEntry => if a.channel_choice == ChannelChoice::IMessage {
            Some(TextField::ChannelToken)
        } else {
            Some(TextField::ChannelAux)
        },
        WizardStep::TunnelPrimaryEntry => Some(TextField::TunnelPrimary),
        WizardStep::TunnelSecondaryEntry => Some(TextField::TunnelSecondary),
        WizardStep::ComposioApiKeyEntry => Some(TextField::ComposioKey),
        WizardStep::ProjectUserEntry => Some(TextField::ProjectUser),
        WizardStep::ProjectTimezoneEntry => Some(TextField::ProjectTimezone),
        WizardStep::ProjectAgentEntry => Some(TextField::ProjectAgent),
        WizardStep::ProjectStyleCustomEntry => Some(TextField::ProjectStyleCustom),
        _ => None,
    }
}

/// The line held by text field `f`.
pub open spec fn field_text(a: App, f: TextField) -> Seq<char> {
    match f {
        TextField::Workspace => a.workspace_input@,
        TextField::CustomProviderUrl => a.custom_provider_url_input@,
        TextField::ProviderEndpoint => a.provider_endpoint_input@,
        TextField::ApiKey => a.api_key_input@,
        TextField::ModelCustom => a.model_custom_input@,
        TextField::ChannelToken => a.channel_token_input@,
        TextField::ChannelAux => a.channel_aux_input@,
        TextField::TunnelPrimary => a.tunnel_primary_input@,
        TextField::TunnelSecondary => a.tunnel_secondary_input@,
        TextField::ComposioKey => a.composio_key_input@,
        TextField::ProjectUser => a.project_user_input@,
        TextField::ProjectTimezone => a.project_timezone_input@,
        TextField::ProjectAgent => a.project_agent_input@,
        TextField::ProjectStyleCustom => a.project_style_custom_input@,
    }
}

/// `a` with the line of text field `f` replaced by `line`, everything else as it was.
pub open spec fn with_text(a: App, f: TextField, line: String) -> App {
    match f {
        TextField::Workspace => App { workspace_input: line, ..a },
        TextField::CustomProviderUrl => App { custom_provider_url_input: line, ..a },
        TextField::ProviderEndpoint => App { provider_endpoint_input: line, ..a },
        TextField::ApiKey => App { api_key_input: line, ..a },
        TextField::ModelCustom => App { model_custom_input: line, ..a },
        TextField::ChannelToken => App { channel_token_input: line, ..a },
        TextField::ChannelAux => App { channel_aux_input: line, ..a },
        TextField::TunnelPrimary => App { tunnel_primary_input: line, ..a },
        TextField::TunnelSecondary => App { tunnel_secondary_input: line, ..a },
        TextField::ComposioKey => App { composio_key_input: line, ..a },
        TextField::ProjectUser => App { project_user_input: line, ..a },
        TextField::ProjectTimezone => App { project_timezone_input: line, ..a },
        TextField::ProjectAgent => App { project_agent_input: line, ..a },
        TextField::ProjectStyleCustom => App { project_style_custom_input: line, ..a },
    }
}

impl App {
    /// The text field that typed characters go to on the current step, if any. On the
    /// auxiliary channel field, iMessage contacts are typed into the token field.
    pub fn focused_field(&self) -> (r: Option<TextField>)
        ensures
            r == spec_focused_field(*self),
    {
        match self.step {
            WizardStep::WorkspaceSetup => if self.use_default_workspace {
                None
            } else {
                Some(TextField::Workspace)
            },
            WizardStep::CustomProviderUrlEntry => Some(TextField::CustomProviderUrl),
            WizardStep::ProviderEndpointEntry => Some(TextField::ProviderEndpoint),
            WizardStep::ApiKeyEntry => Some(TextField::ApiKey),
            WizardStep::ModelCustomEntry => Some(TextField::ModelCustom),
            WizardStep::ChannelTokenEntry => Some(TextField::ChannelToken),
            WizardStep::ChannelAuxEntry => if self.channel_choice == ChannelChoice::IMessage {
                Some(TextField::ChannelToken)
            } else {
                Some(TextField::ChannelAux)
            },
            WizardStep::TunnelPrimaryEntry => Some(TextField::TunnelPrimary),
            WizardStep::TunnelSecondaryEntry => Some(TextField::TunnelSecondary),
            WizardStep::ComposioApiKeyEntry => Some(TextField::ComposioKey),
            WizardStep::ProjectUserEntry => Some(TextField::ProjectUser),
            WizardStep::ProjectTimezoneEntry => Some(TextField::ProjectTimezone),
            WizardStep::ProjectAgentEntry => Some(TextField::ProjectAgent),
            WizardStep::ProjectStyleCustomEntry => Some(TextField::ProjectStyleCustom),
            _ => None,
        }
    }

    /// Replaces the line held by text field `field`.
    pub fn set_text(&mut self, field: TextField, line: String)
        ensures
            *final(self) == with_text(*old(self), field, line),
            field_text(*final(self), field) == line@,
            forall|g: TextField| g != field ==> field_text(*final(self), g) == field_text(
                *old(self),
                g,
            ),
    {
        match field {
            TextField::Workspace => self.workspace_input = line,
            TextField::CustomProviderUrl => self.custom_provider_url_input = line,
            TextField::ProviderEndpoint => self.provider_endpoint_input = line,
            TextField::ApiKey => self.api_key_input = line,
            TextField::ModelCustom => self.model_custom_input = line,
            TextField::ChannelToken => self.channel_token_input = line,
            TextField::ChannelAux => self.channel_aux_input = line,
            TextField::TunnelPrimary => self.tunnel_primary_input = line,
            TextField::TunnelSecondary => self.tunnel_secondary_input = line,
            TextField::ComposioKey => self.composio_key_input = line,
            TextField::ProjectUser => self.project_user_input = line,
            TextField::ProjectTimezone => self.project_timezone_input = line,
            TextField::ProjectAgent => self.project_agent_input = line,
            TextField::ProjectStyleCustom => self.project_style_custom_input = line,
        }
    }

    fn cursor(&self) -> (r: Option<Option<usize>>)
        ensures
            r == cursor_of(*self),
    {
        match self.step {
            WizardStep::ConfigModeSelection => Some(self.mode_list),
            WizardStep::ProviderTierSelection => Some(self.provider_tier_list),
            WizardStep::ProviderSelection => Some(self.provider_list),
            WizardStep::ModelSelection => Some(self.model_list),
            WizardStep::ChannelSelection => Some(self.channel_list),
            WizardStep::TunnelSelection => Some(self.tunnel_list),
            WizardStep::ToolModeSelection => Some(self.tool_mode_list),
            WizardStep::HardwareSelection => Some(self.hardware_list),
            WizardStep::MemorySelection => Some(self.memory_list),
            WizardStep::ProjectStyleSelection => Some(self.project_style_list),
            _ => None,
        }
    }

    fn set_cursor(&mut self, c: Option<usize>)
        ensures
            *final(self) == with_cursor(*old(self), c),
    {
        match self.step {
            WizardStep::ConfigModeSelection => self.mode_list = c,
            WizardStep::ProviderTierSelection => self.provider_tier_list = c,
            WizardStep::ProviderSelection => self.provider_list = c,
            WizardStep::ModelSelection => self.model_list = c,
            WizardStep::ChannelSelection => self.channel_list = c,
            WizardStep::TunnelSelection => self.tunnel_list = c,
            WizardStep::ToolModeSelection => self.tool_mode_list = c,
            WizardStep::HardwareSelection => self.hardware_list = c,
            WizardStep::MemorySelection => self.memory_list = c,
            WizardStep::ProjectStyleSelection => self.project_style_list = c,
            _ => {},
        }
    }

    fn list_len(&self, env: &WizardEnv) -> (r: usize)
        ensures
            r == list_len(*self, *env),
    {
        match self.step {
            WizardStep::ConfigModeSelection => 2,
            WizardStep::ProviderTierSelection => self.provider_tiers.len(),
            WizardStep::ProviderSelection => self.current_tier_providers.len(),
            WizardStep::ModelSelection => self.available_models.len(),
            WizardStep::ChannelSelection => 17,
            WizardStep::TunnelSelection => 5,
            WizardStep::ToolModeSelection => 2,
            WizardStep::HardwareSelection => 4,
            WizardStep::MemorySelection => env.memory_backends.len(),
            WizardStep::ProjectStyleSelection => 7,
            _ => 0,
        }
    }

    /// Applies one intent of the operator. Moving past either end of a list changes nothing;
    /// confirming runs the step graph, and confirming the summary finishes the session.
    pub fn handle_intent(
        &mut self,
        env: &WizardEnv,
        live: &Result<Vec<String>, String>,
        intent: Intent,
    ) -> (r: Outcome)
        ensures
            intent == Intent::Cancel ==> r == Outcome::Cancelled && *final(self) == *old(self),
            intent == Intent::Confirm ==> {
                &&& final(self).step == next_of(*old(self), *env)
                &&& answers_after(*old(self), *final(self), *env, *live)
                &&& r == if old(self).step == WizardStep::Confirmation || old(self).step
                    == WizardStep::Done {
                    Outcome::Finish
                } else {
                    Outcome::Continue
                }
            },
            intent == Intent::ToggleOption ==> r == Outcome::Continue && *final(self) == toggled(
                *old(self),
            ),
            intent == Intent::MoveUp ==> r == Outcome::Continue && match cursor_of(*old(self)) {
                Some(c) => {
                    let i = selected_or(c, default_entry(old(self).step));
                    *final(self) == if i > 0 {
                        with_cursor(*old(self), Some((i - 1) as usize))
                    } else {
                        *old(self)
                    }
                },
                None => *final(self) == *old(self),
            },
            intent == Intent::MoveDown ==> r == Outcome::Continue && match cursor_of(*old(self)) {
                Some(c) => {
                    let i = selected_or(c, default_entry(old(self).step));
                    *final(self) == if i + 1 < list_len(*old(self), *env) {
                        with_cursor(*old(self), Some((i + 1) as usize))
                    } else {
                        *old(self)
                    }
                },
                None => *final(self) == *old(self),
            },
    {
        match intent {
            Intent::Cancel => Outcome::Cancelled,
            Intent::Confirm => {
                let finishing = self.step == WizardStep::Confirmation || self.step
                    == WizardStep::Done;
                self.next_step(env, live);
                if finishing {
                    Outcome::Finish
                } else {
                    Outcome::Continue
                }
            },
            Intent::ToggleOption => {
                match self.step {
                    WizardStep::WorkspaceSetup => self.use_default_workspace =
                        !self.use_default_workspace,
                    WizardStep::TunnelPrimaryEntry => self.tunnel_toggle = !self.tunnel_toggle,
                    WizardStep::SecretsEncryptChoice => self.secrets_encrypt =
                        !self.secrets_encrypt,
                    WizardStep::HardwareSelection => self.hardware_datasheets =
                        !self.hardware_datasheets,
                    WizardStep::MemorySelection => self.memory_auto_save = !self.memory_auto_save,
                    _ => {},
                }
                Outcome::Continue
            },
            Intent::MoveUp => {
                if let Some(c) = self.cursor() {
                    let i = match c {
                        Some(i) => i,
                        None => match self.step {
                            WizardStep::ConfigModeSelection => 1,
                            WizardStep::HardwareSelection => 3,
                            WizardStep::ProjectStyleSelection => 1,
                            _ => 0,
                        },
                    };
                    if i > 0 {
                        self.set_cursor(Some(i - 1));
                    }
                }
                Outcome::Continue
            },
            Intent::MoveDown => {
                if let Some(c) = self.cursor() {
                    let i = match c {
                        Some(i) => i,
                        None => match self.step {
                            WizardStep::ConfigModeSelection => 1,
                            WizardStep::HardwareSelection => 3,
                            WizardStep::ProjectStyleSelection => 1,
                            _ => 0,
                        },
                    };
                    let n = self.list_len(env);
                    if n > 0 && i < n - 1 {
                        self.set_cursor(Some(i + 1));
                    }
                }
                Outcome::Continue
            },
        }
    }
}

} // verus!
