//! What choosing a row of the provider popup does, what choosing a model
//! asks of the server, and how a provider's key or sign-in is reset.
use vstd::prelude::*;
use crate::menu::{copy_opt_string, ProviderAuthType, ProviderChoice, ProviderOption};
use crate::menu_item::ProviderMenuItem;
use crate::policy::{HostedWebSearchMode, PolicyMode};
use crate::popup::{selected_entry, ProviderPopupScreen};
use crate::providers::{auth_display_name, ProviderAuthFlow};
use crate::status::WorkingSpinner;
use crate::reports::{concat3, report_view, Report};
use crate::text::{push_str, string_from};

verus! {

broadcast use vstd::string::group_string_axioms;

/// What choosing a row of the provider popup does.
#[derive(Debug, Clone, PartialEq, Eq)]
pub enum ProviderMenuAction {
    /// Nothing is highlighted: close the popup.
    Close,
    /// Turn plan mode on (`true`) or off, then rebuild the main menu.
    SetPlanMode(bool),
    /// Open a screen of the popup.
    Open(ProviderPopupScreen),
    OpenPluginBrowser,
    /// Close the popup and enter roadmapping mode.
    EnterRoadmapMode,
    SelectTheme(String),
    /// Close the popup and put this command in an empty composer.
    ComposeCommand(String),
    SelectSpinner(WorkingSpinner),
    SetWebSearchMode(HostedWebSearchMode),
    SetWebSearchProvider(String),
    /// Close the popup and use this speech model.
    SetVoiceModel { provider_id: String, model_id: String },
    SetShell(String),
    SetSearchIndex(bool),
    SetMessageFolding(bool),
    SetFileBackedDynamicContext(bool),
    SetDefaultMode(PolicyMode),
    SelectProvider(ProviderChoice),
    SelectModel(ProviderOption),
    /// A section title: nothing happens.
    Stay,
    SelectReasoning { provider_id: String, model_id: String, effort: String },
    /// Close the popup and use this runner.
    SelectRunner { destination_id: String, provider_id: String },
    /// Close the popup and load this thread.
    LoadThread(String),
    /// Go back one screen, as Esc does.
    Back,
}

/// Whether `a` is what choosing `item` does.
pub open spec fn action_for(item: ProviderMenuItem, a: ProviderMenuAction) -> bool {
    match item {
        ProviderMenuItem::Section(_) => a == ProviderMenuAction::Stay,
        ProviderMenuItem::PlanModeToggle(enabled) => a == ProviderMenuAction::SetPlanMode(!enabled),
        ProviderMenuItem::Models => a == ProviderMenuAction::Open(ProviderPopupScreen::Models),
        ProviderMenuItem::Providers => a == ProviderMenuAction::Open(ProviderPopupScreen::Providers),
        ProviderMenuItem::Settings => a == ProviderMenuAction::Open(ProviderPopupScreen::Settings),
        ProviderMenuItem::RoadmapMode => a == ProviderMenuAction::EnterRoadmapMode,
        ProviderMenuItem::RunnerSettings => a == ProviderMenuAction::Open(ProviderPopupScreen::Runners),
        ProviderMenuItem::SpinnerSettings => a == ProviderMenuAction::Open(ProviderPopupScreen::Spinner),
        ProviderMenuItem::WebSearchSettings => a == ProviderMenuAction::Open(
            ProviderPopupScreen::WebSearch,
        ),
        ProviderMenuItem::VoiceModelSettings => a == ProviderMenuAction::Open(
            ProviderPopupScreen::VoiceModels,
        ),
        ProviderMenuItem::ShellSettings(_) => a == ProviderMenuAction::Open(ProviderPopupScreen::Shell),
        ProviderMenuItem::SearchIndexToggle(enabled) => a == ProviderMenuAction::SetSearchIndex(!enabled),
        ProviderMenuItem::FileBackedDynamicContextToggle(enabled) => a
            == ProviderMenuAction::SetFileBackedDynamicContext(!enabled),
        ProviderMenuItem::MessageFoldingToggle(enabled) => a == ProviderMenuAction::SetMessageFolding(
            !enabled,
        ),
        ProviderMenuItem::ThemesSettings => a == ProviderMenuAction::Open(ProviderPopupScreen::Themes),
        ProviderMenuItem::MarketplacesSettings => a == ProviderMenuAction::Open(
            ProviderPopupScreen::Marketplaces,
        ),
        ProviderMenuItem::PluginBrowser => a == ProviderMenuAction::OpenPluginBrowser,
        ProviderMenuItem::ResumeThreads => a == ProviderMenuAction::Open(ProviderPopupScreen::Resume),
        ProviderMenuItem::DefaultMode(mode) => a == ProviderMenuAction::SetDefaultMode(mode),
        ProviderMenuItem::Spinner(spinner) => a == ProviderMenuAction::SelectSpinner(spinner),
        ProviderMenuItem::WebSearchMode(mode) => a == ProviderMenuAction::SetWebSearchMode(mode),
        ProviderMenuItem::WebSearchProvider(status) => a == ProviderMenuAction::SetWebSearchProvider(
            status.id,
        ),
        ProviderMenuItem::VoiceModel(choice) => a == ProviderMenuAction::SetVoiceModel {
            provider_id: choice.provider_id,
            model_id: choice.model_id,
        },
        ProviderMenuItem::ShellChoice(shell) => a == ProviderMenuAction::SetShell(shell),
        ProviderMenuItem::Provider(provider) => a == ProviderMenuAction::SelectProvider(provider),
        ProviderMenuItem::Model(option) => a == ProviderMenuAction::SelectModel(option),
        ProviderMenuItem::Reasoning(option) => a == ProviderMenuAction::SelectReasoning {
            provider_id: option.provider_id,
            model_id: option.model_id,
            effort: option.effort,
        },
        ProviderMenuItem::Runner { destination_id, provider_id, .. } => a
            == ProviderMenuAction::SelectRunner { destination_id, provider_id },
        ProviderMenuItem::Thread(thread) => a == ProviderMenuAction::LoadThread(thread.id),
        ProviderMenuItem::Theme(id) => a == ProviderMenuAction::SelectTheme(id),
        ProviderMenuItem::MarketplaceDefault { id, .. } => a matches ProviderMenuAction::ComposeCommand(
            c,
        ) && c@ == "/marketplace refresh "@ + id@,
        ProviderMenuItem::MarketplaceInstallDefault { selection, .. } => a
            matches ProviderMenuAction::ComposeCommand(c) && c@ == "/marketplace install-default "@
            + selection@,
        ProviderMenuItem::Back => a == ProviderMenuAction::Back,
    }
}

/// Whether carrying out `a` closes the popup.
pub open spec fn closes_popup(a: ProviderMenuAction) -> bool {
    match a {
        ProviderMenuAction::Close => true,
        ProviderMenuAction::EnterRoadmapMode => true,
        ProviderMenuAction::ComposeCommand(_) => true,
        ProviderMenuAction::SetVoiceModel { .. } => true,
        ProviderMenuAction::SelectRunner { .. } => true,
        ProviderMenuAction::LoadThread(_) => true,
        _ => false,
    }
}

/// `prefix` followed by `rest`.
fn command_text(prefix: &str, rest: &str) -> (r: String)
    ensures
        r@ == prefix@ + rest@,
{
    let mut s = string_from(prefix);
    push_str(&mut s, rest);
    s
}

/// What choosing the highlighted row does; with nothing highlighted, or the
/// highlight past the rows, the popup closes.
pub fn provider_menu_action(items: &Vec<ProviderMenuItem>, selected: Option<usize>) -> (r:
    ProviderMenuAction)
    ensures
        match selected_entry(items@, selected) {
            Some(item) => action_for(item, r),
            None => r == ProviderMenuAction::Close,
        },
{
    let i = match selected {
        Some(i) => i,
        None => {
            return ProviderMenuAction::Close;
        },
    };
    if i >= items.len() {
        return ProviderMenuAction::Close;
    }
    match &items[i] {
        ProviderMenuItem::Section(_) => ProviderMenuAction::Stay,
        ProviderMenuItem::PlanModeToggle(enabled) => ProviderMenuAction::SetPlanMode(!*enabled),
        ProviderMenuItem::Models => ProviderMenuAction::Open(ProviderPopupScreen::Models),
        ProviderMenuItem::Providers => ProviderMenuAction::Open(ProviderPopupScreen::Providers),
        ProviderMenuItem::Settings => ProviderMenuAction::Open(ProviderPopupScreen::Settings),
        ProviderMenuItem::RoadmapMode => ProviderMenuAction::EnterRoadmapMode,
        ProviderMenuItem::RunnerSettings => ProviderMenuAction::Open(ProviderPopupScreen::Runners),
        ProviderMenuItem::SpinnerSettings => ProviderMenuAction::Open(ProviderPopupScreen::Spinner),
        ProviderMenuItem::WebSearchSettings => ProviderMenuAction::Open(ProviderPopupScreen::WebSearch),
        ProviderMenuItem::VoiceModelSettings => ProviderMenuAction::Open(
            ProviderPopupScreen::VoiceModels,
        ),
        ProviderMenuItem::ShellSettings(_) => ProviderMenuAction::Open(ProviderPopupScreen::Shell),
        ProviderMenuItem::SearchIndexToggle(enabled) => ProviderMenuAction::SetSearchIndex(!*enabled),
        ProviderMenuItem::FileBackedDynamicContextToggle(enabled) => {
            ProviderMenuAction::SetFileBackedDynamicContext(!*enabled)
        },
        ProviderMenuItem::MessageFoldingToggle(enabled) => ProviderMenuAction::SetMessageFolding(
            !*enabled,
        ),
        ProviderMenuItem::ThemesSettings => ProviderMenuAction::Open(ProviderPopupScreen::Themes),
        ProviderMenuItem::MarketplacesSettings => ProviderMenuAction::Open(
            ProviderPopupScreen::Marketplaces,
        ),
        ProviderMenuItem::PluginBrowser => ProviderMenuAction::OpenPluginBrowser,
        ProviderMenuItem::ResumeThreads => ProviderMenuAction::Open(ProviderPopupScreen::Resume),
        ProviderMenuItem::DefaultMode(mode) => ProviderMenuAction::SetDefaultMode(*mode),
        ProviderMenuItem::Spinner(spinner) => ProviderMenuAction::SelectSpinner(*spinner),
        ProviderMenuItem::WebSearchMode(mode) => ProviderMenuAction::SetWebSearchMode(*mode),
        ProviderMenuItem::WebSearchProvider(status) => ProviderMenuAction::SetWebSearchProvider(
            status.id.clone(),
        ),
        ProviderMenuItem::VoiceModel(choice) => ProviderMenuAction::SetVoiceModel {
            provider_id: choice.provider_id.clone(),
            model_id: choice.model_id.clone(),
        },
        ProviderMenuItem::ShellChoice(shell) => ProviderMenuAction::SetShell(shell.clone()),
        ProviderMenuItem::Provider(provider) => ProviderMenuAction::SelectProvider(provider.duplicate()),
        ProviderMenuItem::Model(option) => ProviderMenuAction::SelectModel(option.duplicate()),
        ProviderMenuItem::Reasoning(option) => ProviderMenuAction::SelectReasoning {
            provider_id: option.provider_id.clone(),
            model_id: option.model_id.clone(),
            effort: option.effort.clone(),
        },
        ProviderMenuItem::Runner { destination_id, provider_id, .. } => {
            ProviderMenuAction::SelectRunner {
                destination_id: destination_id.clone(),
                provider_id: provider_id.clone(),
            }
        },
        ProviderMenuItem::Thread(thread) => ProviderMenuAction::LoadThread(thread.id.clone()),
        ProviderMenuItem::Theme(id) => ProviderMenuAction::SelectTheme(id.clone()),
        ProviderMenuItem::MarketplaceDefault { id, .. } => ProviderMenuAction::ComposeCommand(
            command_text("/marketplace refresh ", id),
        ),
        ProviderMenuItem::MarketplaceInstallDefault { selection, .. } => {
            ProviderMenuAction::ComposeCommand(command_text("/marketplace install-default ", selection))
        },
        ProviderMenuItem::Back => ProviderMenuAction::Back,
    }
}

/// What choosing a model asks for.
#[derive(Debug, Clone, PartialEq, Eq)]
pub enum ModelSelection {
    /// A routing option: let the server pick by that option.
    Auto(String),
    /// The model offers reasoning efforts: show them first.
    ChooseReasoning,
    /// Select the model outright, with its default effort.
    Select { provider_id: String, model_id: String, reasoning: Option<String> },
}

/// What choosing `option` asks for: a routing option is selected as such;
/// a model with reasoning efforts first shows them; any other model is
/// selected with its default effort.
pub fn model_selection(option: &ProviderOption, has_reasoning_options: bool) -> (r: ModelSelection)
    ensures
        r == match option.routing_option_id {
            Some(id) => ModelSelection::Auto(id),
            None => if has_reasoning_options {
                ModelSelection::ChooseReasoning
            } else {
                ModelSelection::Select {
                    provider_id: option.provider_id,
                    model_id: option.model_id,
                    reasoning: option.default_reasoning,
                }
            },
        },
{
    match &option.routing_option_id {
        Some(id) => ModelSelection::Auto(id.clone()),
        None => {
            if has_reasoning_options {
                ModelSelection::ChooseReasoning
            } else {
                ModelSelection::Select {
                    provider_id: option.provider_id.clone(),
                    model_id: option.model_id.clone(),
                    reasoning: copy_opt_string(&option.default_reasoning),
                }
            }
        },
    }
}

/// How a provider's access is reset (Delete in the providers screen).
#[derive(Debug, Clone, PartialEq, Eq)]
pub enum ProviderReset {
    /// Sign out of an OAuth provider through its flow.
    Logout(ProviderAuthFlow),
    /// An OAuth provider without a sign-out flow.
    NoLogoutFlow,
    /// Clear the API key of a provider that uses one.
    ClearKey,
    /// A provider without credentials: nothing to reset.
    Keep,
}

/// How `provider` is reset: an OAuth provider signs out through its flow
/// (or cannot, without one), an API key provider has its key cleared, and
/// any other provider is left alone.
pub fn provider_reset_plan(provider: &ProviderChoice) -> (r: ProviderReset)
    ensures
        provider.auth_type == ProviderAuthType::OAuth ==> match r {
            ProviderReset::Logout(flow) => auth_display_name(provider.provider_id@) is Some
                && flow.flow_of(
                provider.provider_id@,
                auth_display_name(provider.provider_id@)->0,
            ),
            ProviderReset::NoLogoutFlow => auth_display_name(provider.provider_id@) is None,
            _ => false,
        },
        provider.auth_type == ProviderAuthType::ApiKey ==> r == ProviderReset::ClearKey,
        provider.auth_type == ProviderAuthType::NoAuth ==> r == ProviderReset::Keep,
{
    match provider.auth_type {
        ProviderAuthType::OAuth => match ProviderAuthFlow::for_provider(provider.provider_id.as_str()) {
            Some(flow) => ProviderReset::Logout(flow),
            None => ProviderReset::NoLogoutFlow,
        },
        ProviderAuthType::ApiKey => ProviderReset::ClearKey,
        ProviderAuthType::NoAuth => ProviderReset::Keep,
    }
}

/// The highlight of the providers screen once it is rebuilt with `len`
/// rows: kept when still in range, else moved to the last row, and nothing
/// when there are no rows; no highlight stays none.
pub fn reselect_after_refresh(saved: Option<usize>, len: usize) -> (r: Option<usize>)
    ensures
        r == match saved {
            Some(sel) => if sel < len {
                Some(sel)
            } else if len > 0 {
                Some((len - 1) as usize)
            } else {
                None
            },
            None => None,
        },
{
    match saved {
        Some(sel) => {
            if sel < len {
                Some(sel)
            } else if len > 0 {
                Some(len - 1)
            } else {
                None
            }
        },
        None => None,
    }
}

/// The report of a reset, given what the server answered (`Err` with its
/// message when the request failed).
pub open spec fn reset_report(
    provider: ProviderChoice,
    plan: ProviderReset,
    outcome: Result<(), String>,
) -> (Option<Seq<char>>, Option<Seq<char>>, Option<Seq<char>>) {
    match plan {
        ProviderReset::Logout(flow) => match outcome {
            Ok(_) => (
                Some("Logged out of "@ + flow.display_name@ + "."@),
                Some("logged out of: "@ + provider.provider_id@),
                None,
            ),
            Err(e) => (None, None, Some("Logout failed: "@ + e@)),
        },
        ProviderReset::NoLogoutFlow => (
            None,
            None,
            Some("provider "@ + provider.provider_id@ + " requires OAuth; no logout flow is available"@),
        ),
        ProviderReset::ClearKey => match outcome {
            Ok(_) => (
                Some("Cleared API key for "@ + provider.name@ + "."@),
                Some("provider cleared: "@ + provider.provider_id@),
                None,
            ),
            Err(e) => (None, None, Some("providers/clear failed: "@ + e@)),
        },
        ProviderReset::Keep => (None, None, None),
    }
}

pub fn provider_reset_report(provider: &ProviderChoice, plan: &ProviderReset, outcome: &Result<(), String>) -> (r:
    Report)
    ensures
        report_view(r) == reset_report(
            *provider,
            *plan,
            *outcome,
        ),
{
    proof {
        reveal_strlit("");
    }
    match plan {
        ProviderReset::Logout(flow) => match outcome {
            Ok(_) => Report {
                system: Some(concat3("Logged out of ", flow.display_name, ".")),
                event: Some(concat3("logged out of: ", provider.provider_id.as_str(), "")),
                error: None,
            },
            Err(e) => Report {
                system: None,
                event: None,
                error: Some(concat3("Logout failed: ", e.as_str(), "")),
            },
        },
        ProviderReset::NoLogoutFlow => Report {
            system: None,
            event: None,
            error: Some(
                concat3(
                    "provider ",
                    provider.provider_id.as_str(),
                    " requires OAuth; no logout flow is available",
                ),
            ),
        },
        ProviderReset::ClearKey => match outcome {
            Ok(_) => Report {
                system: Some(concat3("Cleared API key for ", provider.name.as_str(), ".")),
                event: Some(concat3("provider cleared: ", provider.provider_id.as_str(), "")),
                error: None,
            },
            Err(e) => Report {
                system: None,
                event: None,
                error: Some(concat3("providers/clear failed: ", e.as_str(), "")),
            },
        },
        ProviderReset::Keep => Report { system: None, event: None, error: None },
    }
}

} // verus!
