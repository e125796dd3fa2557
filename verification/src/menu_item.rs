//! The rows of the provider popup and the label each one shows.
use vstd::prelude::*;
use vstd::string::StringSliceAdditionalSpecFns;
use crate::menu::{choice_label, copy_opt_string, ProviderChoice, ProviderOption};
use crate::policy::{
    hosted_mode_label, provider_status_label, settings_mode_label, settings_policy_mode_label,
    web_search_mode_label, web_search_provider_label, HostedWebSearchMode, PolicyMode,
    WebSearchProviderStatus,
};
use crate::status::{spinner_label, WorkingSpinner};
use crate::text::{
    chars_of, is_blank, push_signed_decimal, push_str, range_is_blank, short_id, signed_decimal,
    string_from,
};

verus! {

broadcast use {vstd::string::group_string_axioms, vstd::utf8::encode_utf8_decode_utf8};

/// A reasoning effort that a model offers.
#[derive(Debug, Clone, PartialEq, Eq)]
pub struct ReasoningOptionChoice {
    pub provider_id: String,
    pub model_id: String,
    pub effort: String,
    pub description: String,
}

/// A speech model of a speech provider.
#[derive(Debug, Clone, PartialEq, Eq)]
pub struct VoiceModelChoice {
    pub provider_id: String,
    pub model_id: String,
    pub label: String,
}

/// What the resume screen shows of a past thread.
#[derive(Debug, Clone, PartialEq, Eq)]
pub struct ThreadSummary {
    pub id: String,
    pub name: Option<String>,
    pub cwd: String,
    pub updated_at: i64,
}

impl VoiceModelChoice {
    pub fn duplicate(&self) -> (r: Self)
        ensures
            r == *self,
    {
        VoiceModelChoice {
            provider_id: self.provider_id.clone(),
            model_id: self.model_id.clone(),
            label: self.label.clone(),
        }
    }
}

impl ThreadSummary {
    pub fn duplicate(&self) -> (r: Self)
        ensures
            r == *self,
    {
        ThreadSummary {
            id: self.id.clone(),
            name: copy_opt_string(&self.name),
            cwd: self.cwd.clone(),
            updated_at: self.updated_at,
        }
    }
}

/// A row of the provider popup.
#[derive(Debug, Clone, PartialEq, Eq)]
pub enum ProviderMenuItem {
    Section(String),
    PlanModeToggle(bool),
    Models,
    Providers,
    Settings,
    RoadmapMode,
    RunnerSettings,
    SpinnerSettings,
    WebSearchSettings,
    VoiceModelSettings,
    ShellSettings(String),
    SearchIndexToggle(bool),
    FileBackedDynamicContextToggle(bool),
    MessageFoldingToggle(bool),
    ThemesSettings,
    MarketplacesSettings,
    PluginBrowser,
    ResumeThreads,
    DefaultMode(PolicyMode),
    Spinner(WorkingSpinner),
    WebSearchMode(HostedWebSearchMode),
    WebSearchProvider(WebSearchProviderStatus),
    VoiceModel(VoiceModelChoice),
    ShellChoice(String),
    Provider(ProviderChoice),
    Model(ProviderOption),
    Reasoning(ReasoningOptionChoice),
    Runner { destination_id: String, provider_id: String, label: String },
    Thread(ThreadSummary),
    Theme(String),
    MarketplaceDefault { id: &'static str, kind: &'static str, label: &'static str },
    MarketplaceInstallDefault { selection: &'static str, label: &'static str },
    Back,
}

/// `on` or `off`.
pub open spec fn on_off(enabled: bool) -> Seq<char> {
    if enabled {
        "on"@
    } else {
        "off"@
    }
}

/// The characters of the first eight bytes of an id, when they end at a
/// character boundary; else the whole id.
pub open spec fn short_id_view(id: Seq<char>) -> Seq<char> {
    let bytes = vstd::utf8::encode_utf8(id);
    if vstd::utf8::is_char_boundary(bytes, 8) {
        vstd::utf8::decode_utf8(bytes.subrange(0, 8))
    } else {
        id
    }
}

/// The thread's name when it is not blank, else `Thread <short id>`.
pub open spec fn thread_title(t: ThreadSummary) -> Seq<char> {
    match t.name {
        Some(n) => if !is_blank(n@) {
            n@
        } else {
            "Thread "@ + short_id_view(t.id@)
        },
        None => "Thread "@ + short_id_view(t.id@),
    }
}

/// The thread's working directory, or `(unknown)` when it is blank.
pub open spec fn thread_workspace(t: ThreadSummary) -> Seq<char> {
    if is_blank(t.cwd@) {
        "(unknown)"@
    } else {
        t.cwd@
    }
}

/// `<updated> [<short id>] <title> - <workspace>`.
pub open spec fn thread_label(t: ThreadSummary) -> Seq<char> {
    signed_decimal(t.updated_at as int) + " ["@ + short_id_view(t.id@) + "] "@ + thread_title(t)
        + " - "@ + thread_workspace(t)
}

/// The label of each row.
pub open spec fn item_label(item: ProviderMenuItem) -> Seq<char> {
    match item {
        ProviderMenuItem::Section(label) => label@,
        ProviderMenuItem::PlanModeToggle(enabled) => "Plan mode: "@ + on_off(enabled),
        ProviderMenuItem::Models => "Models"@,
        ProviderMenuItem::Providers => "Providers"@,
        ProviderMenuItem::Settings => "Settings"@,
        ProviderMenuItem::RoadmapMode => "Roadmaps"@,
        ProviderMenuItem::RunnerSettings => "Runners"@,
        ProviderMenuItem::SpinnerSettings => "Working spinner"@,
        ProviderMenuItem::WebSearchSettings => "Web search provider"@,
        ProviderMenuItem::VoiceModelSettings => "Voice model"@,
        ProviderMenuItem::ShellSettings(shell) => "Shell command shell: "@ + shell@,
        ProviderMenuItem::SearchIndexToggle(enabled) => "Instant regex search: "@ + on_off(enabled),
        ProviderMenuItem::FileBackedDynamicContextToggle(enabled) => "File-backed dynamic context: "@
            + on_off(enabled),
        ProviderMenuItem::MessageFoldingToggle(enabled) => "Fold long messages: "@ + on_off(enabled),
        ProviderMenuItem::ThemesSettings => "Themes"@,
        ProviderMenuItem::MarketplacesSettings => "Plugin marketplaces"@,
        ProviderMenuItem::PluginBrowser => "Browse installable plugins"@,
        ProviderMenuItem::ResumeThreads => "Resume thread"@,
        ProviderMenuItem::DefaultMode(mode) => "Default mode: "@ + settings_mode_label(mode),
        ProviderMenuItem::Spinner(spinner) => spinner_label(spinner),
        ProviderMenuItem::WebSearchMode(mode) => hosted_mode_label(mode),
        ProviderMenuItem::WebSearchProvider(status) => provider_status_label(status),
        ProviderMenuItem::VoiceModel(choice) => choice.label@,
        ProviderMenuItem::ShellChoice(shell) => shell@,
        ProviderMenuItem::Provider(provider) => choice_label(provider),
        ProviderMenuItem::Model(option) => option.label@,
        ProviderMenuItem::Reasoning(option) => option.effort@ + " - "@ + option.description@,
        ProviderMenuItem::Runner { label, .. } => label@,
        ProviderMenuItem::Thread(thread) => thread_label(thread),
        ProviderMenuItem::Theme(id) => id@,
        ProviderMenuItem::MarketplaceDefault { id, kind, label } => label@ + " - "@ + kind@ + " ("@
            + id@ + ")"@,
        ProviderMenuItem::MarketplaceInstallDefault { label, .. } => label@,
        ProviderMenuItem::Back => "Back"@,
    }
}

/// `prefix` followed by `on` or `off`.
fn toggle_label(prefix: &str, enabled: bool) -> (r: String)
    ensures
        r@ == prefix@ + on_off(enabled),
{
    let mut s = string_from(prefix);
    push_str(&mut s, if enabled { "on" } else { "off" });
    s
}

/// `prefix` followed by `rest`.
fn prefixed(prefix: &str, rest: &str) -> (r: String)
    ensures
        r@ == prefix@ + rest@,
{
    let mut s = string_from(prefix);
    push_str(&mut s, rest);
    s
}

/// The label of a past thread.
fn thread_summary_label(thread: &ThreadSummary) -> (r: String)
    ensures
        r@ == thread_label(*thread),
{
    let id = short_id(thread.id.as_str());
    proof {
        let bytes = vstd::utf8::encode_utf8(thread.id@);
        assert(id.spec_bytes() == vstd::utf8::encode_utf8(id@));
        assert(vstd::utf8::decode_utf8(vstd::utf8::encode_utf8(id@)) == id@);
        assert(id@ == short_id_view(thread.id@));
    }
    let mut s = String::new();
    push_signed_decimal(&mut s, thread.updated_at);
    push_str(&mut s, " [");
    push_str(&mut s, id);
    push_str(&mut s, "] ");
    let named = match &thread.name {
        Some(n) => {
            let v = chars_of(n.as_str());
            assert(v@.subrange(0, v@.len() as int) =~= v@);
            if !range_is_blank(&v, 0, v.len()) {
                push_str(&mut s, n.as_str());
                true
            } else {
                false
            }
        },
        None => false,
    };
    if !named {
        push_str(&mut s, "Thread ");
        push_str(&mut s, id);
    }
    push_str(&mut s, " - ");
    let v = chars_of(thread.cwd.as_str());
    assert(v@.subrange(0, v@.len() as int) =~= v@);
    if range_is_blank(&v, 0, v.len()) {
        push_str(&mut s, "(unknown)");
    } else {
        push_str(&mut s, thread.cwd.as_str());
    }
    assert(s@ =~= thread_label(*thread));
    s
}

impl ProviderMenuItem {
    pub fn label(&self) -> (r: String)
        ensures
            r@ == item_label(*self),
    {
        match self {
            ProviderMenuItem::Section(label) => string_from(label.as_str()),
            ProviderMenuItem::PlanModeToggle(enabled) => toggle_label("Plan mode: ", *enabled),
            ProviderMenuItem::Models => string_from("Models"),
            ProviderMenuItem::Providers => string_from("Providers"),
            ProviderMenuItem::Settings => string_from("Settings"),
            ProviderMenuItem::RoadmapMode => string_from("Roadmaps"),
            ProviderMenuItem::RunnerSettings => string_from("Runners"),
            ProviderMenuItem::SpinnerSettings => string_from("Working spinner"),
            ProviderMenuItem::WebSearchSettings => string_from("Web search provider"),
            ProviderMenuItem::VoiceModelSettings => string_from("Voice model"),
            ProviderMenuItem::ShellSettings(shell) => prefixed(
                "Shell command shell: ",
                shell.as_str(),
            ),
            ProviderMenuItem::SearchIndexToggle(enabled) => toggle_label(
                "Instant regex search: ",
                *enabled,
            ),
            ProviderMenuItem::FileBackedDynamicContextToggle(enabled) => toggle_label(
                "File-backed dynamic context: ",
                *enabled,
            ),
            ProviderMenuItem::MessageFoldingToggle(enabled) => toggle_label(
                "Fold long messages: ",
                *enabled,
            ),
            ProviderMenuItem::ThemesSettings => string_from("Themes"),
            ProviderMenuItem::MarketplacesSettings => string_from("Plugin marketplaces"),
            ProviderMenuItem::PluginBrowser => string_from("Browse installable plugins"),
            ProviderMenuItem::ResumeThreads => string_from("Resume thread"),
            ProviderMenuItem::DefaultMode(mode) => prefixed(
                "Default mode: ",
                settings_policy_mode_label(*mode),
            ),
            ProviderMenuItem::Spinner(spinner) => string_from(spinner.label()),
            ProviderMenuItem::WebSearchMode(mode) => string_from(web_search_mode_label(*mode)),
            ProviderMenuItem::WebSearchProvider(status) => web_search_provider_label(status),
            ProviderMenuItem::VoiceModel(choice) => string_from(choice.label.as_str()),
            ProviderMenuItem::ShellChoice(shell) => string_from(shell.as_str()),
            ProviderMenuItem::Provider(provider) => provider.label(),
            ProviderMenuItem::Model(option) => string_from(option.label.as_str()),
            ProviderMenuItem::Reasoning(option) => {
                let mut s = string_from(option.effort.as_str());
                push_str(&mut s, " - ");
                push_str(&mut s, option.description.as_str());
                s
            },
            ProviderMenuItem::Runner { label, .. } => string_from(label.as_str()),
            ProviderMenuItem::Thread(thread) => thread_summary_label(thread),
            ProviderMenuItem::Theme(id) => string_from(id.as_str()),
            ProviderMenuItem::MarketplaceDefault { id, kind, label } => {
                let mut s = string_from(label);
                push_str(&mut s, " - ");
                push_str(&mut s, kind);
                push_str(&mut s, " (");
                push_str(&mut s, id);
                push_str(&mut s, ")");
                s
            },
            ProviderMenuItem::MarketplaceInstallDefault { label, .. } => string_from(label),
            ProviderMenuItem::Back => string_from("Back"),
        }
    }
}

} // verus!
