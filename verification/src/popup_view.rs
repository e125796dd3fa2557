//! What the provider popup shows: each row's marker and label with their
//! roles, the API key prompt on its screen, and "No matches" for a search
//! that keeps nothing.
use vstd::prelude::*;
use crate::menu::ProviderChoice;
use crate::menu_cursor::entry_disabled;
use crate::menu_item::{item_label, ProviderMenuItem};
use crate::policy::{HostedWebSearchMode, PolicyMode};
use crate::popup::ProviderPopupScreen;
use crate::popup_lines::{api_key_items, provider_api_key_items};
use crate::status::WorkingSpinner;
use crate::text::{push_str, str_eq, string_from};
use crate::timeline_rows::{line_view, lines_view, StyledLine, TextRole};

verus! {

broadcast use vstd::string::group_string_axioms;

/// What the popup's check marks compare the rows with.
#[derive(Debug, Clone, PartialEq, Eq)]
pub struct MarkerContext {
    pub policy_mode: PolicyMode,
    pub working_spinner: WorkingSpinner,
    pub web_search_mode: HostedWebSearchMode,
    pub web_search_external_provider_set: bool,
    pub voice_provider: Option<String>,
    pub voice_model: Option<String>,
    pub command_shell: String,
    pub thread_id: String,
    pub active_theme_id: Option<String>,
}

pub open spec fn is_opt(o: Option<String>, s: Seq<char>) -> bool {
    o matches Some(v) && v@ == s
}

/// The marker before a row: a check for what is on or in use, an arrow
/// into a submenu (or into a model's reasoning efforts), a back arrow, two
/// spaces for a section header, a bullet otherwise.
pub open spec fn marker_of(item: ProviderMenuItem, ctx: MarkerContext, has_reasoning: bool) -> Seq<char> {
    let check = "✓ "@;
    let into = "› "@;
    match item {
        ProviderMenuItem::Section(_) => "  "@,
        ProviderMenuItem::PlanModeToggle(on) => if on { check } else { "• "@ },
        ProviderMenuItem::Provider(p) => if p.authenticated { check } else { "• "@ },
        ProviderMenuItem::DefaultMode(m) => if m == ctx.policy_mode { check } else { "• "@ },
        ProviderMenuItem::Spinner(s) => if s == ctx.working_spinner { check } else { "• "@ },
        ProviderMenuItem::WebSearchMode(m) => if m == ctx.web_search_mode && !ctx.web_search_external_provider_set {
            check
        } else {
            "• "@
        },
        ProviderMenuItem::WebSearchProvider(s) => if s.active { check } else { "• "@ },
        ProviderMenuItem::VoiceModel(c) => if is_opt(ctx.voice_provider, c.provider_id@) && is_opt(
            ctx.voice_model,
            c.model_id@,
        ) {
            check
        } else {
            "• "@
        },
        ProviderMenuItem::ShellChoice(s) => if s@ == ctx.command_shell@ { check } else { "• "@ },
        ProviderMenuItem::FileBackedDynamicContextToggle(on) => if on { check } else { "• "@ },
        ProviderMenuItem::MessageFoldingToggle(on) => if on { check } else { "• "@ },
        ProviderMenuItem::Thread(t) => if t.id@ == ctx.thread_id@ { check } else { "• "@ },
        ProviderMenuItem::Theme(id) => if is_opt(ctx.active_theme_id, id@) { check } else { "• "@ },
        ProviderMenuItem::Model(_) => if has_reasoning { into } else { "• "@ },
        ProviderMenuItem::Models | ProviderMenuItem::Providers | ProviderMenuItem::Settings
        | ProviderMenuItem::RunnerSettings | ProviderMenuItem::SpinnerSettings
        | ProviderMenuItem::WebSearchSettings | ProviderMenuItem::VoiceModelSettings
        | ProviderMenuItem::ShellSettings(_) | ProviderMenuItem::ThemesSettings
        | ProviderMenuItem::MarketplacesSettings | ProviderMenuItem::PluginBrowser
        | ProviderMenuItem::ResumeThreads | ProviderMenuItem::Reasoning(_) => into,
        ProviderMenuItem::Back => "‹ "@,
        _ => "• "@,
    }
}

fn opt_is(o: &Option<String>, s: &str) -> (r: bool)
    ensures
        r == is_opt(*o, s@),
{
    match o {
        Some(v) => str_eq(v.as_str(), s),
        None => false,
    }
}

/// The marker before a row.
pub fn provider_menu_marker(item: &ProviderMenuItem, ctx: &MarkerContext, has_reasoning: bool) -> (r: &'static str)
    ensures
        r@ == marker_of(*item, *ctx, has_reasoning),
{
    let check = "✓ ";
    let into = "› ";
    let bullet = "• ";
    match item {
        ProviderMenuItem::Section(_) => "  ",
        ProviderMenuItem::PlanModeToggle(on) => if *on { check } else { bullet },
        ProviderMenuItem::Provider(p) => if p.authenticated { check } else { bullet },
        ProviderMenuItem::DefaultMode(m) => if *m == ctx.policy_mode { check } else { bullet },
        ProviderMenuItem::Spinner(s) => if *s == ctx.working_spinner { check } else { bullet },
        ProviderMenuItem::WebSearchMode(m) => if *m == ctx.web_search_mode && !ctx.web_search_external_provider_set {
            check
        } else {
            bullet
        },
        ProviderMenuItem::WebSearchProvider(s) => if s.active { check } else { bullet },
        ProviderMenuItem::VoiceModel(c) => if opt_is(&ctx.voice_provider, c.provider_id.as_str()) && opt_is(
            &ctx.voice_model,
            c.model_id.as_str(),
        ) {
            check
        } else {
            bullet
        },
        ProviderMenuItem::ShellChoice(s) => if str_eq(s.as_str(), ctx.command_shell.as_str()) {
            check
        } else {
            bullet
        },
        ProviderMenuItem::FileBackedDynamicContextToggle(on) => if *on { check } else { bullet },
        ProviderMenuItem::MessageFoldingToggle(on) => if *on { check } else { bullet },
        ProviderMenuItem::Thread(t) => if str_eq(t.id.as_str(), ctx.thread_id.as_str()) {
            check
        } else {
            bullet
        },
        ProviderMenuItem::Theme(id) => if opt_is(&ctx.active_theme_id, id.as_str()) { check } else { bullet },
        ProviderMenuItem::Model(_) => if has_reasoning { into } else { bullet },
        ProviderMenuItem::Models | ProviderMenuItem::Providers | ProviderMenuItem::Settings
        | ProviderMenuItem::RunnerSettings | ProviderMenuItem::SpinnerSettings
        | ProviderMenuItem::WebSearchSettings | ProviderMenuItem::VoiceModelSettings
        | ProviderMenuItem::ShellSettings(_) | ProviderMenuItem::ThemesSettings
        | ProviderMenuItem::MarketplacesSettings | ProviderMenuItem::PluginBrowser
        | ProviderMenuItem::ResumeThreads | ProviderMenuItem::Reasoning(_) => into,
        ProviderMenuItem::Back => "‹ ",
        _ => bullet,
    }
}

/// A row's label as drawn: a section header framed by rules, any other row
/// its label.
pub open spec fn render_label_of(item: ProviderMenuItem) -> Seq<char> {
    match item {
        ProviderMenuItem::Section(label) => "─ "@ + label@ + " ─"@,
        _ => item_label(item),
    }
}

pub fn provider_menu_item_render_label(item: &ProviderMenuItem) -> (r: String)
    ensures
        r@ == render_label_of(*item),
{
    match item {
        ProviderMenuItem::Section(label) => {
            let mut s = string_from("─ ");
            push_str(&mut s, label.as_str());
            push_str(&mut s, " ─");
            s
        },
        _ => item.label(),
    }
}

/// A section header's label is accented and bold, a row still to be signed
/// in to is greyed, any other is plain text.
pub open spec fn label_role_of(item: ProviderMenuItem) -> TextRole {
    if item is Section {
        TextRole::AccentBold
    } else if entry_disabled(item) {
        TextRole::Subtle
    } else {
        TextRole::Text
    }
}

/// A row still to be signed in to has a greyed marker; others a muted one.
pub open spec fn marker_role_of(item: ProviderMenuItem) -> TextRole {
    if entry_disabled(item) {
        TextRole::Subtle
    } else {
        TextRole::Muted
    }
}

pub fn provider_menu_item_label_role(item: &ProviderMenuItem) -> (r: TextRole)
    ensures
        r == label_role_of(*item),
{
    if let ProviderMenuItem::Section(_) = item {
        TextRole::AccentBold
    } else if item.is_disabled() {
        TextRole::Subtle
    } else {
        TextRole::Text
    }
}

pub fn provider_menu_item_marker_role(item: &ProviderMenuItem) -> (r: TextRole)
    ensures
        r == marker_role_of(*item),
{
    if item.is_disabled() {
        TextRole::Subtle
    } else {
        TextRole::Muted
    }
}

/// Whether row `i` is a model with reasoning efforts to choose from.
pub open spec fn reasoning_at(reasoning: Seq<bool>, i: int) -> bool {
    0 <= i < reasoning.len() && reasoning[i]
}

/// The popup's list: on the API key screen the key instructions; with no
/// row to show, "No matches"; else each row's marker and label.
pub open spec fn popup_rows_spec(
    screen: ProviderPopupScreen,
    items: Seq<ProviderMenuItem>,
    ctx: MarkerContext,
    reasoning: Seq<bool>,
    pending_provider: Option<ProviderChoice>,
    filter: Seq<char>,
) -> Seq<Seq<(Seq<char>, TextRole)>> {
    if screen == ProviderPopupScreen::ApiKey {
        api_key_items(pending_provider, filter)
    } else if items.len() == 0 {
        seq![seq![("No matches"@, TextRole::Muted)]]
    } else {
        Seq::new(
            items.len(),
            |i: int|
                seq![
                    (marker_of(items[i], ctx, reasoning_at(reasoning, i)), marker_role_of(items[i])),
                    (render_label_of(items[i]), label_role_of(items[i])),
                ],
        )
    }
}

/// The lines of the provider popup's list.
pub fn provider_popup_rows(
    screen: ProviderPopupScreen,
    items: &Vec<ProviderMenuItem>,
    ctx: &MarkerContext,
    reasoning: &Vec<bool>,
    pending_provider: Option<&ProviderChoice>,
    filter: &str,
) -> (r: Vec<StyledLine>)
    ensures
        lines_view(r@) == popup_rows_spec(
            screen,
            items@,
            *ctx,
            reasoning@,
            match pending_provider {
                Some(p) => Some(*p),
                None => None,
            },
            filter@,
        ),
{
    if screen == ProviderPopupScreen::ApiKey {
        return provider_api_key_items(pending_provider, filter);
    }
    if items.len() == 0 {
        let mut l: StyledLine = Vec::new();
        l.push((string_from("No matches"), TextRole::Muted));
        assert(line_view(l@) =~= seq![("No matches"@, TextRole::Muted)]);
        let mut r: Vec<StyledLine> = Vec::new();
        r.push(l);
        assert(lines_view(r@) =~= seq![seq![("No matches"@, TextRole::Muted)]]);
        return r;
    }
    let ghost want = popup_rows_spec(
        screen,
        items@,
        *ctx,
        reasoning@,
        match pending_provider {
            Some(p) => Some(*p),
            None => None,
        },
        filter@,
    );
    let mut r: Vec<StyledLine> = Vec::new();
    let mut i: usize = 0;
    while i < items.len()
        invariant
            0 <= i <= items@.len(),
            items@.len() > 0,
            screen != ProviderPopupScreen::ApiKey,
            want == popup_rows_spec(
                screen,
                items@,
                *ctx,
                reasoning@,
                match pending_provider {
                    Some(p) => Some(*p),
                    None => None,
                },
                filter@,
            ),
            lines_view(r@) == want.take(i as int),
        decreases items@.len() - i,
    {
        let item = &items[i];
        let has = i < reasoning.len() && reasoning[i];
        let mut l: StyledLine = Vec::new();
        l.push((string_from(provider_menu_marker(item, ctx, has)), provider_menu_item_marker_role(item)));
        l.push((provider_menu_item_render_label(item), provider_menu_item_label_role(item)));
        assert(line_view(l@) =~= want[i as int]);
        let ghost prev = r@;
        r.push(l);
        assert(lines_view(r@) =~= lines_view(prev).push(want[i as int]));
        assert(want.take(i + 1) =~= want.take(i as int).push(want[i as int]));
        i += 1;
    }
    assert(want.take(i as int) =~= want);
    r
}

} // verus!
