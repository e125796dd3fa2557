//! The rows of each screen of the provider popup, and which row is
//! highlighted when the screen opens.
use vstd::prelude::*;
use crate::menu::{ProviderChoice, ProviderOption, ReasoningEffort};
use crate::menu_item::{ProviderMenuItem, ReasoningOptionChoice, ThreadSummary, VoiceModelChoice};
use crate::policy::{HostedWebSearchMode, PolicyMode, WebSearchProviderStatus};
use crate::settings::string_views;
use crate::status::WorkingSpinner;
use crate::text::string_from;

verus! {

broadcast use vstd::string::group_string_axioms;

/// The timeline settings that the settings screen shows.
#[derive(Debug, Clone, Copy, Default, PartialEq, Eq, Structural)]
pub struct TimelineSettings {
    pub message_folding: bool,
}

/// The rows of the main menu.
pub open spec fn main_menu(plan_mode_enabled: bool) -> Seq<ProviderMenuItem> {
    seq![
        ProviderMenuItem::Models,
        ProviderMenuItem::PlanModeToggle(plan_mode_enabled),
        ProviderMenuItem::Providers,
        ProviderMenuItem::Settings,
        ProviderMenuItem::RoadmapMode,
        ProviderMenuItem::RunnerSettings,
        ProviderMenuItem::ResumeThreads,
        ProviderMenuItem::WebSearchSettings,
        ProviderMenuItem::SpinnerSettings,
        ProviderMenuItem::ThemesSettings,
        ProviderMenuItem::MarketplacesSettings,
    ]
}

/// The main menu: models first, then the plan mode toggle and the
/// submenus; providers are reached through their own submenu.
pub fn main_provider_menu_items(providers: &Vec<ProviderChoice>, plan_mode_enabled: bool) -> (r: Vec<
    ProviderMenuItem,
>)
    ensures
        r@ == main_menu(plan_mode_enabled),
{
    let mut r: Vec<ProviderMenuItem> = Vec::new();
    r.push(ProviderMenuItem::Models);
    r.push(ProviderMenuItem::PlanModeToggle(plan_mode_enabled));
    r.push(ProviderMenuItem::Providers);
    r.push(ProviderMenuItem::Settings);
    r.push(ProviderMenuItem::RoadmapMode);
    r.push(ProviderMenuItem::RunnerSettings);
    r.push(ProviderMenuItem::ResumeThreads);
    r.push(ProviderMenuItem::WebSearchSettings);
    r.push(ProviderMenuItem::SpinnerSettings);
    r.push(ProviderMenuItem::ThemesSettings);
    r.push(ProviderMenuItem::MarketplacesSettings);
    assert(r@ =~= main_menu(plan_mode_enabled));
    r
}

/// The settings screen: the four default modes, then the toggles and
/// choices, then Back.
pub fn settings_menu_items(
    timeline_settings: TimelineSettings,
    search_index_enabled: bool,
    command_shell: &str,
    file_backed_dynamic_context: bool,
) -> (r: Vec<ProviderMenuItem>)
    ensures
        r@.len() == 10,
        r@[0] == ProviderMenuItem::DefaultMode(PolicyMode::Default),
        r@[1] == ProviderMenuItem::DefaultMode(PolicyMode::AcceptAll),
        r@[2] == ProviderMenuItem::DefaultMode(PolicyMode::Plan),
        r@[3] == ProviderMenuItem::DefaultMode(PolicyMode::Bypass),
        r@[4] == ProviderMenuItem::SearchIndexToggle(search_index_enabled),
        r@[5] matches ProviderMenuItem::ShellSettings(shell) && shell@ == command_shell@,
        r@[6] == ProviderMenuItem::VoiceModelSettings,
        r@[7] == ProviderMenuItem::FileBackedDynamicContextToggle(file_backed_dynamic_context),
        r@[8] == ProviderMenuItem::MessageFoldingToggle(timeline_settings.message_folding),
        r@[9] == ProviderMenuItem::Back,
{
    let mut r: Vec<ProviderMenuItem> = Vec::new();
    r.push(ProviderMenuItem::DefaultMode(PolicyMode::Default));
    r.push(ProviderMenuItem::DefaultMode(PolicyMode::AcceptAll));
    r.push(ProviderMenuItem::DefaultMode(PolicyMode::Plan));
    r.push(ProviderMenuItem::DefaultMode(PolicyMode::Bypass));
    r.push(ProviderMenuItem::SearchIndexToggle(search_index_enabled));
    r.push(ProviderMenuItem::ShellSettings(string_from(command_shell)));
    r.push(ProviderMenuItem::VoiceModelSettings);
    r.push(ProviderMenuItem::FileBackedDynamicContextToggle(file_backed_dynamic_context));
    r.push(ProviderMenuItem::MessageFoldingToggle(timeline_settings.message_folding));
    r.push(ProviderMenuItem::Back);
    r
}

/// The row that the settings screen opens on: the current default mode.
pub fn settings_menu_selection(mode: PolicyMode) -> (r: usize)
    ensures
        r == match mode {
            PolicyMode::Default => 0usize,
            PolicyMode::AcceptAll => 1,
            PolicyMode::Plan => 2,
            PolicyMode::Bypass => 3,
        },
{
    match mode {
        PolicyMode::Default => 0,
        PolicyMode::AcceptAll => 1,
        PolicyMode::Plan => 2,
        PolicyMode::Bypass => 3,
    }
}

/// One row per provider, then Back.
pub fn providers_menu_items(providers: &Vec<ProviderChoice>) -> (r: Vec<ProviderMenuItem>)
    ensures
        r@.len() == providers@.len() + 1,
        forall|i: int|
            0 <= i < providers@.len() ==> #[trigger] r@[i] == ProviderMenuItem::Provider(
                providers@[i],
            ),
        r@.last() == ProviderMenuItem::Back,
{
    let mut r: Vec<ProviderMenuItem> = Vec::new();
    let mut i: usize = 0;
    while i < providers.len()
        invariant
            0 <= i <= providers@.len(),
            r@.len() == i,
            forall|j: int|
                0 <= j < i ==> #[trigger] r@[j] == ProviderMenuItem::Provider(providers@[j]),
        decreases providers@.len() - i,
    {
        r.push(ProviderMenuItem::Provider(providers[i].duplicate()));
        i += 1;
    }
    r.push(ProviderMenuItem::Back);
    r
}

/// The first position in `providers` of the provider in use, or 0.
pub fn providers_menu_selection(providers: &Vec<ProviderChoice>, current: &str) -> (r: usize)
    ensures
        (exists|j: int| 0 <= j < providers@.len() && #[trigger] providers@[j].provider_id@ == current@)
            ==> {
            &&& r < providers@.len()
            &&& providers@[r as int].provider_id@ == current@
            &&& forall|j: int| 0 <= j < r ==> #[trigger] providers@[j].provider_id@ != current@
        },
        !(exists|j: int| 0 <= j < providers@.len() && #[trigger] providers@[j].provider_id@ == current@)
            ==> r == 0,
{
    let mut i: usize = 0;
    while i < providers.len()
        invariant
            0 <= i <= providers@.len(),
            forall|j: int| 0 <= j < i ==> #[trigger] providers@[j].provider_id@ != current@,
        decreases providers@.len() - i,
    {
        if crate::text::str_eq(providers[i].provider_id.as_str(), current) {
            return i;
        }
        i += 1;
    }
    0
}

/// The spinner screen: every spinner, then Back, opened on the spinner in
/// use.
pub fn spinner_submenu(current: WorkingSpinner) -> (r: (Vec<ProviderMenuItem>, usize))
    ensures
        r.0@ == seq![
            ProviderMenuItem::Spinner(WorkingSpinner::Dots),
            ProviderMenuItem::Spinner(WorkingSpinner::Line),
            ProviderMenuItem::Spinner(WorkingSpinner::Arc),
            ProviderMenuItem::Spinner(WorkingSpinner::Pulse),
            ProviderMenuItem::Back,
        ],
        r.0@[r.1 as int] == ProviderMenuItem::Spinner(current),
{
    let all = WorkingSpinner::all();
    let mut items: Vec<ProviderMenuItem> = Vec::new();
    let mut selected: usize = 0;
    let mut i: usize = 0;
    while i < all.len()
        invariant
            all@ == seq![
                WorkingSpinner::Dots,
                WorkingSpinner::Line,
                WorkingSpinner::Arc,
                WorkingSpinner::Pulse,
            ],
            0 <= i <= 4,
            items@.len() == i,
            forall|j: int| 0 <= j < i ==> #[trigger] items@[j] == ProviderMenuItem::Spinner(all@[j]),
            selected < 4,
            (exists|j: int| 0 <= j < i && all@[j] == current) ==> all@[selected as int] == current,
        decreases 4 - i,
    {
        if all[i] == current && !(i > 0 && all[selected] == current) {
            selected = i;
        }
        items.push(ProviderMenuItem::Spinner(all[i]));
        i += 1;
    }
    items.push(ProviderMenuItem::Back);
    assert(all@[0] == WorkingSpinner::Dots);
    assert(items@ =~= seq![
        ProviderMenuItem::Spinner(WorkingSpinner::Dots),
        ProviderMenuItem::Spinner(WorkingSpinner::Line),
        ProviderMenuItem::Spinner(WorkingSpinner::Arc),
        ProviderMenuItem::Spinner(WorkingSpinner::Pulse),
        ProviderMenuItem::Back,
    ]);
    (items, selected)
}

/// Whether the web search screen opens on `item`: the active external
/// provider, or the hosted mode in use when no external provider is set.
pub open spec fn web_search_current(
    item: ProviderMenuItem,
    mode: HostedWebSearchMode,
    external_provider_set: bool,
) -> bool {
    match item {
        ProviderMenuItem::WebSearchProvider(status) => status.active,
        ProviderMenuItem::WebSearchMode(m) => !external_provider_set && m == mode,
        _ => false,
    }
}

/// Whether `k` is the first row of `items` that satisfies `p`.
pub open spec fn first_where(items: Seq<ProviderMenuItem>, k: int, p: spec_fn(ProviderMenuItem) -> bool) -> bool {
    &&& 0 <= k < items.len()
    &&& p(items[k])
    &&& forall|j: int| 0 <= j < k ==> !p(#[trigger] items[j])
}

/// Whether no row of `items` satisfies `p`.
pub open spec fn none_where(items: Seq<ProviderMenuItem>, p: spec_fn(ProviderMenuItem) -> bool) -> bool {
    forall|j: int| 0 <= j < items.len() ==> !p(#[trigger] items[j])
}

/// The web search screen: the hosted modes under their title, the external
/// providers under theirs when there are any, then Back; opened on the
/// setting in use, else on the first hosted mode.
#[verifier::loop_isolation(false)]
pub fn web_search_submenu(
    statuses: &Vec<WebSearchProviderStatus>,
    mode: HostedWebSearchMode,
    external_provider_set: bool,
) -> (r: (Vec<ProviderMenuItem>, usize))
    ensures
        ({
            let items = r.0@;
            let n = statuses@.len() as int;
            let ext: int = if n > 0 {
                1 + n
            } else {
                0
            };
            &&& items.len() == 5 + ext
            &&& items[0] matches ProviderMenuItem::Section(t) && t@ == "Hosted (OpenAI/Codex)"@
            &&& items[1] == ProviderMenuItem::WebSearchMode(HostedWebSearchMode::Cached)
            &&& items[2] == ProviderMenuItem::WebSearchMode(HostedWebSearchMode::Live)
            &&& items[3] == ProviderMenuItem::WebSearchMode(HostedWebSearchMode::Disabled)
            &&& n > 0 ==> (items[4] matches ProviderMenuItem::Section(t) && t@
                == "External providers (applies on restart)"@)
            &&& forall|i: int|
                0 <= i < n ==> #[trigger] items[5 + i] == ProviderMenuItem::WebSearchProvider(
                    statuses@[i],
                )
            &&& items.last() == ProviderMenuItem::Back
        }),
        ({
            let p = |item: ProviderMenuItem| web_search_current(item, mode, external_provider_set);
            ||| first_where(r.0@, r.1 as int, p)
            ||| (none_where(r.0@, p) && r.1 == 1)
        }),
{
    let mut items: Vec<ProviderMenuItem> = Vec::new();
    items.push(ProviderMenuItem::Section(string_from("Hosted (OpenAI/Codex)")));
    items.push(ProviderMenuItem::WebSearchMode(HostedWebSearchMode::Cached));
    items.push(ProviderMenuItem::WebSearchMode(HostedWebSearchMode::Live));
    items.push(ProviderMenuItem::WebSearchMode(HostedWebSearchMode::Disabled));
    let n = statuses.len();
    if n > 0 {
        items.push(ProviderMenuItem::Section(string_from("External providers (applies on restart)")));
        let mut i: usize = 0;
        while i < n
            invariant
                n == statuses@.len(),
                0 <= i <= n,
                items@.len() == 5 + i,
                items@[0] matches ProviderMenuItem::Section(t) && t@ == "Hosted (OpenAI/Codex)"@,
                items@[1] == ProviderMenuItem::WebSearchMode(HostedWebSearchMode::Cached),
                items@[2] == ProviderMenuItem::WebSearchMode(HostedWebSearchMode::Live),
                items@[3] == ProviderMenuItem::WebSearchMode(HostedWebSearchMode::Disabled),
                items@[4] matches ProviderMenuItem::Section(t) && t@
                    == "External providers (applies on restart)"@,
                forall|j: int|
                    0 <= j < i ==> #[trigger] items@[5 + j] == ProviderMenuItem::WebSearchProvider(
                        statuses@[j],
                    ),
            decreases n - i,
        {
            items.push(ProviderMenuItem::WebSearchProvider(statuses[i].duplicate()));
            i += 1;
        }
    }
    items.push(ProviderMenuItem::Back);
    let ghost p = |item: ProviderMenuItem| web_search_current(item, mode, external_provider_set);
    let mut k: usize = 0;
    while k < items.len()
        invariant
            0 <= k <= items@.len(),
            forall|j: int| 0 <= j < k ==> !p(#[trigger] items@[j]),
            p == (|item: ProviderMenuItem| web_search_current(item, mode, external_provider_set)),
        decreases items@.len() - k,
    {
        let hit = match &items[k] {
            ProviderMenuItem::WebSearchProvider(status) => status.active,
            ProviderMenuItem::WebSearchMode(m) => !external_provider_set && *m == mode,
            _ => false,
        };
        if hit {
            return (items, k);
        }
        k += 1;
    }
    (items, 1)
}

/// Whether `k` is the first position in `ids` that holds `target`, or, when
/// none does, 0.
pub open spec fn first_match_or_zero(ids: Seq<Seq<char>>, target: Seq<char>, k: int) -> bool {
    if exists|j: int| 0 <= j < ids.len() && ids[j] == target {
        &&& 0 <= k < ids.len()
        &&& ids[k] == target
        &&& forall|j: int| 0 <= j < k ==> ids[j] != target
    } else {
        k == 0
    }
}

/// The first position in `ids` that holds `target`, or 0.
fn position_or_zero(strings: &Vec<String>, target: &str) -> (k: usize)
    ensures
        first_match_or_zero(string_views(strings@), target@, k as int),
{
    let ghost ids = string_views(strings@);
    let mut i: usize = 0;
    while i < strings.len()
        invariant
            ids == string_views(strings@),
            0 <= i <= strings@.len(),
            forall|j: int| 0 <= j < i ==> ids[j] != target@,
        decreases strings@.len() - i,
    {
        if crate::text::str_eq(strings[i].as_str(), target) {
            assert(ids[i as int] == target@);
            return i;
        }
        i += 1;
    }
    0
}

/// The shell screen: each shell that can run commands, then Back; opened on
/// the shell in use, else on the first row.
pub fn shell_submenu(options: &Vec<String>, current: &str) -> (r: (Vec<ProviderMenuItem>, usize))
    ensures
        r.0@.len() == options@.len() + 1,
        forall|i: int|
            0 <= i < options@.len() ==> (#[trigger] r.0@[i] matches ProviderMenuItem::ShellChoice(s)
                && s@ == options@[i]@),
        r.0@.last() == ProviderMenuItem::Back,
        first_match_or_zero(string_views(options@), current@, r.1 as int),
{
    let mut items: Vec<ProviderMenuItem> = Vec::new();
    let mut i: usize = 0;
    while i < options.len()
        invariant
            0 <= i <= options@.len(),
            items@.len() == i,
            forall|j: int|
                0 <= j < i ==> (#[trigger] items@[j] matches ProviderMenuItem::ShellChoice(s) && s@
                    == options@[j]@),
        decreases options@.len() - i,
    {
        items.push(ProviderMenuItem::ShellChoice(options[i].clone()));
        i += 1;
    }
    items.push(ProviderMenuItem::Back);
    let k = position_or_zero(options, current);
    (items, k)
}

/// The themes screen: each theme found, then Back; opened on the active
/// theme, else on the first row.
pub fn theme_submenu(ids: &Vec<String>, active: Option<&str>) -> (r: (Vec<ProviderMenuItem>, usize))
    ensures
        r.0@.len() == ids@.len() + 1,
        forall|i: int|
            0 <= i < ids@.len() ==> (#[trigger] r.0@[i] matches ProviderMenuItem::Theme(s) && s@
                == ids@[i]@),
        r.0@.last() == ProviderMenuItem::Back,
        match active {
            Some(a) => first_match_or_zero(string_views(ids@), a@, r.1 as int),
            None => r.1 == 0,
        },
{
    let mut items: Vec<ProviderMenuItem> = Vec::new();
    let mut i: usize = 0;
    while i < ids.len()
        invariant
            0 <= i <= ids@.len(),
            items@.len() == i,
            forall|j: int|
                0 <= j < i ==> (#[trigger] items@[j] matches ProviderMenuItem::Theme(s) && s@
                    == ids@[j]@),
        decreases ids@.len() - i,
    {
        items.push(ProviderMenuItem::Theme(ids[i].clone()));
        i += 1;
    }
    items.push(ProviderMenuItem::Back);
    let k = match active {
        Some(a) => position_or_zero(ids, a),
        None => 0,
    };
    (items, k)
}

/// The ids of some threads.
pub open spec fn thread_ids(threads: Seq<ThreadSummary>) -> Seq<Seq<char>> {
    threads.map_values(|t: ThreadSummary| t.id@)
}

/// The resume screen: each past thread, then Back; opened on the thread in
/// view, else on the first row.
#[verifier::loop_isolation(false)]
pub fn resume_submenu(threads: &Vec<ThreadSummary>, current_thread_id: &str) -> (r: (
    Vec<ProviderMenuItem>,
    usize,
))
    ensures
        r.0@.len() == threads@.len() + 1,
        forall|i: int|
            0 <= i < threads@.len() ==> #[trigger] r.0@[i] == ProviderMenuItem::Thread(
                threads@[i],
            ),
        r.0@.last() == ProviderMenuItem::Back,
        first_match_or_zero(thread_ids(threads@), current_thread_id@, r.1 as int),
{
    let mut items: Vec<ProviderMenuItem> = Vec::new();
    let mut i: usize = 0;
    while i < threads.len()
        invariant
            0 <= i <= threads@.len(),
            items@.len() == i,
            forall|j: int| 0 <= j < i ==> #[trigger] items@[j] == ProviderMenuItem::Thread(threads@[j]),
        decreases threads@.len() - i,
    {
        items.push(ProviderMenuItem::Thread(threads[i].duplicate()));
        i += 1;
    }
    items.push(ProviderMenuItem::Back);
    let ghost ids = thread_ids(threads@);
    let mut k: usize = 0;
    while k < threads.len()
        invariant
            ids == thread_ids(threads@),
            0 <= k <= threads@.len(),
            forall|j: int| 0 <= j < k ==> ids[j] != current_thread_id@,
        decreases threads@.len() - k,
    {
        if crate::text::str_eq(threads[k].id.as_str(), current_thread_id) {
            assert(ids[k as int] == current_thread_id@);
            return (items, k);
        }
        k += 1;
    }
    (items, 0)
}

/// The efforts of some reasoning options.
pub open spec fn effort_names(efforts: Seq<ReasoningEffort>) -> Seq<Seq<char>> {
    efforts.map_values(|e: ReasoningEffort| e.effort@)
}

/// The reasoning screen for a model: each effort it supports, then Back;
/// opened on the effort in use, else on the model's default effort, else on
/// the first row.
#[verifier::loop_isolation(false)]
pub fn reasoning_submenu(option: &ProviderOption, efforts: &Vec<ReasoningEffort>, current_effort: &str) -> (r: (
    Vec<ProviderMenuItem>,
    usize,
))
    ensures
        r.0@.len() == efforts@.len() + 1,
        forall|i: int|
            0 <= i < efforts@.len() ==> (#[trigger] r.0@[i] matches ProviderMenuItem::Reasoning(c) && {
                &&& c.provider_id@ == option.provider_id@
                &&& c.model_id@ == option.model_id@
                &&& c.effort@ == efforts@[i].effort@
                &&& c.description@ == efforts@[i].description@
            }),
        r.0@.last() == ProviderMenuItem::Back,
        ({
            let names = effort_names(efforts@);
            if exists|j: int| 0 <= j < names.len() && names[j] == current_effort@ {
                first_match_or_zero(names, current_effort@, r.1 as int)
            } else {
                match option.default_reasoning {
                    Some(d) => first_match_or_zero(names, d@, r.1 as int),
                    None => r.1 == 0,
                }
            }
        }),
{
    let mut items: Vec<ProviderMenuItem> = Vec::new();
    let mut i: usize = 0;
    while i < efforts.len()
        invariant
            0 <= i <= efforts@.len(),
            items@.len() == i,
            forall|j: int|
                0 <= j < i ==> (#[trigger] items@[j] matches ProviderMenuItem::Reasoning(c) && {
                    &&& c.provider_id@ == option.provider_id@
                    &&& c.model_id@ == option.model_id@
                    &&& c.effort@ == efforts@[j].effort@
                    &&& c.description@ == efforts@[j].description@
                }),
        decreases efforts@.len() - i,
    {
        items.push(
            ProviderMenuItem::Reasoning(
                ReasoningOptionChoice {
                    provider_id: option.provider_id.clone(),
                    model_id: option.model_id.clone(),
                    effort: efforts[i].effort.clone(),
                    description: efforts[i].description.clone(),
                },
            ),
        );
        i += 1;
    }
    items.push(ProviderMenuItem::Back);
    let ghost names = effort_names(efforts@);
    let mut k: usize = 0;
    while k < efforts.len()
        invariant
            names == effort_names(efforts@),
            0 <= k <= efforts@.len(),
            forall|j: int| 0 <= j < k ==> names[j] != current_effort@,
        decreases efforts@.len() - k,
    {
        if crate::text::str_eq(efforts[k].effort.as_str(), current_effort) {
            return (items, k);
        }
        k += 1;
    }
    match &option.default_reasoning {
        Some(d) => {
            let mut k: usize = 0;
            while k < efforts.len()
                invariant
                    names == effort_names(efforts@),
                    0 <= k <= efforts@.len(),
                    forall|j: int| 0 <= j < k ==> names[j] != d@,
                decreases efforts@.len() - k,
            {
                if crate::text::str_eq(efforts[k].effort.as_str(), d.as_str()) {
                    return (items, k);
                }
                k += 1;
            }
            (items, 0)
        },
        None => (items, 0),
    }
}

/// A speech model of a speech provider.
pub struct SpeechModel {
    pub id: String,
    pub name: String,
}

/// A speech provider and its models.
pub struct SpeechProvider {
    pub id: String,
    pub name: String,
    pub models: Vec<SpeechModel>,
}

/// The rows of the voice model screen before Back, as `(provider, -1)` for
/// a provider's title and `(provider, model)` for a model: each provider
/// with models, its title, then its models.
pub open spec fn voice_layout(providers: Seq<SpeechProvider>) -> Seq<(int, int)>
    decreases providers.len(),
{
    if providers.len() == 0 {
        seq![]
    } else {
        let i = providers.len() - 1;
        let m = providers.last().models@.len();
        voice_layout(providers.drop_last()) + if m == 0 {
            seq![]
        } else {
            seq![(i, -1)] + Seq::new(m, |j: int| (i, j))
        }
    }
}

/// Whether `item` is the row that `row` describes.
pub open spec fn voice_row_is(item: ProviderMenuItem, row: (int, int), providers: Seq<SpeechProvider>) -> bool {
    let p = providers[row.0];
    if row.1 < 0 {
        item == ProviderMenuItem::Section(p.name)
    } else {
        let m = p.models@[row.1];
        item matches ProviderMenuItem::VoiceModel(c) && {
            &&& c.provider_id@ == p.id@
            &&& c.model_id@ == m.id@
            &&& c.label@ == p.name@ + " / "@ + m.name@
        }
    }
}

/// The voice model screen: the models of each speech provider under its
/// name (providers without models left out), then Back.
pub fn voice_model_menu_items(providers: &Vec<SpeechProvider>) -> (r: Vec<ProviderMenuItem>)
    ensures
        r@.len() == voice_layout(providers@).len() + 1,
        forall|k: int|
            0 <= k < voice_layout(providers@).len() ==> voice_row_is(
                #[trigger] r@[k],
                voice_layout(providers@)[k],
                providers@,
            ),
        r@.last() == ProviderMenuItem::Back,
{
    let mut items: Vec<ProviderMenuItem> = Vec::new();
    let mut i: usize = 0;
    while i < providers.len()
        invariant
            0 <= i <= providers@.len(),
            items@.len() == voice_layout(providers@.subrange(0, i as int)).len(),
            forall|k: int|
                0 <= k < items@.len() ==> voice_row_is(
                    #[trigger] items@[k],
                    voice_layout(providers@.subrange(0, i as int))[k],
                    providers@,
                ),
        decreases providers@.len() - i,
    {
        let p = &providers[i];
        let ghost before = voice_layout(providers@.subrange(0, i as int));
        let ghost start = items@.len();
        proof {
            let pre = providers@.subrange(0, i + 1);
            assert(pre.drop_last() =~= providers@.subrange(0, i as int));
            assert(pre.last() == providers@[i as int]);
        }
        let m = p.models.len();
        if m > 0 {
            items.push(ProviderMenuItem::Section(p.name.clone()));
            let mut j: usize = 0;
            while j < m
                invariant
                    0 <= i < providers@.len(),
                    p == providers@[i as int],
                    m == p.models@.len(),
                    0 <= j <= m,
                    start == before.len(),
                    items@.len() == start + 1 + j,
                    forall|k: int|
                        0 <= k < start ==> voice_row_is(#[trigger] items@[k], before[k], providers@),
                    items@[start as int] == ProviderMenuItem::Section(p.name),
                    forall|q: int|
                        0 <= q < j ==> voice_row_is(
                            #[trigger] items@[start + 1 + q],
                            (i as int, q),
                            providers@,
                        ),
                decreases m - j,
            {
                let model = &p.models[j];
                let mut label = p.name.clone();
                crate::text::push_str(&mut label, " / ");
                crate::text::push_str(&mut label, model.name.as_str());
                items.push(
                    ProviderMenuItem::VoiceModel(
                        VoiceModelChoice {
                            provider_id: p.id.clone(),
                            model_id: model.id.clone(),
                            label,
                        },
                    ),
                );
                j += 1;
            }
            proof {
                let lay = voice_layout(providers@.subrange(0, i + 1));
                assert(lay =~= before + (seq![(i as int, -1)] + Seq::new(
                    m as nat,
                    |q: int| (i as int, q),
                )));
                assert forall|k: int| 0 <= k < items@.len() implies voice_row_is(
                    #[trigger] items@[k],
                    lay[k],
                    providers@,
                ) by {
                    if k < start {
                        assert(lay[k] == before[k]);
                    } else if k == start {
                        assert(lay[k] == (i as int, -1int));
                    } else {
                        let q = k - start - 1;
                        assert(lay[k] == (i as int, q));
                        assert(items@[start + 1 + q] == items@[k]);
                        assert(voice_row_is(items@[start + 1 + q], (i as int, q), providers@));
                    }
                }
            }
        } else {
            proof {
                let lay = voice_layout(providers@.subrange(0, i + 1));
                assert(lay =~= before);
            }
        }
        i += 1;
    }
    assert(providers@.subrange(0, providers@.len() as int) =~= providers@);
    items.push(ProviderMenuItem::Back);
    items
}

/// The positions, below `n`, of the models of provider `pid`, in order.
pub open spec fn model_indices(models: Seq<ProviderOption>, pid: Seq<char>, n: int) -> Seq<int>
    decreases n,
{
    if n <= 0 {
        seq![]
    } else {
        model_indices(models, pid, n - 1) + if models[n - 1].provider_id@ == pid {
            seq![n - 1]
        } else {
            seq![]
        }
    }
}

/// Rows `(2, j)`: the model at position `j`.
pub open spec fn model_rows(ix: Seq<int>) -> Seq<(int, int)> {
    ix.map_values(|j: int| (2int, j))
}

/// The rows for the first `n` providers: for each provider with models, its
/// title `(0, provider)` and then its models.
pub open spec fn provider_layout(
    models: Seq<ProviderOption>,
    providers: Seq<ProviderChoice>,
    n: int,
) -> Seq<(int, int)>
    decreases n,
{
    if n <= 0 {
        seq![]
    } else {
        let ix = model_indices(models, providers[n - 1].provider_id@, models.len() as int);
        provider_layout(models, providers, n - 1) + if ix.len() == 0 {
            seq![]
        } else {
            seq![(0int, n - 1)] + model_rows(ix)
        }
    }
}

/// Whether the provider of the model at `j` already has its rows: a listed
/// provider has that id, or an earlier model does.
pub open spec fn claimed(models: Seq<ProviderOption>, providers: Seq<ProviderChoice>, j: int) -> bool {
    ||| exists|p: int| 0 <= p < providers.len() && #[trigger] providers[p].provider_id@ == models[j].provider_id@
    ||| exists|k: int| 0 <= k < j && #[trigger] models[k].provider_id@ == models[j].provider_id@
}

/// The rows for the providers that are not listed, in the order their first
/// model comes: the provider id as title `(1, model)`, then its models.
pub open spec fn orphan_layout(
    models: Seq<ProviderOption>,
    providers: Seq<ProviderChoice>,
    n: int,
) -> Seq<(int, int)>
    decreases n,
{
    if n <= 0 {
        seq![]
    } else {
        orphan_layout(models, providers, n - 1) + if claimed(models, providers, n - 1) {
            seq![]
        } else {
            seq![(1int, n - 1)] + model_rows(
                model_indices(models, models[n - 1].provider_id@, models.len() as int),
            )
        }
    }
}

/// The rows of the models screen before Back.
pub open spec fn models_layout(models: Seq<ProviderOption>, providers: Seq<ProviderChoice>) -> Seq<
    (int, int),
> {
    provider_layout(models, providers, providers.len() as int) + orphan_layout(
        models,
        providers,
        models.len() as int,
    )
}

/// Whether `item` is the row that `row` describes.
pub open spec fn model_row_is(
    item: ProviderMenuItem,
    row: (int, int),
    models: Seq<ProviderOption>,
    providers: Seq<ProviderChoice>,
) -> bool {
    if row.0 == 0 {
        item == ProviderMenuItem::Section(providers[row.1].name)
    } else if row.0 == 1 {
        item == ProviderMenuItem::Section(models[row.1].provider_id)
    } else {
        item == ProviderMenuItem::Model(models[row.1])
    }
}

proof fn lemma_model_indices_empty(models: Seq<ProviderOption>, pid: Seq<char>, n: int)
    requires
        0 <= n <= models.len(),
    ensures
        model_indices(models, pid, n).len() == 0 <==> forall|j: int|
            0 <= j < n ==> #[trigger] models[j].provider_id@ != pid,
    decreases n,
{
    if n > 0 {
        lemma_model_indices_empty(models, pid, n - 1);
    }
}

/// Whether some model belongs to provider `pid`.
fn has_models_of(models: &Vec<ProviderOption>, pid: &str) -> (r: bool)
    ensures
        r == (model_indices(models@, pid@, models@.len() as int).len() > 0),
{
    proof {
        lemma_model_indices_empty(models@, pid@, models@.len() as int);
    }
    let mut j: usize = 0;
    while j < models.len()
        invariant
            0 <= j <= models@.len(),
            forall|q: int| 0 <= q < j ==> #[trigger] models@[q].provider_id@ != pid@,
        decreases models@.len() - j,
    {
        if crate::text::str_eq(models[j].provider_id.as_str(), pid) {
            proof {
                lemma_model_indices_empty(models@, pid@, models@.len() as int);
                assert(models@[j as int].provider_id@ == pid@);
            }
            return true;
        }
        j += 1;
    }
    false
}

/// Appends the models of provider `pid`, in order.
fn push_models_of(items: &mut Vec<ProviderMenuItem>, models: &Vec<ProviderOption>, pid: &str)
    ensures
        ({
            let ix = model_indices(models@, pid@, models@.len() as int);
            &&& final(items)@.len() == old(items)@.len() + ix.len()
            &&& forall|k: int| 0 <= k < old(items)@.len() ==> #[trigger] final(items)@[k] == old(items)@[k]
            &&& forall|q: int|
                0 <= q < ix.len() ==> #[trigger] final(items)@[old(items)@.len() + q]
                    == ProviderMenuItem::Model(models@[ix[q]])
        }),
{
    let ghost start = items@.len();
    let ghost before = items@;
    let mut j: usize = 0;
    while j < models.len()
        invariant
            0 <= j <= models@.len(),
            before == old(items)@,
            start == before.len(),
            items@.len() == start + model_indices(models@, pid@, j as int).len(),
            forall|k: int| 0 <= k < start ==> #[trigger] items@[k] == before[k],
            forall|q: int|
                0 <= q < model_indices(models@, pid@, j as int).len() ==> #[trigger] items@[start + q]
                    == ProviderMenuItem::Model(models@[model_indices(models@, pid@, j as int)[q]]),
        decreases models@.len() - j,
    {
        let ghost ix = model_indices(models@, pid@, j as int);
        if crate::text::str_eq(models[j].provider_id.as_str(), pid) {
            items.push(ProviderMenuItem::Model(models[j].duplicate()));
            proof {
                let ix2 = model_indices(models@, pid@, j + 1);
                assert(ix2 =~= ix.push(j as int));
                assert forall|q: int| 0 <= q < ix2.len() implies #[trigger] items@[start + q]
                    == ProviderMenuItem::Model(models@[ix2[q]]) by {
                    if q < ix.len() {
                        assert(ix2[q] == ix[q]);
                    }
                }
            }
        } else {
            assert(model_indices(models@, pid@, j + 1) =~= ix);
        }
        j += 1;
    }
}

/// Whether the provider of the model at `j` already has its rows.
fn is_claimed(models: &Vec<ProviderOption>, providers: &Vec<ProviderChoice>, j: usize) -> (r: bool)
    requires
        j < models@.len(),
    ensures
        r == claimed(models@, providers@, j as int),
{
    let pid = models[j].provider_id.as_str();
    let mut p: usize = 0;
    while p < providers.len()
        invariant
            0 <= p <= providers@.len(),
            j < models@.len(),
            pid@ == models@[j as int].provider_id@,
            forall|q: int| 0 <= q < p ==> #[trigger] providers@[q].provider_id@ != pid@,
        decreases providers@.len() - p,
    {
        if crate::text::str_eq(providers[p].provider_id.as_str(), pid) {
            return true;
        }
        p += 1;
    }
    let mut k: usize = 0;
    while k < j
        invariant
            0 <= k <= j < models@.len(),
            pid@ == models@[j as int].provider_id@,
            forall|q: int| 0 <= q < providers@.len() ==> #[trigger] providers@[q].provider_id@ != pid@,
            forall|q: int| 0 <= q < k ==> #[trigger] models@[q].provider_id@ != pid@,
        decreases j - k,
    {
        if crate::text::str_eq(models[k].provider_id.as_str(), pid) {
            return true;
        }
        k += 1;
    }
    false
}

/// Whether `items` holds the rows `layout`.
pub open spec fn rows_match(
    items: Seq<ProviderMenuItem>,
    layout: Seq<(int, int)>,
    models: Seq<ProviderOption>,
    providers: Seq<ProviderChoice>,
) -> bool {
    &&& items.len() == layout.len()
    &&& forall|k: int| 0 <= k < layout.len() ==> model_row_is(#[trigger] items[k], layout[k], models, providers)
}

/// Appends a title and then the models of `pid`; the rows match `layout`
/// extended by `title` and those models.
fn push_group(
    items: &mut Vec<ProviderMenuItem>,
    title: ProviderMenuItem,
    models: &Vec<ProviderOption>,
    providers: &Vec<ProviderChoice>,
    pid: &str,
    layout: Ghost<Seq<(int, int)>>,
    title_row: Ghost<(int, int)>,
)
    requires
        rows_match(old(items)@, layout@, models@, providers@),
        model_row_is(title, title_row@, models@, providers@),
    ensures
        rows_match(
            final(items)@,
            layout@ + (seq![title_row@] + model_rows(
                model_indices(models@, pid@, models@.len() as int),
            )),
            models@,
            providers@,
        ),
{
    let ghost start = items@.len();
    items.push(title);
    push_models_of(items, models, pid);
    proof {
        let ix = model_indices(models@, pid@, models@.len() as int);
        let lay = layout@ + (seq![title_row@] + model_rows(ix));
        assert forall|k: int| 0 <= k < lay.len() implies model_row_is(
            #[trigger] items@[k],
            lay[k],
            models@,
            providers@,
        ) by {
            if k < start {
                assert(lay[k] == layout@[k]);
            } else if k == start {
                assert(lay[k] == title_row@);
            } else {
                let q = k - start - 1;
                assert(lay[k] == (2int, ix[q]));
                assert(items@[(start + 1) + q] == ProviderMenuItem::Model(models@[ix[q]]));
            }
        }
    }
}

/// The models screen: the models of each listed provider under its name,
/// then the models of providers that are not listed under their id, then
/// Back.
pub fn models_menu_items(models: &Vec<ProviderOption>, providers: &Vec<ProviderChoice>) -> (r: Vec<
    ProviderMenuItem,
>)
    ensures
        rows_match(r@.drop_last(), models_layout(models@, providers@), models@, providers@),
        r@.len() > 0,
        r@.last() == ProviderMenuItem::Back,
{
    let mut items: Vec<ProviderMenuItem> = Vec::new();
    let mut i: usize = 0;
    while i < providers.len()
        invariant
            0 <= i <= providers@.len(),
            rows_match(items@, provider_layout(models@, providers@, i as int), models@, providers@),
        decreases providers@.len() - i,
    {
        let pid = providers[i].provider_id.as_str();
        let ghost lay = provider_layout(models@, providers@, i as int);
        if has_models_of(models, pid) {
            push_group(
                &mut items,
                ProviderMenuItem::Section(providers[i].name.clone()),
                models,
                providers,
                pid,
                Ghost(lay),
                Ghost((0int, i as int)),
            );
        }
        proof {
            let ix = model_indices(models@, providers@[i as int].provider_id@, models@.len() as int);
            if ix.len() == 0 {
                assert(provider_layout(models@, providers@, i + 1) =~= lay);
            } else {
                assert(provider_layout(models@, providers@, i + 1) =~= lay + (seq![(0int, i as int)]
                    + model_rows(ix)));
            }
        }
        i += 1;
    }
    let ghost head = provider_layout(models@, providers@, providers@.len() as int);
    let mut j: usize = 0;
    assert(head + orphan_layout(models@, providers@, 0) =~= head);
    while j < models.len()
        invariant
            0 <= j <= models@.len(),
            head == provider_layout(models@, providers@, providers@.len() as int),
            rows_match(
                items@,
                head + orphan_layout(models@, providers@, j as int),
                models@,
                providers@,
            ),
        decreases models@.len() - j,
    {
        let ghost lay = head + orphan_layout(models@, providers@, j as int);
        if !is_claimed(models, providers, j) {
            push_group(
                &mut items,
                ProviderMenuItem::Section(models[j].provider_id.clone()),
                models,
                providers,
                models[j].provider_id.as_str(),
                Ghost(lay),
                Ghost((1int, j as int)),
            );
            assert(head + orphan_layout(models@, providers@, j + 1) =~= lay + (seq![(1int, j as int)]
                + model_rows(model_indices(models@, models@[j as int].provider_id@, models@.len() as int))));
        } else {
            assert(head + orphan_layout(models@, providers@, j + 1) =~= lay);
        }
        j += 1;
    }
    let ghost body = items@;
    items.push(ProviderMenuItem::Back);
    assert(items@.drop_last() =~= body);
    items
}

} // verus!
