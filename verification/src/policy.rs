//! Policy modes (how freely the agent may act) and the web-search
//! settings, with the words the interface uses for them, and the text that
//! asks for approval of a finished plan.
use vstd::prelude::*;
use crate::text::{chars_of, push_range, push_str, string_from, trim, trim_range};

verus! {

broadcast use vstd::string::group_string_axioms;

/// How freely the agent may act without asking.
#[derive(Debug, Clone, Copy, PartialEq, Eq, Structural)]
pub enum PolicyMode {
    Default,
    AcceptAll,
    Plan,
    Bypass,
}

pub open spec fn next_mode(mode: PolicyMode) -> PolicyMode {
    match mode {
        PolicyMode::Default => PolicyMode::AcceptAll,
        PolicyMode::AcceptAll => PolicyMode::Plan,
        PolicyMode::Plan => PolicyMode::Bypass,
        PolicyMode::Bypass => PolicyMode::Default,
    }
}

/// The mode that the mode shortcut switches to.
pub fn next_policy_mode(mode: PolicyMode) -> (r: PolicyMode)
    ensures
        r == next_mode(mode),
{
    match mode {
        PolicyMode::Default => PolicyMode::AcceptAll,
        PolicyMode::AcceptAll => PolicyMode::Plan,
        PolicyMode::Plan => PolicyMode::Bypass,
        PolicyMode::Bypass => PolicyMode::Default,
    }
}

/// The shortcut visits every mode and comes back after four presses.
pub proof fn law_policy_modes_cycle(mode: PolicyMode)
    ensures
        next_mode(next_mode(next_mode(next_mode(mode)))) == mode,
        next_mode(mode) != mode,
        next_mode(next_mode(mode)) != mode,
        next_mode(next_mode(next_mode(mode))) != mode,
{
}

/// The protocol's name of a mode.
pub open spec fn mode_label(mode: PolicyMode) -> Seq<char> {
    match mode {
        PolicyMode::Default => "default"@,
        PolicyMode::AcceptAll => "accept_all"@,
        PolicyMode::Plan => "plan"@,
        PolicyMode::Bypass => "bypass"@,
    }
}

pub fn policy_mode_label(mode: PolicyMode) -> (r: &'static str)
    ensures
        r@ == mode_label(mode),
{
    match mode {
        PolicyMode::Default => "default",
        PolicyMode::AcceptAll => "accept_all",
        PolicyMode::Plan => "plan",
        PolicyMode::Bypass => "bypass",
    }
}

/// The name of a mode in the footer.
pub fn pretty_policy_mode_label(mode: PolicyMode) -> (r: &'static str)
    ensures
        r@ == (match mode {
            PolicyMode::Default => "Default"@,
            PolicyMode::AcceptAll => "Accept All"@,
            PolicyMode::Plan => "Plan"@,
            PolicyMode::Bypass => "Bypass"@,
        }),
{
    match mode {
        PolicyMode::Default => "Default",
        PolicyMode::AcceptAll => "Accept All",
        PolicyMode::Plan => "Plan",
        PolicyMode::Bypass => "Bypass",
    }
}

/// The name of a mode in the settings menu.
pub open spec fn settings_mode_label(mode: PolicyMode) -> Seq<char> {
    match mode {
        PolicyMode::Default => "Default"@,
        PolicyMode::AcceptAll => "Accept edits"@,
        PolicyMode::Plan => "Plan"@,
        PolicyMode::Bypass => "Bypass"@,
    }
}

pub fn settings_policy_mode_label(mode: PolicyMode) -> (r: &'static str)
    ensures
        r@ == settings_mode_label(mode),
{
    match mode {
        PolicyMode::Default => "Default",
        PolicyMode::AcceptAll => "Accept edits",
        PolicyMode::Plan => "Plan",
        PolicyMode::Bypass => "Bypass",
    }
}

/// The `- step` lines of the plan's next steps, blank steps left out.
pub open spec fn step_lines(steps: Seq<Seq<char>>) -> Seq<char>
    decreases steps.len(),
{
    if steps.len() == 0 {
        seq![]
    } else {
        step_lines(steps.drop_last()) + if trim(steps.last()).len() > 0 {
            "\n- "@ + trim(steps.last())
        } else {
            seq![]
        }
    }
}

pub open spec fn views(v: Seq<String>) -> Seq<Seq<char>> {
    v.map_values(|s: String| s@)
}

/// The request to approve a plan: how to approve or reject it, then the
/// plan's summary and its next steps when there are any.
pub open spec fn plan_exit_text(summary: Option<Seq<char>>, steps: Seq<Seq<char>>, target: PolicyMode) -> Seq<char> {
    "Plan ready for approval. Approve with y to enter "@ + mode_label(target)
        + " mode; reject with n."@ + match summary {
        Some(s) => if trim(s).len() > 0 {
            "\n\n"@ + trim(s)
        } else {
            seq![]
        },
        None => seq![],
    } + if steps.len() > 0 {
        "\n\nNext steps:"@ + step_lines(steps)
    } else {
        seq![]
    }
}

/// Appends the trimmed `text` to `out`; gives whether it was not blank.
fn push_trimmed(out: &mut String, text: &str, before: &str) -> (nonblank: bool)
    ensures
        nonblank == (trim(text@).len() > 0),
        final(out)@ == old(out)@ + if nonblank {
            before@ + trim(text@)
        } else {
            seq![]
        },
{
    let v = chars_of(text);
    let (a, b) = trim_range(&v, 0, v.len());
    assert(v@.subrange(0, v@.len() as int) =~= v@);
    if a < b {
        push_str(out, before);
        push_range(out, &v, a, b);
        true
    } else {
        assert(old(out)@ + Seq::<char>::empty() =~= old(out)@);
        false
    }
}

pub fn plan_exit_request_text(summary: Option<&str>, next_steps: &Vec<String>, target_mode: PolicyMode) -> (r:
    String)
    ensures
        r@ == plan_exit_text(
            match summary {
                Some(s) => Some(s@),
                None => None,
            },
            views(next_steps@),
            target_mode,
        ),
{
    let mut text = string_from("Plan ready for approval. Approve with y to enter ");
    push_str(&mut text, policy_mode_label(target_mode));
    push_str(&mut text, " mode; reject with n.");
    let ghost head = text@;
    match summary {
        Some(s) => {
            push_trimmed(&mut text, s, "\n\n");
        },
        None => {},
    }
    let ghost with_summary = text@;
    if next_steps.len() > 0 {
        push_str(&mut text, "\n\nNext steps:");
        let ghost start = text@;
        let mut i: usize = 0;
        assert(views(next_steps@).take(0) =~= Seq::<Seq<char>>::empty());
        assert(start + step_lines(views(next_steps@).take(0)) =~= start);
        while i < next_steps.len()
            invariant
                0 <= i <= next_steps@.len(),
                text@ == start + step_lines(views(next_steps@).take(i as int)),
            decreases next_steps@.len() - i,
        {
            let ghost before = text@;
            push_trimmed(&mut text, next_steps[i].as_str(), "\n- ");
            proof {
                let all = views(next_steps@);
                assert(all.take(i + 1).drop_last() =~= all.take(i as int));
                assert(all.take(i + 1).last() == next_steps@[i as int]@);
                assert(text@ =~= start + step_lines(all.take(i + 1)));
            }
            i += 1;
        }
        assert(views(next_steps@).take(next_steps@.len() as int) =~= views(next_steps@));
    }
    proof {
        let sv = match summary {
            Some(s) => Some(s@),
            None => None,
        };
        assert(text@ =~= plan_exit_text(sv, views(next_steps@), target_mode));
    }
    text
}

/// Whether the model provider's hosted web search is used, and how.
#[derive(Debug, Clone, Copy, PartialEq, Eq, Structural)]
pub enum HostedWebSearchMode {
    Disabled,
    Cached,
    Live,
}

/// The name of a hosted web search mode.
pub open spec fn hosted_mode_label(mode: HostedWebSearchMode) -> Seq<char> {
    match mode {
        HostedWebSearchMode::Disabled => "Disabled"@,
        HostedWebSearchMode::Cached => "Cached hosted"@,
        HostedWebSearchMode::Live => "Live hosted"@,
    }
}

pub fn web_search_mode_label(mode: HostedWebSearchMode) -> (r: &'static str)
    ensures
        r@ == hosted_mode_label(mode),
{
    match mode {
        HostedWebSearchMode::Disabled => "Disabled",
        HostedWebSearchMode::Cached => "Cached hosted",
        HostedWebSearchMode::Live => "Live hosted",
    }
}

/// An external web-search provider, as the server reports it.
#[derive(Debug, Clone, PartialEq, Eq)]
pub struct WebSearchProviderStatus {
    pub id: String,
    pub configured: bool,
    pub enabled: bool,
    /// Whether searches go to this provider now.
    pub active: bool,
}

impl WebSearchProviderStatus {
    pub fn duplicate(&self) -> (r: Self)
        ensures
            r == *self,
    {
        WebSearchProviderStatus {
            id: self.id.clone(),
            configured: self.configured,
            enabled: self.enabled,
            active: self.active,
        }
    }
}

/// ASCII upper-casing of one character (`char::to_ascii_uppercase`).
pub open spec fn ascii_upper(c: char) -> char {
    if 'a' <= c <= 'z' {
        ((c as u32) - 32) as char
    } else {
        c
    }
}

/// `s` with its first character upper-cased when it is an ASCII letter.
pub open spec fn capitalized(s: Seq<char>) -> Seq<char> {
    if s.len() > 0 {
        s.update(0, ascii_upper(s[0]))
    } else {
        s
    }
}

/// `Name - enabled, key configured` and the like.
pub open spec fn provider_status_label(s: WebSearchProviderStatus) -> Seq<char> {
    capitalized(s.id@) + " - "@ + (if s.enabled {
        "enabled"@
    } else {
        "disabled"@
    }) + ", "@ + if s.configured {
        "key configured"@
    } else {
        "no API key"@
    }
}

pub fn web_search_provider_label(status: &WebSearchProviderStatus) -> (r: String)
    ensures
        r@ == provider_status_label(*status),
{
    let v = chars_of(status.id.as_str());
    let mut out = String::new();
    if v.len() > 0 {
        let c = v[0];
        let upper = if 'a' <= c && c <= 'z' {
            ((c as u8) - 32) as char
        } else {
            c
        };
        out.push(upper);
        push_range(&mut out, &v, 1, v.len());
        assert(out@ =~= capitalized(status.id@));
    }
    push_str(&mut out, " - ");
    push_str(&mut out, if status.enabled { "enabled" } else { "disabled" });
    push_str(&mut out, ", ");
    push_str(&mut out, if status.configured { "key configured" } else { "no API key" });
    assert(out@ =~= provider_status_label(*status));
    out
}

} // verus!
