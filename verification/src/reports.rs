//! What the timeline, the event log and the error line say once a setting
//! request to the server comes back (or fails).
use vstd::prelude::*;
use crate::menu::ProviderChoice;
use crate::policy::{hosted_mode_label, mode_label, policy_mode_label, web_search_mode_label, HostedWebSearchMode, PolicyMode};
use crate::providers::{auth_message, provider_auth_event, provider_auth_message, ProviderAuthFlow, ProviderAuthResult};
use crate::menu_item::short_id_view;
use crate::text::{chars_of, push_str, range_starts_with, short_id, string_from};
use vstd::string::StringSliceAdditionalSpecFns;

verus! {

broadcast use {vstd::string::group_string_axioms, vstd::utf8::encode_utf8_decode_utf8};

/// What a request leaves behind: a timeline line, an event, an error.
#[derive(Debug, Clone, PartialEq, Eq)]
pub struct Report {
    pub system: Option<String>,
    pub event: Option<String>,
    pub error: Option<String>,
}

pub type Lines = (Option<Seq<char>>, Option<Seq<char>>, Option<Seq<char>>);

pub open spec fn opt_view(o: Option<String>) -> Option<Seq<char>> {
    match o {
        Some(s) => Some(s@),
        None => None,
    }
}

pub open spec fn report_view(r: Report) -> Lines {
    (opt_view(r.system), opt_view(r.event), opt_view(r.error))
}

/// A success: a timeline line and an event.
pub open spec fn done(system: Seq<char>, event: Seq<char>) -> Lines {
    (Some(system), Some(event), None)
}

/// A failure: an error line.
pub open spec fn failed(error: Seq<char>) -> Lines {
    (None, None, Some(error))
}

/// Three strings joined.
pub fn concat3(a: &str, b: &str, c: &str) -> (r: String)
    ensures
        r@ == a@ + b@ + c@,
{
    let mut s = string_from(a);
    push_str(&mut s, b);
    push_str(&mut s, c);
    s
}

fn report_done(system: String, event: String) -> (r: Report)
    ensures
        report_view(r) == done(system@, event@),
{
    Report { system: Some(system), event: Some(event), error: None }
}

fn report_failed(error: String) -> (r: Report)
    ensures
        report_view(r) == failed(error@),
{
    Report { system: None, event: None, error: Some(error) }
}

/// `enabled` or `disabled`.
pub open spec fn enabled_word(enabled: bool) -> Seq<char> {
    if enabled {
        "enabled"@
    } else {
        "disabled"@
    }
}

fn enabled_text(enabled: bool) -> (r: &'static str)
    ensures
        r@ == enabled_word(enabled),
{
    if enabled {
        "enabled"
    } else {
        "disabled"
    }
}

/// `a + x + b` for success, `c + error` for failure.
pub open spec fn outcome_lines(
    outcome: Result<Seq<char>, Seq<char>>,
    system: (Seq<char>, Seq<char>),
    event: (Seq<char>, Seq<char>),
    error: Seq<char>,
) -> Lines {
    match outcome {
        Ok(x) => done(system.0 + x + system.1, event.0 + x + event.1),
        Err(e) => failed(error + e),
    }
}

fn outcome_report(
    outcome: Result<&str, &str>,
    system: (&str, &str),
    event: (&str, &str),
    error: &str,
) -> (r: Report)
    ensures
        report_view(r) == outcome_lines(
            match outcome {
                Ok(x) => Ok(x@),
                Err(e) => Err(e@),
            },
            (system.0@, system.1@),
            (event.0@, event.1@),
            error@,
        ),
{
    match outcome {
        Ok(x) => report_done(concat3(system.0, x, system.1), concat3(event.0, x, event.1)),
        Err(e) => {
            proof {
                reveal_strlit("");
            }
            report_failed(concat3(error, e, ""))
        },
    }
}

pub open spec fn err_view<T>(outcome: Result<T, String>) -> Result<T, Seq<char>> {
    match outcome {
        Ok(x) => Ok(x),
        Err(e) => Err(e@),
    }
}

/// After turning instant regex search on or off (`Ok` with the setting
/// the server now holds).
pub fn search_index_report(outcome: &Result<bool, String>) -> (r: Report)
    ensures
        report_view(r) == match *outcome {
            Ok(enabled) => done(
                "instant regex search "@ + enabled_word(enabled) + "."@,
                "instant regex search: "@ + enabled_word(enabled),
            ),
            Err(e) => failed("failed to set instant regex search: "@ + e@),
        },
{
    proof {
        reveal_strlit("");
    }
    match outcome {
        Ok(enabled) => outcome_report(
            Ok(enabled_text(*enabled)),
            ("instant regex search ", "."),
            ("instant regex search: ", ""),
            "",
        ),
        Err(e) => outcome_report(Err(e.as_str()), ("", ""), ("", ""), "failed to set instant regex search: "),
    }
}

/// After choosing a hosted web search mode.
pub fn web_search_mode_report(outcome: &Result<HostedWebSearchMode, String>) -> (r: Report)
    ensures
        report_view(r) == match *outcome {
            Ok(mode) => done(
                "web search provider set to "@ + hosted_mode_label(mode) + "."@,
                "web search provider selected: "@ + hosted_mode_label(mode),
            ),
            Err(e) => failed("failed to set web search provider: "@ + e@),
        },
{
    proof {
        reveal_strlit("");
    }
    match outcome {
        Ok(mode) => outcome_report(
            Ok(web_search_mode_label(*mode)),
            ("web search provider set to ", "."),
            ("web search provider selected: ", ""),
            "",
        ),
        Err(e) => outcome_report(Err(e.as_str()), ("", ""), ("", ""), "failed to set web search provider: "),
    }
}

/// After choosing an external web search provider.
pub fn web_search_provider_report(provider: &str, outcome: &Result<(), String>) -> (r: Report)
    ensures
        report_view(r) == match *outcome {
            Ok(_) => done(
                "web search provider set to "@ + provider@ + " (external). Restart Roder to apply."@,
                "web search provider selected: "@ + provider@ + " (external)"@,
            ),
            Err(e) => failed("failed to set web search provider: "@ + e@),
        },
{
    proof {
        reveal_strlit("");
    }
    match outcome {
        Ok(_) => outcome_report(
            Ok(provider),
            ("web search provider set to ", " (external). Restart Roder to apply."),
            ("web search provider selected: ", " (external)"),
            "",
        ),
        Err(e) => outcome_report(Err(e.as_str()), ("", ""), ("", ""), "failed to set web search provider: "),
    }
}

/// After choosing the default mode for new threads.
pub fn default_mode_report(outcome: &Result<PolicyMode, String>) -> (r: Report)
    ensures
        report_view(r) == match *outcome {
            Ok(mode) => done(
                "default mode set to "@ + mode_label(mode) + "."@,
                "default mode selected: "@ + mode_label(mode),
            ),
            Err(e) => failed("failed to set default mode: "@ + e@),
        },
{
    proof {
        reveal_strlit("");
    }
    match outcome {
        Ok(mode) => outcome_report(
            Ok(policy_mode_label(*mode)),
            ("default mode set to ", "."),
            ("default mode selected: ", ""),
            "",
        ),
        Err(e) => outcome_report(Err(e.as_str()), ("", ""), ("", ""), "failed to set default mode: "),
    }
}

/// After setting the policy mode of the thread.
pub fn policy_mode_report(outcome: &Result<PolicyMode, String>) -> (r: Report)
    ensures
        report_view(r) == match *outcome {
            Ok(mode) => done(
                "policy mode set to "@ + mode_label(mode) + "."@,
                "policy mode selected: "@ + mode_label(mode),
            ),
            Err(e) => failed("thread/set_mode failed: "@ + e@),
        },
{
    proof {
        reveal_strlit("");
    }
    match outcome {
        Ok(mode) => outcome_report(
            Ok(policy_mode_label(*mode)),
            ("policy mode set to ", "."),
            ("policy mode selected: ", ""),
            "",
        ),
        Err(e) => outcome_report(Err(e.as_str()), ("", ""), ("", ""), "thread/set_mode failed: "),
    }
}

/// After choosing the shell that runs `!` commands (`Ok` with the shell the
/// server now uses).
pub fn command_shell_report(outcome: &Result<String, String>) -> (r: Report)
    ensures
        report_view(r) == match *outcome {
            Ok(shell) => done(
                "shell command shell set to "@ + shell@ + "."@,
                "shell command shell selected: "@ + shell@,
            ),
            Err(e) => failed("failed to set shell command shell: "@ + e@),
        },
{
    proof {
        reveal_strlit("");
    }
    match outcome {
        Ok(shell) => outcome_report(
            Ok(shell.as_str()),
            ("shell command shell set to ", "."),
            ("shell command shell selected: ", ""),
            "",
        ),
        Err(e) => outcome_report(Err(e.as_str()), ("", ""), ("", ""), "failed to set shell command shell: "),
    }
}

/// After turning file-backed dynamic context on or off.
pub fn file_backed_context_report(outcome: &Result<bool, String>) -> (r: Report)
    ensures
        report_view(r) == match *outcome {
            Ok(enabled) => done(
                "file-backed dynamic context "@ + enabled_word(enabled) + "."@,
                "file-backed dynamic context "@ + enabled_word(enabled),
            ),
            Err(e) => failed("failed to set file-backed dynamic context: "@ + e@),
        },
{
    proof {
        reveal_strlit("");
    }
    match outcome {
        Ok(enabled) => outcome_report(
            Ok(enabled_text(*enabled)),
            ("file-backed dynamic context ", "."),
            ("file-backed dynamic context ", ""),
            "",
        ),
        Err(e) => outcome_report(Err(e.as_str()), ("", ""), ("", ""), "failed to set file-backed dynamic context: "),
    }
}

/// After saving the long message folding setting (`Err` when the config
/// file could not be written).
pub fn message_folding_report(enabled: bool, saved: &Result<(), String>) -> (r: Report)
    ensures
        report_view(r) == match *saved {
            Ok(_) => done(
                "long message folding "@ + enabled_word(enabled) + "."@,
                "message folding saved: "@ + (if enabled {
                    "true"@
                } else {
                    "false"@
                }),
            ),
            Err(e) => failed("failed to save long message folding setting: "@ + e@),
        },
{
    proof {
        reveal_strlit("");
    }
    match saved {
        Ok(_) => report_done(
            concat3("long message folding ", enabled_text(enabled), "."),
            concat3("message folding saved: ", if enabled { "true" } else { "false" }, ""),
        ),
        Err(e) => report_failed(concat3("failed to save long message folding setting: ", e.as_str(), "")),
    }
}

/// `on` or `off`.
pub open spec fn on_off_word(on: bool) -> Seq<char> {
    if on {
        "on"@
    } else {
        "off"@
    }
}

/// What asking for agent-swarm mode says when it is already in that state;
/// nothing when a request is needed.
pub fn swarm_mode_unchanged(current: bool, wanted: bool) -> (r: Option<String>)
    ensures
        match r {
            Some(s) => current == wanted && s@ == "Agent-swarm mode is already "@ + on_off_word(wanted) + "."@,
            None => current != wanted,
        },
{
    if current == wanted {
        Some(concat3("Agent-swarm mode is already ", if wanted { "on" } else { "off" }, "."))
    } else {
        None
    }
}

/// After the server set agent-swarm mode (`Ok` with the mode it now holds).
pub fn swarm_mode_report(outcome: &Result<bool, String>) -> (r: Report)
    ensures
        report_view(r) == match *outcome {
            Ok(on) => done(
                if on {
                    "Agent-swarm mode on. Turns now nudge the model to use the agent_swarm tool; use /agent-swarm off to disable."@
                } else {
                    "Agent-swarm mode off."@
                },
                "slash command: /agent-swarm "@ + on_off_word(on),
            ),
            Err(e) => failed("thread/set_agent_swarm_mode failed: "@ + e@),
        },
{
    proof {
        reveal_strlit("");
    }
    match outcome {
        Ok(on) => report_done(
            string_from(
                if *on {
                    "Agent-swarm mode on. Turns now nudge the model to use the agent_swarm tool; use /agent-swarm off to disable."
                } else {
                    "Agent-swarm mode off."
                },
            ),
            concat3("slash command: /agent-swarm ", if *on { "on" } else { "off" }, ""),
        ),
        Err(e) => report_failed(concat3("thread/set_agent_swarm_mode failed: ", e.as_str(), "")),
    }
}

/// After saving a pasted API key for `provider`.
pub fn api_key_report(provider: &ProviderChoice, outcome: &Result<(), String>) -> (r: Report)
    ensures
        report_view(r) == match *outcome {
            Ok(_) => done(
                "configured API key for "@ + provider.name@ + "."@,
                "provider configured: "@ + provider.provider_id@,
            ),
            Err(e) => failed("providers/configure failed: "@ + e@),
        },
{
    proof {
        reveal_strlit("");
    }
    match outcome {
        Ok(_) => report_done(
            concat3("configured API key for ", provider.name.as_str(), "."),
            concat3("provider configured: ", provider.provider_id.as_str(), ""),
        ),
        Err(e) => report_failed(concat3("providers/configure failed: ", e.as_str(), "")),
    }
}

/// `s` with every occurrence of `pat` taken out, scanning left to right
/// (`str::replace(pat, "")`).
pub open spec fn without_all(s: Seq<char>, pat: Seq<char>) -> Seq<char>
    decreases s.len(),
{
    if pat.len() == 0 || s.len() < pat.len() {
        s
    } else if s.subrange(0, pat.len() as int) == pat {
        without_all(s.subrange(pat.len() as int, s.len() as int), pat)
    } else {
        seq![s[0]] + without_all(s.drop_first(), pat)
    }
}

/// `s` with every occurrence of `pat` taken out.
pub fn remove_all(s: &str, pat: &str) -> (r: String)
    ensures
        r@ == without_all(s@, pat@),
{
    let v = chars_of(s);
    let w = chars_of(pat);
    let n = v.len();
    if w.len() == 0 {
        return string_from(s);
    }
    let mut out = String::new();
    let mut i: usize = 0;
    assert(v@.subrange(0, n as int) =~= v@);
    while i < n
        invariant
            n == v@.len(),
            v@ == s@,
            w@ == pat@,
            w@.len() > 0,
            0 <= i <= n,
            out@ + without_all(v@.subrange(i as int, n as int), w@) == without_all(v@, w@),
        decreases n - i,
    {
        let ghost rest = v@.subrange(i as int, n as int);
        if range_starts_with(&v, i, n, &w) {
            proof {
                assert(rest.subrange(0, w@.len() as int) =~= v@.subrange(i as int, i + w@.len()));
                assert(rest.subrange(w@.len() as int, rest.len() as int) =~= v@.subrange(
                    i + w@.len(),
                    n as int,
                ));
            }
            i = i + w.len();
        } else {
            proof {
                if rest.len() >= w@.len() {
                    assert(rest.subrange(0, w@.len() as int) =~= v@.subrange(i as int, i + w@.len()));
                }
                assert(rest.drop_first() =~= v@.subrange(i + 1, n as int));
                assert(rest[0] == v@[i as int]);
                if rest.len() < w@.len() {
                    assert(without_all(rest, w@) == rest);
                    assert(without_all(rest.drop_first(), w@) == rest.drop_first());
                    assert(rest =~= seq![rest[0]] + rest.drop_first());
                }
            }
            out.push(v[i]);
            proof {
                assert(out@ + without_all(v@.subrange(i + 1, n as int), w@) =~= without_all(
                    v@,
                    w@,
                ));
            }
            i += 1;
        }
    }
    proof {
        assert(without_all(v@.subrange(n as int, n as int), w@) =~= Seq::<char>::empty());
        assert(out@ =~= without_all(v@, w@));
    }
    out
}

/// What a sign-in flow says before the browser opens.
pub fn auth_opening_message(flow: &ProviderAuthFlow) -> (r: String)
    ensures
        r@ == "opening browser for "@ + flow.display_name@ + " sign-in."@,
{
    concat3("opening browser for ", flow.display_name, " sign-in.")
}

/// After a sign-in (or sign-out) request through `flow`.
pub fn provider_auth_report(flow: &ProviderAuthFlow, outcome: &Result<ProviderAuthResult, String>) -> (r:
    Report)
    ensures
        report_view(r) == match *outcome {
            Ok(result) => done(
                without_all(
                    auth_message(flow.display_name@, flow.logout_method@, flow.login_method@, result),
                    "system: "@,
                ),
                flow.provider_id@ + " auth: "@ + if result.signed_in {
                    "signed in"@
                } else {
                    "signed out"@
                },
            ),
            Err(e) => failed(flow.display_name@ + " auth failed: "@ + e@),
        },
{
    match outcome {
        Ok(result) => {
            let message = provider_auth_message(
                flow.display_name,
                flow.logout_method,
                flow.login_method,
                result,
            );
            report_done(
                remove_all(message.as_str(), "system: "),
                concat3(flow.provider_id, " auth: ", provider_auth_event(result)),
            )
        },
        Err(e) => report_failed(concat3(flow.display_name, " auth failed: ", e.as_str())),
    }
}

/// The characters of a short id (as `short_id` cuts it).
fn short_id_string(id: &str) -> (r: String)
    ensures
        r@ == short_id_view(id@),
{
    let short = short_id(id);
    proof {
        assert(short.spec_bytes() == vstd::utf8::encode_utf8(short@));
        assert(vstd::utf8::decode_utf8(vstd::utf8::encode_utf8(short@)) == short@);
    }
    string_from(short)
}

/// After answering a request to leave plan mode.
pub fn plan_exit_report(request_id: &str, approved: bool, outcome: &Result<(), String>) -> (r: Report)
    ensures
        report_view(r) == match *outcome {
            Ok(_) => (
                Some(
                    (if approved {
                        "approved"@
                    } else {
                        "rejected"@
                    }) + " plan exit request "@ + short_id_view(request_id@) + "."@,
                ),
                None,
                None,
            ),
            Err(e) => failed("thread/exit_plan failed: "@ + e@),
        },
{
    proof {
        reveal_strlit("");
    }
    match outcome {
        Ok(_) => {
            let id = short_id_string(request_id);
            let mut s = string_from(if approved { "approved" } else { "rejected" });
            push_str(&mut s, " plan exit request ");
            push_str(&mut s, id.as_str());
            push_str(&mut s, ".");
            Report { system: Some(s), event: None, error: None }
        },
        Err(e) => report_failed(concat3("thread/exit_plan failed: ", e.as_str(), "")),
    }
}

/// After answering the model's questions (`Ok(false)` when the server no
/// longer waited for them).
pub fn user_input_report(request_id: &str, outcome: &Result<bool, String>) -> (r: Report)
    ensures
        report_view(r) == match *outcome {
            Ok(resolved) => if resolved {
                (None, None, None)
            } else {
                failed("user input not pending: "@ + short_id_view(request_id@))
            },
            Err(e) => failed("thread/resolve_user_input failed: "@ + e@),
        },
{
    proof {
        reveal_strlit("");
    }
    match outcome {
        Ok(resolved) => {
            if *resolved {
                Report { system: None, event: None, error: None }
            } else {
                let id = short_id_string(request_id);
                report_failed(concat3("user input not pending: ", id.as_str(), ""))
            }
        },
        Err(e) => report_failed(concat3("thread/resolve_user_input failed: ", e.as_str(), "")),
    }
}

/// After approving or denying a tool request (`Ok(false)` when the server
/// no longer waited for the answer).
pub fn tool_approval_report(approval_id: &str, outcome: &Result<bool, String>) -> (r: Report)
    ensures
        report_view(r) == match *outcome {
            Ok(resolved) => if resolved {
                (None, None, None)
            } else {
                failed("approval not pending: "@ + short_id_view(approval_id@))
            },
            Err(e) => failed("thread/resolve_approval failed: "@ + e@),
        },
{
    proof {
        reveal_strlit("");
    }
    match outcome {
        Ok(resolved) => {
            if *resolved {
                Report { system: None, event: None, error: None }
            } else {
                let id = short_id_string(approval_id);
                report_failed(concat3("approval not pending: ", id.as_str(), ""))
            }
        },
        Err(e) => report_failed(concat3("thread/resolve_approval failed: ", e.as_str(), "")),
    }
}

} // verus!
