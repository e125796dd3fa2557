//! The text of the footer line: the turn's state, the queue, a pending plan
//! exit, the composer's mode and the hints of the other panes.
use vstd::prelude::*;
use crate::queue::{queue_status, queue_status_text};
use crate::text::{decimal, push_decimal, push_str, string_from, truncate, truncated};

verus! {

broadcast use vstd::string::group_string_axioms;

/// `running` while a turn runs, else `queued` while prompts wait, else
/// `ready`.
pub open spec fn footer_status(turn_running: bool, queued: nat) -> Seq<char> {
    if turn_running {
        "running"@
    } else if queued > 0 {
        "queued"@
    } else {
        "ready"@
    }
}

/// What a pending plan exit is summed up by: its summary, else its first
/// step, else `plan exit`.
pub open spec fn plan_exit_subject(plan_summary: Option<Seq<char>>, next_steps: Seq<Seq<char>>) -> Seq<char> {
    match plan_summary {
        Some(s) => s,
        None => if next_steps.len() > 0 {
            next_steps[0]
        } else {
            "plan exit"@
        },
    }
}

/// `"  " + label` when there is a label.
pub open spec fn hint(prefix: Seq<char>, label: Option<Seq<char>>) -> Seq<char> {
    match label {
        Some(l) => prefix + l,
        None => ""@,
    }
}

/// The queue's length after two spaces, while prompts wait.
pub open spec fn queue_hint(queued: nat) -> Seq<char> {
    if queued == 0 {
        ""@
    } else {
        "  "@ + queue_status_text(queued)
    }
}

/// The question of a pending plan exit, with its subject cut to 36
/// characters.
pub open spec fn pending_hint(pending_plan_exit: Option<(Option<Seq<char>>, Seq<Seq<char>>)>) -> Seq<char> {
    match pending_plan_exit {
        Some((summary, steps)) => "  exit plan? y approve / n reject: "@ + truncated(
            plan_exit_subject(summary, steps),
            36,
            "..."@,
        ),
        None => ""@,
    }
}

pub open spec fn shell_hint(shell_mode: bool) -> Seq<char> {
    if shell_mode {
        "  shell mode"@
    } else {
        ""@
    }
}

/// The footer's text.
pub open spec fn footer_text(
    turn_running: bool,
    queued: nat,
    pending_plan_exit: Option<(Option<Seq<char>>, Seq<Seq<char>>)>,
    shell_mode: bool,
    voice_hint: Seq<char>,
    roadmap_label: Option<Seq<char>>,
    goal_label: Option<Seq<char>>,
    interaction_hint: Seq<char>,
) -> Seq<char> {
    " "@ + footer_status(turn_running, queued) + queue_hint(queued) + pending_hint(pending_plan_exit)
        + shell_hint(shell_mode) + voice_hint + hint("  roadmap:"@, roadmap_label) + hint(
        "  goal:"@,
        goal_label,
    ) + "  "@ + interaction_hint
}

pub open spec fn opt_str_view(o: Option<&str>) -> Option<Seq<char>> {
    match o {
        Some(s) => Some(s@),
        None => None,
    }
}

pub open spec fn pending_view(p: Option<(Option<&str>, &Vec<String>)>) -> Option<(Option<Seq<char>>, Seq<Seq<char>>)> {
    match p {
        Some((summary, steps)) => Some((opt_str_view(summary), steps@.map_values(|s: String| s@))),
        None => None,
    }
}

fn status_word(turn_running: bool, queued: usize) -> (r: &'static str)
    ensures
        r@ == footer_status(turn_running, queued as nat),
{
    if turn_running {
        "running"
    } else if queued > 0 {
        "queued"
    } else {
        "ready"
    }
}

fn queue_hint_text(queued: usize) -> (r: String)
    ensures
        r@ == queue_hint(queued as nat),
{
    proof {
        reveal_strlit("");
    }
    if queued > 0 {
        let mut out = string_from("  ");
        let q = queue_status(queued);
        push_str(&mut out, q.as_str());
        out
    } else {
        String::new()
    }
}

fn pending_hint_text(pending_plan_exit: Option<(Option<&str>, &Vec<String>)>) -> (r: String)
    ensures
        r@ == pending_hint(pending_view(pending_plan_exit)),
{
    proof {
        reveal_strlit("");
    }
    match pending_plan_exit {
        Some((summary, steps)) => {
            let mut out = string_from("  exit plan? y approve / n reject: ");
            let subject: &str = match summary {
                Some(s) => s,
                None => if steps.len() > 0 {
                    steps[0].as_str()
                } else {
                    "plan exit"
                },
            };
            let cut = truncate(subject, 36);
            push_str(&mut out, cut.as_str());
            out
        },
        None => String::new(),
    }
}

fn hint_text(prefix: &str, label: Option<&str>) -> (r: String)
    ensures
        r@ == hint(prefix@, opt_str_view(label)),
{
    proof {
        reveal_strlit("");
    }
    match label {
        Some(l) => {
            let mut out = string_from(prefix);
            push_str(&mut out, l);
            out
        },
        None => String::new(),
    }
}

/// The footer's text, given whether a turn runs, how many prompts wait,
/// the pending plan exit (its summary and steps) if any, whether the
/// composer is in shell mode, and the hints of the voice, roadmap, goal and
/// shortcut panes.
pub fn footer_status_line(
    turn_running: bool,
    queued: usize,
    pending_plan_exit: Option<(Option<&str>, &Vec<String>)>,
    shell_mode: bool,
    voice_hint: &str,
    roadmap_label: Option<&str>,
    goal_label: Option<&str>,
    interaction_hint: &str,
) -> (r: String)
    ensures
        r@ == footer_text(
            turn_running,
            queued as nat,
            pending_view(pending_plan_exit),
            shell_mode,
            voice_hint@,
            opt_str_view(roadmap_label),
            opt_str_view(goal_label),
            interaction_hint@,
        ),
{
    let mut out = string_from(" ");
    push_str(&mut out, status_word(turn_running, queued));
    let q = queue_hint_text(queued);
    push_str(&mut out, q.as_str());
    let p = pending_hint_text(pending_plan_exit);
    push_str(&mut out, p.as_str());
    push_str(&mut out, if shell_mode { "  shell mode" } else { "" });
    proof {
        reveal_strlit("");
    }
    push_str(&mut out, voice_hint);
    let rm = hint_text("  roadmap:", roadmap_label);
    push_str(&mut out, rm.as_str());
    let g = hint_text("  goal:", goal_label);
    push_str(&mut out, g.as_str());
    push_str(&mut out, "  ");
    push_str(&mut out, interaction_hint);
    out
}

/// The right end of the footer: `events <count> `.
pub fn footer_events_text(count: usize) -> (r: String)
    ensures
        r@ == "events "@ + decimal(count as nat) + " "@,
{
    let mut out = string_from("events ");
    push_decimal(&mut out, count as u64);
    push_str(&mut out, " ");
    out
}

} // verus!
