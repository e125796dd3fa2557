//! Keys in the composer's completion menus (file and skill mentions, slash
//! commands), and which handler a slash command goes to.
use vstd::prelude::*;
use crate::composer::MAX_VISIBLE_INLINE_COMPLETIONS;
use crate::keys::{no_modifiers, KeyCode, KeyEvent};
use crate::layout::MAX_VISIBLE_SLASH_COMMANDS;
use crate::text::str_eq;

verus! {

/// `selection + delta` wrapped into `0..count` (`rem_euclid`); 0 when there
/// is nothing to select.
pub open spec fn wrapped(selection: int, delta: int, count: int) -> int {
    if count <= 0 {
        0
    } else {
        (selection + delta) % count
    }
}

/// The highlight moved by `delta` rows among `count`, wrapping around.
pub fn wrapped_selection(selection: usize, delta: isize, count: usize) -> (r: usize)
    ensures
        r == wrapped(selection as int, delta as int, count as int),
        count > 0 ==> r < count,
{
    if count == 0 {
        return 0;
    }
    let c = count as u128;
    let a = (selection as u128) % c;
    if delta >= 0 {
        let b = (delta as u128) % c;
        let r = ((a + b) % c) as usize;
        proof {
            vstd::arithmetic::div_mod::lemma_add_mod_noop(
                selection as int,
                delta as int,
                count as int,
            );
        }
        r
    } else {
        let magnitude = (-(delta as i128)) as u128;
        let b = magnitude % c;
        let r = ((a + c - b) % c) as usize;
        proof {
            let x = selection as int;
            let y = magnitude as int;
            let m = count as int;
            vstd::arithmetic::div_mod::lemma_sub_mod_noop(x, y, m);
            vstd::arithmetic::div_mod::lemma_mod_add_multiples_vanish(x % m - y % m, m);
            assert(a + c - b == (x % m - y % m) + m);
            assert(x - y == selection as int + delta as int);
        }
        r
    }
}

/// What a key does in a completion menu.
#[derive(Debug, Clone, Copy, PartialEq, Eq, Structural)]
pub struct MenuKeyOutcome {
    /// Whether the menu used the key (else it goes on to the composer).
    pub handled: bool,
    /// The highlighted row afterwards.
    pub selection: usize,
    /// The row to accept into the composer, if any.
    pub accept: Option<usize>,
}

/// The smaller of two numbers.
pub open spec fn min(a: int, b: int) -> int {
    if a < b {
        a
    } else {
        b
    }
}

/// A key in the mention completion menu with `match_count` matches: Up and
/// Down move the highlight (held first to the visible rows), Tab and Enter
/// accept the highlighted match; keys with modifiers, or with no matches,
/// are not used.
pub fn inline_completion_key(key: KeyEvent, match_count: usize, selection: usize) -> (r: MenuKeyOutcome)
    ensures
        ({
            let visible = min(match_count as int, MAX_VISIBLE_INLINE_COMPLETIONS as int);
            let sel = min(selection as int, visible - 1);
            if !no_modifiers(key.modifiers) || match_count == 0 {
                r == MenuKeyOutcome { handled: false, selection, accept: None }
            } else {
                match key.code {
                    KeyCode::Up => r == MenuKeyOutcome {
                        handled: true,
                        selection: wrapped(sel, -1, visible) as usize,
                        accept: None,
                    },
                    KeyCode::Down => r == MenuKeyOutcome {
                        handled: true,
                        selection: wrapped(sel, 1, visible) as usize,
                        accept: None,
                    },
                    KeyCode::Tab | KeyCode::Enter => r == MenuKeyOutcome {
                        handled: true,
                        selection: sel as usize,
                        accept: Some(sel as usize),
                    },
                    _ => r == MenuKeyOutcome { handled: false, selection: sel as usize, accept: None },
                }
            }
        }),
{
    if !key.modifiers.is_none() || match_count == 0 {
        return MenuKeyOutcome { handled: false, selection, accept: None };
    }
    let visible = if match_count < MAX_VISIBLE_INLINE_COMPLETIONS {
        match_count
    } else {
        MAX_VISIBLE_INLINE_COMPLETIONS
    };
    let sel = if selection < visible - 1 {
        selection
    } else {
        visible - 1
    };
    match key.code {
        KeyCode::Up => MenuKeyOutcome {
            handled: true,
            selection: wrapped_selection(sel, -1, visible),
            accept: None,
        },
        KeyCode::Down => MenuKeyOutcome {
            handled: true,
            selection: wrapped_selection(sel, 1, visible),
            accept: None,
        },
        KeyCode::Tab | KeyCode::Enter => MenuKeyOutcome {
            handled: true,
            selection: sel,
            accept: Some(sel),
        },
        _ => MenuKeyOutcome { handled: false, selection: sel, accept: None },
    }
}

/// A key in the slash command menu with `match_count` matching commands,
/// once Enter has had its chance to run a command: Up and Down move the
/// highlight (held first to the visible rows), Tab completes the
/// highlighted command and resets the highlight; keys with modifiers, or
/// with no matches, are not used.
pub fn slash_menu_key(key: KeyEvent, match_count: usize, selection: usize) -> (r: MenuKeyOutcome)
    ensures
        ({
            let visible = min(match_count as int, MAX_VISIBLE_SLASH_COMMANDS as int);
            let sel = min(selection as int, visible - 1);
            if !no_modifiers(key.modifiers) || match_count == 0 {
                r == MenuKeyOutcome { handled: false, selection, accept: None }
            } else {
                match key.code {
                    KeyCode::Up => r == MenuKeyOutcome {
                        handled: true,
                        selection: wrapped(sel, -1, visible) as usize,
                        accept: None,
                    },
                    KeyCode::Down => r == MenuKeyOutcome {
                        handled: true,
                        selection: wrapped(sel, 1, visible) as usize,
                        accept: None,
                    },
                    KeyCode::Tab => r == MenuKeyOutcome {
                        handled: true,
                        selection: 0,
                        accept: Some(sel as usize),
                    },
                    _ => r == MenuKeyOutcome { handled: false, selection: sel as usize, accept: None },
                }
            }
        }),
{
    if !key.modifiers.is_none() || match_count == 0 {
        return MenuKeyOutcome { handled: false, selection, accept: None };
    }
    let visible = if match_count < MAX_VISIBLE_SLASH_COMMANDS {
        match_count
    } else {
        MAX_VISIBLE_SLASH_COMMANDS
    };
    let sel = if selection < visible - 1 {
        selection
    } else {
        visible - 1
    };
    match key.code {
        KeyCode::Up => MenuKeyOutcome {
            handled: true,
            selection: wrapped_selection(sel, -1, visible),
            accept: None,
        },
        KeyCode::Down => MenuKeyOutcome {
            handled: true,
            selection: wrapped_selection(sel, 1, visible),
            accept: None,
        },
        KeyCode::Tab => MenuKeyOutcome { handled: true, selection: 0, accept: Some(sel) },
        _ => MenuKeyOutcome { handled: false, selection: sel, accept: None },
    }
}

/// Moving the highlight down and then up (or up and then down) among
/// `count` rows returns it to where it was.
pub proof fn law_wrapped_there_and_back(selection: int, count: int)
    requires
        0 <= selection < count,
    ensures
        wrapped(wrapped(selection, 1, count), -1, count) == selection,
        wrapped(wrapped(selection, -1, count), 1, count) == selection,
{
    crate::dialog::law_select_next_then_previous(selection, count);
    vstd::arithmetic::div_mod::lemma_mod_add_multiples_vanish(selection - 1, count);
    vstd::arithmetic::div_mod::lemma_mod_add_multiples_vanish((selection + 1) % count - 1, count);
}

/// The handler of a slash command.
#[derive(Debug, Clone, Copy, PartialEq, Eq, Structural)]
pub enum SlashCommand {
    Clear,
    Compact,
    Help,
    Fork,
    Goal,
    Retry,
    Model,
    Agents,
    Tasks,
    Processes,
    Remote,
    Chrome,
    Roadmap,
    AgentSwarm,
    Knowledge,
    Voice,
    Webwright,
    Workflows,
    /// Any other name: a command that the server expands.
    Custom,
}

pub open spec fn slash_command_spec(name: Seq<char>) -> SlashCommand {
    if name == "clear"@ {
        SlashCommand::Clear
    } else if name == "compact"@ {
        SlashCommand::Compact
    } else if name == "help"@ {
        SlashCommand::Help
    } else if name == "fork"@ {
        SlashCommand::Fork
    } else if name == "goal"@ {
        SlashCommand::Goal
    } else if name == "retry"@ {
        SlashCommand::Retry
    } else if name == "model"@ {
        SlashCommand::Model
    } else if name == "agents"@ {
        SlashCommand::Agents
    } else if name == "tasks"@ {
        SlashCommand::Tasks
    } else if name == "ps"@ {
        SlashCommand::Processes
    } else if name == "remote"@ {
        SlashCommand::Remote
    } else if name == "chrome"@ {
        SlashCommand::Chrome
    } else if name == "roadmap"@ {
        SlashCommand::Roadmap
    } else if name == "agent-swarm"@ || name == "swarm"@ {
        SlashCommand::AgentSwarm
    } else if name == "knowledge"@ {
        SlashCommand::Knowledge
    } else if name == "voice"@ {
        SlashCommand::Voice
    } else if name == "webwright"@ {
        SlashCommand::Webwright
    } else if name == "workflows"@ {
        SlashCommand::Workflows
    } else {
        SlashCommand::Custom
    }
}

/// The handler that runs `/name`.
pub fn slash_command_route(name: &str) -> (r: SlashCommand)
    ensures
        r == slash_command_spec(name@),
{
    if str_eq(name, "clear") {
        SlashCommand::Clear
    } else if str_eq(name, "compact") {
        SlashCommand::Compact
    } else if str_eq(name, "help") {
        SlashCommand::Help
    } else if str_eq(name, "fork") {
        SlashCommand::Fork
    } else if str_eq(name, "goal") {
        SlashCommand::Goal
    } else if str_eq(name, "retry") {
        SlashCommand::Retry
    } else if str_eq(name, "model") {
        SlashCommand::Model
    } else if str_eq(name, "agents") {
        SlashCommand::Agents
    } else if str_eq(name, "tasks") {
        SlashCommand::Tasks
    } else if str_eq(name, "ps") {
        SlashCommand::Processes
    } else if str_eq(name, "remote") {
        SlashCommand::Remote
    } else if str_eq(name, "chrome") {
        SlashCommand::Chrome
    } else if str_eq(name, "roadmap") {
        SlashCommand::Roadmap
    } else if str_eq(name, "agent-swarm") || str_eq(name, "swarm") {
        SlashCommand::AgentSwarm
    } else if str_eq(name, "knowledge") {
        SlashCommand::Knowledge
    } else if str_eq(name, "voice") {
        SlashCommand::Voice
    } else if str_eq(name, "webwright") {
        SlashCommand::Webwright
    } else if str_eq(name, "workflows") {
        SlashCommand::Workflows
    } else {
        SlashCommand::Custom
    }
}

/// Each built-in command runs its own handler and only its own: `/clear`
/// clears, `/compact` compacts, and so on (`/agent-swarm` and `/swarm`
/// name the same handler); every other name goes to the server.
#[verifier::rlimit(50)]
pub proof fn law_slash_commands_reach_their_own_handler(name: Seq<char>)
    ensures
        (slash_command_spec(name) == SlashCommand::Clear) <==> name == "clear"@,
        (slash_command_spec(name) == SlashCommand::Compact) <==> name == "compact"@,
        (slash_command_spec(name) == SlashCommand::Help) <==> name == "help"@,
        (slash_command_spec(name) == SlashCommand::Fork) <==> name == "fork"@,
        (slash_command_spec(name) == SlashCommand::Goal) <==> name == "goal"@,
        (slash_command_spec(name) == SlashCommand::Retry) <==> name == "retry"@,
        (slash_command_spec(name) == SlashCommand::Model) <==> name == "model"@,
        (slash_command_spec(name) == SlashCommand::Agents) <==> name == "agents"@,
        (slash_command_spec(name) == SlashCommand::Tasks) <==> name == "tasks"@,
        (slash_command_spec(name) == SlashCommand::Processes) <==> name == "ps"@,
        (slash_command_spec(name) == SlashCommand::Remote) <==> name == "remote"@,
        (slash_command_spec(name) == SlashCommand::Chrome) <==> name == "chrome"@,
        (slash_command_spec(name) == SlashCommand::Roadmap) <==> name == "roadmap"@,
        (slash_command_spec(name) == SlashCommand::AgentSwarm) <==> (name == "agent-swarm"@ || name == "swarm"@),
        (slash_command_spec(name) == SlashCommand::Knowledge) <==> name == "knowledge"@,
        (slash_command_spec(name) == SlashCommand::Voice) <==> name == "voice"@,
        (slash_command_spec(name) == SlashCommand::Webwright) <==> name == "webwright"@,
        (slash_command_spec(name) == SlashCommand::Workflows) <==> name == "workflows"@,
        (slash_command_spec(name) == SlashCommand::Custom) <==> (name != "clear"@ && name != "compact"@ && name != "help"@ && name != "fork"@ && name != "goal"@ && name != "retry"@ && name != "model"@ && name != "agents"@ && name != "tasks"@ && name != "ps"@ && name != "remote"@ && name != "chrome"@ && name != "roadmap"@ && name != "agent-swarm"@ && name != "swarm"@ && name != "knowledge"@ && name != "voice"@ && name != "webwright"@ && name != "workflows"@),
{
    reveal_strlit("clear");
    reveal_strlit("compact");
    reveal_strlit("help");
    reveal_strlit("fork");
    reveal_strlit("goal");
    reveal_strlit("retry");
    reveal_strlit("model");
    reveal_strlit("agents");
    reveal_strlit("tasks");
    reveal_strlit("ps");
    reveal_strlit("remote");
    reveal_strlit("chrome");
    reveal_strlit("roadmap");
    reveal_strlit("agent-swarm");
    reveal_strlit("swarm");
    reveal_strlit("knowledge");
    reveal_strlit("voice");
    reveal_strlit("webwright");
    reveal_strlit("workflows");
    assert("clear"@[0] != "retry"@[0]);
    assert("clear"@[0] != "model"@[0]);
    assert("clear"@[0] != "tasks"@[0]);
    assert("clear"@[0] != "swarm"@[0]);
    assert("clear"@[0] != "voice"@[0]);
    assert("compact"@[0] != "roadmap"@[0]);
    assert("help"@[0] != "fork"@[0]);
    assert("help"@[0] != "goal"@[0]);
    assert("fork"@[0] != "goal"@[0]);
    assert("retry"@[0] != "model"@[0]);
    assert("retry"@[0] != "tasks"@[0]);
    assert("retry"@[0] != "swarm"@[0]);
    assert("retry"@[0] != "voice"@[0]);
    assert("model"@[0] != "tasks"@[0]);
    assert("model"@[0] != "swarm"@[0]);
    assert("model"@[0] != "voice"@[0]);
    assert("agents"@[0] != "remote"@[0]);
    assert("agents"@[0] != "chrome"@[0]);
    assert("tasks"@[0] != "swarm"@[0]);
    assert("tasks"@[0] != "voice"@[0]);
    assert("remote"@[0] != "chrome"@[0]);
    assert("swarm"@[0] != "voice"@[0]);
    assert("knowledge"@[0] != "webwright"@[0]);
    assert("knowledge"@[0] != "workflows"@[0]);
    assert("webwright"@[1] != "workflows"@[1]);
    assert("clear"@.len() == 5);
    assert("compact"@.len() == 7);
    assert("help"@.len() == 4);
    assert("fork"@.len() == 4);
    assert("goal"@.len() == 4);
    assert("retry"@.len() == 5);
    assert("model"@.len() == 5);
    assert("agents"@.len() == 6);
    assert("tasks"@.len() == 5);
    assert("ps"@.len() == 2);
    assert("remote"@.len() == 6);
    assert("chrome"@.len() == 6);
    assert("roadmap"@.len() == 7);
    assert("agent-swarm"@.len() == 11);
    assert("swarm"@.len() == 5);
    assert("knowledge"@.len() == 9);
    assert("voice"@.len() == 5);
    assert("webwright"@.len() == 9);
    assert("workflows"@.len() == 9);
    assert("clear"@ != "compact"@);
    assert("clear"@ != "help"@);
    assert("clear"@ != "fork"@);
    assert("clear"@ != "goal"@);
    assert("clear"@ != "retry"@);
    assert("clear"@ != "model"@);
    assert("clear"@ != "agents"@);
    assert("clear"@ != "tasks"@);
    assert("clear"@ != "ps"@);
    assert("clear"@ != "remote"@);
    assert("clear"@ != "chrome"@);
    assert("clear"@ != "roadmap"@);
    assert("clear"@ != "agent-swarm"@);
    assert("clear"@ != "swarm"@);
    assert("clear"@ != "knowledge"@);
    assert("clear"@ != "voice"@);
    assert("clear"@ != "webwright"@);
    assert("clear"@ != "workflows"@);
    assert("compact"@ != "help"@);
    assert("compact"@ != "fork"@);
    assert("compact"@ != "goal"@);
    assert("compact"@ != "retry"@);
    assert("compact"@ != "model"@);
    assert("compact"@ != "agents"@);
    assert("compact"@ != "tasks"@);
    assert("compact"@ != "ps"@);
    assert("compact"@ != "remote"@);
    assert("compact"@ != "chrome"@);
    assert("compact"@ != "roadmap"@);
    assert("compact"@ != "agent-swarm"@);
    assert("compact"@ != "swarm"@);
    assert("compact"@ != "knowledge"@);
    assert("compact"@ != "voice"@);
    assert("compact"@ != "webwright"@);
    assert("compact"@ != "workflows"@);
    assert("help"@ != "fork"@);
    assert("help"@ != "goal"@);
    assert("help"@ != "retry"@);
    assert("help"@ != "model"@);
    assert("help"@ != "agents"@);
    assert("help"@ != "tasks"@);
    assert("help"@ != "ps"@);
    assert("help"@ != "remote"@);
    assert("help"@ != "chrome"@);
    assert("help"@ != "roadmap"@);
    assert("help"@ != "agent-swarm"@);
    assert("help"@ != "swarm"@);
    assert("help"@ != "knowledge"@);
    assert("help"@ != "voice"@);
    assert("help"@ != "webwright"@);
    assert("help"@ != "workflows"@);
    assert("fork"@ != "goal"@);
    assert("fork"@ != "retry"@);
    assert("fork"@ != "model"@);
    assert("fork"@ != "agents"@);
    assert("fork"@ != "tasks"@);
    assert("fork"@ != "ps"@);
    assert("fork"@ != "remote"@);
    assert("fork"@ != "chrome"@);
    assert("fork"@ != "roadmap"@);
    assert("fork"@ != "agent-swarm"@);
    assert("fork"@ != "swarm"@);
    assert("fork"@ != "knowledge"@);
    assert("fork"@ != "voice"@);
    assert("fork"@ != "webwright"@);
    assert("fork"@ != "workflows"@);
    assert("goal"@ != "retry"@);
    assert("goal"@ != "model"@);
    assert("goal"@ != "agents"@);
    assert("goal"@ != "tasks"@);
    assert("goal"@ != "ps"@);
    assert("goal"@ != "remote"@);
    assert("goal"@ != "chrome"@);
    assert("goal"@ != "roadmap"@);
    assert("goal"@ != "agent-swarm"@);
    assert("goal"@ != "swarm"@);
    assert("goal"@ != "knowledge"@);
    assert("goal"@ != "voice"@);
    assert("goal"@ != "webwright"@);
    assert("goal"@ != "workflows"@);
    assert("retry"@ != "model"@);
    assert("retry"@ != "agents"@);
    assert("retry"@ != "tasks"@);
    assert("retry"@ != "ps"@);
    assert("retry"@ != "remote"@);
    assert("retry"@ != "chrome"@);
    assert("retry"@ != "roadmap"@);
    assert("retry"@ != "agent-swarm"@);
    assert("retry"@ != "swarm"@);
    assert("retry"@ != "knowledge"@);
    assert("retry"@ != "voice"@);
    assert("retry"@ != "webwright"@);
    assert("retry"@ != "workflows"@);
    assert("model"@ != "agents"@);
    assert("model"@ != "tasks"@);
    assert("model"@ != "ps"@);
    assert("model"@ != "remote"@);
    assert("model"@ != "chrome"@);
    assert("model"@ != "roadmap"@);
    assert("model"@ != "agent-swarm"@);
    assert("model"@ != "swarm"@);
    assert("model"@ != "knowledge"@);
    assert("model"@ != "voice"@);
    assert("model"@ != "webwright"@);
    assert("model"@ != "workflows"@);
    assert("agents"@ != "tasks"@);
    assert("agents"@ != "ps"@);
    assert("agents"@ != "remote"@);
    assert("agents"@ != "chrome"@);
    assert("agents"@ != "roadmap"@);
    assert("agents"@ != "agent-swarm"@);
    assert("agents"@ != "swarm"@);
    assert("agents"@ != "knowledge"@);
    assert("agents"@ != "voice"@);
    assert("agents"@ != "webwright"@);
    assert("agents"@ != "workflows"@);
    assert("tasks"@ != "ps"@);
    assert("tasks"@ != "remote"@);
    assert("tasks"@ != "chrome"@);
    assert("tasks"@ != "roadmap"@);
    assert("tasks"@ != "agent-swarm"@);
    assert("tasks"@ != "swarm"@);
    assert("tasks"@ != "knowledge"@);
    assert("tasks"@ != "voice"@);
    assert("tasks"@ != "webwright"@);
    assert("tasks"@ != "workflows"@);
    assert("ps"@ != "remote"@);
    assert("ps"@ != "chrome"@);
    assert("ps"@ != "roadmap"@);
    assert("ps"@ != "agent-swarm"@);
    assert("ps"@ != "swarm"@);
    assert("ps"@ != "knowledge"@);
    assert("ps"@ != "voice"@);
    assert("ps"@ != "webwright"@);
    assert("ps"@ != "workflows"@);
    assert("remote"@ != "chrome"@);
    assert("remote"@ != "roadmap"@);
    assert("remote"@ != "agent-swarm"@);
    assert("remote"@ != "swarm"@);
    assert("remote"@ != "knowledge"@);
    assert("remote"@ != "voice"@);
    assert("remote"@ != "webwright"@);
    assert("remote"@ != "workflows"@);
    assert("chrome"@ != "roadmap"@);
    assert("chrome"@ != "agent-swarm"@);
    assert("chrome"@ != "swarm"@);
    assert("chrome"@ != "knowledge"@);
    assert("chrome"@ != "voice"@);
    assert("chrome"@ != "webwright"@);
    assert("chrome"@ != "workflows"@);
    assert("roadmap"@ != "agent-swarm"@);
    assert("roadmap"@ != "swarm"@);
    assert("roadmap"@ != "knowledge"@);
    assert("roadmap"@ != "voice"@);
    assert("roadmap"@ != "webwright"@);
    assert("roadmap"@ != "workflows"@);
    assert("agent-swarm"@ != "swarm"@);
    assert("agent-swarm"@ != "knowledge"@);
    assert("agent-swarm"@ != "voice"@);
    assert("agent-swarm"@ != "webwright"@);
    assert("agent-swarm"@ != "workflows"@);
    assert("swarm"@ != "knowledge"@);
    assert("swarm"@ != "voice"@);
    assert("swarm"@ != "webwright"@);
    assert("swarm"@ != "workflows"@);
    assert("knowledge"@ != "voice"@);
    assert("knowledge"@ != "webwright"@);
    assert("knowledge"@ != "workflows"@);
    assert("voice"@ != "webwright"@);
    assert("voice"@ != "workflows"@);
    assert("webwright"@ != "workflows"@);
}

} // verus!
