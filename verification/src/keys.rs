//! Key presses, as plain values, and what each part of the interface does
//! with them.
use vstd::prelude::*;

verus! {

/// The key of a key event.
#[derive(Debug, Clone, Copy, PartialEq, Eq, Structural)]
pub enum KeyCode {
    Char(char),
    Enter,
    Esc,
    Tab,
    BackTab,
    Backspace,
    Delete,
    Left,
    Right,
    Up,
    Down,
    Home,
    End,
    Other,
}

/// The modifier keys held during a key event.
#[derive(Debug, Clone, Copy, PartialEq, Eq, Structural)]
pub struct KeyModifiers {
    pub shift: bool,
    pub control: bool,
    pub alt: bool,
    pub super_key: bool,
    pub hyper: bool,
    pub meta: bool,
}

/// Whether a key went down, repeats, or went up.
#[derive(Debug, Clone, Copy, PartialEq, Eq, Structural)]
pub enum KeyEventKind {
    Press,
    Repeat,
    Release,
}

#[derive(Debug, Clone, Copy, PartialEq, Eq, Structural)]
pub struct KeyEvent {
    pub code: KeyCode,
    pub modifiers: KeyModifiers,
    pub kind: KeyEventKind,
}

pub open spec fn no_modifiers(m: KeyModifiers) -> bool {
    !m.shift && !m.control && !m.alt && !m.super_key && !m.hyper && !m.meta
}

impl KeyModifiers {
    pub fn none() -> (r: Self)
        ensures
            no_modifiers(r),
    {
        KeyModifiers {
            shift: false,
            control: false,
            alt: false,
            super_key: false,
            hyper: false,
            meta: false,
        }
    }

    /// Ctrl alone.
    pub fn control() -> (r: Self)
        ensures
            r == (KeyModifiers { control: true, ..KeyModifiers::none_spec() }),
    {
        KeyModifiers { shift: false, control: true, alt: false, super_key: false, hyper: false, meta: false }
    }

    /// Shift alone.
    pub fn shift() -> (r: Self)
        ensures
            r == (KeyModifiers { shift: true, ..KeyModifiers::none_spec() }),
    {
        KeyModifiers { shift: true, control: false, alt: false, super_key: false, hyper: false, meta: false }
    }

    /// The Super (command) key alone.
    pub fn super_key() -> (r: Self)
        ensures
            r == (KeyModifiers { super_key: true, ..KeyModifiers::none_spec() }),
    {
        KeyModifiers { shift: false, control: false, alt: false, super_key: true, hyper: false, meta: false }
    }

    /// The modifiers held in `self` or in `other`.
    pub fn union(self, other: Self) -> (r: Self)
        ensures
            r.shift == (self.shift || other.shift),
            r.control == (self.control || other.control),
            r.alt == (self.alt || other.alt),
            r.super_key == (self.super_key || other.super_key),
            r.hyper == (self.hyper || other.hyper),
            r.meta == (self.meta || other.meta),
    {
        KeyModifiers {
            shift: self.shift || other.shift,
            control: self.control || other.control,
            alt: self.alt || other.alt,
            super_key: self.super_key || other.super_key,
            hyper: self.hyper || other.hyper,
            meta: self.meta || other.meta,
        }
    }

    pub open spec fn none_spec() -> Self {
        KeyModifiers { shift: false, control: false, alt: false, super_key: false, hyper: false, meta: false }
    }

    pub fn is_none(&self) -> (r: bool)
        ensures
            r == no_modifiers(*self),
    {
        !self.shift && !self.control && !self.alt && !self.super_key && !self.hyper && !self.meta
    }
}

impl KeyEvent {
    /// A key press.
    pub fn new(code: KeyCode, modifiers: KeyModifiers) -> (r: Self)
        ensures
            r.code == code,
            r.modifiers == modifiers,
            r.kind == KeyEventKind::Press,
    {
        KeyEvent { code, modifiers, kind: KeyEventKind::Press }
    }

    /// A key event of the given kind.
    pub fn new_with_kind(code: KeyCode, modifiers: KeyModifiers, kind: KeyEventKind) -> (r: Self)
        ensures
            r == (KeyEvent { code, modifiers, kind }),
    {
        KeyEvent { code, modifiers, kind }
    }
}

/// A press of a key without modifiers.
impl From<KeyCode> for KeyEvent {
    fn from(code: KeyCode) -> (r: Self) {
        KeyEvent { code, modifiers: KeyModifiers::none(), kind: KeyEventKind::Press }
    }
}

impl vstd::std_specs::convert::FromSpecImpl<KeyCode> for KeyEvent {
    open spec fn obeys_from_spec() -> bool {
        true
    }

    open spec fn from_spec(code: KeyCode) -> Self {
        KeyEvent { code, modifiers: KeyModifiers::none_spec(), kind: KeyEventKind::Press }
    }
}

/// Presses and repeats are handled; releases are not.
pub fn should_handle_key_event(key: KeyEvent) -> (r: bool)
    ensures
        r == (key.kind != KeyEventKind::Release),
{
    match key.kind {
        KeyEventKind::Press | KeyEventKind::Repeat => true,
        KeyEventKind::Release => false,
    }
}

/// Shift+Tab (or a back-tab) cycles the policy mode.
pub fn is_policy_mode_shortcut_key(key: KeyEvent) -> (r: bool)
    ensures
        r == (key.code == KeyCode::BackTab || (key.code == KeyCode::Tab && key.modifiers.shift)),
{
    key.code == KeyCode::BackTab || (key.code == KeyCode::Tab && key.modifiers.shift)
}

/// Ctrl+T toggles the plan panel.
pub fn is_plan_panel_toggle_key(key: KeyEvent) -> (r: bool)
    ensures
        r == (key.code == KeyCode::Char('t') && key.modifiers.control),
{
    key.code == KeyCode::Char('t') && key.modifiers.control
}

/// Up or Ctrl+K moves up in a dialog menu.
pub fn is_dialog_menu_previous_key(key: KeyEvent) -> (r: bool)
    ensures
        r == (key.code == KeyCode::Up || (key.code == KeyCode::Char('k') && key.modifiers.control)),
{
    key.code == KeyCode::Up || (key.code == KeyCode::Char('k') && key.modifiers.control)
}

/// Down or Ctrl+J moves down in a dialog menu.
pub fn is_dialog_menu_next_key(key: KeyEvent) -> (r: bool)
    ensures
        r == (key.code == KeyCode::Down || (key.code == KeyCode::Char('j') && key.modifiers.control)),
{
    key.code == KeyCode::Down || (key.code == KeyCode::Char('j') && key.modifiers.control)
}

/// `?` without Ctrl opens the key help.
pub fn is_help_key(key: KeyEvent) -> (r: bool)
    ensures
        r == (key.code == KeyCode::Char('?') && !key.modifiers.control),
{
    key.code == KeyCode::Char('?') && !key.modifiers.control
}

/// What a key does while a turn is running and a prompt is ready.
#[derive(Debug, Clone, Copy, PartialEq, Eq, Structural)]
pub enum ActiveTurnPromptShortcut {
    Queue,
}

/// A plain Tab queues the prepared prompt while a turn runs.
pub fn active_turn_prompt_shortcut(key: KeyEvent, has_prepared_prompt: bool) -> (r: Option<
    ActiveTurnPromptShortcut,
>)
    ensures
        r == (if has_prepared_prompt && key.code == KeyCode::Tab && no_modifiers(key.modifiers) {
            Some(ActiveTurnPromptShortcut::Queue)
        } else {
            None
        }),
{
    if !has_prepared_prompt {
        return None;
    }
    match key.code {
        KeyCode::Tab if key.modifiers.is_none() => Some(ActiveTurnPromptShortcut::Queue),
        _ => None,
    }
}

/// Whether the key queues the composer's prepared prompt.
pub fn composer_queue_key(key: KeyEvent, has_prepared_prompt: bool) -> (r: bool)
    ensures
        r == (has_prepared_prompt && no_modifiers(key.modifiers) && key.code == KeyCode::Tab),
{
    has_prepared_prompt && key.modifiers.is_none() && key.code == KeyCode::Tab
}

/// The action a key takes in the diff viewer.
#[derive(Debug, Clone, Copy, PartialEq, Eq, Structural)]
pub enum DiffKey {
    NextHunk,
    PreviousHunk,
    AcceptHunk,
    RejectHunk,
    AcceptAll,
    RejectAll,
    ToggleView,
    Close,
}

pub open spec fn diff_key_spec(code: KeyCode) -> Option<DiffKey> {
    match code {
        KeyCode::Char(c) => if c == 'j' {
            Some(DiffKey::NextHunk)
        } else if c == 'k' {
            Some(DiffKey::PreviousHunk)
        } else if c == 'y' || c == 'Y' {
            Some(DiffKey::AcceptHunk)
        } else if c == 'n' || c == 'N' {
            Some(DiffKey::RejectHunk)
        } else if c == 'a' || c == 'A' {
            Some(DiffKey::AcceptAll)
        } else if c == 'r' || c == 'R' {
            Some(DiffKey::RejectAll)
        } else if c == 's' || c == 'S' {
            Some(DiffKey::ToggleView)
        } else {
            None
        },
        KeyCode::Down => Some(DiffKey::NextHunk),
        KeyCode::Up => Some(DiffKey::PreviousHunk),
        KeyCode::Esc => Some(DiffKey::Close),
        _ => None,
    }
}

pub fn diff_key_from_event(key: KeyEvent) -> (r: Option<DiffKey>)
    ensures
        r == diff_key_spec(key.code),
{
    match key.code {
        KeyCode::Char('j') | KeyCode::Down => Some(DiffKey::NextHunk),
        KeyCode::Char('k') | KeyCode::Up => Some(DiffKey::PreviousHunk),
        KeyCode::Char('y') | KeyCode::Char('Y') => Some(DiffKey::AcceptHunk),
        KeyCode::Char('n') | KeyCode::Char('N') => Some(DiffKey::RejectHunk),
        KeyCode::Char('a') | KeyCode::Char('A') => Some(DiffKey::AcceptAll),
        KeyCode::Char('r') | KeyCode::Char('R') => Some(DiffKey::RejectAll),
        KeyCode::Char('s') | KeyCode::Char('S') => Some(DiffKey::ToggleView),
        KeyCode::Esc => Some(DiffKey::Close),
        _ => None,
    }
}


/// What a key does in roadmapping mode.
#[derive(Debug, Clone, Copy, PartialEq, Eq, Structural)]
pub enum RoadmapKey {
    /// Leave roadmapping mode.
    Leave,
    /// Move the focus within the focused pane, down (`true`) or up.
    MoveFocus(bool),
    NextPane,
    PreviousPane,
    /// Select the next worker thread.
    NextWorker,
    /// Validate the selected roadmap document.
    Validate,
    /// Start a worker on the selected task.
    SpawnWorker,
    /// Start workers on every ready task.
    FanOutWorkers,
    /// Follow the selected worker (the agents pane is focused).
    MonitorWorker,
    /// Run the focused task (another pane is focused).
    ExecuteTask,
}

pub open spec fn roadmap_key_spec(code: KeyCode, agents_focused: bool) -> Option<RoadmapKey> {
    match code {
        KeyCode::Esc => Some(RoadmapKey::Leave),
        KeyCode::Down => Some(RoadmapKey::MoveFocus(true)),
        KeyCode::Up => Some(RoadmapKey::MoveFocus(false)),
        KeyCode::Tab => Some(RoadmapKey::NextPane),
        KeyCode::BackTab => Some(RoadmapKey::PreviousPane),
        KeyCode::Enter => if agents_focused {
            Some(RoadmapKey::MonitorWorker)
        } else {
            Some(RoadmapKey::ExecuteTask)
        },
        KeyCode::Char(c) => if c == 'q' {
            Some(RoadmapKey::Leave)
        } else if c == 'j' {
            Some(RoadmapKey::MoveFocus(true))
        } else if c == 'k' {
            Some(RoadmapKey::MoveFocus(false))
        } else if c == 't' {
            Some(RoadmapKey::NextWorker)
        } else if c == 'v' {
            Some(RoadmapKey::Validate)
        } else if c == 's' {
            Some(RoadmapKey::SpawnWorker)
        } else if c == 'S' {
            Some(RoadmapKey::FanOutWorkers)
        } else if c == 'e' {
            if agents_focused {
                Some(RoadmapKey::MonitorWorker)
            } else {
                Some(RoadmapKey::ExecuteTask)
            }
        } else {
            None
        },
        _ => None,
    }
}

/// What `key` does in roadmapping mode, given whether the agents pane has
/// the focus; nothing for a key held with Control or a key without meaning
/// there (the key then goes on to the composer).
pub fn roadmap_key_action(key: KeyEvent, agents_focused: bool) -> (r: Option<RoadmapKey>)
    ensures
        r == if key.modifiers.control {
            None
        } else {
            roadmap_key_spec(key.code, agents_focused)
        },
{
    if key.modifiers.control {
        return None;
    }
    match key.code {
        KeyCode::Esc | KeyCode::Char('q') => Some(RoadmapKey::Leave),
        KeyCode::Down | KeyCode::Char('j') => Some(RoadmapKey::MoveFocus(true)),
        KeyCode::Up | KeyCode::Char('k') => Some(RoadmapKey::MoveFocus(false)),
        KeyCode::Tab => Some(RoadmapKey::NextPane),
        KeyCode::BackTab => Some(RoadmapKey::PreviousPane),
        KeyCode::Char('t') => Some(RoadmapKey::NextWorker),
        KeyCode::Char('v') => Some(RoadmapKey::Validate),
        KeyCode::Char('s') => Some(RoadmapKey::SpawnWorker),
        KeyCode::Char('S') => Some(RoadmapKey::FanOutWorkers),
        KeyCode::Enter | KeyCode::Char('e') => {
            if agents_focused {
                Some(RoadmapKey::MonitorWorker)
            } else {
                Some(RoadmapKey::ExecuteTask)
            }
        },
        _ => None,
    }
}

} // verus!
