//! The screen's own state machine: what a key press or a server event does
//! to the flags it keeps and to the running turn, and what it leaves to the
//! caller to do (draw, hand a key on, log a line, start or stop the turn's
//! timers).
use vstd::prelude::*;
use crate::key_route::{route_key, route_key_spec, InputModes, KeyRoute};
use crate::keys::KeyEvent;
use crate::text::{push_decimal, str_eq, string_from, decimal};
use crate::turn::{idle_turn, turn_is_stuck, TurnState};

verus! {

broadcast use vstd::string::group_string_axioms;

/// Which question the confirm dialog asks.
#[derive(Debug, Clone, Copy, PartialEq, Eq, Structural)]
pub enum ConfirmKind {
    Exit,
    Interrupt,
}

/// The screen flags that the state machine keeps.
#[derive(Debug, Clone, Copy, PartialEq, Eq, Structural)]
pub struct UiFlags {
    pub show_event_log: bool,
    pub show_provider_popup: bool,
    pub show_shortcuts_dialog: bool,
    pub confirm_dialog: Option<ConfirmKind>,
    pub plugin_browser_open: bool,
    pub chrome_panel_open: bool,
}

/// The screen's state: its flags and the running turn.
#[derive(Debug, Clone, PartialEq, Eq)]
pub struct TuiState {
    pub ui: UiFlags,
    pub turn: TurnState,
}

/// What the rest of the screen says about a key press (the parts of the
/// screen this state machine does not keep).
#[derive(Debug, Clone, Copy, PartialEq, Eq, Structural)]
pub struct KeyContext {
    pub tool_detail_open: bool,
    pub user_input_dialog_open: bool,
    pub confirm_allows_policy_switch: bool,
    pub workflow_overlay_visible: bool,
    pub palette_open: bool,
    pub pending_plan_exit: bool,
    pub roadmap_mode: bool,
    pub palette_open_key: bool,
    pub shortcuts_close_key: bool,
}

/// What a server event is, as far as the turn goes.
#[derive(Debug, Clone, PartialEq, Eq)]
pub enum ServerEventKind {
    TurnStarted(String),
    TurnCompleted(String),
    TurnInterrupted(String),
    Other,
}

/// What happens to the screen.
#[derive(Debug, Clone, PartialEq, Eq)]
pub enum TuiEvent {
    Key { key: KeyEvent, context: KeyContext },
    /// The event stream dropped this many events.
    StreamLagged(u64),
    /// A server event arrived at `now`.
    Server { now: u64, kind: ServerEventKind },
    /// Time passed; `now` is the screen's clock.
    Tick(u64),
}

/// A line for the event log.
#[derive(Debug, Clone, Copy, PartialEq, Eq, Structural)]
pub enum EventNote {
    EventLogShown,
    EventLogHidden,
    StreamLagged(u64),
}

/// What the caller is left to do.
#[derive(Debug, Clone, Copy, PartialEq, Eq, Structural)]
pub enum TuiAction {
    Redraw,
    /// Hand the key to the part of the screen it was routed to.
    Route(KeyRoute),
    Note(EventNote),
    CancelThemePreview,
    /// Log the server event and pass it to the panels that follow events.
    LogServerEvent,
    /// A turn began: start its timer and show the screen as working.
    TurnBegan,
    /// The running turn ended (completed, or else interrupted): stop its
    /// animation and timer and show the screen as idle; a completed turn
    /// also gets its summary and lets the next queued prompt go.
    TurnEnded { completed: bool },
    /// A stuck turn was given up on: reset the timers, show the screen as
    /// idle, and say why.
    RecoveredTurn,
}

pub open spec fn key_modes(ui: UiFlags, c: KeyContext) -> InputModes {
    InputModes {
        tool_detail_open: c.tool_detail_open,
        user_input_dialog_open: c.user_input_dialog_open,
        confirm_allows_policy_switch: c.confirm_allows_policy_switch,
        confirm_dialog_open: ui.confirm_dialog is Some,
        shortcuts_dialog_open: ui.show_shortcuts_dialog,
        plugin_browser_open: ui.plugin_browser_open,
        chrome_panel_open: ui.chrome_panel_open,
        workflow_overlay_visible: c.workflow_overlay_visible,
        palette_open: c.palette_open,
        provider_popup_open: ui.show_provider_popup,
        pending_plan_exit: c.pending_plan_exit,
        roadmap_mode: c.roadmap_mode,
        palette_open_key: c.palette_open_key,
        shortcuts_close_key: c.shortcuts_close_key,
    }
}

/// What a routed key does to the flags kept here, and what it leaves to the
/// caller: the event log toggles (and says so), Ctrl+C asks to exit (first
/// closing the shortcuts dialog, plugin browser or chrome panel over
/// which it came), the shortcuts dialog closes, Ctrl+P closes an open
/// provider popup (dropping a theme preview); every other route is handed
/// on.
pub open spec fn apply_route(ui: UiFlags, route: KeyRoute) -> (UiFlags, Seq<TuiAction>) {
    match route {
        KeyRoute::ToggleEventLog => (
            UiFlags { show_event_log: !ui.show_event_log, ..ui },
            seq![TuiAction::Note(if !ui.show_event_log { EventNote::EventLogShown } else { EventNote::EventLogHidden })],
        ),
        KeyRoute::ConfirmExit => (UiFlags { confirm_dialog: Some(ConfirmKind::Exit), ..ui }, seq![]),
        KeyRoute::CloseShortcuts => (UiFlags { show_shortcuts_dialog: false, ..ui }, seq![]),
        KeyRoute::CloseShortcutsAndConfirmExit => (
            UiFlags { show_shortcuts_dialog: false, confirm_dialog: Some(ConfirmKind::Exit), ..ui },
            seq![],
        ),
        KeyRoute::ClosePluginBrowserAndConfirmExit => (
            UiFlags { plugin_browser_open: false, confirm_dialog: Some(ConfirmKind::Exit), ..ui },
            seq![],
        ),
        KeyRoute::CloseChromePanelAndConfirmExit => (
            UiFlags { chrome_panel_open: false, confirm_dialog: Some(ConfirmKind::Exit), ..ui },
            seq![],
        ),
        KeyRoute::CloseProviderPopup => (
            UiFlags { show_provider_popup: false, ..ui },
            seq![TuiAction::CancelThemePreview],
        ),
        KeyRoute::Ignore => (ui, seq![]),
        _ => (ui, seq![TuiAction::Route(route)]),
    }
}

/// Whether `id` names the running turn.
pub open spec fn is_running(t: TurnState, id: Seq<char>) -> bool {
    t.active_turn_id matches Some(a) && a@ == id
}

/// The step of the state machine: every key redraws and goes where
/// `route_key_spec` sends it; a lagged stream is noted, and marks the
/// running turn as having missed events; a server event is the last event
/// now, redraws and is logged, and starts, completes or interrupts the
/// turn it names (only the running one ends); a tick gives up on a stuck
/// turn.
pub open spec fn tui_step_spec(s: TuiState, e: TuiEvent) -> (TuiState, Seq<TuiAction>) {
    match e {
        TuiEvent::Key { key, context } => {
            let route = route_key_spec(key_modes(s.ui, context), key);
            let (ui, acts) = apply_route(s.ui, route);
            (TuiState { ui, ..s }, seq![TuiAction::Redraw] + acts)
        },
        TuiEvent::StreamLagged(n) => (
            TuiState {
                turn: TurnState {
                    lagged_during_active_turn: s.turn.lagged_during_active_turn || s.turn.active_turn_id is Some,
                    ..s.turn
                },
                ..s
            },
            seq![TuiAction::Note(EventNote::StreamLagged(n))],
        ),
        TuiEvent::Server { now, kind } => {
            let t = TurnState { last_event_at: now, ..s.turn };
            let head = seq![TuiAction::Redraw, TuiAction::LogServerEvent];
            match kind {
                ServerEventKind::TurnStarted(id) => (
                    TuiState { turn: TurnState { active_turn_id: Some(id), ..idle_turn(t) }, ..s },
                    head.push(TuiAction::TurnBegan),
                ),
                ServerEventKind::TurnCompleted(id) => if is_running(s.turn, id@) {
                    (TuiState { turn: idle_turn(t), ..s }, head.push(TuiAction::TurnEnded { completed: true }))
                } else {
                    (TuiState { turn: t, ..s }, head)
                },
                ServerEventKind::TurnInterrupted(id) => if is_running(s.turn, id@) {
                    (TuiState { turn: idle_turn(t), ..s }, head.push(TuiAction::TurnEnded { completed: false }))
                } else {
                    (TuiState { turn: t, ..s }, head)
                },
                ServerEventKind::Other => (TuiState { turn: t, ..s }, head),
            }
        },
        TuiEvent::Tick(now) => if turn_is_stuck(s.turn, now) {
            (TuiState { turn: idle_turn(s.turn), ..s }, seq![TuiAction::RecoveredTurn, TuiAction::Redraw])
        } else {
            (s, seq![])
        },
    }
}

fn apply_route_exec(ui: &mut UiFlags, route: KeyRoute, actions: &mut Vec<TuiAction>)
    ensures
        *final(ui) == apply_route(*old(ui), route).0,
        final(actions)@ == old(actions)@ + apply_route(*old(ui), route).1,
{
    match route {
        KeyRoute::ToggleEventLog => {
            ui.show_event_log = !ui.show_event_log;
            actions.push(
                TuiAction::Note(
                    if ui.show_event_log {
                        EventNote::EventLogShown
                    } else {
                        EventNote::EventLogHidden
                    },
                ),
            );
        },
        KeyRoute::ConfirmExit => {
            ui.confirm_dialog = Some(ConfirmKind::Exit);
        },
        KeyRoute::CloseShortcuts => {
            ui.show_shortcuts_dialog = false;
        },
        KeyRoute::CloseShortcutsAndConfirmExit => {
            ui.show_shortcuts_dialog = false;
            ui.confirm_dialog = Some(ConfirmKind::Exit);
        },
        KeyRoute::ClosePluginBrowserAndConfirmExit => {
            ui.plugin_browser_open = false;
            ui.confirm_dialog = Some(ConfirmKind::Exit);
        },
        KeyRoute::CloseChromePanelAndConfirmExit => {
            ui.chrome_panel_open = false;
            ui.confirm_dialog = Some(ConfirmKind::Exit);
        },
        KeyRoute::CloseProviderPopup => {
            ui.show_provider_popup = false;
            actions.push(TuiAction::CancelThemePreview);
        },
        KeyRoute::Ignore => {},
        _ => {
            actions.push(TuiAction::Route(route));
        },
    }
    assert(actions@ =~= old(actions)@ + apply_route(*old(ui), route).1);
}

fn clear_turn(t: &mut TurnState)
    ensures
        *final(t) == idle_turn(*old(t)),
{
    t.active_turn_id = None;
    t.lagged_during_active_turn = false;
    t.input_tokens = 0;
    t.output_tokens = 0;
    t.reasoning_tokens = None;
    t.total_tokens = 0;
    t.compaction_active = false;
    t.working_status_override = None;
}

fn running_is(t: &TurnState, id: &str) -> (r: bool)
    ensures
        r == is_running(*t, id@),
{
    match &t.active_turn_id {
        Some(a) => str_eq(a.as_str(), id),
        None => false,
    }
}

impl TuiState {
    /// Takes one event; says what the caller is left to do.
    pub fn step(&mut self, e: TuiEvent) -> (actions: Vec<TuiAction>)
        ensures
            (*final(self), actions@) == tui_step_spec(*old(self), e),
    {
        let mut actions: Vec<TuiAction> = Vec::new();
        match e {
            TuiEvent::Key { key, context } => {
                let modes = InputModes {
                    tool_detail_open: context.tool_detail_open,
                    user_input_dialog_open: context.user_input_dialog_open,
                    confirm_allows_policy_switch: context.confirm_allows_policy_switch,
                    confirm_dialog_open: self.ui.confirm_dialog.is_some(),
                    shortcuts_dialog_open: self.ui.show_shortcuts_dialog,
                    plugin_browser_open: self.ui.plugin_browser_open,
                    chrome_panel_open: self.ui.chrome_panel_open,
                    workflow_overlay_visible: context.workflow_overlay_visible,
                    palette_open: context.palette_open,
                    provider_popup_open: self.ui.show_provider_popup,
                    pending_plan_exit: context.pending_plan_exit,
                    roadmap_mode: context.roadmap_mode,
                    palette_open_key: context.palette_open_key,
                    shortcuts_close_key: context.shortcuts_close_key,
                };
                let route = route_key(&modes, key);
                actions.push(TuiAction::Redraw);
                apply_route_exec(&mut self.ui, route, &mut actions);
            },
            TuiEvent::StreamLagged(n) => {
                if self.turn.active_turn_id.is_some() {
                    self.turn.lagged_during_active_turn = true;
                }
                actions.push(TuiAction::Note(EventNote::StreamLagged(n)));
            },
            TuiEvent::Server { now, kind } => {
                self.turn.last_event_at = now;
                actions.push(TuiAction::Redraw);
                actions.push(TuiAction::LogServerEvent);
                match kind {
                    ServerEventKind::TurnStarted(id) => {
                        clear_turn(&mut self.turn);
                        self.turn.active_turn_id = Some(id);
                        actions.push(TuiAction::TurnBegan);
                    },
                    ServerEventKind::TurnCompleted(id) => {
                        if running_is(&self.turn, id.as_str()) {
                            clear_turn(&mut self.turn);
                            actions.push(TuiAction::TurnEnded { completed: true });
                        }
                    },
                    ServerEventKind::TurnInterrupted(id) => {
                        if running_is(&self.turn, id.as_str()) {
                            clear_turn(&mut self.turn);
                            actions.push(TuiAction::TurnEnded { completed: false });
                        }
                    },
                    ServerEventKind::Other => {},
                }
            },
            TuiEvent::Tick(now) => {
                if self.turn.recover_stuck_turn_if_needed(now) {
                    actions.push(TuiAction::RecoveredTurn);
                    actions.push(TuiAction::Redraw);
                }
            },
        }
        assert(actions@ =~= tui_step_spec(*old(self), e).1);
        actions
    }
}

/// The event log's line for a note.
pub open spec fn note_text_spec(n: EventNote) -> Seq<char> {
    match n {
        EventNote::EventLogShown => "event log shown"@,
        EventNote::EventLogHidden => "event log hidden"@,
        EventNote::StreamLagged(k) => "event stream lagged; dropped "@ + decimal(k as nat) + " events"@,
    }
}

pub fn note_text(n: EventNote) -> (r: String)
    ensures
        r@ == note_text_spec(n),
{
    match n {
        EventNote::EventLogShown => string_from("event log shown"),
        EventNote::EventLogHidden => string_from("event log hidden"),
        EventNote::StreamLagged(k) => {
            let mut s = string_from("event stream lagged; dropped ");
            push_decimal(&mut s, k);
            crate::text::push_str(&mut s, " events");
            s
        },
    }
}

/// A turn ends only by its own events: a completion or interruption for
/// another turn leaves the running one, and no key or lag clears it.
pub proof fn law_only_the_running_turn_ends(s: TuiState, e: TuiEvent)
    ensures
        match e {
            TuiEvent::Server { now, kind: ServerEventKind::TurnCompleted(id) } => !is_running(s.turn, id@)
                ==> tui_step_spec(s, e).0.turn.active_turn_id == s.turn.active_turn_id,
            TuiEvent::Server { now, kind: ServerEventKind::TurnInterrupted(id) } => !is_running(s.turn, id@)
                ==> tui_step_spec(s, e).0.turn.active_turn_id == s.turn.active_turn_id,
            TuiEvent::Key { .. } => tui_step_spec(s, e).0.turn == s.turn,
            TuiEvent::StreamLagged(_) => tui_step_spec(s, e).0.turn.active_turn_id == s.turn.active_turn_id,
            _ => true,
        },
{
}

/// Pressing Ctrl+L twice leaves the event log as it was.
pub proof fn law_event_log_toggle_twice(s: TuiState, key: KeyEvent, c: KeyContext)
    requires
        route_key_spec(key_modes(s.ui, c), key) == KeyRoute::ToggleEventLog,
    ensures
        ({
            let s1 = tui_step_spec(s, TuiEvent::Key { key, context: c }).0;
            &&& s1.ui.show_event_log == !s.ui.show_event_log
            &&& route_key_spec(key_modes(s1.ui, c), key) == KeyRoute::ToggleEventLog
            &&& tui_step_spec(s1, TuiEvent::Key { key, context: c }).0 == s
        }),
{
}

/// Ctrl+C, anywhere but the screens that take every key themselves, leaves
/// the exit question open, with the shortcuts dialog, plugin browser and
/// chrome panel closed, and the turn untouched.
pub proof fn law_ctrl_c_opens_exit_question(s: TuiState, key: KeyEvent, c: KeyContext)
    requires
        key.kind != crate::keys::KeyEventKind::Release,
        crate::key_route::ctrl_char(key, 'c'),
        !c.tool_detail_open,
        !c.user_input_dialog_open,
        s.ui.confirm_dialog is None,
        !c.workflow_overlay_visible,
        !c.palette_open,
        !c.palette_open_key,
    ensures
        ({
            let s1 = tui_step_spec(s, TuiEvent::Key { key, context: c }).0;
            &&& s1.ui.confirm_dialog == Some(ConfirmKind::Exit)
            &&& !s1.ui.show_shortcuts_dialog
            &&& (s.ui.show_shortcuts_dialog || !s1.ui.plugin_browser_open)
            &&& (s.ui.show_shortcuts_dialog || s.ui.plugin_browser_open || !s1.ui.chrome_panel_open)
            &&& s1.turn == s.turn
        }),
{
    crate::key_route::law_ctrl_c_asks_to_exit(key_modes(s.ui, c), key);
}

} // verus!
