//! Where a key press goes: the overlay on top takes it, then the global
//! shortcuts, the provider popup, roadmap mode, and last the composer.
use vstd::prelude::*;
use crate::keys::{KeyCode, KeyEvent, KeyEventKind};
use crate::popup::ProviderPopupScreen;

verus! {

/// What is open on the screen when a key arrives, and what the palette and
/// the shortcuts dialog make of the key (they decide that themselves).
#[derive(Debug, Clone, Copy, PartialEq, Eq, Structural)]
pub struct InputModes {
    pub tool_detail_open: bool,
    pub user_input_dialog_open: bool,
    /// The confirm dialog is open and lets Shift+Tab switch the policy mode.
    pub confirm_allows_policy_switch: bool,
    pub confirm_dialog_open: bool,
    pub shortcuts_dialog_open: bool,
    pub plugin_browser_open: bool,
    pub chrome_panel_open: bool,
    pub workflow_overlay_visible: bool,
    pub palette_open: bool,
    pub provider_popup_open: bool,
    pub pending_plan_exit: bool,
    pub roadmap_mode: bool,
    /// Whether the key is the palette's opening key.
    pub palette_open_key: bool,
    /// Whether the key closes the shortcuts dialog.
    pub shortcuts_close_key: bool,
}

/// Where a key goes.
#[derive(Debug, Clone, Copy, PartialEq, Eq, Structural)]
pub enum KeyRoute {
    /// Nothing happens (a key release, or a key the open dialog ignores).
    Ignore,
    ToolDetail,
    UserInputDialog,
    CyclePolicyMode,
    ConfirmDialog,
    /// Ctrl+C over the shortcuts dialog: close it and ask to exit.
    CloseShortcutsAndConfirmExit,
    CloseShortcuts,
    /// Ctrl+C over the plugin browser: close it and ask to exit.
    ClosePluginBrowserAndConfirmExit,
    PluginBrowser,
    /// Ctrl+C over the chrome panel: close it and ask to exit.
    CloseChromePanelAndConfirmExit,
    ChromePanel,
    WorkflowOverlay,
    Palette,
    OpenPalette,
    /// Ctrl+P while the provider popup is open: cancel any theme preview
    /// and close it.
    CloseProviderPopup,
    OpenProviderPopup,
    ToggleEventLog,
    TogglePlanPanel,
    ConfirmExit,
    /// Answer the pending plan exit: yes or no.
    ResolvePlanExit(bool),
    ProviderPopup,
    /// Roadmap mode's keys first; what it leaves goes to the composer.
    Roadmap,
    Composer,
}

pub open spec fn ctrl_char(key: KeyEvent, c: char) -> bool {
    key.modifiers.control && key.code == KeyCode::Char(c)
}

pub open spec fn policy_shortcut(key: KeyEvent) -> bool {
    key.code == KeyCode::BackTab || (key.code == KeyCode::Tab && key.modifiers.shift)
}

/// Where `key` goes with the screen in `m`: a key release nowhere; else
/// the first of, in order, the tool detail, the question dialog, Shift+Tab
/// over a confirm dialog that allows it, the confirm dialog, the shortcuts
/// dialog, the plugin browser, the chrome panel, the workflow overlay, the
/// palette, the palette's key, Ctrl+P, Ctrl+L, Ctrl+T, Ctrl+C, Shift+Tab
/// outside roadmap mode, y or n for a pending plan exit, the provider
/// popup, roadmap mode, and the composer.
pub open spec fn route_key_spec(m: InputModes, key: KeyEvent) -> KeyRoute {
    if key.kind == KeyEventKind::Release {
        KeyRoute::Ignore
    } else if m.tool_detail_open {
        KeyRoute::ToolDetail
    } else if m.user_input_dialog_open {
        KeyRoute::UserInputDialog
    } else if m.confirm_allows_policy_switch && policy_shortcut(key) {
        KeyRoute::CyclePolicyMode
    } else if m.confirm_dialog_open {
        KeyRoute::ConfirmDialog
    } else if m.shortcuts_dialog_open {
        if ctrl_char(key, 'c') {
            KeyRoute::CloseShortcutsAndConfirmExit
        } else if m.shortcuts_close_key {
            KeyRoute::CloseShortcuts
        } else {
            KeyRoute::Ignore
        }
    } else if m.plugin_browser_open {
        if ctrl_char(key, 'c') {
            KeyRoute::ClosePluginBrowserAndConfirmExit
        } else {
            KeyRoute::PluginBrowser
        }
    } else if m.chrome_panel_open {
        if ctrl_char(key, 'c') {
            KeyRoute::CloseChromePanelAndConfirmExit
        } else {
            KeyRoute::ChromePanel
        }
    } else if m.workflow_overlay_visible {
        KeyRoute::WorkflowOverlay
    } else if m.palette_open {
        KeyRoute::Palette
    } else if m.palette_open_key {
        KeyRoute::OpenPalette
    } else if ctrl_char(key, 'p') {
        if m.provider_popup_open {
            KeyRoute::CloseProviderPopup
        } else {
            KeyRoute::OpenProviderPopup
        }
    } else if ctrl_char(key, 'l') {
        KeyRoute::ToggleEventLog
    } else if ctrl_char(key, 't') {
        KeyRoute::TogglePlanPanel
    } else if ctrl_char(key, 'c') {
        KeyRoute::ConfirmExit
    } else if policy_shortcut(key) && !m.roadmap_mode {
        KeyRoute::CyclePolicyMode
    } else if m.pending_plan_exit && (key.code == KeyCode::Char('y') || key.code == KeyCode::Char('Y')) {
        KeyRoute::ResolvePlanExit(true)
    } else if m.pending_plan_exit && (key.code == KeyCode::Char('n') || key.code == KeyCode::Char('N')) {
        KeyRoute::ResolvePlanExit(false)
    } else if m.provider_popup_open {
        KeyRoute::ProviderPopup
    } else if m.roadmap_mode {
        KeyRoute::Roadmap
    } else {
        KeyRoute::Composer
    }
}

fn is_ctrl_char(key: KeyEvent, c: char) -> (r: bool)
    ensures
        r == ctrl_char(key, c),
{
    key.modifiers.control && key.code == KeyCode::Char(c)
}

/// Where a key goes.
pub fn route_key(m: &InputModes, key: KeyEvent) -> (r: KeyRoute)
    ensures
        r == route_key_spec(*m, key),
{
    let policy = key.code == KeyCode::BackTab || (key.code == KeyCode::Tab && key.modifiers.shift);
    if key.kind == KeyEventKind::Release {
        KeyRoute::Ignore
    } else if m.tool_detail_open {
        KeyRoute::ToolDetail
    } else if m.user_input_dialog_open {
        KeyRoute::UserInputDialog
    } else if m.confirm_allows_policy_switch && policy {
        KeyRoute::CyclePolicyMode
    } else if m.confirm_dialog_open {
        KeyRoute::ConfirmDialog
    } else if m.shortcuts_dialog_open {
        if is_ctrl_char(key, 'c') {
            KeyRoute::CloseShortcutsAndConfirmExit
        } else if m.shortcuts_close_key {
            KeyRoute::CloseShortcuts
        } else {
            KeyRoute::Ignore
        }
    } else if m.plugin_browser_open {
        if is_ctrl_char(key, 'c') {
            KeyRoute::ClosePluginBrowserAndConfirmExit
        } else {
            KeyRoute::PluginBrowser
        }
    } else if m.chrome_panel_open {
        if is_ctrl_char(key, 'c') {
            KeyRoute::CloseChromePanelAndConfirmExit
        } else {
            KeyRoute::ChromePanel
        }
    } else if m.workflow_overlay_visible {
        KeyRoute::WorkflowOverlay
    } else if m.palette_open {
        KeyRoute::Palette
    } else if m.palette_open_key {
        KeyRoute::OpenPalette
    } else if is_ctrl_char(key, 'p') {
        if m.provider_popup_open {
            KeyRoute::CloseProviderPopup
        } else {
            KeyRoute::OpenProviderPopup
        }
    } else if is_ctrl_char(key, 'l') {
        KeyRoute::ToggleEventLog
    } else if is_ctrl_char(key, 't') {
        KeyRoute::TogglePlanPanel
    } else if is_ctrl_char(key, 'c') {
        KeyRoute::ConfirmExit
    } else if policy && !m.roadmap_mode {
        KeyRoute::CyclePolicyMode
    } else if m.pending_plan_exit && (key.code == KeyCode::Char('y') || key.code == KeyCode::Char('Y')) {
        KeyRoute::ResolvePlanExit(true)
    } else if m.pending_plan_exit && (key.code == KeyCode::Char('n') || key.code == KeyCode::Char('N')) {
        KeyRoute::ResolvePlanExit(false)
    } else if m.provider_popup_open {
        KeyRoute::ProviderPopup
    } else if m.roadmap_mode {
        KeyRoute::Roadmap
    } else {
        KeyRoute::Composer
    }
}

/// What a key does inside the provider popup.
#[derive(Debug, Clone, Copy, PartialEq, Eq, Structural)]
pub enum PopupKey {
    /// Esc: back a screen, or close the popup.
    Back,
    OpenApiKeyPage,
    SubmitApiKey,
    /// Remove the last character of the pasted key.
    PopKeyChar,
    PushKeyChar(char),
    /// Sign out of, or clear the key of, the highlighted provider.
    ClearOrLogoutProvider,
    Previous,
    Next,
    SelectCurrent,
    /// Remove the last character of the search and start over at the top.
    PopFilterChar,
    PushFilterChar(char),
    Nothing,
}

/// What `key` does on the popup's `screen`: the API key prompt takes the
/// key's characters, Enter and Ctrl+O; the providers screen takes Delete,
/// Ctrl+D and Ctrl+R on the highlighted provider; every screen moves with
/// the dialog keys, selects with Enter and searches with the characters.
pub open spec fn popup_key_spec(screen: ProviderPopupScreen, key: KeyEvent) -> PopupKey {
    let api = screen == ProviderPopupScreen::ApiKey;
    let providers = screen == ProviderPopupScreen::Providers;
    let ctrl = key.modifiers.control;
    match key.code {
        KeyCode::Esc => PopupKey::Back,
        KeyCode::Char('o') if api && ctrl => PopupKey::OpenApiKeyPage,
        KeyCode::Enter if api => PopupKey::SubmitApiKey,
        KeyCode::Backspace if api => PopupKey::PopKeyChar,
        KeyCode::Char(c) if api && !ctrl => PopupKey::PushKeyChar(c),
        KeyCode::Delete if providers => PopupKey::ClearOrLogoutProvider,
        KeyCode::Char('d') if providers && ctrl => PopupKey::ClearOrLogoutProvider,
        KeyCode::Char('r') if providers && ctrl => PopupKey::ClearOrLogoutProvider,
        _ => if key.code == KeyCode::Up || (key.code == KeyCode::Char('k') && ctrl) {
            PopupKey::Previous
        } else if key.code == KeyCode::Down || (key.code == KeyCode::Char('j') && ctrl) {
            PopupKey::Next
        } else {
            match key.code {
                KeyCode::Enter => PopupKey::SelectCurrent,
                KeyCode::Backspace => PopupKey::PopFilterChar,
                KeyCode::Char(c) if !ctrl => PopupKey::PushFilterChar(c),
                _ => PopupKey::Nothing,
            }
        },
    }
}

/// What a key does inside the provider popup.
pub fn provider_popup_key(screen: ProviderPopupScreen, key: KeyEvent) -> (r: PopupKey)
    ensures
        r == popup_key_spec(screen, key),
{
    let api = screen == ProviderPopupScreen::ApiKey;
    let providers = screen == ProviderPopupScreen::Providers;
    let ctrl = key.modifiers.control;
    match key.code {
        KeyCode::Esc => PopupKey::Back,
        KeyCode::Char('o') if api && ctrl => PopupKey::OpenApiKeyPage,
        KeyCode::Enter if api => PopupKey::SubmitApiKey,
        KeyCode::Backspace if api => PopupKey::PopKeyChar,
        KeyCode::Char(c) if api && !ctrl => PopupKey::PushKeyChar(c),
        KeyCode::Delete if providers => PopupKey::ClearOrLogoutProvider,
        KeyCode::Char('d') if providers && ctrl => PopupKey::ClearOrLogoutProvider,
        KeyCode::Char('r') if providers && ctrl => PopupKey::ClearOrLogoutProvider,
        _ => if key.code == KeyCode::Up || (key.code == KeyCode::Char('k') && ctrl) {
            PopupKey::Previous
        } else if key.code == KeyCode::Down || (key.code == KeyCode::Char('j') && ctrl) {
            PopupKey::Next
        } else {
            match key.code {
                KeyCode::Enter => PopupKey::SelectCurrent,
                KeyCode::Backspace => PopupKey::PopFilterChar,
                KeyCode::Char(c) if !ctrl => PopupKey::PushFilterChar(c),
                _ => PopupKey::Nothing,
            }
        },
    }
}

/// An open overlay takes every key that is handled at all; Ctrl+C reaches
/// the composer under no screen, and a released key goes nowhere.
pub proof fn law_overlays_take_keys_first(m: InputModes, key: KeyEvent)
    ensures
        key.kind == KeyEventKind::Release ==> route_key_spec(m, key) == KeyRoute::Ignore,
        key.kind != KeyEventKind::Release && m.tool_detail_open ==> route_key_spec(m, key)
            == KeyRoute::ToolDetail,
        ctrl_char(key, 'c') ==> route_key_spec(m, key) != KeyRoute::Composer,
        route_key_spec(m, key) == KeyRoute::Composer ==> !m.tool_detail_open && !m.user_input_dialog_open
            && !m.confirm_dialog_open && !m.shortcuts_dialog_open && !m.plugin_browser_open
            && !m.chrome_panel_open && !m.palette_open && !m.provider_popup_open && !m.roadmap_mode,
{
}

/// Ctrl+C asks to exit from anywhere but the screens that take every key
/// themselves (the tool detail, the question dialog, the confirm dialog,
/// the workflow overlay and the open palette, or a palette whose opening
/// key it is): over the shortcuts dialog, the plugin browser or the chrome
/// panel it closes that first, and elsewhere it asks straight away.
pub proof fn law_ctrl_c_asks_to_exit(m: InputModes, key: KeyEvent)
    requires
        key.kind != KeyEventKind::Release,
        ctrl_char(key, 'c'),
        !m.tool_detail_open,
        !m.user_input_dialog_open,
        !m.confirm_dialog_open,
        !m.workflow_overlay_visible,
        !m.palette_open,
        !m.palette_open_key,
    ensures
        m.shortcuts_dialog_open ==> route_key_spec(m, key) == KeyRoute::CloseShortcutsAndConfirmExit,
        !m.shortcuts_dialog_open && m.plugin_browser_open ==> route_key_spec(m, key)
            == KeyRoute::ClosePluginBrowserAndConfirmExit,
        !m.shortcuts_dialog_open && !m.plugin_browser_open && m.chrome_panel_open ==> route_key_spec(m, key)
            == KeyRoute::CloseChromePanelAndConfirmExit,
        !m.shortcuts_dialog_open && !m.plugin_browser_open && !m.chrome_panel_open ==> route_key_spec(m, key)
            == KeyRoute::ConfirmExit,
{
}

/// With no screen on top that takes keys itself, the global shortcuts do
/// what they say: Ctrl+P opens the provider popup or closes it when open,
/// Ctrl+L toggles the event log, Ctrl+T the plan panel, and Shift+Tab
/// cycles the policy mode outside roadmap mode; a key that is none of these
/// goes to the popup when it is open, else to roadmap mode, else to the
/// composer (y and n answer a pending plan exit first).
pub proof fn law_global_shortcuts(m: InputModes, key: KeyEvent)
    requires
        key.kind != KeyEventKind::Release,
        !m.tool_detail_open,
        !m.user_input_dialog_open,
        !m.confirm_dialog_open,
        !m.shortcuts_dialog_open,
        !m.plugin_browser_open,
        !m.chrome_panel_open,
        !m.workflow_overlay_visible,
        !m.palette_open,
        !m.palette_open_key,
    ensures
        ctrl_char(key, 'p') ==> route_key_spec(m, key) == (if m.provider_popup_open {
            KeyRoute::CloseProviderPopup
        } else {
            KeyRoute::OpenProviderPopup
        }),
        ctrl_char(key, 'l') ==> route_key_spec(m, key) == KeyRoute::ToggleEventLog,
        ctrl_char(key, 't') ==> route_key_spec(m, key) == KeyRoute::TogglePlanPanel,
        key.code == KeyCode::BackTab && !m.roadmap_mode ==> route_key_spec(m, key) == KeyRoute::CyclePolicyMode,
        !key.modifiers.control && !policy_shortcut(key) && !m.pending_plan_exit ==> route_key_spec(m, key) == (
        if m.provider_popup_open {
            KeyRoute::ProviderPopup
        } else if m.roadmap_mode {
            KeyRoute::Roadmap
        } else {
            KeyRoute::Composer
        }),
        m.pending_plan_exit && !key.modifiers.control && !policy_shortcut(key) && (key.code == KeyCode::Char('y')
            || key.code == KeyCode::Char('Y')) ==> route_key_spec(m, key) == KeyRoute::ResolvePlanExit(true),
        m.pending_plan_exit && !key.modifiers.control && !policy_shortcut(key) && (key.code == KeyCode::Char('n')
            || key.code == KeyCode::Char('N')) ==> route_key_spec(m, key) == KeyRoute::ResolvePlanExit(false),
{
}

} // verus!
