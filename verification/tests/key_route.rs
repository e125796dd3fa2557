use roder_tui::key_route::{provider_popup_key, route_key, InputModes, KeyRoute, PopupKey};
use roder_tui::keys::{KeyCode, KeyEvent, KeyEventKind, KeyModifiers};
use roder_tui::popup::ProviderPopupScreen;

fn idle() -> InputModes {
    InputModes {
        tool_detail_open: false,
        user_input_dialog_open: false,
        confirm_allows_policy_switch: false,
        confirm_dialog_open: false,
        shortcuts_dialog_open: false,
        plugin_browser_open: false,
        chrome_panel_open: false,
        workflow_overlay_visible: false,
        palette_open: false,
        provider_popup_open: false,
        pending_plan_exit: false,
        roadmap_mode: false,
        palette_open_key: false,
        shortcuts_close_key: false,
    }
}

fn ctrl(c: char) -> KeyEvent {
    KeyEvent::new(KeyCode::Char(c), KeyModifiers::control())
}

fn plain(code: KeyCode) -> KeyEvent {
    KeyEvent::new(code, KeyModifiers::none())
}

#[test]
fn overlays_take_keys_before_global_shortcuts() {
    let mut m = idle();
    m.tool_detail_open = true;
    assert_eq!(route_key(&m, ctrl('c')), KeyRoute::ToolDetail);
    let release = KeyEvent::new_with_kind(KeyCode::Enter, KeyModifiers::none(), KeyEventKind::Release);
    assert_eq!(route_key(&m, release), KeyRoute::Ignore);

    let mut shortcuts = idle();
    shortcuts.shortcuts_dialog_open = true;
    assert_eq!(route_key(&shortcuts, ctrl('c')), KeyRoute::CloseShortcutsAndConfirmExit);
    assert_eq!(route_key(&shortcuts, plain(KeyCode::Char('x'))), KeyRoute::Ignore);
    shortcuts.shortcuts_close_key = true;
    assert_eq!(route_key(&shortcuts, plain(KeyCode::Esc)), KeyRoute::CloseShortcuts);

    let mut confirm = idle();
    confirm.confirm_dialog_open = true;
    confirm.confirm_allows_policy_switch = true;
    assert_eq!(route_key(&confirm, plain(KeyCode::BackTab)), KeyRoute::CyclePolicyMode);
    assert_eq!(route_key(&confirm, plain(KeyCode::Enter)), KeyRoute::ConfirmDialog);
}

#[test]
fn global_shortcuts_then_popup_roadmap_and_composer() {
    let m = idle();
    assert_eq!(route_key(&m, ctrl('p')), KeyRoute::OpenProviderPopup);
    assert_eq!(route_key(&m, ctrl('l')), KeyRoute::ToggleEventLog);
    assert_eq!(route_key(&m, ctrl('t')), KeyRoute::TogglePlanPanel);
    assert_eq!(route_key(&m, ctrl('c')), KeyRoute::ConfirmExit);
    assert_eq!(route_key(&m, plain(KeyCode::BackTab)), KeyRoute::CyclePolicyMode);
    assert_eq!(route_key(&m, plain(KeyCode::Char('y'))), KeyRoute::Composer);

    let mut plan = idle();
    plan.pending_plan_exit = true;
    assert_eq!(route_key(&plan, plain(KeyCode::Char('Y'))), KeyRoute::ResolvePlanExit(true));
    assert_eq!(route_key(&plan, plain(KeyCode::Char('n'))), KeyRoute::ResolvePlanExit(false));

    let mut popup = idle();
    popup.provider_popup_open = true;
    assert_eq!(route_key(&popup, ctrl('p')), KeyRoute::CloseProviderPopup);
    assert_eq!(route_key(&popup, plain(KeyCode::Char('a'))), KeyRoute::ProviderPopup);

    let mut roadmap = idle();
    roadmap.roadmap_mode = true;
    assert_eq!(route_key(&roadmap, plain(KeyCode::BackTab)), KeyRoute::Roadmap);
}

#[test]
fn provider_popup_keys_depend_on_the_screen() {
    let api = ProviderPopupScreen::ApiKey;
    assert_eq!(provider_popup_key(api, plain(KeyCode::Char('s'))), PopupKey::PushKeyChar('s'));
    assert_eq!(provider_popup_key(api, plain(KeyCode::Enter)), PopupKey::SubmitApiKey);
    assert_eq!(provider_popup_key(api, ctrl('o')), PopupKey::OpenApiKeyPage);
    assert_eq!(provider_popup_key(api, plain(KeyCode::Backspace)), PopupKey::PopKeyChar);
    let providers = ProviderPopupScreen::Providers;
    assert_eq!(provider_popup_key(providers, plain(KeyCode::Delete)), PopupKey::ClearOrLogoutProvider);
    assert_eq!(provider_popup_key(providers, ctrl('r')), PopupKey::ClearOrLogoutProvider);
    assert_eq!(provider_popup_key(providers, plain(KeyCode::Char('s'))), PopupKey::PushFilterChar('s'));
    let main = ProviderPopupScreen::Main;
    assert_eq!(provider_popup_key(main, plain(KeyCode::Up)), PopupKey::Previous);
    assert_eq!(provider_popup_key(main, ctrl('j')), PopupKey::Next);
    assert_eq!(provider_popup_key(main, plain(KeyCode::Enter)), PopupKey::SelectCurrent);
    assert_eq!(provider_popup_key(main, plain(KeyCode::Esc)), PopupKey::Back);
    assert_eq!(provider_popup_key(main, ctrl('d')), PopupKey::Nothing);
    assert_eq!(provider_popup_key(main, plain(KeyCode::Backspace)), PopupKey::PopFilterChar);
}
