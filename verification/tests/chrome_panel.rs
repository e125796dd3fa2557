use roder_tui::chrome::{ChromeBrowser, ChromePermissionMode, ChromeStatus};
use roder_tui::chrome_panel::{chrome_panel_lines, join_strings, ChromePanelState, ChromeTabsView};
use roder_tui::timeline_rows::{StyledLine, TextRole};

fn text(l: &StyledLine) -> String {
    l.iter().map(|(t, _)| t.as_str()).collect::<String>()
}

#[test]
fn chrome_panel_without_status_shows_unavailable_and_pairing() {
    let state = ChromePanelState { status: None, tabs: None, last_error: Some("boom".to_string()), selected: 0 };
    let lines = chrome_panel_lines(&state, &None, &vec!["scan the code".to_string()]);
    let rendered: Vec<String> = lines.iter().map(text).collect();
    assert_eq!(
        rendered,
        vec!["Connection", "Status unavailable.", "", "Pairing", "scan the code", "", "boom"]
    );
    assert_eq!(lines[6][0].1, TextRole::Error);
}

#[test]
fn chrome_panel_lists_status_and_tabs() {
    let status = ChromeStatus {
        connected: true,
        client_count: 2,
        enabled: false,
        capabilities: vec!["tabs.list".to_string(), "tabs.read".to_string()],
        mode: ChromePermissionMode::Assist,
        remote_addr: Some("10.0.0.2:80".to_string()),
        browser: Some(ChromeBrowser { name: "Chrome".to_string(), kind: "stable".to_string() }),
        ..Default::default()
    };
    let state = ChromePanelState {
        status: Some(status),
        tabs: Some(ChromeTabsView { count: 1, titles: vec!["Docs".to_string()] }),
        last_error: None,
        selected: 0,
    };
    let lines = chrome_panel_lines(&state, &Some("https://pair".to_string()), &Vec::new());
    let rendered: Vec<String> = lines.iter().map(text).collect();
    assert_eq!(
        rendered,
        vec![
            "Connection",
            "Connected: yes",
            "Clients: 2",
            "Remote addr: 10.0.0.2:80",
            "Browser: Chrome (stable)",
            "Enabled: no",
            "Mode: assist",
            "Capabilities: tabs.list, tabs.read",
            "Active tab: none",
            "",
            "Tabs (1)",
            "• Docs",
            "",
            "Pairing",
            "1-click pair URL (press o): https://pair",
        ]
    );
    assert_eq!(lines[1][0].1, TextRole::AccentSoft);
    let empty_tabs = ChromePanelState {
        status: None,
        tabs: Some(ChromeTabsView { count: 0, titles: Vec::new() }),
        last_error: None,
        selected: 0,
    };
    let l = chrome_panel_lines(&empty_tabs, &None, &Vec::new());
    assert_eq!(text(&l[4]), "(no tabs)");
    assert_eq!(join_strings(&Vec::new(), ", "), "");
}
