use roder_tui::chrome::{
    chrome_status_summary, chrome_tab_label, next_chrome_mode, ChromePermissionMode,
    ChromeStatus, ChromeTab,
};

#[test]
fn mode_cycles_observe_assist_control() {
    assert_eq!(
        next_chrome_mode(ChromePermissionMode::Observe),
        ChromePermissionMode::Assist
    );
    assert_eq!(
        next_chrome_mode(ChromePermissionMode::Assist),
        ChromePermissionMode::Control
    );
    assert_eq!(
        next_chrome_mode(ChromePermissionMode::Control),
        ChromePermissionMode::Observe
    );
}

#[test]
fn tab_label_is_plain_truncated_text() {
    let tab = ChromeTab {
        id: 1,
        window_id: None,
        title: Some("Example".to_string()),
        url: Some("https://example.com".to_string()),
        fav_icon_url: None,
        active: true,
    };
    let label = chrome_tab_label(&tab);
    assert!(label.contains("Example"));
    assert!(label.contains("https://example.com"));
}

#[test]
fn tab_label_falls_back_for_blank_title() {
    let tab = ChromeTab {
        id: 1,
        window_id: None,
        title: Some("   ".to_string()),
        url: None,
        fav_icon_url: None,
        active: false,
    };
    assert_eq!(chrome_tab_label(&tab), "(untitled)");
}

#[test]
fn tab_labels_are_cut_to_ninety_characters() {
    let tab = ChromeTab {
        id: 2,
        window_id: Some(1),
        title: Some("t".repeat(100)),
        url: None,
        fav_icon_url: None,
        active: false,
    };
    assert_eq!(chrome_tab_label(&tab), format!("{}...", "t".repeat(90)));
}

#[test]
fn status_summary_includes_mode_and_connection() {
    let status = ChromeStatus {
        connected: true,
        client_count: 2,
        enabled: true,
        capabilities: vec!["tabs.list".to_string()],
        mode: ChromePermissionMode::Control,
        ..Default::default()
    };
    let summary = chrome_status_summary(&status);
    assert!(summary.contains("connected"));
    assert!(summary.contains("control"));
    assert!(summary.contains("tabs.list"));
}

#[test]
fn status_summary_lists_optional_lines_in_order() {
    let status = ChromeStatus {
        connected: false,
        client_count: 0,
        enabled: false,
        capabilities: vec!["a".to_string(), "b".to_string()],
        mode: ChromePermissionMode::Observe,
        remote_addr: Some("127.0.0.1:9".to_string()),
        active_tab: Some(ChromeTab {
            id: 3,
            window_id: None,
            title: None,
            url: Some("u".to_string()),
            fav_icon_url: None,
            active: true,
        }),
        last_error: Some("boom".to_string()),
        browser: None,
    };
    assert_eq!(
        chrome_status_summary(&status),
        "Chrome: not connected\nClients: 0  ·  enabled: no  ·  mode: observe\nRemote: 127.0.0.1:9\nCapabilities: a, b\nActive tab: (untitled) — u\nLast error: boom"
    );
}
