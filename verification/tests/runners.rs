use roder_tui::menu_item::ProviderMenuItem;
use roder_tui::runners::{
    runner_capabilities_label, runner_menu_items, runner_menu_label, RunnerCapabilities,
    RunnerProvider, RunnerStatus, RunnersList,
};

fn caps(command_exec: bool, files: bool, cancellation: bool) -> RunnerCapabilities {
    RunnerCapabilities {
        command_exec,
        file_read: files,
        file_write: files,
        port_preview: false,
        snapshots: false,
        cancellation,
        artifact_export: false,
    }
}

#[test]
fn runner_menu_items_select_runner_providers() {
    let items = runner_menu_items(&RunnersList {
        active: Some(RunnerStatus {
            destination_id: "unix-local".to_string(),
            provider_id: "unix-local".to_string(),
            state: "active".to_string(),
            session_id: None,
        }),
        providers: vec![RunnerProvider {
            provider_id: "unix-local".to_string(),
            capabilities: caps(true, true, true),
            setup_hint: None,
        }],
    });

    assert!(matches!(
        &items[0],
        ProviderMenuItem::Runner {
            destination_id,
            provider_id,
            label
        } if destination_id == "unix-local"
            && provider_id == "unix-local"
            && label.contains("(active)")
            && label.contains("commands")
            && label.contains("cancel")
    ));
    assert!(matches!(items.last(), Some(ProviderMenuItem::Back)));
}

#[test]
fn runner_menu_label_shows_setup_guidance_for_missing_credentials() {
    let label = runner_menu_label(
        &RunnerProvider {
            provider_id: "sprites".to_string(),
            capabilities: caps(true, false, false),
            setup_hint: Some(
                "set SPRITES_TOKEN (or RODER_SPRITES_TOKEN) to run Fly Sprites sandboxes; \
                 see docs/roder-fly-sprites-runner.md"
                    .to_string(),
            ),
        },
        None,
    );

    assert!(label.starts_with("sprites - needs setup: "), "{label}");
    assert!(label.contains("SPRITES_TOKEN"), "{label}");
    // Hints stay compact in the picker.
    assert!(label.len() <= 110, "{label}");
}

#[test]
fn runner_capabilities_label_lists_in_order_or_says_none() {
    let all = RunnerCapabilities {
        command_exec: true,
        file_read: false,
        file_write: true,
        port_preview: true,
        snapshots: true,
        cancellation: true,
        artifact_export: true,
    };
    assert_eq!(runner_capabilities_label(&all), "commands, files, ports, snapshots, cancel");
    assert_eq!(runner_capabilities_label(&caps(false, false, false)), "no capabilities");
    assert_eq!(runner_capabilities_label(&caps(false, true, false)), "files");
}

#[test]
fn runner_label_marks_active_only_on_its_own_destination_and_ignores_blank_hints() {
    let provider = RunnerProvider {
        provider_id: "docker".to_string(),
        capabilities: caps(true, false, false),
        setup_hint: Some("   ".to_string()),
    };
    let elsewhere = RunnerStatus {
        destination_id: "remote-1".to_string(),
        provider_id: "docker".to_string(),
        state: "active".to_string(),
        session_id: None,
    };
    assert_eq!(runner_menu_label(&provider, Some(&elsewhere)), "docker - commands");
    let here = RunnerStatus {
        destination_id: "docker".to_string(),
        provider_id: "docker".to_string(),
        state: "active".to_string(),
        session_id: Some("s1".to_string()),
    };
    assert_eq!(runner_menu_label(&provider, Some(&here)), "docker (active) - commands");
    let long = RunnerProvider {
        provider_id: "x".to_string(),
        capabilities: caps(false, false, false),
        setup_hint: Some("a".repeat(80)),
    };
    assert_eq!(runner_menu_label(&long, None), format!("x - needs setup: {}...", "a".repeat(72)));
    let empty = runner_menu_items(&RunnersList { active: None, providers: Vec::new() });
    assert_eq!(empty.len(), 1);
    assert!(matches!(empty[0], ProviderMenuItem::Back));
}
