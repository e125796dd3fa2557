use roder_tui::commands::{
    accepted_completion, built_in_command_catalog, command_invocation, command_warning,
    matching_commands, should_show_menu, slash_query, split_goal_action, CommandDescriptor,
};

fn command(name: &str, source: &str) -> CommandDescriptor {
    CommandDescriptor {
        name: name.to_string(),
        description: None,
        argument_hint: None,
        source: source.to_string(),
        model: None,
        agent: None,
        has_shell_includes: false,
        has_url_includes: false,
    }
}

fn sample_commands() -> Vec<CommandDescriptor> {
    vec![
        CommandDescriptor {
            name: "review".to_string(),
            description: Some("Review code".to_string()),
            argument_hint: Some("[area]".to_string()),
            source: "workspace".to_string(),
            model: None,
            agent: None,
            has_shell_includes: false,
            has_url_includes: false,
        },
        command("refactor", "user"),
        command("help", "built-in"),
    ]
}

#[test]
fn filters_commands_by_prefix() {
    let commands = sample_commands();
    let matches = matching_commands(&commands, "/re");
    assert_eq!(
        matches
            .iter()
            .map(|command| command.name.as_str())
            .collect::<Vec<_>>(),
        ["review", "refactor"]
    );
}

#[test]
fn tab_completion_inserts_command_name() {
    let commands = sample_commands();
    assert_eq!(
        accepted_completion("/he", &commands, 0).as_deref(),
        Some("/help ")
    );
}

#[test]
fn built_in_catalog_contains_expected_slash_commands() {
    let commands = built_in_command_catalog();
    let names = commands
        .iter()
        .map(|command| command.name.as_str())
        .collect::<Vec<_>>();

    assert_eq!(
        names,
        [
            "init", "clear", "compact", "help", "model", "agents", "memory"
        ]
    );
}

#[test]
fn menu_only_shows_while_typing_command_name() {
    assert!(should_show_menu("/"));
    assert!(should_show_menu("/he"));
    assert!(should_show_menu(" /he"));
    assert!(!should_show_menu("/help "));
    assert!(!should_show_menu("//not-command"));
}

#[test]
fn slash_query_reads_the_text_after_one_slash() {
    assert_eq!(slash_query("  /rev").as_deref(), Some("rev"));
    assert_eq!(slash_query("/").as_deref(), Some(""));
    assert_eq!(slash_query("//x"), None);
    assert_eq!(slash_query("review"), None);
}

#[test]
fn invocation_ignores_unknown_slash_and_paths() {
    let commands = sample_commands();
    assert_eq!(command_invocation("/missing arg", &commands), None);
    assert_eq!(command_invocation("/Users/pz/file", &commands), None);
    assert_eq!(
        command_invocation("/review api", &commands),
        Some(("review".to_string(), "api".to_string()))
    );
}

#[test]
fn extension_commands_show_warning() {
    let warning = command_warning(&command("ext.lint.review", "extension:lint")).unwrap();
    assert!(warning.contains("extension:lint"));
}

#[test]
fn gated_commands_show_warning() {
    let mut gated = command("review", "workspace");
    gated.has_shell_includes = true;
    let warning = command_warning(&gated).unwrap();
    assert_eq!(warning, "shell gated");
}

#[test]
fn command_warnings_follow_their_precedence() {
    let mut c = command("x", "extension:pack");
    c.has_url_includes = true;
    assert_eq!(command_warning(&c).as_deref(), Some("url gated"));
    c.model = Some("m".to_string());
    assert_eq!(command_warning(&c).as_deref(), Some("changes model"));
    c.agent = Some("a".to_string());
    assert_eq!(command_warning(&c).as_deref(), Some("uses subagent"));
    assert_eq!(
        command_warning(&command("x", "extension:pack")).as_deref(),
        Some("extension command from extension:pack")
    );
    assert_eq!(command_warning(&command("x", "workspace")), None);
}

#[test]
fn goal_arguments_split_into_action_and_rest() {
    assert_eq!(
        split_goal_action("edit  ship the beta "),
        ("edit".to_string(), "ship the beta".to_string())
    );
    assert_eq!(split_goal_action("pause"), ("pause".to_string(), String::new()));
    assert_eq!(split_goal_action(""), (String::new(), String::new()));
}
