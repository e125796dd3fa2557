use roder_tui::keys::{KeyCode, KeyEvent, KeyModifiers};
use roder_tui::menu_keys::{
    inline_completion_key, slash_command_route, slash_menu_key, wrapped_selection, MenuKeyOutcome,
    SlashCommand,
};

fn plain(code: KeyCode) -> KeyEvent {
    KeyEvent::new(code, KeyModifiers::none())
}

#[test]
fn wrapped_selection_moves_and_wraps() {
    assert_eq!(wrapped_selection(0, -1, 3), 2);
    assert_eq!(wrapped_selection(2, 1, 3), 0);
    assert_eq!(wrapped_selection(1, 1, 3), 2);
    assert_eq!(wrapped_selection(1, -7, 3), 0);
    assert_eq!(wrapped_selection(5, 0, 0), 0);
    assert_eq!(wrapped_selection(usize::MAX, 1, 4), 0);
    for start in 0..5usize {
        assert_eq!(wrapped_selection(wrapped_selection(start, 1, 5), -1, 5), start);
    }
}

#[test]
fn inline_completion_keys_move_accept_or_pass_through() {
    assert_eq!(
        inline_completion_key(plain(KeyCode::Down), 3, 2),
        MenuKeyOutcome { handled: true, selection: 0, accept: None }
    );
    assert_eq!(
        inline_completion_key(plain(KeyCode::Up), 30, 20),
        MenuKeyOutcome { handled: true, selection: 10, accept: None }
    );
    assert_eq!(
        inline_completion_key(plain(KeyCode::Enter), 3, 9),
        MenuKeyOutcome { handled: true, selection: 2, accept: Some(2) }
    );
    assert_eq!(
        inline_completion_key(plain(KeyCode::Char('x')), 3, 9),
        MenuKeyOutcome { handled: false, selection: 2, accept: None }
    );
    assert_eq!(
        inline_completion_key(plain(KeyCode::Tab), 0, 4),
        MenuKeyOutcome { handled: false, selection: 4, accept: None }
    );
    assert_eq!(
        inline_completion_key(KeyEvent::new(KeyCode::Tab, KeyModifiers::shift()), 3, 1),
        MenuKeyOutcome { handled: false, selection: 1, accept: None }
    );
}

#[test]
fn slash_menu_keys_move_complete_or_pass_through() {
    assert_eq!(
        slash_menu_key(plain(KeyCode::Up), 2, 0),
        MenuKeyOutcome { handled: true, selection: 1, accept: None }
    );
    assert_eq!(
        slash_menu_key(plain(KeyCode::Tab), 40, 30),
        MenuKeyOutcome { handled: true, selection: 0, accept: Some(17) }
    );
    assert_eq!(
        slash_menu_key(plain(KeyCode::Enter), 4, 1),
        MenuKeyOutcome { handled: false, selection: 1, accept: None }
    );
    assert_eq!(
        slash_menu_key(plain(KeyCode::Down), 0, 3),
        MenuKeyOutcome { handled: false, selection: 3, accept: None }
    );
}

#[test]
fn slash_commands_route_to_their_handlers() {
    assert_eq!(slash_command_route("clear"), SlashCommand::Clear);
    assert_eq!(slash_command_route("ps"), SlashCommand::Processes);
    assert_eq!(slash_command_route("swarm"), SlashCommand::AgentSwarm);
    assert_eq!(slash_command_route("agent-swarm"), SlashCommand::AgentSwarm);
    assert_eq!(slash_command_route("workflows"), SlashCommand::Workflows);
    assert_eq!(slash_command_route("deploy"), SlashCommand::Custom);
    assert_eq!(slash_command_route("Clear"), SlashCommand::Custom);
}
