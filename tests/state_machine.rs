use tmux_deck::messages::{TmuxCommand, TmuxResponse, UIEvent};
use tmux_deck::model::{TmuxPane, TmuxSession, TmuxWindow};
use tmux_deck::state::{App, Effect, Focus, InputMode, Key, KeyPress, PopupMode, ViewMode};

fn pane(index: u32, active: bool) -> TmuxPane {
    TmuxPane {
        id: format!("%{}", index),
        index,
        width: 100 + index,
        height: 30 + index,
        active,
        current_command: "bash".to_string(),
    }
}

fn window(index: u32, panes: usize) -> TmuxWindow {
    let ps = (0..panes).map(|i| pane(i as u32, i == 0)).collect();
    TmuxWindow::new(index, format!("w{}", index), index == 0, ps, String::new())
}

fn session(name: &str, windows: usize) -> TmuxSession {
    TmuxSession {
        name: name.to_string(),
        attached: false,
        windows: (0..windows).map(|i| window(i as u32, 2)).collect(),
    }
}

fn press(key: Key) -> KeyPress {
    KeyPress { key, ctrl: false }
}

fn ctrl(c: char) -> KeyPress {
    KeyPress { key: Key::Char(c), ctrl: true }
}

fn app_with(names: &[&str]) -> App {
    let mut app = App::new(300);
    app.update_sessions(names.iter().map(|n| session(n, 2)).collect());
    app
}

fn sent(effects: &[Effect]) -> Vec<&TmuxCommand> {
    effects
        .iter()
        .filter_map(|e| match e {
            Effect::Send(c) => Some(c),
            _ => None,
        })
        .collect()
}

#[test]
fn test_handle_key_event() {
    let mut app = app_with(&["dev"]);
    let effects = app.handle_key_event(press(Key::Char('q')), 0);
    assert_eq!(effects.len(), 1);
    assert!(matches!(effects[0], Effect::Quit));
}

#[test]
fn new_app_starts_in_tree_view() {
    let app = App::new(250);
    assert_eq!(app.view_mode, ViewMode::TreeView);
    assert_eq!(app.focus, Focus::Sessions);
    assert_eq!(app.input_mode, InputMode::Normal);
    assert_eq!(app.interval_ms, 250);
    assert!(app.popup_mode.is_none());
    assert!(app.sessions.is_empty());
}

#[test]
fn double_press_within_window_toggles_view() {
    let mut app = app_with(&["dev"]);
    assert!(!app.handle_space_press(1_000));
    assert!(app.handle_space_press(1_100));
    assert_eq!(app.view_mode, ViewMode::MultiPreview);
    assert_eq!(app.last_space_press, None);
}

#[test]
fn presses_too_far_apart_restart_the_timer() {
    let mut app = app_with(&["dev"]);
    assert!(!app.handle_space_press(1_000));
    assert!(!app.handle_space_press(1_400));
    assert_eq!(app.view_mode, ViewMode::TreeView);
    assert_eq!(app.last_space_press, Some(1_400));
}

#[test]
fn space_keys_through_the_dispatcher_toggle_view() {
    let mut app = app_with(&["dev"]);
    app.handle_key_event(press(Key::Char(' ')), 10);
    app.handle_key_event(press(Key::Char(' ')), 110);
    assert_eq!(app.view_mode, ViewMode::MultiPreview);
}

#[test]
fn toggle_syncs_cursors_between_views() {
    let mut app = app_with(&["a", "b", "c"]);
    app.tree_move_down();
    app.tree_next_focus();
    app.tree_move_down();
    assert_eq!((app.selected_session, app.selected_window), (1, 1));
    app.toggle_view_mode();
    assert_eq!((app.multi_session, app.multi_window), (1, 1));
    app.multi_move_right();
    assert_eq!((app.multi_session, app.multi_window), (2, 0));
    app.selected_pane = 1;
    app.toggle_view_mode();
    assert_eq!(app.view_mode, ViewMode::TreeView);
    assert_eq!((app.selected_session, app.selected_window, app.selected_pane), (2, 0, 0));
}

#[test]
fn confirm_kill_defaults_to_no() {
    let mut app = app_with(&["dev", "ops"]);
    let opened = app.handle_key_event(ctrl('x'), 0);
    assert!(matches!(opened[..], [Effect::Pause]));
    assert_eq!(app.popup_mode, Some(PopupMode::ConfirmKill));
    assert!(!app.confirm_yes_selected);
    let committed = app.handle_key_event(press(Key::Enter), 1);
    assert!(sent(&committed).is_empty());
    assert!(matches!(committed[..], [Effect::Resume]));
    assert_eq!(app.popup_mode, None);
}

#[test]
fn confirm_kill_with_yes_kills_selected_session() {
    let mut app = app_with(&["dev", "ops"]);
    app.tree_move_down();
    app.handle_key_event(ctrl('x'), 0);
    app.handle_key_event(press(Key::Char('y')), 0);
    let committed = app.handle_key_event(press(Key::Enter), 0);
    let cmds = sent(&committed);
    assert_eq!(cmds.len(), 2);
    assert!(matches!(cmds[0], TmuxCommand::KillSession { name } if name == "ops"));
    assert!(matches!(cmds[1], TmuxCommand::RefreshAll));
    assert!(matches!(committed.last(), Some(Effect::Resume)));
}

#[test]
fn kill_confirmation_toggles_with_arrows() {
    let mut app = app_with(&["dev"]);
    app.open_kill_session_popup();
    app.handle_key_event(press(Key::Left), 0);
    assert!(app.confirm_yes_selected);
    app.handle_key_event(press(Key::Tab), 0);
    assert!(!app.confirm_yes_selected);
    app.handle_key_event(press(Key::Char('n')), 0);
    assert!(!app.confirm_yes_selected);
}

#[test]
fn kill_popup_needs_a_session() {
    let mut app = App::new(300);
    let effects = app.handle_key_event(ctrl('x'), 0);
    assert!(effects.is_empty());
    assert_eq!(app.popup_mode, None);
}

#[test]
fn new_session_name_is_trimmed() {
    let mut app = app_with(&["dev"]);
    app.handle_key_event(ctrl('n'), 0);
    for c in "  web ".chars() {
        app.handle_key_event(press(Key::Char(c)), 0);
    }
    let effects = app.handle_key_event(press(Key::Enter), 0);
    let cmds = sent(&effects);
    assert!(matches!(cmds[0], TmuxCommand::NewSession { name } if name == "web"));
    assert!(matches!(cmds[1], TmuxCommand::RefreshAll));
    assert_eq!(app.popup_mode, None);
}

#[test]
fn blank_session_name_sends_nothing_but_refresh() {
    let mut app = app_with(&["dev"]);
    app.open_new_session_popup();
    app.input_char(' ');
    let cmd = app.confirm_new_session();
    assert!(cmd.is_none());
    assert_eq!(app.popup_mode, None);
}

#[test]
fn rename_popup_is_prefilled() {
    let mut app = app_with(&["dev"]);
    app.handle_key_event(ctrl('r'), 0);
    assert_eq!(app.popup_mode, Some(PopupMode::RenameSession));
    assert_eq!(app.input_buffer, vec!['d', 'e', 'v']);
    assert_eq!(app.input_cursor, 3);
    app.input_backspace();
    app.input_char('x');
    let cmd = app.confirm_rename_session();
    assert!(matches!(cmd, Some(TmuxCommand::RenameSession { ref old_name, ref new_name })
        if old_name == "dev" && new_name == "dex"));
}

#[test]
fn input_line_edits_at_cursor() {
    let mut app = app_with(&["dev"]);
    app.enter_input_mode();
    for c in "ac".chars() {
        app.input_char(c);
    }
    app.input_move_left();
    app.input_char('b');
    assert_eq!(app.input_buffer, vec!['a', 'b', 'c']);
    app.input_move_home();
    app.input_delete();
    assert_eq!(app.input_buffer, vec!['b', 'c']);
    app.input_move_end();
    assert_eq!(app.input_cursor, 2);
    app.input_move_right();
    assert_eq!(app.input_cursor, 2);
    app.input_backspace();
    assert_eq!(app.input_buffer, vec!['b']);
}

#[test]
fn committing_input_sends_keys_to_pane() {
    let mut app = app_with(&["dev"]);
    let opened = app.handle_key_event(press(Key::Char('i')), 0);
    assert!(matches!(opened[..], [Effect::Pause]));
    app.handle_key_event(press(Key::Char('l')), 0);
    app.handle_key_event(press(Key::Char('s')), 0);
    let effects = app.handle_key_event(press(Key::Enter), 0);
    assert_eq!(effects.len(), 2);
    assert!(matches!(&effects[0], Effect::Send(TmuxCommand::SendKeys { target, keys })
        if target == "dev:0.0" && keys == "ls"));
    assert!(matches!(effects[1], Effect::Resume));
    assert_eq!(app.input_mode, InputMode::Normal);
    assert!(app.input_buffer.is_empty());
}

#[test]
fn cancelling_input_sends_nothing() {
    let mut app = app_with(&["dev"]);
    app.handle_key_event(press(Key::Char('i')), 0);
    app.handle_key_event(press(Key::Char('x')), 0);
    let effects = app.handle_key_event(press(Key::Esc), 0);
    assert!(matches!(effects[..], [Effect::Resume]));
    assert_eq!(app.input_mode, InputMode::Normal);
}

#[test]
fn enter_target_depends_on_focus() {
    let mut app = app_with(&["dev"]);
    assert_eq!(app.get_enter_target().as_deref(), Some("dev"));
    app.tree_next_focus();
    app.tree_move_down();
    assert_eq!(app.get_enter_target().as_deref(), Some("dev:1"));
    app.tree_next_focus();
    app.tree_move_down();
    assert_eq!(app.get_enter_target().as_deref(), Some("dev:1.1"));
    app.toggle_view_mode();
    assert_eq!(app.get_enter_target().as_deref(), Some("dev:1"));
    let effects = app.handle_key_event(press(Key::Enter), 0);
    assert!(matches!(&effects[0], Effect::Send(TmuxCommand::SwitchClient { target }) if target == "dev:1"));
}

#[test]
fn focus_cycles_both_ways() {
    let mut app = App::new(300);
    app.tree_next_focus();
    assert_eq!(app.focus, Focus::Windows);
    app.tree_next_focus();
    app.tree_next_focus();
    assert_eq!(app.focus, Focus::Sessions);
    app.tree_prev_focus();
    assert_eq!(app.focus, Focus::Panes);
}

#[test]
fn changing_session_resets_window_and_pane() {
    let mut app = app_with(&["a", "b"]);
    app.tree_next_focus();
    app.tree_move_down();
    app.tree_next_focus();
    app.tree_move_down();
    assert_eq!((app.selected_window, app.selected_pane), (1, 1));
    app.tree_prev_focus();
    app.tree_prev_focus();
    app.tree_move_down();
    assert_eq!((app.selected_session, app.selected_window, app.selected_pane), (1, 0, 0));
    app.tree_move_down();
    assert_eq!(app.selected_session, 1);
}

#[test]
fn shrinking_refresh_clamps_selection() {
    let mut app = app_with(&["a", "b", "c"]);
    app.tree_move_down();
    app.tree_move_down();
    app.toggle_view_mode();
    app.toggle_view_mode();
    assert_eq!(app.selected_session, 2);
    app.update_sessions(vec![session("a", 1)]);
    assert_eq!(app.selected_session, 0);
    assert_eq!(app.multi_session, 0);
    app.update_sessions(Vec::new());
    assert_eq!((app.selected_session, app.selected_window, app.selected_pane), (0, 0, 0));
    assert_eq!(app.get_selected_pane_target(), None);
    app.update_sessions(vec![session("x", 3), session("y", 1)]);
    assert_eq!(app.get_selected_pane_target().as_deref(), Some("x:0.0"));
}

#[test]
fn refresh_clears_error() {
    let mut app = app_with(&["a"]);
    app.handle_tmux_response(TmuxResponse::Error { message: "boom".to_string() });
    assert_eq!(app.last_error.as_deref(), Some("boom"));
    app.handle_tmux_response(TmuxResponse::SessionsRefreshed { sessions: vec![session("a", 1)] });
    assert_eq!(app.last_error, None);
}

#[test]
fn created_session_is_selected() {
    let mut app = app_with(&["a", "b", "c"]);
    app.tree_next_focus();
    app.tree_move_down();
    app.handle_tmux_response(TmuxResponse::SessionCreated {
        name: "c".to_string(),
        success: true,
        error: None,
    });
    assert_eq!((app.selected_session, app.selected_window), (2, 0));
}

#[test]
fn failed_switch_reports_target() {
    let mut app = app_with(&["a"]);
    app.handle_tmux_response(TmuxResponse::ClientSwitched {
        target: "a:1".to_string(),
        success: false,
        error: Some("no such window".to_string()),
    });
    assert_eq!(app.last_error.as_deref(), Some("Failed to switch to a:1: no such window"));
    app.handle_tmux_response(TmuxResponse::ClientSwitched {
        target: "a:2".to_string(),
        success: false,
        error: Some("  \n".to_string()),
    });
    assert_eq!(app.last_error.as_deref(), Some("Failed to switch to a:2"));
}

#[test]
fn captured_content_is_shown() {
    let mut app = app_with(&["a"]);
    app.handle_tmux_response(TmuxResponse::PaneCaptured {
        target: "a:0.0".to_string(),
        content: "hello".to_string(),
    });
    assert_eq!(app.pane_content, "hello");
}

#[test]
fn tick_captures_selected_pane_in_tree_view() {
    let mut app = app_with(&["a"]);
    let effects = app.handle_ui_event(UIEvent::Tick);
    assert!(matches!(&effects[..], [Effect::Send(TmuxCommand::CapturePane { target })] if target == "a:0.0"));
    app.toggle_view_mode();
    assert!(app.handle_ui_event(UIEvent::Tick).is_empty());
    assert!(matches!(app.handle_ui_event(UIEvent::Shutdown)[..], [Effect::Quit]));
}

#[test]
fn popup_swallows_navigation() {
    let mut app = app_with(&["a", "b"]);
    app.open_new_session_popup();
    app.handle_key_event(press(Key::Char('j')), 0);
    assert_eq!(app.selected_session, 0);
    assert_eq!(app.input_buffer, vec!['j']);
    let effects = app.handle_key_event(press(Key::Esc), 0);
    assert!(matches!(effects[..], [Effect::Resume]));
}
