use tmux_deck::dispatch::{
    list_panes_args, list_windows_args, output_or_empty, response_for, session_entries,
    sessions_refreshed, switch_log_line, window_from_listing, ExecOutcome,
};
use tmux_deck::listing::WindowEntry;
use tmux_deck::state::App;
use tmux_deck::listing::{parse_pane_listing, parse_session_listing, parse_window_listing};
use tmux_deck::messages::{RefreshControl, TickerSend, TmuxCommand, TmuxResponse, UIEvent, ticker_fire};
use tmux_deck::model::{TmuxPane, TmuxWindow};
use tmux_deck::target::{pane_target, session_target, window_target};
use tmux_deck::text::{parse_u32, split_lines};

fn chars(s: &str) -> Vec<char> {
    s.chars().collect()
}

#[test]
fn targets_are_formatted_exactly() {
    assert_eq!(pane_target("dev", 2, 1), "dev:2.1");
    assert_eq!(window_target("dev", 2), "dev:2");
    assert_eq!(session_target("dev"), "dev");
    assert_eq!(pane_target("s", 4294967295, 10), "s:4294967295.10");
}

#[test]
fn session_listing_keeps_order_and_count() {
    let entries = parse_session_listing("dev\t1\nops\t0\nweb\t1\n");
    let names: Vec<&str> = entries.iter().map(|e| e.name.as_str()).collect();
    assert_eq!(names, vec!["dev", "ops", "web"]);
    assert_eq!(entries.iter().map(|e| e.attached).collect::<Vec<_>>(), vec![true, false, true]);
}

#[test]
fn malformed_lines_are_skipped() {
    let entries = parse_session_listing("dev\t1\nbroken\r\n\nops\t0\textra");
    let names: Vec<&str> = entries.iter().map(|e| e.name.as_str()).collect();
    assert_eq!(names, vec!["dev", "ops"]);
    assert!(parse_session_listing("").is_empty());
}

#[test]
fn window_listing_reads_numbers_and_flags() {
    let ws = parse_window_listing("3\tedit\t1\nx\tlogs\t0\n7\tonly-two\n");
    assert_eq!(ws.len(), 2);
    assert_eq!((ws[0].index, ws[0].name.as_str(), ws[0].active), (3, "edit", true));
    assert_eq!((ws[1].index, ws[1].name.as_str(), ws[1].active), (0, "logs", false));
}

#[test]
fn pane_listing_uses_fallbacks() {
    let ps = parse_pane_listing("%1\t0\t120\t40\t1\tvim\n%2\t1\twide\t?\t0\tbash\r\n%3\t2\t1\n");
    assert_eq!(ps.len(), 2);
    assert_eq!((ps[0].id.as_str(), ps[0].width, ps[0].height, ps[0].active), ("%1", 120, 40, true));
    assert_eq!((ps[1].width, ps[1].height, ps[1].current_command.as_str()), (80, 24, "bash"));
}

#[test]
fn numbers_read_like_std() {
    assert_eq!(parse_u32(&chars("42")), Some(42));
    assert_eq!(parse_u32(&chars("+7")), Some(7));
    assert_eq!(parse_u32(&chars("4294967295")), Some(4294967295));
    assert_eq!(parse_u32(&chars("4294967296")), None);
    assert_eq!(parse_u32(&chars("")), None);
    assert_eq!(parse_u32(&chars("+")), None);
    assert_eq!(parse_u32(&chars("-1")), None);
    assert_eq!(parse_u32(&chars("1a")), None);
}

#[test]
fn lines_split_like_std() {
    for text in ["a\nb\r\n\nc\r", "", "\n", "x\n\n", "only"] {
        let ours: Vec<String> = split_lines(&chars(text)).iter().map(|l| l.iter().collect()).collect();
        let std: Vec<String> = text.lines().map(|l| l.to_string()).collect();
        assert_eq!(ours, std, "text {:?}", text);
    }
}

fn pane(index: u32, active: bool, width: u32) -> TmuxPane {
    TmuxPane { id: format!("%{}", index), index, width, height: 10, active, current_command: String::new() }
}

#[test]
fn active_pane_and_recorded_size() {
    let w = TmuxWindow::new(0, "w".into(), true, vec![pane(0, false, 50), pane(1, true, 60), pane(2, true, 70)], String::new());
    assert_eq!(w.get_active_pane().map(|p| p.index), Some(1));
    assert_eq!((w.pane_width, w.pane_height), (70, 10));
    let none = TmuxWindow::new(0, "w".into(), true, vec![pane(0, false, 50), pane(1, false, 60)], String::new());
    assert_eq!(none.get_active_pane().map(|p| p.index), Some(0));
    assert_eq!((none.pane_width, none.pane_height), (80, 24));
    let single = TmuxWindow::new(0, "w".into(), true, vec![TmuxPane { width: 100, height: 50, ..pane(0, false, 100) }], String::new());
    assert_eq!((single.pane_width, single.pane_height), (80, 24));
    let empty = TmuxWindow::new(0, "w".into(), true, Vec::new(), String::new());
    assert!(empty.get_active_pane().is_none());
    assert_eq!((empty.pane_width, empty.pane_height), (80, 24));
}

#[test]
fn responses_carry_errors() {
    let r = response_for(TmuxCommand::NewSession { name: "x".into() }, ExecOutcome::Failed { stderr: "dup".into() });
    assert!(matches!(r, TmuxResponse::SessionCreated { ref name, success: false, error: Some(ref e) } if name == "x" && e == "dup"));
    let r = response_for(TmuxCommand::KillSession { name: "x".into() }, ExecOutcome::NotRun { reason: "gone".into() });
    assert!(matches!(r, TmuxResponse::SessionKilled { success: false, error: Some(ref e) } if e == "Failed to kill session: gone"));
    let r = response_for(TmuxCommand::RenameSession { old_name: "a".into(), new_name: "b".into() }, ExecOutcome::Succeeded { stdout: String::new() });
    assert!(matches!(r, TmuxResponse::SessionRenamed { success: true, error: None }));
    let r = response_for(TmuxCommand::SendKeys { target: "a:0.0".into(), keys: "ls".into() }, ExecOutcome::NotRun { reason: "x".into() });
    assert!(matches!(r, TmuxResponse::KeysSent { success: false, error: Some(ref e) } if e == "Failed to send keys: x"));
    let r = response_for(TmuxCommand::SwitchClient { target: "a".into() }, ExecOutcome::Succeeded { stdout: String::new() });
    assert!(matches!(r, TmuxResponse::ClientSwitched { ref target, success: true, error: None } if target == "a"));
    let r = response_for(TmuxCommand::CapturePane { target: "a:0.0".into() }, ExecOutcome::Succeeded { stdout: "hi".into() });
    assert!(matches!(r, TmuxResponse::PaneCaptured { ref content, .. } if content == "hi"));
    let r = response_for(TmuxCommand::CapturePane { target: "a:0.0".into() }, ExecOutcome::NotRun { reason: "no".into() });
    assert!(matches!(r, TmuxResponse::Error { ref message } if message == "Failed to capture pane: no"));
}

#[test]
fn failed_session_listing_is_an_error() {
    let r = session_entries(ExecOutcome::Failed { stderr: "no server running".into() });
    assert!(matches!(r, Err(TmuxResponse::Error { ref message }) if message == "no server running"));
    let r = session_entries(ExecOutcome::NotRun { reason: "not found".into() });
    assert!(matches!(r, Err(TmuxResponse::Error { ref message }) if message == "Failed to list sessions: not found"));
    let r = session_entries(ExecOutcome::Succeeded { stdout: "a\t0\n".into() });
    assert_eq!(r.map(|es| es.len()).ok(), Some(1));
    assert_eq!(output_or_empty(ExecOutcome::Failed { stderr: "x".into() }), "");
}

#[test]
fn invocation_arguments() {
    let args = TmuxCommand::SendKeys { target: "a:1.2".into(), keys: "make".into() }.args();
    assert_eq!(args, vec!["send-keys", "-t", "a:1.2", "make", "Enter"]);
    assert_eq!(TmuxCommand::SwitchClient { target: "a".into() }.args(), vec!["switch-client", "-t", "a"]);
    assert_eq!(list_windows_args("dev")[..3], ["list-windows", "-t", "dev"]);
    assert_eq!(list_panes_args("dev:1")[2], "dev:1");
    assert!(TmuxCommand::SwitchClient { target: "a".into() }.needs_ack());
    assert!(!TmuxCommand::RefreshAll.needs_ack());
}

#[test]
fn audit_line_format() {
    assert_eq!(switch_log_line("dev:1", true, None), "switch-client target=\"dev:1\" success=true error=\"\"");
    assert_eq!(switch_log_line("x", false, Some("bad")), "switch-client target=\"x\" success=false error=\"bad\"");
}

#[test]
fn paused_ticker_sends_nothing() {
    for _ in 0..5 {
        assert!(ticker_fire(true).is_empty());
    }
    let sends = ticker_fire(false);
    assert!(matches!(sends[..], [TickerSend::Dispatcher(TmuxCommand::RefreshAll), TickerSend::Coordinator(UIEvent::Tick)]));
}

#[test]
fn refresh_control_pauses_and_resumes() {
    let control = RefreshControl::new();
    let shared = control.clone();
    assert!(!shared.is_paused());
    control.pause();
    assert!(shared.is_paused());
    control.resume();
    assert!(!shared.is_paused());
}

#[test]
fn failed_switch_and_rename_carry_errors() {
    let r = response_for(TmuxCommand::SwitchClient { target: "a:9".into() }, ExecOutcome::Failed { stderr: "can't find window".into() });
    assert!(matches!(r, TmuxResponse::ClientSwitched { ref target, success: false, error: Some(ref e) }
        if target == "a:9" && e == "can't find window"));
    assert!(!r.confirms_switch());
    let ok = response_for(TmuxCommand::SwitchClient { target: "a".into() }, ExecOutcome::Succeeded { stdout: String::new() });
    assert!(ok.confirms_switch());
    let r = response_for(TmuxCommand::RenameSession { old_name: "a".into(), new_name: "b".into() }, ExecOutcome::NotRun { reason: "denied".into() });
    assert!(matches!(r, TmuxResponse::SessionRenamed { success: false, error: Some(ref e) } if e == "Failed to rename session: denied"));
    let r = response_for(TmuxCommand::CapturePane { target: "a:0.0".into() }, ExecOutcome::Failed { stderr: "no pane".into() });
    assert!(matches!(r, TmuxResponse::Error { ref message } if message == "no pane"));
}

#[test]
fn new_session_arguments() {
    assert_eq!(TmuxCommand::NewSession { name: "web".into() }.args(), vec!["new-session", "-d", "-s", "web"]);
    assert_eq!(
        TmuxCommand::RenameSession { old_name: "a".into(), new_name: "b".into() }.args(),
        vec!["rename-session", "-t", "a", "b"]
    );
    assert_eq!(TmuxCommand::KillSession { name: "a".into() }.args(), vec!["kill-session", "-t", "a"]);
    assert_eq!(
        TmuxCommand::CapturePane { target: "a:0".into() }.args(),
        vec!["capture-pane", "-e", "-p", "-J", "-t", "a:0"]
    );
    assert_eq!(TmuxCommand::RefreshAll.args()[0], "list-sessions");
}

#[test]
fn refresh_gives_one_session_per_well_formed_line() {
    let listing = "dev\t1\njunk\nops\t0\n\nweb\t0\n";
    let entries = session_entries(ExecOutcome::Succeeded { stdout: listing.into() }).ok().unwrap();
    assert_eq!(entries.len(), 3);
    let windows: Vec<Vec<TmuxWindow>> = entries
        .iter()
        .map(|_| {
            let entry = WindowEntry { index: 1, name: "edit".into(), active: true };
            let panes = ExecOutcome::Succeeded { stdout: "%1\t0\t90\t30\t0\tvim\n%2\t1\t70\t20\t1\tsh\n".into() };
            vec![window_from_listing(entry, panes, ExecOutcome::Failed { stderr: "gone".into() })]
        })
        .collect();
    let mut app = App::new(300);
    app.selected_session = 0;
    match sessions_refreshed(entries, windows) {
        TmuxResponse::SessionsRefreshed { sessions } => app.update_sessions(sessions),
        _ => panic!("expected sessions"),
    }
    let names: Vec<&str> = app.sessions.iter().map(|s| s.name.as_str()).collect();
    assert_eq!(names, vec!["dev", "ops", "web"]);
    assert_eq!(app.sessions.iter().map(|s| s.attached).collect::<Vec<_>>(), vec![true, false, false]);
    let w = &app.sessions[1].windows[0];
    assert_eq!((w.index, w.name.as_str(), w.panes.len(), w.content.as_str()), (1, "edit", 2, ""));
    assert_eq!((w.pane_width, w.pane_height), (70, 20));
    assert!(app.selected_session < 3);
}

#[test]
fn failed_pane_listing_leaves_window_empty() {
    let entry = WindowEntry { index: 0, name: "w".into(), active: false };
    let w = window_from_listing(entry, ExecOutcome::NotRun { reason: "x".into() }, ExecOutcome::Succeeded { stdout: "text".into() });
    assert!(w.panes.is_empty());
    assert_eq!((w.pane_width, w.pane_height), (80, 24));
    assert_eq!(w.content, "text");
}
