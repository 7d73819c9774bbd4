//! The executor's side of the control surface: the invocation for each
//! command, and the response that each outcome makes.
use vstd::prelude::*;

use crate::listing::{parse_pane_listing, parse_session_listing, pane_listing, session_entry_view,
    session_listing, SessionEntry, WindowEntry, PANE_FORMAT, SESSION_FORMAT, WINDOW_FORMAT};
use crate::messages::{CommandView, TmuxCommand, TmuxResponse};
use crate::model::{recorded_dims, TmuxPane, TmuxSession, TmuxWindow};

verus! {

/// How one invocation of the control surface ended.
#[derive(Debug)]
pub enum ExecOutcome {
    /// It ran and reported success, printing `stdout`.
    Succeeded { stdout: String },
    /// It ran and reported failure, printing `stderr`.
    Failed { stderr: String },
    /// It could not be run at all, for `reason`.
    NotRun { reason: String },
}

pub enum OutcomeView {
    Succeeded { stdout: Seq<char> },
    Failed { stderr: Seq<char> },
    NotRun { reason: Seq<char> },
}

impl View for ExecOutcome {
    type V = OutcomeView;

    open spec fn view(&self) -> OutcomeView {
        match self {
            ExecOutcome::Succeeded { stdout } => OutcomeView::Succeeded { stdout: stdout@ },
            ExecOutcome::Failed { stderr } => OutcomeView::Failed { stderr: stderr@ },
            ExecOutcome::NotRun { reason } => OutcomeView::NotRun { reason: reason@ },
        }
    }
}

pub enum ResponseView {
    SessionsRefreshed { sessions: Seq<TmuxSession> },
    PaneCaptured { target: Seq<char>, content: Seq<char> },
    SessionCreated { name: Seq<char>, success: bool, error: Option<Seq<char>> },
    SessionRenamed { success: bool, error: Option<Seq<char>> },
    SessionKilled { success: bool, error: Option<Seq<char>> },
    KeysSent { success: bool, error: Option<Seq<char>> },
    ClientSwitched { target: Seq<char>, success: bool, error: Option<Seq<char>> },
    Error { message: Seq<char> },
}

pub open spec fn opt_string_view(o: Option<String>) -> Option<Seq<char>> {
    match o {
        Some(s) => Some(s@),
        None => None,
    }
}

impl View for TmuxResponse {
    type V = ResponseView;

    open spec fn view(&self) -> ResponseView {
        match self {
            TmuxResponse::SessionsRefreshed { sessions } => ResponseView::SessionsRefreshed {
                sessions: sessions@,
            },
            TmuxResponse::PaneCaptured { target, content } => ResponseView::PaneCaptured {
                target: target@,
                content: content@,
            },
            TmuxResponse::SessionCreated { name, success, error } => ResponseView::SessionCreated {
                name: name@,
                success: *success,
                error: opt_string_view(*error),
            },
            TmuxResponse::SessionRenamed { success, error } => ResponseView::SessionRenamed {
                success: *success,
                error: opt_string_view(*error),
            },
            TmuxResponse::SessionKilled { success, error } => ResponseView::SessionKilled {
                success: *success,
                error: opt_string_view(*error),
            },
            TmuxResponse::KeysSent { success, error } => ResponseView::KeysSent {
                success: *success,
                error: opt_string_view(*error),
            },
            TmuxResponse::ClientSwitched { target, success, error } => ResponseView::ClientSwitched {
                target: target@,
                success: *success,
                error: opt_string_view(*error),
            },
            TmuxResponse::Error { message } => ResponseView::Error { message: message@ },
        }
    }
}

/// The error text of an outcome: none on success, the diagnostic output on a
/// reported failure, `context` and the reason where it could not run.
pub open spec fn error_of(o: OutcomeView, context: Seq<char>) -> Option<Seq<char>> {
    match o {
        OutcomeView::Succeeded { .. } => None,
        OutcomeView::Failed { stderr } => Some(stderr),
        OutcomeView::NotRun { reason } => Some(context + reason),
    }
}

pub open spec fn failure_message(o: OutcomeView, context: Seq<char>) -> Seq<char> {
    match error_of(o, context) {
        Some(e) => e,
        None => Seq::empty(),
    }
}

/// The response to command `cmd`, other than a refresh, whose invocation
/// ended as `o`.
pub open spec fn response_spec(cmd: CommandView, o: OutcomeView) -> ResponseView {
    let ok = o is Succeeded;
    match cmd {
        CommandView::CapturePane { target } => match o {
            OutcomeView::Succeeded { stdout } => ResponseView::PaneCaptured { target, content: stdout },
            _ => ResponseView::Error { message: failure_message(o, "Failed to capture pane: "@) },
        },
        CommandView::NewSession { name } => ResponseView::SessionCreated {
            name,
            success: ok,
            error: error_of(o, "Failed to create session: "@),
        },
        CommandView::RenameSession { .. } => ResponseView::SessionRenamed {
            success: ok,
            error: error_of(o, "Failed to rename session: "@),
        },
        CommandView::KillSession { .. } => ResponseView::SessionKilled {
            success: ok,
            error: error_of(o, "Failed to kill session: "@),
        },
        CommandView::SendKeys { .. } => ResponseView::KeysSent {
            success: ok,
            error: error_of(o, "Failed to send keys: "@),
        },
        CommandView::SwitchClient { target } => ResponseView::ClientSwitched {
            target,
            success: ok,
            error: error_of(o, "Failed to switch client: "@),
        },
        CommandView::RefreshAll => ResponseView::Error {
            message: failure_message(o, "Failed to list sessions: "@),
        },
    }
}

fn concat(a: &str, b: &str) -> (r: String)
    ensures
        r@ == a@ + b@,
{
    let mut s = a.to_owned();
    s.append(b);
    s
}

fn outcome_error(o: ExecOutcome, context: &str) -> (r: Option<String>)
    ensures
        opt_string_view(r) == error_of(o@, context@),
{
    match o {
        ExecOutcome::Succeeded { .. } => None,
        ExecOutcome::Failed { stderr } => Some(stderr),
        ExecOutcome::NotRun { reason } => Some(concat(context, reason.as_str())),
    }
}

fn outcome_message(o: ExecOutcome, context: &str) -> (r: String)
    ensures
        r@ == failure_message(o@, context@),
{
    match outcome_error(o, context) {
        Some(e) => e,
        None => String::new(),
    }
}

/// The response to `cmd` whose invocation ended as `outcome`; a refresh that
/// failed to list its sessions becomes an error.
pub fn response_for(cmd: TmuxCommand, outcome: ExecOutcome) -> (r: TmuxResponse)
    requires
        !(cmd is RefreshAll && outcome is Succeeded),
    ensures
        r@ == response_spec(cmd@, outcome@),
{
    let ok = match outcome {
        ExecOutcome::Succeeded { .. } => true,
        _ => false,
    };
    match cmd {
        TmuxCommand::CapturePane { target } => match outcome {
            ExecOutcome::Succeeded { stdout } => TmuxResponse::PaneCaptured { target, content: stdout },
            _ => TmuxResponse::Error { message: outcome_message(outcome, "Failed to capture pane: ") },
        },
        TmuxCommand::NewSession { name } => TmuxResponse::SessionCreated {
            name,
            success: ok,
            error: outcome_error(outcome, "Failed to create session: "),
        },
        TmuxCommand::RenameSession { .. } => TmuxResponse::SessionRenamed {
            success: ok,
            error: outcome_error(outcome, "Failed to rename session: "),
        },
        TmuxCommand::KillSession { .. } => TmuxResponse::SessionKilled {
            success: ok,
            error: outcome_error(outcome, "Failed to kill session: "),
        },
        TmuxCommand::SendKeys { .. } => TmuxResponse::KeysSent {
            success: ok,
            error: outcome_error(outcome, "Failed to send keys: "),
        },
        TmuxCommand::SwitchClient { target } => TmuxResponse::ClientSwitched {
            target,
            success: ok,
            error: outcome_error(outcome, "Failed to switch client: "),
        },
        TmuxCommand::RefreshAll => TmuxResponse::Error {
            message: outcome_message(outcome, "Failed to list sessions: "),
        },
    }
}

/// The sessions that a session listing names, or the error response of a
/// refresh whose listing failed.
pub fn session_entries(outcome: ExecOutcome) -> (r: Result<Vec<SessionEntry>, TmuxResponse>)
    ensures
        match outcome@ {
            OutcomeView::Succeeded { stdout } => r matches Ok(es) && es@.map_values(
                |e: SessionEntry| session_entry_view(e),
            ) == session_listing(stdout),
            _ => r matches Err(resp) && resp@ == response_spec(CommandView::RefreshAll, outcome@),
        },
{
    match outcome {
        ExecOutcome::Succeeded { stdout } => Ok(parse_session_listing(stdout.as_str())),
        _ => Err(response_for(TmuxCommand::RefreshAll, outcome)),
    }
}

/// What an invocation printed, or nothing where it failed: a listing or a
/// capture that fails degrades to an empty one.
pub fn output_or_empty(outcome: ExecOutcome) -> (r: String)
    ensures
        r@ == output_spec(outcome@),
{
    match outcome {
        ExecOutcome::Succeeded { stdout } => stdout,
        _ => String::new(),
    }
}

pub open spec fn strings_view(v: Vec<String>) -> Seq<Seq<char>> {
    v@.map_values(|s: String| s@)
}

fn push_arg(args: &mut Vec<String>, a: &str)
    ensures
        strings_view(*final(args)) == strings_view(*old(args)).push(a@),
{
    let ghost before = strings_view(*args);
    args.push(a.to_owned());
    proof {
        assert(strings_view(*args) =~= before.push(a@));
    }
}

/// The arguments that invoke the control surface for `cmd`.
pub open spec fn command_args_spec(cmd: CommandView) -> Seq<Seq<char>> {
    match cmd {
        CommandView::RefreshAll => seq!["list-sessions"@, "-F"@, SESSION_FORMAT@],
        CommandView::CapturePane { target } => seq![
            "capture-pane"@,
            "-e"@,
            "-p"@,
            "-J"@,
            "-t"@,
            target,
        ],
        CommandView::NewSession { name } => seq!["new-session"@, "-d"@, "-s"@, name],
        CommandView::RenameSession { old_name, new_name } => seq![
            "rename-session"@,
            "-t"@,
            old_name,
            new_name,
        ],
        CommandView::KillSession { name } => seq!["kill-session"@, "-t"@, name],
        CommandView::SendKeys { target, keys } => seq!["send-keys"@, "-t"@, target, keys, "Enter"@],
        CommandView::SwitchClient { target } => seq!["switch-client"@, "-t"@, target],
    }
}

impl TmuxCommand {
    /// The arguments that invoke the control surface for this command.
    pub fn args(&self) -> (r: Vec<String>)
        ensures
            strings_view(r) == command_args_spec(self@),
    {
        let mut a: Vec<String> = Vec::new();
        match self {
            TmuxCommand::RefreshAll => {
                push_arg(&mut a, "list-sessions");
                push_arg(&mut a, "-F");
                push_arg(&mut a, SESSION_FORMAT);
            },
            TmuxCommand::CapturePane { target } => {
                push_arg(&mut a, "capture-pane");
                push_arg(&mut a, "-e");
                push_arg(&mut a, "-p");
                push_arg(&mut a, "-J");
                push_arg(&mut a, "-t");
                push_arg(&mut a, target.as_str());
            },
            TmuxCommand::NewSession { name } => {
                push_arg(&mut a, "new-session");
                push_arg(&mut a, "-d");
                push_arg(&mut a, "-s");
                push_arg(&mut a, name.as_str());
            },
            TmuxCommand::RenameSession { old_name, new_name } => {
                push_arg(&mut a, "rename-session");
                push_arg(&mut a, "-t");
                push_arg(&mut a, old_name.as_str());
                push_arg(&mut a, new_name.as_str());
            },
            TmuxCommand::KillSession { name } => {
                push_arg(&mut a, "kill-session");
                push_arg(&mut a, "-t");
                push_arg(&mut a, name.as_str());
            },
            TmuxCommand::SendKeys { target, keys } => {
                push_arg(&mut a, "send-keys");
                push_arg(&mut a, "-t");
                push_arg(&mut a, target.as_str());
                push_arg(&mut a, keys.as_str());
                push_arg(&mut a, "Enter");
            },
            TmuxCommand::SwitchClient { target } => {
                push_arg(&mut a, "switch-client");
                push_arg(&mut a, "-t");
                push_arg(&mut a, target.as_str());
            },
        }
        proof {
            assert(strings_view(a) =~= command_args_spec(self@));
        }
        a
    }
}

/// The arguments that list the windows of `session`.
pub fn list_windows_args(session: &str) -> (r: Vec<String>)
    ensures
        strings_view(r) == seq!["list-windows"@, "-t"@, session@, "-F"@, WINDOW_FORMAT@],
{
    let mut a: Vec<String> = Vec::new();
    push_arg(&mut a, "list-windows");
    push_arg(&mut a, "-t");
    push_arg(&mut a, session);
    push_arg(&mut a, "-F");
    push_arg(&mut a, WINDOW_FORMAT);
    proof {
        assert(strings_view(a) =~= seq!["list-windows"@, "-t"@, session@, "-F"@, WINDOW_FORMAT@]);
    }
    a
}

/// The arguments that list the panes of the window at `target`.
pub fn list_panes_args(target: &str) -> (r: Vec<String>)
    ensures
        strings_view(r) == seq!["list-panes"@, "-t"@, target@, "-F"@, PANE_FORMAT@],
{
    let mut a: Vec<String> = Vec::new();
    push_arg(&mut a, "list-panes");
    push_arg(&mut a, "-t");
    push_arg(&mut a, target);
    push_arg(&mut a, "-F");
    push_arg(&mut a, PANE_FORMAT);
    proof {
        assert(strings_view(a) =~= seq!["list-panes"@, "-t"@, target@, "-F"@, PANE_FORMAT@]);
    }
    a
}

/// The audit line of a switch of the client.
pub open spec fn switch_log_spec(target: Seq<char>, success: bool, error: Seq<char>) -> Seq<char> {
    "switch-client target=\""@ + target + "\" success="@ + (if success {
        "true"@
    } else {
        "false"@
    }) + " error=\""@ + error + "\""@
}

/// The audit line recorded for an attempt to switch the client to `target`.
pub fn switch_log_line(target: &str, success: bool, error: Option<&str>) -> (r: String)
    ensures
        r@ == switch_log_spec(
            target@,
            success,
            match error {
                Some(e) => e@,
                None => Seq::empty(),
            },
        ),
{
    let mut s = "switch-client target=\"".to_owned();
    s.append(target);
    s.append("\" success=");
    if success {
        s.append("true");
    } else {
        s.append("false");
    }
    s.append(" error=\"");
    match error {
        Some(e) => s.append(e),
        None => {
            proof {
                assert(s@ =~= s@ + Seq::<char>::empty());
            }
        },
    }
    s.append("\"");
    s
}

/// What an invocation printed, or nothing where it failed.
pub open spec fn output_spec(o: OutcomeView) -> Seq<char> {
    match o {
        OutcomeView::Succeeded { stdout } => stdout,
        _ => Seq::empty(),
    }
}

/// The window that `entry` describes, with the panes of its pane listing and
/// the content of its capture; a listing or capture that failed leaves the
/// panes or the content empty.
pub fn window_from_listing(entry: WindowEntry, panes: ExecOutcome, capture: ExecOutcome) -> (r:
    TmuxWindow)
    ensures
        r.index == entry.index,
        r.name == entry.name,
        r.active == entry.active,
        r.panes@.map_values(|p: TmuxPane| p@) == pane_listing(output_spec(panes@)),
        r.content@ == output_spec(capture@),
        (r.pane_width, r.pane_height) == recorded_dims(r.panes@),
{
    let listing = output_or_empty(panes);
    let ps = parse_pane_listing(listing.as_str());
    let content = output_or_empty(capture);
    TmuxWindow::new(entry.index, entry.name, entry.active, ps, content)
}

/// The response of a refresh: one session for each entry, in order, each
/// with the windows listed for it.
pub fn sessions_refreshed(entries: Vec<SessionEntry>, windows: Vec<Vec<TmuxWindow>>) -> (r:
    TmuxResponse)
    requires
        entries@.len() == windows@.len(),
    ensures
        r matches TmuxResponse::SessionsRefreshed { sessions } && sessions@.len() == entries@.len()
            && forall|i: int|
            0 <= i < entries@.len() ==> (#[trigger] sessions@[i]).name == entries@[i].name
                && sessions@[i].attached == entries@[i].attached && sessions@[i].windows
                == windows@[i],
{
    let ghost es = entries@;
    let ghost ws = windows@;
    let n = entries.len();
    let mut entries = entries;
    let mut windows = windows;
    let mut sessions: Vec<TmuxSession> = Vec::new();
    let mut k: usize = 0;
    while entries.len() > 0
        invariant
            k + entries@.len() == n,
            n == es.len(),
            es.len() == ws.len(),
            entries@ == es.skip(k as int),
            windows@ == ws.skip(k as int),
            sessions@.len() == k,
            forall|i: int|
                0 <= i < k ==> (#[trigger] sessions@[i]).name == es[i].name && sessions@[i].attached
                    == es[i].attached && sessions@[i].windows == ws[i],
        decreases entries@.len(),
    {
        let e = entries.remove(0);
        let w = windows.remove(0);
        proof {
            assert(e == es[k as int]);
            assert(w == ws[k as int]);
            assert(entries@ =~= es.skip(k + 1));
            assert(windows@ =~= ws.skip(k + 1));
        }
        sessions.push(TmuxSession { name: e.name, attached: e.attached, windows: w });
        k = k + 1;
    }
    TmuxResponse::SessionsRefreshed { sessions }
}

} // verus!
