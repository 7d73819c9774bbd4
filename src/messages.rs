//! The messages that the dashboard's concurrent units exchange, the shared
//! pause flag, and the ticker's decision on each firing.
use vstd::prelude::*;

use std::sync::atomic::{AtomicBool, Ordering};
use std::sync::Arc;

use crate::model::TmuxSession;

verus! {

/// A command for the executor of the external control surface.
#[derive(Debug)]
pub enum TmuxCommand {
    /// List every session, window and pane, with each window's content.
    RefreshAll,
    /// Capture the content of a pane.
    CapturePane { target: String },
    /// Create a session.
    NewSession { name: String },
    /// Rename a session.
    RenameSession { old_name: String, new_name: String },
    /// Kill a session.
    KillSession { name: String },
    /// Type `keys`, then Enter, into a pane.
    SendKeys { target: String, keys: String },
    /// Switch the active client to a target.
    SwitchClient { target: String },
}

pub enum CommandView {
    RefreshAll,
    CapturePane { target: Seq<char> },
    NewSession { name: Seq<char> },
    RenameSession { old_name: Seq<char>, new_name: Seq<char> },
    KillSession { name: Seq<char> },
    SendKeys { target: Seq<char>, keys: Seq<char> },
    SwitchClient { target: Seq<char> },
}

impl View for TmuxCommand {
    type V = CommandView;

    open spec fn view(&self) -> CommandView {
        match self {
            TmuxCommand::RefreshAll => CommandView::RefreshAll,
            TmuxCommand::CapturePane { target } => CommandView::CapturePane { target: target@ },
            TmuxCommand::NewSession { name } => CommandView::NewSession { name: name@ },
            TmuxCommand::RenameSession { old_name, new_name } => CommandView::RenameSession {
                old_name: old_name@,
                new_name: new_name@,
            },
            TmuxCommand::KillSession { name } => CommandView::KillSession { name: name@ },
            TmuxCommand::SendKeys { target, keys } => CommandView::SendKeys {
                target: target@,
                keys: keys@,
            },
            TmuxCommand::SwitchClient { target } => CommandView::SwitchClient { target: target@ },
        }
    }
}

impl TmuxCommand {
    /// Whether the issuer waits for this command's completion before it goes on.
    pub fn needs_ack(&self) -> (r: bool)
        ensures
            r <==> (self is SendKeys || self is SwitchClient),
    {
        match self {
            TmuxCommand::SendKeys { .. } => true,
            TmuxCommand::SwitchClient { .. } => true,
            _ => false,
        }
    }
}

/// The executor's answer to one command.
#[derive(Debug, Clone)]
pub enum TmuxResponse {
    /// The whole tree of sessions, freshly listed.
    SessionsRefreshed { sessions: Vec<TmuxSession> },
    /// The content of a pane.
    PaneCaptured { target: String, content: String },
    /// The outcome of creating a session.
    SessionCreated { name: String, success: bool, error: Option<String> },
    /// The outcome of renaming a session.
    SessionRenamed { success: bool, error: Option<String> },
    /// The outcome of killing a session.
    SessionKilled { success: bool, error: Option<String> },
    /// The outcome of sending keys.
    KeysSent { success: bool, error: Option<String> },
    /// The outcome of switching the client.
    ClientSwitched { target: String, success: bool, error: Option<String> },
    /// A command that failed outright.
    Error { message: String },
}

impl TmuxResponse {
    /// Whether this acknowledges a switch of the client that succeeded: the
    /// dashboard then hands the terminal over and leaves.
    pub fn confirms_switch(&self) -> (r: bool)
        ensures
            r <==> (self matches TmuxResponse::ClientSwitched { success, .. } && *success),
    {
        match self {
            TmuxResponse::ClientSwitched { success, .. } => *success,
            _ => false,
        }
    }
}

/// Signals from the ticker to the coordinator.
#[derive(Debug, Clone, Copy, PartialEq, Eq, Structural)]
pub enum UIEvent {
    /// Capture the selected pane.
    RequestCapture,
    /// The refresh interval elapsed.
    Tick,
    /// Stop.
    Shutdown,
}

/// Whether the ticker may refresh: shared by the coordinator, which pauses it
/// while a popup or the input line is open, and the ticker, which reads it.
#[derive(Debug, Clone)]
pub struct RefreshControl {
    paused: Arc<AtomicBool>,
}

impl RefreshControl {
    /// A flag that starts unpaused.
    pub fn new() -> (r: RefreshControl) {
        RefreshControl { paused: Arc::new(AtomicBool::new(false)) }
    }

    pub fn pause(&self) {
        self.paused.store(true, Ordering::SeqCst);
    }

    pub fn resume(&self) {
        self.paused.store(false, Ordering::SeqCst);
    }

    /// The flag as it stands now; another holder may change it at any time.
    pub fn is_paused(&self) -> (r: bool) {
        self.paused.load(Ordering::SeqCst)
    }
}

/// A message that the ticker sends on a firing.
#[derive(Debug)]
pub enum TickerSend {
    /// To the executor.
    Dispatcher(TmuxCommand),
    /// To the coordinator.
    Coordinator(UIEvent),
}

pub enum TickerSendView {
    Dispatcher(CommandView),
    Coordinator(UIEvent),
}

impl View for TickerSend {
    type V = TickerSendView;

    open spec fn view(&self) -> TickerSendView {
        match self {
            TickerSend::Dispatcher(c) => TickerSendView::Dispatcher(c@),
            TickerSend::Coordinator(e) => TickerSendView::Coordinator(*e),
        }
    }
}

/// What one firing sends: nothing while paused, else a full refresh to the
/// executor and a tick to the coordinator.
pub open spec fn ticker_messages(paused: bool) -> Seq<TickerSendView> {
    if paused {
        Seq::empty()
    } else {
        seq![
            TickerSendView::Dispatcher(CommandView::RefreshAll),
            TickerSendView::Coordinator(UIEvent::Tick),
        ]
    }
}

/// Everything that firings with these pause flags send, in order.
pub open spec fn ticker_run(flags: Seq<bool>) -> Seq<TickerSendView>
    decreases flags.len(),
{
    if flags.len() == 0 {
        Seq::empty()
    } else {
        ticker_run(flags.drop_last()) + ticker_messages(flags.last())
    }
}

/// The ticker's decision on one firing, given the pause flag it read.
pub fn ticker_fire(paused: bool) -> (r: Vec<TickerSend>)
    ensures
        r@.map_values(|m: TickerSend| m@) == ticker_messages(paused),
{
    let mut out: Vec<TickerSend> = Vec::new();
    if !paused {
        out.push(TickerSend::Dispatcher(TmuxCommand::RefreshAll));
        out.push(TickerSend::Coordinator(UIEvent::Tick));
        proof {
            assert(out@.map_values(|m: TickerSend| m@) =~= ticker_messages(paused));
        }
    } else {
        proof {
            assert(out@.map_values(|m: TickerSend| m@) =~= ticker_messages(paused));
        }
    }
    out
}

/// While the pause flag stays set, any number of firings send nothing: no
/// refresh to the executor and no tick to the coordinator.
pub proof fn lemma_paused_ticker_is_silent(flags: Seq<bool>)
    requires
        forall|i: int| 0 <= i < flags.len() ==> #[trigger] flags[i],
    ensures
        ticker_run(flags).len() == 0,
    decreases flags.len(),
{
    if flags.len() > 0 {
        lemma_paused_ticker_is_silent(flags.drop_last());
        assert(flags[flags.len() - 1]);
    }
}

/// Each unpaused firing sends exactly one refresh and one tick.
pub proof fn lemma_ticker_counts(flags: Seq<bool>)
    ensures
        ticker_run(flags).len() == 2 * flags.filter(|p: bool| !p).len(),
    decreases flags.len(),
{
    reveal(Seq::filter);
    if flags.len() > 0 {
        lemma_ticker_counts(flags.drop_last());
    }
}

} // verus!
