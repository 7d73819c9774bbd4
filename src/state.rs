//! The dashboard's UI state and its transitions: view mode, focus, the input
//! line, popups, and two cursors over the session tree.
use vstd::prelude::*;

use crate::messages::{CommandView, TmuxCommand, TmuxResponse, UIEvent};
use crate::model::TmuxSession;
use crate::target::{pane_target, pane_target_spec, session_target, window_target, window_target_spec};
use crate::text::{string_of, trim, trim_chars};

verus! {

/// Two presses of the view key closer than this many milliseconds toggle the view.
pub const DOUBLE_PRESS_MS: u64 = 300;

/// The main view.
#[derive(Debug, Clone, Copy, PartialEq, Eq, Structural)]
pub enum ViewMode {
    TreeView,
    MultiPreview,
}

/// The focused list of the tree view.
#[derive(Debug, Clone, Copy, PartialEq, Eq, Structural)]
pub enum Focus {
    Sessions,
    Windows,
    Panes,
}

/// Whether keys navigate or edit the input line.
#[derive(Debug, Clone, Copy, PartialEq, Eq, Structural)]
pub enum InputMode {
    Normal,
    Input,
}

/// The open popup.
#[derive(Debug, Clone, Copy, PartialEq, Eq, Structural)]
pub enum PopupMode {
    /// Naming a new session.
    NewSession,
    /// Renaming the selected session.
    RenameSession,
    /// Confirming that the selected session is to be killed.
    ConfirmKill,
}

/// The state of the dashboard.
pub struct App {
    pub view_mode: ViewMode,
    /// When the view key was last pressed, in milliseconds, while a second
    /// press may still toggle the view.
    pub last_space_press: Option<u64>,
    pub sessions: Vec<TmuxSession>,
    pub selected_session: usize,
    pub selected_window: usize,
    pub selected_pane: usize,
    pub focus: Focus,
    pub multi_session: usize,
    pub multi_window: usize,
    pub pane_content: String,
    pub last_error: Option<String>,
    pub interval_ms: u64,
    pub input_mode: InputMode,
    pub input_buffer: Vec<char>,
    pub input_cursor: usize,
    pub popup_mode: Option<PopupMode>,
    pub confirm_yes_selected: bool,
}

pub struct AppView {
    pub view_mode: ViewMode,
    pub last_space_press: Option<u64>,
    pub sessions: Seq<TmuxSession>,
    pub selected_session: nat,
    pub selected_window: nat,
    pub selected_pane: nat,
    pub focus: Focus,
    pub multi_session: nat,
    pub multi_window: nat,
    pub pane_content: Seq<char>,
    pub last_error: Option<Seq<char>>,
    pub interval_ms: u64,
    pub input_mode: InputMode,
    pub input_buffer: Seq<char>,
    pub input_cursor: nat,
    pub popup_mode: Option<PopupMode>,
    pub confirm_yes_selected: bool,
}

pub open spec fn opt_view(o: Option<String>) -> Option<Seq<char>> {
    match o {
        Some(s) => Some(s@),
        None => None,
    }
}

impl View for App {
    type V = AppView;

    open spec fn view(&self) -> AppView {
        AppView {
            view_mode: self.view_mode,
            last_space_press: self.last_space_press,
            sessions: self.sessions@,
            selected_session: self.selected_session as nat,
            selected_window: self.selected_window as nat,
            selected_pane: self.selected_pane as nat,
            focus: self.focus,
            multi_session: self.multi_session as nat,
            multi_window: self.multi_window as nat,
            pane_content: self.pane_content@,
            last_error: opt_view(self.last_error),
            interval_ms: self.interval_ms,
            input_mode: self.input_mode,
            input_buffer: self.input_buffer@,
            input_cursor: self.input_cursor as nat,
            popup_mode: self.popup_mode,
            confirm_yes_selected: self.confirm_yes_selected,
        }
    }
}

/// How many windows session `s` has; none where there is no such session.
pub open spec fn windows_len(sessions: Seq<TmuxSession>, s: int) -> int {
    if 0 <= s < sessions.len() {
        sessions[s].windows@.len() as int
    } else {
        0
    }
}

/// How many panes window `w` of session `s` has; none where there is no such window.
pub open spec fn panes_len(sessions: Seq<TmuxSession>, s: int, w: int) -> int {
    if 0 <= s < sessions.len() && 0 <= w < sessions[s].windows@.len() {
        sessions[s].windows@[w].panes@.len() as int
    } else {
        0
    }
}

/// A cursor over a list of `len` items: on an item, or cleared to 0 when the
/// list is empty.
pub open spec fn index_ok(i: int, len: int) -> bool {
    if len == 0 {
        i == 0
    } else {
        0 <= i < len
    }
}

/// `i` brought onto a list of `len` items.
pub open spec fn clamp(i: int, len: int) -> int {
    if len == 0 {
        0
    } else if i < len {
        i
    } else {
        len - 1
    }
}

impl AppView {
    /// Every cursor stands on an item of its current list, or is cleared.
    pub open spec fn selections_valid(self) -> bool {
        let n = self.sessions.len() as int;
        &&& index_ok(self.selected_session as int, n)
        &&& index_ok(self.selected_window as int, windows_len(self.sessions, self.selected_session as int))
        &&& index_ok(
            self.selected_pane as int,
            panes_len(self.sessions, self.selected_session as int, self.selected_window as int),
        )
        &&& index_ok(self.multi_session as int, n)
        &&& index_ok(self.multi_window as int, windows_len(self.sessions, self.multi_session as int))
    }

    pub open spec fn wf(self) -> bool {
        &&& self.selections_valid()
        &&& self.input_cursor <= self.input_buffer.len()
    }

    /// Every cursor clamped onto its current list.
    pub open spec fn validated(self) -> AppView {
        let n = self.sessions.len() as int;
        let ss = clamp(self.selected_session as int, n);
        let sw = clamp(self.selected_window as int, windows_len(self.sessions, ss));
        let sp = clamp(self.selected_pane as int, panes_len(self.sessions, ss, sw));
        let ms = clamp(self.multi_session as int, n);
        let mw = clamp(self.multi_window as int, windows_len(self.sessions, ms));
        AppView {
            selected_session: ss as nat,
            selected_window: sw as nat,
            selected_pane: sp as nat,
            multi_session: ms as nat,
            multi_window: mw as nat,
            ..self
        }
    }

    /// The data replaced by a fresh listing: cursors clamped, error cleared.
    pub open spec fn sessions_updated(self, sessions: Seq<TmuxSession>) -> AppView {
        AppView { sessions, last_error: None, ..self }.validated()
    }

    pub open spec fn view_toggled(self) -> AppView {
        match self.view_mode {
            ViewMode::TreeView => AppView {
                view_mode: ViewMode::MultiPreview,
                multi_session: self.selected_session,
                multi_window: self.selected_window,
                ..self
            },
            ViewMode::MultiPreview => AppView {
                view_mode: ViewMode::TreeView,
                selected_session: self.multi_session,
                selected_window: self.multi_window,
                selected_pane: 0,
                ..self
            },
        }
    }

    /// A press of the view key at `now`: a second press within the window
    /// toggles the view and disarms the timer; any other press arms it.
    pub open spec fn space_pressed(self, now: u64) -> (AppView, bool) {
        match self.last_space_press {
            Some(last) if (now as int) < last + DOUBLE_PRESS_MS => (
                AppView { last_space_press: None, ..self.view_toggled() },
                true,
            ),
            _ => (AppView { last_space_press: Some(now), ..self }, false),
        }
    }

    pub open spec fn tree_moved_up(self) -> AppView {
        match self.focus {
            Focus::Sessions => if self.selected_session > 0 {
                AppView {
                    selected_session: (self.selected_session - 1) as nat,
                    selected_window: 0,
                    selected_pane: 0,
                    ..self
                }
            } else {
                self
            },
            Focus::Windows => if self.selected_window > 0 {
                AppView {
                    selected_window: (self.selected_window - 1) as nat,
                    selected_pane: 0,
                    ..self
                }
            } else {
                self
            },
            Focus::Panes => if self.selected_pane > 0 {
                AppView { selected_pane: (self.selected_pane - 1) as nat, ..self }
            } else {
                self
            },
        }
    }

    pub open spec fn tree_moved_down(self) -> AppView {
        match self.focus {
            Focus::Sessions => if self.selected_session + 1 < self.sessions.len() {
                AppView {
                    selected_session: (self.selected_session + 1) as nat,
                    selected_window: 0,
                    selected_pane: 0,
                    ..self
                }
            } else {
                self
            },
            Focus::Windows => if self.selected_window + 1 < windows_len(
                self.sessions,
                self.selected_session as int,
            ) {
                AppView {
                    selected_window: (self.selected_window + 1) as nat,
                    selected_pane: 0,
                    ..self
                }
            } else {
                self
            },
            Focus::Panes => if self.selected_pane + 1 < panes_len(
                self.sessions,
                self.selected_session as int,
                self.selected_window as int,
            ) {
                AppView { selected_pane: (self.selected_pane + 1) as nat, ..self }
            } else {
                self
            },
        }
    }

    pub open spec fn focus_next(self) -> AppView {
        AppView {
            focus: match self.focus {
                Focus::Sessions => Focus::Windows,
                Focus::Windows => Focus::Panes,
                Focus::Panes => Focus::Sessions,
            },
            ..self
        }
    }

    pub open spec fn focus_prev(self) -> AppView {
        AppView {
            focus: match self.focus {
                Focus::Sessions => Focus::Panes,
                Focus::Windows => Focus::Sessions,
                Focus::Panes => Focus::Windows,
            },
            ..self
        }
    }

    pub open spec fn multi_moved_left(self) -> AppView {
        if self.multi_session > 0 {
            AppView { multi_session: (self.multi_session - 1) as nat, multi_window: 0, ..self }
        } else {
            self
        }
    }

    pub open spec fn multi_moved_right(self) -> AppView {
        if self.multi_session + 1 < self.sessions.len() {
            AppView { multi_session: (self.multi_session + 1) as nat, multi_window: 0, ..self }
        } else {
            self
        }
    }

    pub open spec fn multi_moved_up(self) -> AppView {
        if self.multi_window > 0 {
            AppView { multi_window: (self.multi_window - 1) as nat, ..self }
        } else {
            self
        }
    }

    pub open spec fn multi_moved_down(self) -> AppView {
        if self.multi_window + 1 < windows_len(self.sessions, self.multi_session as int) {
            AppView { multi_window: (self.multi_window + 1) as nat, ..self }
        } else {
            self
        }
    }
}

impl App {
    /// A dashboard with no data yet, in the tree view, refreshing every
    /// `interval_ms` milliseconds.
    pub fn new(interval_ms: u64) -> (r: App)
        ensures
            r@.wf(),
            r@.view_mode == ViewMode::TreeView,
            r@.last_space_press is None,
            r@.sessions.len() == 0,
            r@.selected_session == 0 && r@.selected_window == 0 && r@.selected_pane == 0,
            r@.focus == Focus::Sessions,
            r@.multi_session == 0 && r@.multi_window == 0,
            r@.pane_content.len() == 0,
            r@.last_error is None,
            r@.interval_ms == interval_ms,
            r@.input_mode == InputMode::Normal,
            r@.input_buffer.len() == 0,
            r@.input_cursor == 0,
            r@.popup_mode is None,
            !r@.confirm_yes_selected,
    {
        App {
            view_mode: ViewMode::TreeView,
            last_space_press: None,
            sessions: Vec::new(),
            selected_session: 0,
            selected_window: 0,
            selected_pane: 0,
            focus: Focus::Sessions,
            multi_session: 0,
            multi_window: 0,
            pane_content: String::new(),
            last_error: None,
            interval_ms,
            input_mode: InputMode::Normal,
            input_buffer: Vec::new(),
            input_cursor: 0,
            popup_mode: None,
            confirm_yes_selected: false,
        }
    }

    fn windows_count(&self, s: usize) -> (r: usize)
        ensures
            r == windows_len(self.sessions@, s as int),
    {
        if s < self.sessions.len() {
            self.sessions[s].windows.len()
        } else {
            0
        }
    }

    fn panes_count(&self, s: usize, w: usize) -> (r: usize)
        ensures
            r == panes_len(self.sessions@, s as int, w as int),
    {
        if s < self.sessions.len() && w < self.sessions[s].windows.len() {
            self.sessions[s].windows[w].panes.len()
        } else {
            0
        }
    }

    /// Clamps every cursor onto its current list, or clears it to 0 where the
    /// list is empty.
    pub fn validate_selections(&mut self)
        ensures
            final(self)@ == old(self)@.validated(),
            final(self)@.selections_valid(),
    {
        let n = self.sessions.len();
        self.selected_session = clamp_index(self.selected_session, n);
        let nw = self.windows_count(self.selected_session);
        self.selected_window = clamp_index(self.selected_window, nw);
        let np = self.panes_count(self.selected_session, self.selected_window);
        self.selected_pane = clamp_index(self.selected_pane, np);
        self.multi_session = clamp_index(self.multi_session, n);
        let mw = self.windows_count(self.multi_session);
        self.multi_window = clamp_index(self.multi_window, mw);
    }

    /// Replaces the session tree with a fresh listing, clamps the cursors
    /// into it and clears the error line.
    pub fn update_sessions(&mut self, sessions: Vec<TmuxSession>)
        ensures
            final(self)@ == old(self)@.sessions_updated(sessions@),
            final(self)@.selections_valid(),
    {
        self.sessions = sessions;
        self.last_error = None;
        self.validate_selections();
    }

    pub fn toggle_view_mode(&mut self)
        requires
            old(self)@.wf(),
        ensures
            final(self)@ == old(self)@.view_toggled(),
            final(self)@.wf(),
    {
        match self.view_mode {
            ViewMode::TreeView => {
                self.multi_session = self.selected_session;
                self.multi_window = self.selected_window;
                self.view_mode = ViewMode::MultiPreview;
            },
            ViewMode::MultiPreview => {
                self.selected_session = self.multi_session;
                self.selected_window = self.multi_window;
                self.selected_pane = 0;
                self.view_mode = ViewMode::TreeView;
            },
        }
    }

    /// A press of the view key at `now_ms`; true when it toggled the view.
    pub fn handle_space_press(&mut self, now_ms: u64) -> (r: bool)
        requires
            old(self)@.wf(),
        ensures
            (final(self)@, r) == old(self)@.space_pressed(now_ms),
            final(self)@.wf(),
    {
        match self.last_space_press {
            Some(last) => {
                if now_ms.saturating_sub(last) < DOUBLE_PRESS_MS {
                    self.toggle_view_mode();
                    self.last_space_press = None;
                    return true;
                }
            },
            None => {},
        }
        self.last_space_press = Some(now_ms);
        false
    }

    pub fn tree_move_up(&mut self)
        requires
            old(self)@.wf(),
        ensures
            final(self)@ == old(self)@.tree_moved_up(),
            final(self)@.wf(),
    {
        match self.focus {
            Focus::Sessions => {
                if self.selected_session > 0 {
                    self.selected_session = self.selected_session - 1;
                    self.selected_window = 0;
                    self.selected_pane = 0;
                }
            },
            Focus::Windows => {
                if self.selected_window > 0 {
                    self.selected_window = self.selected_window - 1;
                    self.selected_pane = 0;
                }
            },
            Focus::Panes => {
                if self.selected_pane > 0 {
                    self.selected_pane = self.selected_pane - 1;
                }
            },
        }
    }

    pub fn tree_move_down(&mut self)
        requires
            old(self)@.wf(),
        ensures
            final(self)@ == old(self)@.tree_moved_down(),
            final(self)@.wf(),
    {
        match self.focus {
            Focus::Sessions => {
                if self.selected_session < self.sessions.len()
                    && self.selected_session + 1 < self.sessions.len() {
                    self.selected_session = self.selected_session + 1;
                    self.selected_window = 0;
                    self.selected_pane = 0;
                }
            },
            Focus::Windows => {
                let nw = self.windows_count(self.selected_session);
                if self.selected_window < nw && self.selected_window + 1 < nw {
                    self.selected_window = self.selected_window + 1;
                    self.selected_pane = 0;
                }
            },
            Focus::Panes => {
                let np = self.panes_count(self.selected_session, self.selected_window);
                if self.selected_pane < np && self.selected_pane + 1 < np {
                    self.selected_pane = self.selected_pane + 1;
                }
            },
        }
    }

    pub fn tree_next_focus(&mut self)
        ensures
            final(self)@ == old(self)@.focus_next(),
    {
        self.focus = match self.focus {
            Focus::Sessions => Focus::Windows,
            Focus::Windows => Focus::Panes,
            Focus::Panes => Focus::Sessions,
        };
    }

    pub fn tree_prev_focus(&mut self)
        ensures
            final(self)@ == old(self)@.focus_prev(),
    {
        self.focus = match self.focus {
            Focus::Sessions => Focus::Panes,
            Focus::Windows => Focus::Sessions,
            Focus::Panes => Focus::Windows,
        };
    }

    pub fn multi_move_left(&mut self)
        requires
            old(self)@.wf(),
        ensures
            final(self)@ == old(self)@.multi_moved_left(),
            final(self)@.wf(),
    {
        if self.multi_session > 0 {
            self.multi_session = self.multi_session - 1;
            self.multi_window = 0;
        }
    }

    pub fn multi_move_right(&mut self)
        requires
            old(self)@.wf(),
        ensures
            final(self)@ == old(self)@.multi_moved_right(),
            final(self)@.wf(),
    {
        if self.multi_session < self.sessions.len() && self.multi_session + 1 < self.sessions.len() {
            self.multi_session = self.multi_session + 1;
            self.multi_window = 0;
        }
    }

    pub fn multi_move_up(&mut self)
        requires
            old(self)@.wf(),
        ensures
            final(self)@ == old(self)@.multi_moved_up(),
            final(self)@.wf(),
    {
        if self.multi_window > 0 {
            self.multi_window = self.multi_window - 1;
        }
    }

    pub fn multi_move_down(&mut self)
        requires
            old(self)@.wf(),
        ensures
            final(self)@ == old(self)@.multi_moved_down(),
            final(self)@.wf(),
    {
        let nw = self.windows_count(self.multi_session);
        if self.multi_window < nw && self.multi_window + 1 < nw {
            self.multi_window = self.multi_window + 1;
        }
    }
}

fn clamp_index(i: usize, len: usize) -> (r: usize)
    ensures
        r == clamp(i as int, len as int),
{
    if len == 0 {
        0
    } else if i < len {
        i
    } else {
        len - 1
    }
}

/// A key as the dashboard reads it.
#[derive(Debug, Clone, Copy, PartialEq, Eq, Structural)]
pub enum Key {
    Char(char),
    Enter,
    Esc,
    Backspace,
    Delete,
    Left,
    Right,
    Up,
    Down,
    Home,
    End,
    Tab,
    BackTab,
    Other,
}

/// A key press, with whether Control was held.
#[derive(Debug, Clone, Copy, PartialEq, Eq, Structural)]
pub struct KeyPress {
    pub key: Key,
    pub ctrl: bool,
}

/// What the coordinator does after a transition, in order.
#[derive(Debug)]
pub enum Effect {
    /// Send a command to the executor; for one that needs an acknowledgement,
    /// wait for it.
    Send(TmuxCommand),
    /// Pause the ticker.
    Pause,
    /// Resume the ticker.
    Resume,
    /// Leave the dashboard.
    Quit,
}

pub enum EffectView {
    Send(CommandView),
    Pause,
    Resume,
    Quit,
}

impl View for Effect {
    type V = EffectView;

    open spec fn view(&self) -> EffectView {
        match self {
            Effect::Send(c) => EffectView::Send(c@),
            Effect::Pause => EffectView::Pause,
            Effect::Resume => EffectView::Resume,
            Effect::Quit => EffectView::Quit,
        }
    }
}

pub open spec fn effects_view(es: Vec<Effect>) -> Seq<EffectView> {
    es@.map_values(|e: Effect| e@)
}

/// The message shown when switching to `target` failed.
pub open spec fn switch_error_message(target: Seq<char>, error: Option<Seq<char>>) -> Seq<char> {
    match error {
        Some(e) if trim(e).len() > 0 => "Failed to switch to "@ + target + ": "@ + e,
        _ => "Failed to switch to "@ + target,
    }
}

/// Where the first session named `name` stands.
pub open spec fn session_named(sessions: Seq<TmuxSession>, name: Seq<char>) -> Option<int> {
    if exists|i: int| 0 <= i < sessions.len() && (#[trigger] sessions[i]).name@ == name {
        Some(
            choose|i: int|
                0 <= i < sessions.len() && (#[trigger] sessions[i]).name@ == name && forall|j: int|
                    0 <= j < i ==> (#[trigger] sessions[j]).name@ != name,
        )
    } else {
        None
    }
}

impl AppView {
    pub open spec fn input_entered(self) -> AppView {
        AppView { input_mode: InputMode::Input, input_buffer: Seq::empty(), input_cursor: 0, ..self }
    }

    pub open spec fn input_exited(self) -> AppView {
        AppView { input_mode: InputMode::Normal, input_buffer: Seq::empty(), input_cursor: 0, ..self }
    }

    pub open spec fn char_inserted(self, c: char) -> AppView {
        AppView {
            input_buffer: self.input_buffer.insert(self.input_cursor as int, c),
            input_cursor: (self.input_cursor + 1) as nat,
            ..self
        }
    }

    pub open spec fn backspaced(self) -> AppView {
        if self.input_cursor > 0 {
            AppView {
                input_buffer: self.input_buffer.remove(self.input_cursor - 1),
                input_cursor: (self.input_cursor - 1) as nat,
                ..self
            }
        } else {
            self
        }
    }

    pub open spec fn deleted(self) -> AppView {
        if self.input_cursor < self.input_buffer.len() {
            AppView { input_buffer: self.input_buffer.remove(self.input_cursor as int), ..self }
        } else {
            self
        }
    }

    pub open spec fn cursor_left(self) -> AppView {
        if self.input_cursor > 0 {
            AppView { input_cursor: (self.input_cursor - 1) as nat, ..self }
        } else {
            self
        }
    }

    pub open spec fn cursor_right(self) -> AppView {
        if self.input_cursor < self.input_buffer.len() {
            AppView { input_cursor: (self.input_cursor + 1) as nat, ..self }
        } else {
            self
        }
    }

    pub open spec fn cursor_home(self) -> AppView {
        AppView { input_cursor: 0, ..self }
    }

    pub open spec fn cursor_end(self) -> AppView {
        AppView { input_cursor: self.input_buffer.len(), ..self }
    }

    /// The effect of an editing key on the text line; other keys leave it.
    pub open spec fn edited(self, k: Key) -> AppView {
        match k {
            Key::Backspace => self.backspaced(),
            Key::Delete => self.deleted(),
            Key::Left => self.cursor_left(),
            Key::Right => self.cursor_right(),
            Key::Home => self.cursor_home(),
            Key::End => self.cursor_end(),
            Key::Char(c) => self.char_inserted(c),
            _ => self,
        }
    }

    pub open spec fn new_popup_opened(self) -> AppView {
        AppView {
            popup_mode: Some(PopupMode::NewSession),
            input_buffer: Seq::empty(),
            input_cursor: 0,
            ..self
        }
    }

    /// Opens the rename popup, prefilled with the selected session's name;
    /// nothing happens without a selected session.
    pub open spec fn rename_popup_opened(self) -> AppView {
        if self.selected_session < self.sessions.len() {
            let name = self.sessions[self.selected_session as int].name@;
            AppView {
                popup_mode: Some(PopupMode::RenameSession),
                input_buffer: name,
                input_cursor: name.len(),
                ..self
            }
        } else {
            self
        }
    }

    /// Opens the kill confirmation with "No" selected; nothing happens
    /// without sessions.
    pub open spec fn kill_popup_opened(self) -> AppView {
        if self.sessions.len() > 0 {
            AppView {
                popup_mode: Some(PopupMode::ConfirmKill),
                confirm_yes_selected: false,
                ..self
            }
        } else {
            self
        }
    }

    pub open spec fn popup_closed(self) -> AppView {
        AppView {
            popup_mode: None,
            input_buffer: Seq::empty(),
            input_cursor: 0,
            confirm_yes_selected: false,
            ..self
        }
    }

    pub open spec fn confirm_toggled(self) -> AppView {
        AppView { confirm_yes_selected: !self.confirm_yes_selected, ..self }
    }

    pub open spec fn error_set(self, e: Seq<char>) -> AppView {
        AppView { last_error: Some(e), ..self }
    }

    /// Session `i` selected, with the window and pane cursors reset.
    pub open spec fn session_selected(self, i: int) -> AppView {
        AppView { selected_session: i as nat, selected_window: 0, selected_pane: 0, ..self }
    }

    /// The address of the pane under the tree cursor.
    pub open spec fn selected_pane_target(self) -> Option<Seq<char>> {
        let s = self.selected_session as int;
        let w = self.selected_window as int;
        let p = self.selected_pane as int;
        if p < panes_len(self.sessions, s, w) {
            let session = self.sessions[s];
            let window = session.windows@[w];
            Some(pane_target_spec(session.name@, window.index, window.panes@[p].index))
        } else {
            None
        }
    }

    /// The address of the window under the grid cursor.
    pub open spec fn multi_target(self) -> Option<Seq<char>> {
        let s = self.multi_session as int;
        let w = self.multi_window as int;
        if w < windows_len(self.sessions, s) {
            let session = self.sessions[s];
            Some(window_target_spec(session.name@, session.windows@[w].index))
        } else {
            None
        }
    }

    /// Where typed input goes: the tree's pane, or the grid's window.
    pub open spec fn current_target(self) -> Option<Seq<char>> {
        match self.view_mode {
            ViewMode::TreeView => self.selected_pane_target(),
            ViewMode::MultiPreview => self.multi_target(),
        }
    }

    /// Where Enter switches the client: by the focused list in the tree view,
    /// by window in the grid.
    pub open spec fn enter_target(self) -> Option<Seq<char>> {
        match self.view_mode {
            ViewMode::MultiPreview => self.multi_target(),
            ViewMode::TreeView => match self.focus {
                Focus::Sessions => if self.selected_session < self.sessions.len() {
                    Some(self.sessions[self.selected_session as int].name@)
                } else {
                    None
                },
                Focus::Windows => {
                    let s = self.selected_session as int;
                    let w = self.selected_window as int;
                    if w < windows_len(self.sessions, s) {
                        Some(window_target_spec(self.sessions[s].name@, self.sessions[s].windows@[w].index))
                    } else {
                        None
                    }
                },
                Focus::Panes => self.selected_pane_target(),
            },
        }
    }

    /// The session that the new-session popup asks for: the trimmed text,
    /// unless it is empty.
    pub open spec fn new_session_command(self) -> Option<CommandView> {
        let name = trim(self.input_buffer);
        if name.len() > 0 {
            Some(CommandView::NewSession { name })
        } else {
            None
        }
    }

    /// The rename that the rename popup asks for: the selected session to the
    /// trimmed text, unless it is empty.
    pub open spec fn rename_command(self) -> Option<CommandView> {
        let new_name = trim(self.input_buffer);
        if new_name.len() > 0 && self.selected_session < self.sessions.len() {
            Some(
                CommandView::RenameSession {
                    old_name: self.sessions[self.selected_session as int].name@,
                    new_name,
                },
            )
        } else {
            None
        }
    }

    /// The kill that the confirmation asks for: only with "Yes" selected.
    pub open spec fn kill_command(self) -> Option<CommandView> {
        if self.confirm_yes_selected && self.selected_session < self.sessions.len() {
            Some(CommandView::KillSession { name: self.sessions[self.selected_session as int].name@ })
        } else {
            None
        }
    }

    /// The keys that committing the input line sends.
    pub open spec fn send_keys_command(self) -> Option<CommandView> {
        match self.current_target() {
            Some(target) => Some(CommandView::SendKeys { target, keys: self.input_buffer }),
            None => None,
        }
    }

    /// Navigation keys of the current view.
    pub open spec fn navigated(self, k: Key) -> AppView {
        match self.view_mode {
            ViewMode::TreeView => match k {
                Key::Up | Key::Char('k') => self.tree_moved_up(),
                Key::Down | Key::Char('j') => self.tree_moved_down(),
                Key::Tab | Key::Right | Key::Char('l') => self.focus_next(),
                Key::BackTab | Key::Left | Key::Char('h') => self.focus_prev(),
                _ => self,
            },
            ViewMode::MultiPreview => match k {
                Key::Up | Key::Char('k') => self.multi_moved_up(),
                Key::Down | Key::Char('j') => self.multi_moved_down(),
                Key::Left | Key::Char('h') => self.multi_moved_left(),
                Key::Right | Key::Char('l') => self.multi_moved_right(),
                _ => self,
            },
        }
    }

    /// A key while a popup is open: the popup takes every key.
    pub open spec fn popup_key_step(self, k: KeyPress, popup: PopupMode) -> (AppView, Seq<EffectView>) {
        match popup {
            PopupMode::ConfirmKill => match k.key {
                Key::Esc => (self.popup_closed(), seq![EffectView::Resume]),
                Key::Enter => (
                    self.popup_closed(),
                    match self.kill_command() {
                        Some(c) => seq![
                            EffectView::Send(c),
                            EffectView::Send(CommandView::RefreshAll),
                            EffectView::Resume,
                        ],
                        None => seq![EffectView::Resume],
                    },
                ),
                Key::Left | Key::Right | Key::Tab | Key::Char('h') | Key::Char('l') => (
                    self.confirm_toggled(),
                    Seq::empty(),
                ),
                Key::Char('y') => (AppView { confirm_yes_selected: true, ..self }, Seq::empty()),
                Key::Char('n') => (AppView { confirm_yes_selected: false, ..self }, Seq::empty()),
                _ => (self, Seq::empty()),
            },
            _ => match k.key {
                Key::Esc => (self.popup_closed(), seq![EffectView::Resume]),
                Key::Enter => {
                    let cmd = if popup == PopupMode::NewSession {
                        self.new_session_command()
                    } else {
                        self.rename_command()
                    };
                    let rest = seq![EffectView::Resume, EffectView::Send(CommandView::RefreshAll)];
                    (
                        self.popup_closed(),
                        match cmd {
                            Some(c) => seq![EffectView::Send(c)] + rest,
                            None => rest,
                        },
                    )
                },
                _ => (self.edited(k.key), Seq::empty()),
            },
        }
    }

    /// A key in normal mode at `now` milliseconds.
    pub open spec fn normal_key_step(self, k: KeyPress, now: u64) -> (AppView, Seq<EffectView>) {
        if k.ctrl {
            match k.key {
                Key::Char('n') => (self.new_popup_opened(), seq![EffectView::Pause]),
                Key::Char('r') => if self.selected_session < self.sessions.len() {
                    (self.rename_popup_opened(), seq![EffectView::Pause])
                } else {
                    (self, Seq::empty())
                },
                Key::Char('x') => if self.sessions.len() > 0 {
                    (self.kill_popup_opened(), seq![EffectView::Pause])
                } else {
                    (self, Seq::empty())
                },
                _ => (self, Seq::empty()),
            }
        } else {
            match k.key {
                Key::Char('q') | Key::Esc => (self, seq![EffectView::Quit]),
                Key::Char('r') => (self, seq![EffectView::Send(CommandView::RefreshAll)]),
                Key::Char(' ') => (self.space_pressed(now).0, Seq::empty()),
                Key::Char('i') => (self.input_entered(), seq![EffectView::Pause]),
                Key::Enter => (
                    self,
                    match self.enter_target() {
                        Some(target) => seq![EffectView::Send(CommandView::SwitchClient { target })],
                        None => Seq::empty(),
                    },
                ),
                _ => (self.navigated(k.key), Seq::empty()),
            }
        }
    }

    /// A key while the input line is open.
    pub open spec fn input_key_step(self, k: KeyPress) -> (AppView, Seq<EffectView>) {
        match k.key {
            Key::Esc => (self.input_exited(), seq![EffectView::Resume]),
            Key::Enter => (
                self.input_exited(),
                match self.send_keys_command() {
                    Some(c) => seq![EffectView::Send(c), EffectView::Resume],
                    None => seq![EffectView::Resume],
                },
            ),
            _ => (self.edited(k.key), Seq::empty()),
        }
    }

    /// A key press at `now` milliseconds: the new state and what to do.
    pub open spec fn key_step(self, k: KeyPress, now: u64) -> (AppView, Seq<EffectView>) {
        match self.popup_mode {
            Some(p) => self.popup_key_step(k, p),
            None => match self.input_mode {
                InputMode::Normal => self.normal_key_step(k, now),
                InputMode::Input => self.input_key_step(k),
            },
        }
    }
}

pub open spec fn opt_cmd_view(o: Option<TmuxCommand>) -> Option<CommandView> {
    match o {
        Some(c) => Some(c@),
        None => None,
    }
}

impl AppView {
    /// The state once the executor's `response` has come in.
    pub open spec fn response_applied(self, response: TmuxResponse) -> AppView {
        match response {
            TmuxResponse::SessionsRefreshed { sessions } => self.sessions_updated(sessions@),
            TmuxResponse::PaneCaptured { content, .. } => AppView { pane_content: content@, ..self },
            TmuxResponse::SessionCreated { name, success, error } => if success {
                match session_named(self.sessions, name@) {
                    Some(i) => self.session_selected(i),
                    None => self,
                }
            } else {
                match error {
                    Some(e) => self.error_set(e@),
                    None => self,
                }
            },
            TmuxResponse::SessionRenamed { success, error } => match error {
                Some(e) if !success => self.error_set(e@),
                _ => self,
            },
            TmuxResponse::SessionKilled { success, error } => if success {
                self.validated()
            } else {
                match error {
                    Some(e) => self.error_set(e@),
                    None => self,
                }
            },
            TmuxResponse::KeysSent { error, .. } => match error {
                Some(e) => self.error_set(e@),
                None => self,
            },
            TmuxResponse::ClientSwitched { target, success, error } => if success {
                self
            } else {
                self.error_set(switch_error_message(target@, opt_view(error)))
            },
            TmuxResponse::Error { message } => self.error_set(message@),
        }
    }

    /// What a signal of the ticker asks for: on a tick in the tree view, a
    /// capture of the selected pane.
    pub open spec fn ui_event_effects(self, event: UIEvent) -> Seq<EffectView> {
        match event {
            UIEvent::Tick => match (self.view_mode, self.selected_pane_target()) {
                (ViewMode::TreeView, Some(target)) => seq![
                    EffectView::Send(CommandView::CapturePane { target }),
                ],
                _ => Seq::empty(),
            },
            UIEvent::Shutdown => seq![EffectView::Quit],
            UIEvent::RequestCapture => Seq::empty(),
        }
    }
}

impl App {
    pub fn enter_input_mode(&mut self)
        requires
            old(self)@.wf(),
        ensures
            final(self)@ == old(self)@.input_entered(),
            final(self)@.wf(),
    {
        self.input_mode = InputMode::Input;
        self.input_buffer.clear();
        self.input_cursor = 0;
    }

    pub fn exit_input_mode(&mut self)
        requires
            old(self)@.wf(),
        ensures
            final(self)@ == old(self)@.input_exited(),
            final(self)@.wf(),
    {
        self.input_mode = InputMode::Normal;
        self.input_buffer.clear();
        self.input_cursor = 0;
    }

    /// Inserts `c` at the cursor and moves past it.
    pub fn input_char(&mut self, c: char)
        requires
            old(self)@.wf(),
        ensures
            final(self)@ == old(self)@.char_inserted(c),
            final(self)@.wf(),
    {
        self.input_buffer.insert(self.input_cursor, c);
        let len = self.input_buffer.len();
        proof {
            assert(self.input_cursor < len);
        }
        self.input_cursor = self.input_cursor + 1;
    }

    /// Removes the character before the cursor.
    pub fn input_backspace(&mut self)
        requires
            old(self)@.wf(),
        ensures
            final(self)@ == old(self)@.backspaced(),
            final(self)@.wf(),
    {
        if self.input_cursor > 0 {
            self.input_cursor = self.input_cursor - 1;
            self.input_buffer.remove(self.input_cursor);
        }
    }

    /// Removes the character under the cursor.
    pub fn input_delete(&mut self)
        requires
            old(self)@.wf(),
        ensures
            final(self)@ == old(self)@.deleted(),
            final(self)@.wf(),
    {
        if self.input_cursor < self.input_buffer.len() {
            self.input_buffer.remove(self.input_cursor);
        }
    }

    pub fn input_move_left(&mut self)
        requires
            old(self)@.wf(),
        ensures
            final(self)@ == old(self)@.cursor_left(),
            final(self)@.wf(),
    {
        if self.input_cursor > 0 {
            self.input_cursor = self.input_cursor - 1;
        }
    }

    pub fn input_move_right(&mut self)
        requires
            old(self)@.wf(),
        ensures
            final(self)@ == old(self)@.cursor_right(),
            final(self)@.wf(),
    {
        if self.input_cursor < self.input_buffer.len() {
            self.input_cursor = self.input_cursor + 1;
        }
    }

    pub fn input_move_home(&mut self)
        requires
            old(self)@.wf(),
        ensures
            final(self)@ == old(self)@.cursor_home(),
            final(self)@.wf(),
    {
        self.input_cursor = 0;
    }

    pub fn input_move_end(&mut self)
        requires
            old(self)@.wf(),
        ensures
            final(self)@ == old(self)@.cursor_end(),
            final(self)@.wf(),
    {
        self.input_cursor = self.input_buffer.len();
    }

    fn edit(&mut self, k: Key)
        requires
            old(self)@.wf(),
        ensures
            final(self)@ == old(self)@.edited(k),
            final(self)@.wf(),
    {
        match k {
            Key::Backspace => self.input_backspace(),
            Key::Delete => self.input_delete(),
            Key::Left => self.input_move_left(),
            Key::Right => self.input_move_right(),
            Key::Home => self.input_move_home(),
            Key::End => self.input_move_end(),
            Key::Char(c) => self.input_char(c),
            _ => {},
        }
    }

    pub fn open_new_session_popup(&mut self)
        requires
            old(self)@.wf(),
        ensures
            final(self)@ == old(self)@.new_popup_opened(),
            final(self)@.wf(),
    {
        self.popup_mode = Some(PopupMode::NewSession);
        self.input_buffer.clear();
        self.input_cursor = 0;
    }

    pub fn open_rename_session_popup(&mut self)
        requires
            old(self)@.wf(),
        ensures
            final(self)@ == old(self)@.rename_popup_opened(),
            final(self)@.wf(),
    {
        if self.selected_session < self.sessions.len() {
            let name = crate::text::chars_of(self.sessions[self.selected_session].name.as_str());
            self.popup_mode = Some(PopupMode::RenameSession);
            self.input_cursor = name.len();
            self.input_buffer = name;
        }
    }

    pub fn open_kill_session_popup(&mut self)
        requires
            old(self)@.wf(),
        ensures
            final(self)@ == old(self)@.kill_popup_opened(),
            final(self)@.wf(),
    {
        if self.sessions.len() > 0 {
            self.popup_mode = Some(PopupMode::ConfirmKill);
            self.confirm_yes_selected = false;
        }
    }

    pub fn close_popup(&mut self)
        requires
            old(self)@.wf(),
        ensures
            final(self)@ == old(self)@.popup_closed(),
            final(self)@.wf(),
    {
        self.popup_mode = None;
        self.input_buffer.clear();
        self.input_cursor = 0;
        self.confirm_yes_selected = false;
    }

    pub fn toggle_confirm_selection(&mut self)
        ensures
            final(self)@ == old(self)@.confirm_toggled(),
    {
        self.confirm_yes_selected = !self.confirm_yes_selected;
    }

    /// Shows `message` on the status line until the next successful refresh.
    pub fn set_error(&mut self, message: String)
        ensures
            final(self)@ == old(self)@.error_set(message@),
    {
        self.last_error = Some(message);
    }

    /// The address of the pane under the tree cursor.
    pub fn get_selected_pane_target(&self) -> (r: Option<String>)
        ensures
            opt_view(r) == self@.selected_pane_target(),
    {
        let s = self.selected_session;
        let w = self.selected_window;
        let p = self.selected_pane;
        if s < self.sessions.len() && w < self.sessions[s].windows.len()
            && p < self.sessions[s].windows[w].panes.len() {
            let session = &self.sessions[s];
            let window = &session.windows[w];
            Some(pane_target(session.name.as_str(), window.index, window.panes[p].index))
        } else {
            None
        }
    }

    /// The address of the window under the grid cursor.
    pub fn get_multi_selected_target(&self) -> (r: Option<String>)
        ensures
            opt_view(r) == self@.multi_target(),
    {
        let s = self.multi_session;
        let w = self.multi_window;
        if s < self.sessions.len() && w < self.sessions[s].windows.len() {
            let session = &self.sessions[s];
            Some(window_target(session.name.as_str(), session.windows[w].index))
        } else {
            None
        }
    }

    /// Where typed input goes.
    pub fn get_current_target(&self) -> (r: Option<String>)
        ensures
            opt_view(r) == self@.current_target(),
    {
        match self.view_mode {
            ViewMode::TreeView => self.get_selected_pane_target(),
            ViewMode::MultiPreview => self.get_multi_selected_target(),
        }
    }

    /// Where Enter switches the client.
    pub fn get_enter_target(&self) -> (r: Option<String>)
        ensures
            opt_view(r) == self@.enter_target(),
    {
        match self.view_mode {
            ViewMode::MultiPreview => self.get_multi_selected_target(),
            ViewMode::TreeView => match self.focus {
                Focus::Sessions => {
                    if self.selected_session < self.sessions.len() {
                        Some(session_target(self.sessions[self.selected_session].name.as_str()))
                    } else {
                        None
                    }
                },
                Focus::Windows => {
                    let s = self.selected_session;
                    let w = self.selected_window;
                    if s < self.sessions.len() && w < self.sessions[s].windows.len() {
                        let session = &self.sessions[s];
                        Some(window_target(session.name.as_str(), session.windows[w].index))
                    } else {
                        None
                    }
                },
                Focus::Panes => self.get_selected_pane_target(),
            },
        }
    }

    fn new_session_command(&self) -> (r: Option<TmuxCommand>)
        ensures
            opt_cmd_view(r) == self@.new_session_command(),
    {
        let name = trim_chars(self.input_buffer.as_slice());
        if name.len() > 0 {
            Some(TmuxCommand::NewSession { name: string_of(name.as_slice()) })
        } else {
            None
        }
    }

    fn rename_command(&self) -> (r: Option<TmuxCommand>)
        ensures
            opt_cmd_view(r) == self@.rename_command(),
    {
        let new_name = trim_chars(self.input_buffer.as_slice());
        if new_name.len() > 0 && self.selected_session < self.sessions.len() {
            Some(
                TmuxCommand::RenameSession {
                    old_name: self.sessions[self.selected_session].name.clone(),
                    new_name: string_of(new_name.as_slice()),
                },
            )
        } else {
            None
        }
    }

    fn kill_command(&self) -> (r: Option<TmuxCommand>)
        ensures
            opt_cmd_view(r) == self@.kill_command(),
    {
        if self.confirm_yes_selected && self.selected_session < self.sessions.len() {
            Some(TmuxCommand::KillSession { name: self.sessions[self.selected_session].name.clone() })
        } else {
            None
        }
    }

    fn send_keys_command(&self) -> (r: Option<TmuxCommand>)
        ensures
            opt_cmd_view(r) == self@.send_keys_command(),
    {
        match self.get_current_target() {
            Some(target) => Some(
                TmuxCommand::SendKeys { target, keys: string_of(self.input_buffer.as_slice()) },
            ),
            None => None,
        }
    }

    /// Closes the new-session popup; the command that creates the session
    /// named by the trimmed text, unless that is empty.
    pub fn confirm_new_session(&mut self) -> (r: Option<TmuxCommand>)
        requires
            old(self)@.wf(),
        ensures
            opt_cmd_view(r) == old(self)@.new_session_command(),
            final(self)@ == old(self)@.popup_closed(),
            final(self)@.wf(),
    {
        let r = self.new_session_command();
        self.close_popup();
        r
    }

    /// Closes the rename popup; the command that renames the selected session
    /// to the trimmed text, unless that is empty.
    pub fn confirm_rename_session(&mut self) -> (r: Option<TmuxCommand>)
        requires
            old(self)@.wf(),
        ensures
            opt_cmd_view(r) == old(self)@.rename_command(),
            final(self)@ == old(self)@.popup_closed(),
            final(self)@.wf(),
    {
        let r = self.rename_command();
        self.close_popup();
        r
    }

    /// Closes the kill confirmation; the command that kills the selected
    /// session, only where "Yes" was selected.
    pub fn confirm_kill_session(&mut self) -> (r: Option<TmuxCommand>)
        requires
            old(self)@.wf(),
        ensures
            opt_cmd_view(r) == old(self)@.kill_command(),
            final(self)@ == old(self)@.popup_closed(),
            final(self)@.wf(),
    {
        let r = self.kill_command();
        self.close_popup();
        r
    }

    /// Leaves input mode; the command that types the line into the current
    /// target, where there is one.
    pub fn send_input_to_pane(&mut self) -> (r: Option<TmuxCommand>)
        requires
            old(self)@.wf(),
        ensures
            opt_cmd_view(r) == old(self)@.send_keys_command(),
            final(self)@ == old(self)@.input_exited(),
            final(self)@.wf(),
    {
        let r = self.send_keys_command();
        self.exit_input_mode();
        r
    }

    /// The command that switches the client to what Enter addresses.
    pub fn switch_to_selected_pane(&self) -> (r: Option<TmuxCommand>)
        ensures
            opt_cmd_view(r) == (match self@.enter_target() {
                Some(target) => Some(CommandView::SwitchClient { target }),
                None => None,
            }),
    {
        match self.get_enter_target() {
            Some(target) => Some(TmuxCommand::SwitchClient { target }),
            None => None,
        }
    }
}

impl App {
    /// Navigation keys of the current view.
    pub fn handle_navigation_key(&mut self, k: Key)
        requires
            old(self)@.wf(),
        ensures
            final(self)@ == old(self)@.navigated(k),
            final(self)@.wf(),
    {
        match self.view_mode {
            ViewMode::TreeView => match k {
                Key::Up | Key::Char('k') => self.tree_move_up(),
                Key::Down | Key::Char('j') => self.tree_move_down(),
                Key::Tab | Key::Right | Key::Char('l') => self.tree_next_focus(),
                Key::BackTab | Key::Left | Key::Char('h') => self.tree_prev_focus(),
                _ => {},
            },
            ViewMode::MultiPreview => match k {
                Key::Up | Key::Char('k') => self.multi_move_up(),
                Key::Down | Key::Char('j') => self.multi_move_down(),
                Key::Left | Key::Char('h') => self.multi_move_left(),
                Key::Right | Key::Char('l') => self.multi_move_right(),
                _ => {},
            },
        }
    }

    /// A key while `popup` is open.
    pub fn handle_popup_key(&mut self, k: KeyPress, popup: PopupMode) -> (r: Vec<Effect>)
        requires
            old(self)@.wf(),
        ensures
            (final(self)@, effects_view(r)) == old(self)@.popup_key_step(k, popup),
            final(self)@.wf(),
    {
        let mut effects: Vec<Effect> = Vec::new();
        match popup {
            PopupMode::ConfirmKill => match k.key {
                Key::Esc => {
                    self.close_popup();
                    effects.push(Effect::Resume);
                },
                Key::Enter => {
                    match self.confirm_kill_session() {
                        Some(c) => {
                            effects.push(Effect::Send(c));
                            effects.push(Effect::Send(TmuxCommand::RefreshAll));
                        },
                        None => {},
                    }
                    effects.push(Effect::Resume);
                },
                Key::Left | Key::Right | Key::Tab | Key::Char('h') | Key::Char('l') => {
                    self.toggle_confirm_selection();
                },
                Key::Char('y') => {
                    self.confirm_yes_selected = true;
                },
                Key::Char('n') => {
                    self.confirm_yes_selected = false;
                },
                _ => {},
            },
            _ => match k.key {
                Key::Esc => {
                    self.close_popup();
                    effects.push(Effect::Resume);
                },
                Key::Enter => {
                    let cmd = if popup == PopupMode::NewSession {
                        self.confirm_new_session()
                    } else {
                        self.confirm_rename_session()
                    };
                    match cmd {
                        Some(c) => effects.push(Effect::Send(c)),
                        None => {},
                    }
                    effects.push(Effect::Resume);
                    effects.push(Effect::Send(TmuxCommand::RefreshAll));
                },
                _ => self.edit(k.key),
            },
        }
        proof {
            assert(effects_view(effects) =~= old(self)@.popup_key_step(k, popup).1);
        }
        effects
    }

    /// A key in normal mode at `now_ms`.
    pub fn handle_normal_mode_key(&mut self, k: KeyPress, now_ms: u64) -> (r: Vec<Effect>)
        requires
            old(self)@.wf(),
        ensures
            (final(self)@, effects_view(r)) == old(self)@.normal_key_step(k, now_ms),
            final(self)@.wf(),
    {
        let mut effects: Vec<Effect> = Vec::new();
        if k.ctrl {
            match k.key {
                Key::Char('n') => {
                    self.open_new_session_popup();
                    effects.push(Effect::Pause);
                },
                Key::Char('r') => {
                    if self.selected_session < self.sessions.len() {
                        self.open_rename_session_popup();
                        effects.push(Effect::Pause);
                    }
                },
                Key::Char('x') => {
                    if self.sessions.len() > 0 {
                        self.open_kill_session_popup();
                        effects.push(Effect::Pause);
                    }
                },
                _ => {},
            }
        } else {
            match k.key {
                Key::Char('q') | Key::Esc => {
                    effects.push(Effect::Quit);
                },
                Key::Char('r') => {
                    effects.push(Effect::Send(TmuxCommand::RefreshAll));
                },
                Key::Char(' ') => {
                    self.handle_space_press(now_ms);
                },
                Key::Char('i') => {
                    self.enter_input_mode();
                    effects.push(Effect::Pause);
                },
                Key::Enter => {
                    match self.switch_to_selected_pane() {
                        Some(c) => effects.push(Effect::Send(c)),
                        None => {},
                    }
                },
                _ => self.handle_navigation_key(k.key),
            }
        }
        proof {
            assert(effects_view(effects) =~= old(self)@.normal_key_step(k, now_ms).1);
        }
        effects
    }

    /// A key while the input line is open.
    pub fn handle_input_mode_key(&mut self, k: KeyPress) -> (r: Vec<Effect>)
        requires
            old(self)@.wf(),
        ensures
            (final(self)@, effects_view(r)) == old(self)@.input_key_step(k),
            final(self)@.wf(),
    {
        let mut effects: Vec<Effect> = Vec::new();
        match k.key {
            Key::Esc => {
                self.exit_input_mode();
                effects.push(Effect::Resume);
            },
            Key::Enter => {
                match self.send_input_to_pane() {
                    Some(c) => effects.push(Effect::Send(c)),
                    None => {},
                }
                effects.push(Effect::Resume);
            },
            _ => self.edit(k.key),
        }
        proof {
            assert(effects_view(effects) =~= old(self)@.input_key_step(k).1);
        }
        effects
    }

    /// A key press at `now_ms` milliseconds: an open popup takes it first,
    /// then the input line, then normal mode.
    pub fn handle_key_event(&mut self, k: KeyPress, now_ms: u64) -> (r: Vec<Effect>)
        requires
            old(self)@.wf(),
        ensures
            (final(self)@, effects_view(r)) == old(self)@.key_step(k, now_ms),
            final(self)@.wf(),
    {
        match self.popup_mode {
            Some(p) => self.handle_popup_key(k, p),
            None => match self.input_mode {
                InputMode::Normal => self.handle_normal_mode_key(k, now_ms),
                InputMode::Input => self.handle_input_mode_key(k),
            },
        }
    }

    fn find_session(&self, name: &String) -> (r: Option<usize>)
        ensures
            r is None <==> session_named(self.sessions@, name@) is None,
            r matches Some(i) ==> i < self.sessions@.len() && session_named(self.sessions@, name@)
                == Some(i as int),
    {
        let n = self.sessions.len();
        let mut i: usize = 0;
        while i < n
            invariant
                i <= n,
                n == self.sessions@.len(),
                forall|j: int| 0 <= j < i ==> (#[trigger] self.sessions@[j]).name@ != name@,
            decreases n - i,
        {
            if self.sessions[i].name == *name {
                proof {
                    let k = choose|k: int|
                        0 <= k < self.sessions@.len() && (#[trigger] self.sessions@[k]).name@
                            == name@ && forall|j: int|
                            0 <= j < k ==> (#[trigger] self.sessions@[j]).name@ != name@;
                    assert(0 <= i < self.sessions@.len() && self.sessions@[i as int].name@ == name@);
                    if k < i {
                        assert(self.sessions@[k].name@ != name@);
                    }
                    if k > i {
                        assert(self.sessions@[i as int].name@ != name@);
                    }
                }
                return Some(i);
            }
            i = i + 1;
        }
        None
    }

    /// Takes in the executor's answer to a command.
    pub fn handle_tmux_response(&mut self, response: TmuxResponse)
        requires
            old(self)@.wf(),
        ensures
            final(self)@ == old(self)@.response_applied(response),
            final(self)@.wf(),
    {
        match response {
            TmuxResponse::SessionsRefreshed { sessions } => self.update_sessions(sessions),
            TmuxResponse::PaneCaptured { content, .. } => self.pane_content = content,
            TmuxResponse::SessionCreated { name, success, error } => {
                if success {
                    match self.find_session(&name) {
                        Some(i) => {
                            self.selected_session = i;
                            self.selected_window = 0;
                            self.selected_pane = 0;
                        },
                        None => {},
                    }
                } else {
                    match error {
                        Some(e) => self.set_error(e),
                        None => {},
                    }
                }
            },
            TmuxResponse::SessionRenamed { success, error } => {
                match error {
                    Some(e) => {
                        if !success {
                            self.set_error(e);
                        }
                    },
                    None => {},
                }
            },
            TmuxResponse::SessionKilled { success, error } => {
                if success {
                    self.validate_selections();
                } else {
                    match error {
                        Some(e) => self.set_error(e),
                        None => {},
                    }
                }
            },
            TmuxResponse::KeysSent { error, .. } => {
                match error {
                    Some(e) => self.set_error(e),
                    None => {},
                }
            },
            TmuxResponse::ClientSwitched { target, success, error } => {
                if !success {
                    let message = switch_error(&target, &error);
                    self.set_error(message);
                }
            },
            TmuxResponse::Error { message } => self.set_error(message),
        }
    }

    /// What a signal of the ticker asks for.
    pub fn handle_ui_event(&self, event: UIEvent) -> (r: Vec<Effect>)
        ensures
            effects_view(r) == self@.ui_event_effects(event),
    {
        let mut effects: Vec<Effect> = Vec::new();
        match event {
            UIEvent::Tick => {
                if self.view_mode == ViewMode::TreeView {
                    match self.get_selected_pane_target() {
                        Some(target) => effects.push(Effect::Send(TmuxCommand::CapturePane { target })),
                        None => {},
                    }
                }
            },
            UIEvent::Shutdown => effects.push(Effect::Quit),
            UIEvent::RequestCapture => {},
        }
        proof {
            assert(effects_view(effects) =~= self@.ui_event_effects(event));
        }
        effects
    }
}

fn switch_error(target: &String, error: &Option<String>) -> (r: String)
    ensures
        r@ == switch_error_message(target@, opt_view(*error)),
{
    let mut message = "Failed to switch to ".to_owned();
    message.append(target.as_str());
    match error {
        Some(e) => {
            let cs = crate::text::chars_of(e.as_str());
            if trim_chars(cs.as_slice()).len() > 0 {
                message.append(": ");
                message.append(e.as_str());
            }
        },
        None => {},
    }
    message
}

/// Clamping puts every cursor on an item of its list, or clears it.
pub proof fn lemma_validated_is_valid(s: AppView)
    ensures
        s.validated().selections_valid(),
        s.validated().sessions == s.sessions,
{
}

/// The state after the data was replaced by each list of `lists` in turn.
pub open spec fn refreshed_all(s: AppView, lists: Seq<Seq<TmuxSession>>) -> AppView
    decreases lists.len(),
{
    if lists.len() == 0 {
        s
    } else {
        refreshed_all(s, lists.drop_last()).sessions_updated(lists.last())
    }
}

/// After any sequence of refreshes, growing or shrinking the tree, every
/// cursor stands on an item of its current list, or is cleared where that
/// list is empty.
pub proof fn lemma_refreshes_keep_selections_valid(s: AppView, lists: Seq<Seq<TmuxSession>>)
    requires
        lists.len() > 0,
    ensures
        refreshed_all(s, lists).selections_valid(),
        refreshed_all(s, lists).sessions == lists.last(),
{
    let prev = refreshed_all(s, lists.drop_last());
    lemma_validated_is_valid(AppView { sessions: lists.last(), last_error: None, ..prev });
}

/// A refresh over a session listing with `n` well-formed lines, whatever
/// malformed lines it also holds, leaves exactly `n` sessions, in the order of
/// those lines, each with its line's name and flag, and the session cursor on
/// one of them. `sessions` is what `session_entries` and `sessions_refreshed`
/// make of the listing.
pub proof fn lemma_refresh_lists_every_session(
    s: AppView,
    text: Seq<char>,
    sessions: Seq<TmuxSession>,
)
    requires
        sessions.len() == crate::listing::session_listing(text).len(),
        forall|i: int|
            0 <= i < sessions.len() ==> (#[trigger] sessions[i]).name@ == crate::listing::session_listing(
                text,
            )[i].0 && sessions[i].attached == crate::listing::session_listing(text)[i].1,
    ensures
        s.sessions_updated(sessions).sessions.len() == crate::listing::session_lines(text).len(),
        forall|i: int|
            0 <= i < sessions.len() ==> crate::listing::session_line(crate::listing::session_lines(text)[i])
                == Some(((#[trigger] s.sessions_updated(sessions).sessions[i]).name@, sessions[i].attached)),
        s.sessions_updated(sessions).selections_valid(),
        sessions.len() > 0 ==> s.sessions_updated(sessions).selected_session < sessions.len(),
{
    crate::listing::lemma_listing_keeps_every_session(text);
    lemma_validated_is_valid(AppView { sessions, last_error: None, ..s });
    assert forall|i: int| 0 <= i < sessions.len() implies crate::listing::session_line(
        crate::listing::session_lines(text)[i],
    ) == Some(((#[trigger] s.sessions_updated(sessions).sessions[i]).name@, sessions[i].attached)) by {
        assert(s.sessions_updated(sessions).sessions[i] == sessions[i]);
    }
}

/// Two presses of the view key from an idle timer, `t2` after `t1`, toggle the
/// view exactly when they come less than `DOUBLE_PRESS_MS` apart; otherwise the
/// second press only re-arms the timer.
pub proof fn lemma_double_press(s: AppView, t1: u64, t2: u64)
    requires
        s.last_space_press is None,
        t1 <= t2,
    ensures
        ({
            let (a, first) = s.space_pressed(t1);
            let (b, second) = a.space_pressed(t2);
            &&& !first
            &&& second <==> t2 - t1 < DOUBLE_PRESS_MS
            &&& second ==> b.view_mode != s.view_mode && b.last_space_press is None
            &&& !second ==> b.view_mode == s.view_mode && b.last_space_press == Some(t2)
        }),
{
}

/// Opening the kill confirmation and committing it at once kills nothing:
/// "No" is selected when the popup opens.
pub proof fn lemma_kill_defaults_to_no(s: AppView, t1: u64, t2: u64)
    requires
        s.popup_mode is None,
        s.input_mode == InputMode::Normal,
        s.sessions.len() > 0,
    ensures
        ({
            let (a, opened) = s.key_step(KeyPress { key: Key::Char('x'), ctrl: true }, t1);
            let (b, committed) = a.key_step(KeyPress { key: Key::Enter, ctrl: false }, t2);
            &&& a.popup_mode == Some(PopupMode::ConfirmKill)
            &&& opened == seq![EffectView::Pause]
            &&& committed == seq![EffectView::Resume]
            &&& b.popup_mode is None
        }),
{
}

} // verus!
