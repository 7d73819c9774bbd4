//! Sessions, windows and panes: value-like snapshots of the multiplexer's
//! state, made fresh on every refresh.
use vstd::prelude::*;

verus! {

/// Width assumed for a window whose panes are unknown.
pub const FALLBACK_WIDTH: u32 = 80;

/// Height assumed for a window whose panes are unknown.
pub const FALLBACK_HEIGHT: u32 = 24;

/// A pane of a window.
#[derive(Debug, Clone)]
pub struct TmuxPane {
    pub id: String,
    pub index: u32,
    pub width: u32,
    pub height: u32,
    pub active: bool,
    pub current_command: String,
}

pub struct PaneView {
    pub id: Seq<char>,
    pub index: u32,
    pub width: u32,
    pub height: u32,
    pub active: bool,
    pub current_command: Seq<char>,
}

impl View for TmuxPane {
    type V = PaneView;

    open spec fn view(&self) -> PaneView {
        PaneView {
            id: self.id@,
            index: self.index,
            width: self.width,
            height: self.height,
            active: self.active,
            current_command: self.current_command@,
        }
    }
}

/// A window of a session, with the captured content of its active pane.
#[derive(Debug, Clone)]
pub struct TmuxWindow {
    pub index: u32,
    pub name: String,
    pub active: bool,
    pub panes: Vec<TmuxPane>,
    /// Captured content of the active pane, with its style escapes.
    pub content: String,
    /// Width of the active pane.
    pub pane_width: u32,
    /// Height of the active pane.
    pub pane_height: u32,
}

/// A session: its name is its key.
#[derive(Debug, Clone)]
pub struct TmuxSession {
    pub name: String,
    pub attached: bool,
    pub windows: Vec<TmuxWindow>,
}

/// Where the active pane stands among `panes`: the first one flagged active,
/// else the first one; none in an empty list.
pub open spec fn active_pane_index(panes: Seq<TmuxPane>) -> Option<int> {
    if panes.len() == 0 {
        None
    } else if exists|i: int| 0 <= i < panes.len() && (#[trigger] panes[i]).active {
        Some(
            choose|i: int|
                0 <= i < panes.len() && (#[trigger] panes[i]).active && forall|j: int|
                    0 <= j < i ==> !(#[trigger] panes[j]).active,
        )
    } else {
        Some(0)
    }
}

/// The pane size a window records from its listing: that of the last pane
/// flagged active, or the fallback where no pane is flagged.
pub open spec fn recorded_dims(panes: Seq<TmuxPane>) -> (u32, u32)
    decreases panes.len(),
{
    if panes.len() == 0 {
        (FALLBACK_WIDTH, FALLBACK_HEIGHT)
    } else if panes.last().active {
        (panes.last().width, panes.last().height)
    } else {
        recorded_dims(panes.drop_last())
    }
}

/// Finds the active pane's place in `panes`.
pub fn find_active_pane(panes: &Vec<TmuxPane>) -> (r: Option<usize>)
    ensures
        r is None <==> active_pane_index(panes@) is None,
        r matches Some(i) ==> i < panes@.len() && active_pane_index(panes@) == Some(i as int),
{
    let n = panes.len();
    if n == 0 {
        return None;
    }
    let mut i: usize = 0;
    while i < n
        invariant
            i <= n,
            n == panes@.len(),
            forall|j: int| 0 <= j < i ==> !(#[trigger] panes@[j]).active,
        decreases n - i,
    {
        if panes[i].active {
            proof {
                let k = choose|k: int|
                    0 <= k < panes@.len() && (#[trigger] panes@[k]).active && forall|j: int|
                        0 <= j < k ==> !(#[trigger] panes@[j]).active;
                assert(0 <= i < panes@.len() && panes@[i as int].active && forall|j: int|
                    0 <= j < i ==> !(#[trigger] panes@[j]).active);
                if k < i {
                    assert(!panes@[k].active);
                }
                if k > i {
                    assert(!panes@[i as int].active);
                }
            }
            return Some(i);
        }
        i = i + 1;
    }
    proof {
        assert(!exists|k: int| 0 <= k < panes@.len() && (#[trigger] panes@[k]).active);
    }
    Some(0)
}

impl TmuxWindow {
    /// The pane flagged active (the first such), else the first pane.
    pub fn get_active_pane(&self) -> (r: Option<&TmuxPane>)
        ensures
            r == (match active_pane_index(self.panes@) {
                Some(i) => Some(&self.panes@[i]),
                None => None,
            }),
    {
        match find_active_pane(&self.panes) {
            Some(i) => Some(&self.panes[i]),
            None => None,
        }
    }

    /// A window that records the size of its last pane flagged active, or
    /// the fallback size where no pane is flagged.
    pub fn new(index: u32, name: String, active: bool, panes: Vec<TmuxPane>, content: String) -> (r:
        TmuxWindow)
        ensures
            r.index == index,
            r.name == name,
            r.active == active,
            r.panes == panes,
            r.content == content,
            (r.pane_width, r.pane_height) == recorded_dims(panes@),
    {
        let mut pane_width = FALLBACK_WIDTH;
        let mut pane_height = FALLBACK_HEIGHT;
        let n = panes.len();
        let mut i: usize = 0;
        while i < n
            invariant
                i <= n,
                n == panes@.len(),
                (pane_width, pane_height) == recorded_dims(panes@.take(i as int)),
            decreases n - i,
        {
            proof {
                assert(panes@.take(i + 1).drop_last() == panes@.take(i as int));
                assert(panes@.take(i + 1).last() == panes@[i as int]);
            }
            if panes[i].active {
                pane_width = panes[i].width;
                pane_height = panes[i].height;
            }
            i = i + 1;
        }
        proof {
            assert(panes@.take(n as int) == panes@);
        }
        TmuxWindow { index, name, active, panes, content, pane_width, pane_height }
    }
}

} // verus!
