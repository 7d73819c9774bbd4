//! The multiplexer's listings: one record per line, fields separated by tabs.
//! A line with fewer fields than its record needs is skipped.
use vstd::prelude::*;

use crate::model::{PaneView, TmuxPane, FALLBACK_HEIGHT, FALLBACK_WIDTH};
use crate::text::{
    chars_of, lines, parse_u32, parse_u32_spec, split_chars, split_lines, split_on, string_of,
};

verus! {

/// Fields of a session line: name, attached flag.
pub const SESSION_FORMAT: &'static str = "#{session_name}\t#{session_attached}";

/// Fields of a window line: index, name, active flag.
pub const WINDOW_FORMAT: &'static str = "#{window_index}\t#{window_name}\t#{window_active}";

/// Fields of a pane line: id, index, width, height, active flag, running command.
pub const PANE_FORMAT: &'static str =
    "#{pane_id}\t#{pane_index}\t#{pane_width}\t#{pane_height}\t#{pane_active}\t#{pane_current_command}";

/// A session as its listing line gives it.
#[derive(Debug, Clone)]
pub struct SessionEntry {
    pub name: String,
    pub attached: bool,
}

/// A window as its listing line gives it.
#[derive(Debug, Clone)]
pub struct WindowEntry {
    pub index: u32,
    pub name: String,
    pub active: bool,
}

/// A flag field is set when it is exactly `1`.
pub open spec fn flag(f: Seq<char>) -> bool {
    f == seq!['1']
}

/// A numeric field, or `default` where it does not read as a number.
pub open spec fn number_or(f: Seq<char>, default: u32) -> u32 {
    match parse_u32_spec(f) {
        Some(v) => v,
        None => default,
    }
}

pub open spec fn fields(line: Seq<char>) -> Seq<Seq<char>> {
    split_on(line, '\t')
}

/// The session that a line describes: name and attached flag.
pub open spec fn session_line(line: Seq<char>) -> Option<(Seq<char>, bool)> {
    let f = fields(line);
    if f.len() >= 2 {
        Some((f[0], flag(f[1])))
    } else {
        None
    }
}

/// The window that a line describes: index, name and active flag.
pub open spec fn window_line(line: Seq<char>) -> Option<(u32, Seq<char>, bool)> {
    let f = fields(line);
    if f.len() >= 3 {
        Some((number_or(f[0], 0), f[1], flag(f[2])))
    } else {
        None
    }
}

/// The pane that a line describes.
pub open spec fn pane_line(line: Seq<char>) -> Option<PaneView> {
    let f = fields(line);
    if f.len() >= 6 {
        Some(
            PaneView {
                id: f[0],
                index: number_or(f[1], 0),
                width: number_or(f[2], FALLBACK_WIDTH),
                height: number_or(f[3], FALLBACK_HEIGHT),
                active: flag(f[4]),
                current_command: f[5],
            },
        )
    } else {
        None
    }
}

/// The sessions of a listing, one for each well-formed line, in order.
pub open spec fn session_listing(text: Seq<char>) -> Seq<(Seq<char>, bool)> {
    lines(text).filter_map(|l: Seq<char>| session_line(l))
}

/// The windows of a listing, one for each well-formed line, in order.
pub open spec fn window_listing(text: Seq<char>) -> Seq<(u32, Seq<char>, bool)> {
    lines(text).filter_map(|l: Seq<char>| window_line(l))
}

/// The panes of a listing, one for each well-formed line, in order.
pub open spec fn pane_listing(text: Seq<char>) -> Seq<PaneView> {
    lines(text).filter_map(|l: Seq<char>| pane_line(l))
}

pub open spec fn session_entry_view(e: SessionEntry) -> (Seq<char>, bool) {
    (e.name@, e.attached)
}

pub open spec fn window_entry_view(e: WindowEntry) -> (u32, Seq<char>, bool) {
    (e.index, e.name@, e.active)
}

fn is_flag(f: &Vec<char>) -> (r: bool)
    ensures
        r == flag(f@),
{
    let r = f.len() == 1 && f[0] == '1';
    proof {
        if f@.len() == 1 && f@[0] == '1' {
            assert(f@ == seq!['1']);
        }
    }
    r
}

fn number_field(f: &Vec<char>, default: u32) -> (r: u32)
    ensures
        r == number_or(f@, default),
{
    match parse_u32(f.as_slice()) {
        Some(v) => v,
        None => default,
    }
}

fn split_fields(line: &Vec<char>) -> (r: Vec<Vec<char>>)
    ensures
        r@.map_values(|v: Vec<char>| v@) == fields(line@),
        r@.len() == fields(line@).len(),
        forall|i: int| 0 <= i < r@.len() ==> (#[trigger] r@[i])@ == fields(line@)[i],
{
    let r = split_chars(line.as_slice(), '\t');
    proof {
        assert forall|i: int| 0 <= i < r@.len() implies (#[trigger] r@[i])@ == fields(line@)[i] by {
            assert(r@.map_values(|v: Vec<char>| v@)[i] == r@[i]@);
        }
    }
    r
}

/// The session that `line` describes, if it has the fields of one.
pub fn parse_session_line(line: &Vec<char>) -> (r: Option<SessionEntry>)
    ensures
        match r {
            Some(e) => session_line(line@) == Some(session_entry_view(e)),
            None => session_line(line@) is None,
        },
{
    let f = split_fields(line);
    if f.len() < 2 {
        return None;
    }
    let name = string_of(f[0].as_slice());
    let attached = is_flag(&f[1]);
    Some(SessionEntry { name, attached })
}

/// The window that `line` describes, if it has the fields of one.
pub fn parse_window_line(line: &Vec<char>) -> (r: Option<WindowEntry>)
    ensures
        match r {
            Some(e) => window_line(line@) == Some(window_entry_view(e)),
            None => window_line(line@) is None,
        },
{
    let f = split_fields(line);
    if f.len() < 3 {
        return None;
    }
    let index = number_field(&f[0], 0);
    let name = string_of(f[1].as_slice());
    let active = is_flag(&f[2]);
    Some(WindowEntry { index, name, active })
}

/// The pane that `line` describes, if it has the fields of one.
pub fn parse_pane_line(line: &Vec<char>) -> (r: Option<TmuxPane>)
    ensures
        match r {
            Some(p) => pane_line(line@) == Some(p@),
            None => pane_line(line@) is None,
        },
{
    let f = split_fields(line);
    if f.len() < 6 {
        return None;
    }
    let id = string_of(f[0].as_slice());
    let index = number_field(&f[1], 0);
    let width = number_field(&f[2], FALLBACK_WIDTH);
    let height = number_field(&f[3], FALLBACK_HEIGHT);
    let active = is_flag(&f[4]);
    let current_command = string_of(f[5].as_slice());
    Some(TmuxPane { id, index, width, height, active, current_command })
}

/// The sessions of a session listing, one for each well-formed line, in the
/// order of the lines.
pub fn parse_session_listing(text: &str) -> (r: Vec<SessionEntry>)
    ensures
        r@.map_values(|e: SessionEntry| session_entry_view(e)) == session_listing(text@),
{
    let cs = chars_of(text);
    let ls = split_lines(cs.as_slice());
    let ghost all = lines(text@);
    let ghost f = |l: Seq<char>| session_line(l);
    let mut out: Vec<SessionEntry> = Vec::new();
    let n = ls.len();
    let mut i: usize = 0;
    while i < n
        invariant
            i <= n,
            n == all.len(),
            all == lines(text@),
            f == (|l: Seq<char>| session_line(l)),
            ls@.map_values(|v: Vec<char>| v@) == all,
            out@.map_values(|e: SessionEntry| session_entry_view(e)) == all.take(i as int).filter_map(f),
        decreases n - i,
    {
        proof {
            all.lemma_filter_map_take_succ(f, i as int);
            assert(ls@.map_values(|v: Vec<char>| v@)[i as int] == ls@[i as int]@);
        }
        let ghost before = out@.map_values(|e: SessionEntry| session_entry_view(e));
        match parse_session_line(&ls[i]) {
            Some(e) => {
                out.push(e);
                proof {
                    assert(out@.map_values(|e: SessionEntry| session_entry_view(e)) == before.push(session_entry_view(e)));
                }
            },
            None => {},
        }
        i = i + 1;
    }
    proof {
        assert(all.take(n as int) == all);
    }
    out
}

/// The windows of a window listing, one for each well-formed line, in the
/// order of the lines.
pub fn parse_window_listing(text: &str) -> (r: Vec<WindowEntry>)
    ensures
        r@.map_values(|e: WindowEntry| window_entry_view(e)) == window_listing(text@),
{
    let cs = chars_of(text);
    let ls = split_lines(cs.as_slice());
    let ghost all = lines(text@);
    let ghost f = |l: Seq<char>| window_line(l);
    let mut out: Vec<WindowEntry> = Vec::new();
    let n = ls.len();
    let mut i: usize = 0;
    while i < n
        invariant
            i <= n,
            n == all.len(),
            all == lines(text@),
            f == (|l: Seq<char>| window_line(l)),
            ls@.map_values(|v: Vec<char>| v@) == all,
            out@.map_values(|e: WindowEntry| window_entry_view(e)) == all.take(i as int).filter_map(f),
        decreases n - i,
    {
        proof {
            all.lemma_filter_map_take_succ(f, i as int);
            assert(ls@.map_values(|v: Vec<char>| v@)[i as int] == ls@[i as int]@);
        }
        let ghost before = out@.map_values(|e: WindowEntry| window_entry_view(e));
        match parse_window_line(&ls[i]) {
            Some(e) => {
                out.push(e);
                proof {
                    assert(out@.map_values(|e: WindowEntry| window_entry_view(e)) == before.push(window_entry_view(e)));
                }
            },
            None => {},
        }
        i = i + 1;
    }
    proof {
        assert(all.take(n as int) == all);
    }
    out
}

/// The panes of a pane listing, one for each well-formed line, in the order
/// of the lines.
pub fn parse_pane_listing(text: &str) -> (r: Vec<TmuxPane>)
    ensures
        r@.map_values(|p: TmuxPane| p@) == pane_listing(text@),
{
    let cs = chars_of(text);
    let ls = split_lines(cs.as_slice());
    let ghost all = lines(text@);
    let ghost f = |l: Seq<char>| pane_line(l);
    let mut out: Vec<TmuxPane> = Vec::new();
    let n = ls.len();
    let mut i: usize = 0;
    while i < n
        invariant
            i <= n,
            n == all.len(),
            all == lines(text@),
            f == (|l: Seq<char>| pane_line(l)),
            ls@.map_values(|v: Vec<char>| v@) == all,
            out@.map_values(|p: TmuxPane| p@) == all.take(i as int).filter_map(f),
        decreases n - i,
    {
        proof {
            all.lemma_filter_map_take_succ(f, i as int);
            assert(ls@.map_values(|v: Vec<char>| v@)[i as int] == ls@[i as int]@);
        }
        let ghost before = out@.map_values(|p: TmuxPane| p@);
        match parse_pane_line(&ls[i]) {
            Some(p) => {
                out.push(p);
                proof {
                    assert(out@.map_values(|p: TmuxPane| p@) == before.push(p@));
                }
            },
            None => {},
        }
        i = i + 1;
    }
    proof {
        assert(all.take(n as int) == all);
    }
    out
}

/// The elements on which `f` gives a value.
pub open spec fn gives_value<A, B>(f: spec_fn(A) -> Option<B>) -> spec_fn(A) -> bool {
    |x: A| f(x) is Some
}

proof fn lemma_filter_map_follows_filter<A, B>(s: Seq<A>, f: spec_fn(A) -> Option<B>)
    ensures
        s.filter_map(f).len() == s.filter(gives_value(f)).len(),
        forall|i: int|
            0 <= i < s.filter_map(f).len() ==> Some(#[trigger] s.filter_map(f)[i]) == f(
                s.filter(gives_value(f))[i],
            ),
    decreases s.len(),
{
    reveal(Seq::filter);
    if s.len() > 0 {
        let rest = s.drop_last();
        lemma_filter_map_follows_filter(rest, f);
        let fm = s.filter_map(f);
        let fl = s.filter(gives_value(f));
        assert(gives_value(f)(s.last()) == f(s.last()) is Some);
        assert forall|i: int| 0 <= i < fm.len() implies Some(#[trigger] fm[i]) == f(fl[i]) by {
            if i < rest.filter_map(f).len() {
                assert(fm[i] == rest.filter_map(f)[i]);
                assert(fl[i] == rest.filter(gives_value(f))[i]);
            }
        }
    }
}

/// The well-formed lines of a session listing, in order.
pub open spec fn session_lines(text: Seq<char>) -> Seq<Seq<char>> {
    lines(text).filter(gives_value(|l: Seq<char>| session_line(l)))
}

/// A session listing gives one session for each well-formed line, in the
/// order of those lines, each with the name and flag of its line; malformed
/// lines are skipped.
pub proof fn lemma_listing_keeps_every_session(text: Seq<char>)
    ensures
        session_listing(text).len() == session_lines(text).len(),
        forall|i: int|
            0 <= i < session_lines(text).len() ==> Some(#[trigger] session_listing(text)[i])
                == session_line(session_lines(text)[i]),
{
    lemma_filter_map_follows_filter(lines(text), |l: Seq<char>| session_line(l));
}

} // verus!
