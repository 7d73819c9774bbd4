//! Target addresses: `session`, `session:window` and `session:window.pane`.
use vstd::prelude::*;

use crate::text::{chars_of, decimal, push_decimal, string_of};

verus! {

/// The address of a window: the session name, `:`, the window index.
pub open spec fn window_target_spec(session: Seq<char>, window: u32) -> Seq<char> {
    session + seq![':'] + decimal(window as nat)
}

/// The address of a pane: the window's address, `.`, the pane index.
pub open spec fn pane_target_spec(session: Seq<char>, window: u32, pane: u32) -> Seq<char> {
    window_target_spec(session, window) + seq!['.'] + decimal(pane as nat)
}

/// The address of a session: its name alone.
pub fn session_target(session: &str) -> (r: String)
    ensures
        r@ == session@,
{
    let cs = chars_of(session);
    string_of(cs.as_slice())
}

/// The address of window `window` of `session`.
pub fn window_target(session: &str, window: u32) -> (r: String)
    ensures
        r@ == window_target_spec(session@, window),
{
    let mut cs = chars_of(session);
    cs.push(':');
    push_decimal(&mut cs, window);
    string_of(cs.as_slice())
}

/// The address of pane `pane` of window `window` of `session`.
pub fn pane_target(session: &str, window: u32, pane: u32) -> (r: String)
    ensures
        r@ == pane_target_spec(session@, window, pane),
{
    let mut cs = chars_of(session);
    cs.push(':');
    push_decimal(&mut cs, window);
    cs.push('.');
    push_decimal(&mut cs, pane);
    string_of(cs.as_slice())
}

} // verus!
