//! A terminal dashboard for sessions, windows and panes of a terminal
//! multiplexer: the state machine that drives it, the parsing of the
//! multiplexer's listings, and the scaling of captured styled output into
//! thumbnails.
pub mod cli;
pub mod dispatch;
pub mod listing;
pub mod messages;
pub mod model;
pub mod preview;
pub mod state;
pub mod target;
pub mod text;
