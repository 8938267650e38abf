//! Decision logic of a file-change trigger: raw change notifications are
//! classified, filtered by file extension and debounced into invocations of a
//! command line, at most one per debounce window.
//!
//! Nothing here blocks, prints or spawns. A driver owns the event source and
//! the process launcher, feeds each notification together with the current
//! time to [`watch::Watch::step`], and carries out what the returned
//! [`watch::Outcome`] asks for.

pub mod command;
pub mod debounce;
pub mod event;
pub mod filter;
pub mod text;
pub mod watch;
