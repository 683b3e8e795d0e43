//! Verified core of an event-announcement service: a poll-and-deduplicate
//! scheduler that announces each upcoming event at most once, and a
//! per-announcement join workflow that turns member interactions into
//! registration requests.

use vstd::prelude::*;

pub mod event;
pub mod listener;
pub mod notify;
pub mod numfmt;
pub mod poller;
pub mod retention;
pub mod welcome;

verus! {

/// The identity under which an announced event is remembered for
/// deduplication: the event identifier paired with the event's end time
/// (seconds since the epoch). A change in reported end time yields a new
/// key, so the same identifier with a new end time is announced again.
#[derive(PartialEq, Eq, Structural, Clone, Copy, Debug)]
pub struct EventKey {
    pub id: u64,
    pub end: u64,
}

/// The user data handed to every command invocation by the command
/// framework. The core keeps no per-command state, so it is empty.
pub struct Data {}

} // verus!
