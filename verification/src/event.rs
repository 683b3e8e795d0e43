//! The event data model: what the external events directory reports, and
//! the key under which an announced event is remembered.

use vstd::prelude::*;
use vstd::string::StringExecFns;
use crate::EventKey;
use crate::numfmt::{dec_seq, u64_to_dec};

verus! {

/// An upcoming event as reported by the external events directory,
/// immutable once fetched. Times are seconds since the epoch. The weight
/// ranking is carried as its rendered text: the core never computes with
/// it, it only places it in an announcement field.
pub struct Event {
    pub id: u64,
    pub title: String,
    pub description: String,
    pub start: u64,
    pub end: u64,
    pub weight: String,
    pub url: Option<String>,
    pub logo_url: Option<String>,
    pub directory_url: Option<String>,
}

impl Event {
    /// The deduplication identity of this event.
    pub open spec fn spec_key(&self) -> EventKey {
        EventKey { id: self.id, end: self.end }
    }

    /// The deduplication identity of this event.
    pub fn key(&self) -> (k: EventKey)
        ensures
            k == self.spec_key(),
    {
        EventKey { id: self.id, end: self.end }
    }

    /// The end time of the event, seconds since the epoch.
    pub fn finish(&self) -> (t: u64)
        ensures
            t == self.end,
    {
        self.end
    }
}

fn clone_opt_string(o: &Option<String>) -> (r: Option<String>)
    ensures
        r == *o,
{
    match o {
        Some(s) => Some(s.clone()),
        None => None,
    }
}

impl Clone for Event {
    fn clone(&self) -> (r: Self)
        ensures
            r == *self,
    {
        Event {
            id: self.id,
            title: self.title.clone(),
            description: self.description.clone(),
            start: self.start,
            end: self.end,
            weight: self.weight.clone(),
            url: clone_opt_string(&self.url),
            logo_url: clone_opt_string(&self.logo_url),
            directory_url: clone_opt_string(&self.directory_url),
        }
    }
}

impl From<Event> for EventKey {
    /// Forgets everything about an event but its deduplication identity.
    fn from(e: Event) -> (k: EventKey)
        ensures
            k == e.spec_key(),
    {
        EventKey { id: e.id, end: e.end }
    }
}

impl vstd::std_specs::convert::FromSpecImpl<Event> for EventKey {
    open spec fn obeys_from_spec() -> bool {
        true
    }

    open spec fn from_spec(e: Event) -> EventKey {
        e.spec_key()
    }
}

/// The window lengths a member may ask upcoming events for.
pub enum TimeFrame {
    Today,
    Tomorrow,
    Week,
}

impl TimeFrame {
    /// Length of the requested window, in seconds.
    pub open spec fn spec_duration(&self) -> u64 {
        match self {
            TimeFrame::Today => 86_400,
            TimeFrame::Tomorrow => 172_800,
            TimeFrame::Week => 604_800,
        }
    }

    /// Length of the requested window, in seconds.
    pub fn to_duration(&self) -> (secs: u64)
        ensures
            secs == self.spec_duration(),
    {
        match self {
            TimeFrame::Today => 86_400,
            TimeFrame::Tomorrow => 172_800,
            TimeFrame::Week => 604_800,
        }
    }
}

/// The time window handed to the event source: it opens at the observation
/// time and closes one requested duration later.
pub fn fetch_window(now: u64, duration: u64) -> (w: (u64, u64))
    requires
        now + duration <= u64::MAX,
    ensures
        w.0 == now,
        w.1 == now + duration,
{
    (now, now + duration)
}

/// The start time of an event that ends at `finish` and lasts the given
/// number of days plus hours, as the events directory reports durations.
pub fn start_from_finish(finish: u64, days: u64, hours: u64) -> (start: u64)
    requires
        days * 86_400 + hours * 3_600 <= finish,
    ensures
        start == finish - days * 86_400 - hours * 3_600,
{
    finish - days * 86_400 - hours * 3_600
}

/// The request line handed to the events directory: the result-count cap
/// and the time window, start and finish in seconds since the epoch.
pub open spec fn events_query_of(start: u64, finish: u64) -> Seq<char> {
    "https://ctftime.org/api/v1/events/?limit=100&start="@ + dec_seq(start as int) + "&finish="@
        + dec_seq(finish as int)
}

/// Renders the events-directory request for one polling window.
pub fn events_query(start: u64, finish: u64) -> (r: String)
    ensures
        r@ == events_query_of(start, finish),
{
    let mut s = String::from_str("https://ctftime.org/api/v1/events/?limit=100&start=");
    let a = u64_to_dec(start);
    s.append(a.as_str());
    s.append("&finish=");
    let b = u64_to_dec(finish);
    s.append(b.as_str());
    proof {
        assert(s@ =~= events_query_of(start, finish));
    }
    s
}

/// A session token issued by the identity service for one member: the
/// opaque token text, the identity-service user it belongs to, and when it
/// expires (seconds since the epoch).
pub struct Token {
    pub token: String,
    pub user_id: i32,
    pub exp: i64,
}

} // verus!
