//! The notifier: renders the dispatch for one announced batch — a
//! role-mention preamble and, per event, the announcement fields and the
//! join-control tag that correlates interactions back to the event.

use vstd::prelude::*;
use vstd::string::StringExecFns;
use crate::event::Event;
use crate::numfmt::{dec_seq, u64_to_dec};

verus! {

/// The control tag that correlates a join control to exactly one event:
/// `"join:<event identifier>"`.
pub open spec fn custom_id_of(id: u64) -> Seq<char> {
    "join:"@ + dec_seq(id as int)
}

/// Builds the join-control tag for one event.
pub fn custom_id_for(id: u64) -> (r: String)
    ensures
        r@ == custom_id_of(id),
{
    let mut s = String::from_str("join:");
    let d = u64_to_dec(id);
    s.append(d.as_str());
    s
}

/// The "Dates" field text: start and end written as platform timestamp tags.
pub open spec fn dates_field_of(start: u64, end: u64) -> Seq<char> {
    "Starts: <t:"@ + dec_seq(start as int) + ":f>.\n Ends: <t:"@ + dec_seq(end as int) + ":f>"@
}

/// Renders the "Dates" field for an event running from `start` to `end`.
pub fn dates_field(start: u64, end: u64) -> (r: String)
    ensures
        r@ == dates_field_of(start, end),
{
    let mut s = String::from_str("Starts: <t:");
    let a = u64_to_dec(start);
    s.append(a.as_str());
    s.append(":f>.\n Ends: <t:");
    let b = u64_to_dec(end);
    s.append(b.as_str());
    s.append(":f>");
    proof {
        assert(s@ =~= dates_field_of(start, end));
    }
    s
}

/// The preamble message referencing the configured notification role.
pub open spec fn preamble_of(role_id: u64) -> Seq<char> {
    "<@&"@ + dec_seq(role_id as int) + ">"@
}

/// Renders the role-mention preamble.
pub fn preamble(role_id: u64) -> (r: String)
    ensures
        r@ == preamble_of(role_id),
{
    let mut s = String::from_str("<@&");
    let d = u64_to_dec(role_id);
    s.append(d.as_str());
    s.append(">");
    proof {
        assert(s@ =~= preamble_of(role_id));
    }
    s
}

/// One rendered announcement message: the fields shown to members plus the
/// join-control tag unique to the event.
pub struct Announcement {
    pub title: String,
    pub description: String,
    pub thumbnail: Option<String>,
    pub dates: String,
    pub weight: String,
    pub page_url: Option<String>,
    pub directory_url: Option<String>,
    pub custom_id: String,
}

/// An announcement carries exactly its event's fields: title and
/// description verbatim, the logo as optional thumbnail, the rendered
/// "Dates" field, the weight text, the optional links, and the event's own
/// join-control tag.
pub open spec fn rendered_from(a: Announcement, e: Event) -> bool {
    &&& a.title == e.title
    &&& a.description == e.description
    &&& a.thumbnail == e.logo_url
    &&& a.dates@ == dates_field_of(e.start, e.end)
    &&& a.weight == e.weight
    &&& a.page_url == e.url
    &&& a.directory_url == e.directory_url
    &&& a.custom_id@ == custom_id_of(e.id)
}

fn clone_opt_string(o: &Option<String>) -> (r: Option<String>)
    ensures
        r == *o,
{
    match o {
        Some(s) => Some(s.clone()),
        None => None,
    }
}

/// Renders the announcement message for one event.
pub fn render_announcement(e: &Event) -> (a: Announcement)
    ensures
        rendered_from(a, *e),
{
    Announcement {
        title: e.title.clone(),
        description: e.description.clone(),
        thumbnail: clone_opt_string(&e.logo_url),
        dates: dates_field(e.start, e.end),
        weight: e.weight.clone(),
        page_url: clone_opt_string(&e.url),
        directory_url: clone_opt_string(&e.directory_url),
        custom_id: custom_id_for(e.id),
    }
}

/// Everything one dispatch emits: the preamble, then one announcement per
/// event in batch order.
pub struct DispatchPlan {
    pub preamble: String,
    pub messages: Vec<Announcement>,
}

/// Plans the dispatch of a sorted batch. An empty batch dispatches
/// nothing — in particular no preamble; a non-empty batch dispatches the
/// role preamble and then each event's announcement, in batch order.
pub fn plan_dispatch(batch: &Vec<Event>, role_id: u64) -> (plan: Option<DispatchPlan>)
    ensures
        plan is None <==> batch@.len() == 0,
        plan matches Some(p) ==> {
            &&& p.preamble@ == preamble_of(role_id)
            &&& p.messages@.len() == batch@.len()
            &&& forall|i: int|
                0 <= i < batch@.len() ==> rendered_from(#[trigger] p.messages@[i], batch@[i])
        },
{
    if batch.len() == 0 {
        return None;
    }
    let n = batch.len();
    let mut messages: Vec<Announcement> = Vec::new();
    let mut i: usize = 0;
    while i < n
        invariant
            n == batch@.len(),
            i <= n,
            messages@.len() == i,
            forall|j: int| 0 <= j < i ==> rendered_from(#[trigger] messages@[j], batch@[j]),
        decreases n - i,
    {
        let a = render_announcement(&batch[i]);
        messages.push(a);
        i += 1;
    }
    Some(DispatchPlan { preamble: preamble(role_id), messages })
}

/// Whether an identity-service role may announce upcoming events: only the
/// user manager and the user administrator may.
pub open spec fn spec_may_announce(role: Option<String>) -> bool {
    match role {
        Some(s) => s@ == "user_manager"@ || s@ == "user_admin"@,
        None => false,
    }
}

/// The announce-permission guard over the role the identity service
/// reported (or did not report) for the requesting member.
pub fn may_announce(role: &Option<String>) -> (r: bool)
    ensures
        r == spec_may_announce(*role),
{
    match role {
        Some(s) => {
            let manager = String::from_str("user_manager");
            let admin = String::from_str("user_admin");
            *s == manager || *s == admin
        },
        None => false,
    }
}

/// Help text of the command that lists upcoming events for a time frame.
pub fn generate_help_get_ctf() -> (r: String)
    ensures
        r@ == "Get all upcoming ctfs for the requested time frame"@,
{
    String::from_str("Get all upcoming ctfs for the requested time frame")
}

/// Help text of the command that toggles the announcement role.
pub fn generate_help_assign_ctf_announcement_role() -> (r: String)
    ensures
        r@ == "Get the ctf announcement role to get pinged for all upcoming ctftime ctfs"@,
{
    String::from_str("Get the ctf announcement role to get pinged for all upcoming ctftime ctfs")
}

} // verus!
