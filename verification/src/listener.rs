//! The join listener: one session per announced event, bound to the
//! announcement message and the event's join-control tag, accepting only
//! matching interactions until its fixed expiry deadline. Each matching
//! interaction becomes one independent registration request; the reply to
//! the clicking member carries the registration outcome verbatim.

use vstd::prelude::*;
use vstd::string::StringExecFns;
use crate::numfmt::{dec_seq, u64_to_dec};
use crate::notify::{custom_id_of, custom_id_for};

verus! {

/// A member's wish to join one event, as handed to the registration
/// service.
#[derive(PartialEq, Eq, Structural, Clone, Copy, Debug)]
pub struct JoinRequest {
    pub member_id: u64,
    pub event_id: u64,
}

/// What the registration service answered: the outcome message shown to
/// the member, and whether the reply carried a registration token.
pub struct JoinResult {
    pub message: String,
    pub success: bool,
}

/// An interaction as the chat platform reports it: the message it was made
/// on, the tag of the control that was used, and the member who used it.
pub struct Interaction {
    pub message_id: u64,
    pub action_id: String,
    pub member_id: u64,
}

/// The listener's states: waiting for a matching interaction, waiting for
/// the registration service to answer one member's request, or closed for
/// good after the deadline.
pub enum ListenerState {
    Listening,
    Registering { member_id: u64 },
    Closed,
}

/// What can happen to a session: an interaction arrives, the registration
/// service answers, or the expiry deadline elapses with nothing matching.
pub enum ListenerInput {
    Interaction(Interaction),
    ServiceReply(JoinResult),
    DeadlineElapsed,
}

/// What the session asks its surroundings to do after a step: nothing,
/// issue a registration request, reply to the clicking member, or tear the
/// session down.
pub enum ListenerAction {
    Ignore,
    Register(JoinRequest),
    Respond(String),
    Close,
}

/// The reply shown to the clicking member: a mention of the member
/// followed by the registration outcome message verbatim.
pub open spec fn join_response_of(member_id: u64, message: Seq<char>) -> Seq<char> {
    "<@"@ + dec_seq(member_id as int) + "> "@ + message
}

/// Renders the per-member reply for one registration outcome.
pub fn render_join_response(member_id: u64, message: &str) -> (r: String)
    ensures
        r@ == join_response_of(member_id, message@),
{
    let mut s = String::from_str("<@");
    let d = u64_to_dec(member_id);
    s.append(d.as_str());
    s.append("> ");
    s.append(message);
    proof {
        assert(s@ =~= join_response_of(member_id, message@));
    }
    s
}

/// One listening session, created when its event is announced and bound
/// for its whole life to that announcement message, the event's
/// join-control tag, and an expiry deadline fixed at creation.
pub struct ListenerSession {
    pub event_id: u64,
    pub message_id: u64,
    pub custom_id: String,
    pub deadline: u64,
    pub state: ListenerState,
}

impl ListenerSession {
    /// The binding is consistent: the session's control tag is its own
    /// event's.
    pub open spec fn wf(&self) -> bool {
        self.custom_id@ == custom_id_of(self.event_id)
    }

    /// An interaction belongs to this session exactly when it was made on
    /// the bound announcement message and its control tag is exactly the
    /// session's own.
    pub open spec fn spec_matches(&self, i: Interaction) -> bool {
        i.message_id == self.message_id && i.action_id@ == self.custom_id@
    }

    /// Opens the session for an announced event, listening, with the
    /// expiry deadline fixed at announcement time plus the configured
    /// window.
    pub fn new(event_id: u64, message_id: u64, announced_at: u64, window: u64) -> (s: Self)
        requires
            announced_at + window <= u64::MAX,
        ensures
            s.wf(),
            s.event_id == event_id,
            s.message_id == message_id,
            s.deadline == announced_at + window,
            s.state == ListenerState::Listening,
    {
        ListenerSession {
            event_id,
            message_id,
            custom_id: custom_id_for(event_id),
            deadline: announced_at + window,
            state: ListenerState::Listening,
        }
    }

    /// Whether an interaction belongs to this session.
    pub fn matches(&self, i: &Interaction) -> (r: bool)
        ensures
            r == self.spec_matches(*i),
    {
        i.message_id == self.message_id && i.action_id == self.custom_id
    }

    /// Whether the session's fixed deadline has elapsed at `now`.
    pub fn deadline_elapsed(&self, now: u64) -> (r: bool)
        ensures
            r == (now >= self.deadline),
    {
        now >= self.deadline
    }

    /// One step of the session. While listening, a matching interaction
    /// opens one registration for the clicking member and everything else
    /// but the deadline is ignored with no state change and no response;
    /// the deadline closes the session for good. While registering, the
    /// service's reply is answered to the member verbatim and the session
    /// returns to listening. The binding never changes.
    pub fn step(&mut self, input: ListenerInput) -> (act: ListenerAction)
        requires
            old(self).wf(),
        ensures
            final(self).wf(),
            final(self).event_id == old(self).event_id,
            final(self).message_id == old(self).message_id,
            final(self).custom_id == old(self).custom_id,
            final(self).deadline == old(self).deadline,
            (match input {
                ListenerInput::Interaction(i) => {
                    if old(self).state is Listening && old(self).spec_matches(i) {
                        &&& final(self).state == (ListenerState::Registering {
                            member_id: i.member_id,
                        })
                        &&& act == ListenerAction::Register(
                            JoinRequest { member_id: i.member_id, event_id: old(self).event_id },
                        )
                    } else {
                        final(self).state == old(self).state && act == ListenerAction::Ignore
                    }
                },
                ListenerInput::ServiceReply(res) => {
                    match old(self).state {
                        ListenerState::Registering { member_id } => {
                            &&& final(self).state == ListenerState::Listening
                            &&& act matches ListenerAction::Respond(t) && t@ == join_response_of(
                                member_id,
                                res.message@,
                            )
                        },
                        _ => final(self).state == old(self).state && act
                            == ListenerAction::Ignore,
                    }
                },
                ListenerInput::DeadlineElapsed => {
                    if old(self).state is Listening {
                        final(self).state == ListenerState::Closed && act
                            == ListenerAction::Close
                    } else {
                        final(self).state == old(self).state && act == ListenerAction::Ignore
                    }
                },
            }),
    {
        match input {
            ListenerInput::Interaction(i) => {
                let listening = match &self.state {
                    ListenerState::Listening => true,
                    _ => false,
                };
                if listening && self.matches(&i) {
                    self.state = ListenerState::Registering { member_id: i.member_id };
                    ListenerAction::Register(
                        JoinRequest { member_id: i.member_id, event_id: self.event_id },
                    )
                } else {
                    ListenerAction::Ignore
                }
            },
            ListenerInput::ServiceReply(res) => {
                let registering_member: Option<u64> = match &self.state {
                    ListenerState::Registering { member_id } => Some(*member_id),
                    _ => None,
                };
                match registering_member {
                    Some(m) => {
                        self.state = ListenerState::Listening;
                        ListenerAction::Respond(render_join_response(m, res.message.as_str()))
                    },
                    None => ListenerAction::Ignore,
                }
            },
            ListenerInput::DeadlineElapsed => {
                let listening = match &self.state {
                    ListenerState::Listening => true,
                    _ => false,
                };
                if listening {
                    self.state = ListenerState::Closed;
                    ListenerAction::Close
                } else {
                    ListenerAction::Ignore
                }
            },
        }
    }
}

} // verus!
