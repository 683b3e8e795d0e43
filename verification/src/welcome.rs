//! The welcome challenge: the decision of what one attempt earns and what
//! is said back, separated from the chat platform calls that carry it out.

use vstd::prelude::*;
use vstd::string::StringExecFns;

verus! {

/// What the flag gate decides before anything is looked up: the member
/// already has the role, the submitted flag is wrong, or the member must
/// be looked up in the space to be granted the role.
#[derive(PartialEq, Eq, Structural, Clone, Copy, Debug)]
pub enum WelcomeGate {
    AlreadyHasRole,
    WrongFlag,
    CheckMember,
}

/// What looking the member up in the space yielded: found, not a member of
/// the space, or the lookup itself failed.
#[derive(PartialEq, Eq, Structural, Clone, Copy, Debug)]
pub enum MemberLookup {
    Found,
    NotMember,
    Failed,
}

/// The flag gate: a member who already has the role is told so whatever
/// they submit; otherwise only the exact configured flag passes on to the
/// member lookup.
pub fn welcome_gate(has_role: bool, flag: &String, expected: &String) -> (g: WelcomeGate)
    ensures
        has_role ==> g == WelcomeGate::AlreadyHasRole,
        !has_role && flag@ == expected@ ==> g == WelcomeGate::CheckMember,
        !has_role && flag@ != expected@ ==> g == WelcomeGate::WrongFlag,
{
    if has_role {
        WelcomeGate::AlreadyHasRole
    } else if *flag == *expected {
        WelcomeGate::CheckMember
    } else {
        WelcomeGate::WrongFlag
    }
}

/// Whether the role is to be granted once the member lookup is known: only
/// to a member actually found in the space.
pub fn welcome_grants(member: &MemberLookup) -> (r: bool)
    ensures
        r == (*member == MemberLookup::Found),
{
    match member {
        MemberLookup::Found => true,
        _ => false,
    }
}

/// The reply for an attempt that passed the flag gate, by member lookup
/// outcome.
pub fn welcome_member_reply(member: &MemberLookup) -> (r: String)
    ensures
        *member == MemberLookup::Found ==> r@
            == "Congratulations! You have earned the \"Curious Hacker\" role!"@,
        *member == MemberLookup::NotMember ==> r@
            == "Please join the SIGINT server first! https://discord.gg/WynY7FD3HP"@,
        *member == MemberLookup::Failed ==> r@
            == "An error has occurred, please contact SIGINT admin"@,
{
    match member {
        MemberLookup::Found => String::from_str(
            "Congratulations! You have earned the \"Curious Hacker\" role!",
        ),
        MemberLookup::NotMember => String::from_str(
            "Please join the SIGINT server first! https://discord.gg/WynY7FD3HP",
        ),
        MemberLookup::Failed => String::from_str(
            "An error has occurred, please contact SIGINT admin",
        ),
    }
}

/// The reply for an attempt the flag gate stopped.
pub fn welcome_gate_reply(g: &WelcomeGate) -> (r: String)
    requires
        *g != WelcomeGate::CheckMember,
    ensures
        *g == WelcomeGate::AlreadyHasRole ==> r@
            == "You already have the \"Curious Hacker\" role."@,
        *g == WelcomeGate::WrongFlag ==> r@
            == "I don't think that is the right flag... Try harder!"@,
{
    match g {
        WelcomeGate::WrongFlag => String::from_str(
            "I don't think that is the right flag... Try harder!",
        ),
        _ => String::from_str("You already have the \"Curious Hacker\" role."),
    }
}

} // verus!
