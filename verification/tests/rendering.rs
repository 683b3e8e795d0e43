//! Rendering and the small decisions: decimal writing, message fields,
//! dispatch planning, permission guards and the welcome challenge.

use ctf_notify::event::{
    events_query, fetch_window, start_from_finish, Event, TimeFrame, Token,
};
use ctf_notify::notify::{
    custom_id_for, dates_field, generate_help_assign_ctf_announcement_role,
    generate_help_get_ctf, may_announce, plan_dispatch, preamble, render_announcement,
};
use ctf_notify::numfmt::u64_to_dec;
use ctf_notify::welcome::{
    welcome_gate, welcome_gate_reply, welcome_grants, welcome_member_reply, MemberLookup,
    WelcomeGate,
};
use ctf_notify::EventKey;

fn sample_event() -> Event {
    Event {
        id: 12,
        title: String::from("Example CTF"),
        description: String::from("jeopardy, online"),
        start: 1_700_000_000,
        end: 1_700_172_800,
        weight: String::from("24.86"),
        url: Some(String::from("https://example.org/ctf")),
        logo_url: Some(String::from("https://example.org/logo.png")),
        directory_url: Some(String::from("https://directory.example/event/12")),
    }
}

#[test]
fn decimal_writing_is_exact() {
    assert_eq!(u64_to_dec(0), "0");
    assert_eq!(u64_to_dec(7), "7");
    assert_eq!(u64_to_dec(10), "10");
    assert_eq!(u64_to_dec(105), "105");
    assert_eq!(u64_to_dec(18_446_744_073_709_551_615), "18446744073709551615");
}

#[test]
fn join_control_tag() {
    assert_eq!(custom_id_for(5), "join:5");
    assert_eq!(custom_id_for(0), "join:0");
    assert_eq!(custom_id_for(1234), "join:1234");
}

#[test]
fn dates_field_text() {
    assert_eq!(
        dates_field(100, 200),
        "Starts: <t:100:f>.\n Ends: <t:200:f>"
    );
}

#[test]
fn preamble_mentions_the_role() {
    assert_eq!(preamble(42), "<@&42>");
}

#[test]
fn announcement_carries_the_event_fields() {
    let e = sample_event();
    let a = render_announcement(&e);
    assert_eq!(a.title, "Example CTF");
    assert_eq!(a.description, "jeopardy, online");
    assert_eq!(a.thumbnail, Some(String::from("https://example.org/logo.png")));
    assert_eq!(
        a.dates,
        "Starts: <t:1700000000:f>.\n Ends: <t:1700172800:f>"
    );
    assert_eq!(a.weight, "24.86");
    assert_eq!(a.page_url, Some(String::from("https://example.org/ctf")));
    assert_eq!(
        a.directory_url,
        Some(String::from("https://directory.example/event/12"))
    );
    assert_eq!(a.custom_id, "join:12");
}

#[test]
fn empty_batch_plans_no_dispatch() {
    let plan = plan_dispatch(&Vec::new(), 42);
    assert!(plan.is_none());
}

#[test]
fn non_empty_batch_plans_preamble_and_messages_in_order() {
    let mut second = sample_event();
    second.id = 13;
    let batch = vec![sample_event(), second];
    let plan = plan_dispatch(&batch, 42).expect("a non-empty batch is dispatched");
    assert_eq!(plan.preamble, "<@&42>");
    assert_eq!(plan.messages.len(), 2);
    assert_eq!(plan.messages[0].custom_id, "join:12");
    assert_eq!(plan.messages[1].custom_id, "join:13");
}

#[test]
fn announce_guard_accepts_managers_and_admins_only() {
    assert!(may_announce(&Some(String::from("user_manager"))));
    assert!(may_announce(&Some(String::from("user_admin"))));
    assert!(!may_announce(&Some(String::from("user_member"))));
    assert!(!may_announce(&Some(String::from(""))));
    assert!(!may_announce(&None));
}

#[test]
fn help_texts() {
    assert_eq!(
        generate_help_get_ctf(),
        "Get all upcoming ctfs for the requested time frame"
    );
    assert_eq!(
        generate_help_assign_ctf_announcement_role(),
        "Get the ctf announcement role to get pinged for all upcoming ctftime ctfs"
    );
}

#[test]
fn time_frames_in_seconds() {
    assert_eq!(TimeFrame::Today.to_duration(), 86_400);
    assert_eq!(TimeFrame::Tomorrow.to_duration(), 172_800);
    assert_eq!(TimeFrame::Week.to_duration(), 604_800);
}

#[test]
fn fetch_window_opens_now() {
    assert_eq!(fetch_window(100, 604_800), (100, 604_900));
}

#[test]
fn events_query_line() {
    assert_eq!(
        events_query(1, 2),
        "https://ctftime.org/api/v1/events/?limit=100&start=1&finish=2"
    );
}

#[test]
fn start_is_finish_less_duration() {
    assert_eq!(start_from_finish(1_000_000, 1, 2), 1_000_000 - 86_400 - 7_200);
}

#[test]
fn event_key_and_finish() {
    let e = sample_event();
    assert_eq!(e.key(), EventKey { id: 12, end: 1_700_172_800 });
    assert_eq!(e.finish(), 1_700_172_800);
    assert_eq!(EventKey::from(e), EventKey { id: 12, end: 1_700_172_800 });
}

#[test]
fn event_clone_is_exact() {
    let e = sample_event();
    let c = e.clone();
    assert_eq!(c.id, e.id);
    assert_eq!(c.title, e.title);
    assert_eq!(c.url, e.url);
    assert_eq!(c.end, e.end);
}

#[test]
fn welcome_gate_decisions() {
    let right = String::from("flag{hi}");
    let wrong = String::from("flag{no}");
    assert_eq!(
        welcome_gate(true, &right, &right),
        WelcomeGate::AlreadyHasRole
    );
    assert_eq!(welcome_gate(false, &right, &right), WelcomeGate::CheckMember);
    assert_eq!(welcome_gate(false, &wrong, &right), WelcomeGate::WrongFlag);
}

#[test]
fn welcome_replies_and_grant() {
    assert!(welcome_grants(&MemberLookup::Found));
    assert!(!welcome_grants(&MemberLookup::NotMember));
    assert!(!welcome_grants(&MemberLookup::Failed));
    assert_eq!(
        welcome_member_reply(&MemberLookup::Found),
        "Congratulations! You have earned the \"Curious Hacker\" role!"
    );
    assert_eq!(
        welcome_member_reply(&MemberLookup::NotMember),
        "Please join the SIGINT server first! https://discord.gg/WynY7FD3HP"
    );
    assert_eq!(
        welcome_member_reply(&MemberLookup::Failed),
        "An error has occurred, please contact SIGINT admin"
    );
    assert_eq!(
        welcome_gate_reply(&WelcomeGate::AlreadyHasRole),
        "You already have the \"Curious Hacker\" role."
    );
    assert_eq!(
        welcome_gate_reply(&WelcomeGate::WrongFlag),
        "I don't think that is the right flag... Try harder!"
    );
}

#[test]
fn token_fields() {
    let t = Token {
        token: String::from("abc123"),
        user_id: 3,
        exp: 1_700_000_000,
    };
    assert_eq!(t.user_id, 3);
    assert_eq!(t.exp, 1_700_000_000);
}
