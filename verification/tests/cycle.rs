//! One poll cycle after another: announcement deduplication, eviction and
//! dispatch ordering on concrete fetches.

use ctf_notify::event::Event;
use ctf_notify::poller::{poll_cycle, run_cycle, sort_batch};
use ctf_notify::retention::RetentionSet;
use ctf_notify::EventKey;

fn ev(id: u64, start: u64, end: u64) -> Event {
    Event {
        id,
        title: format!("event {}", id),
        description: String::from("an upcoming event"),
        start,
        end,
        weight: String::from("25.00"),
        url: None,
        logo_url: None,
        directory_url: None,
    }
}

const T: u64 = 1_000;

#[test]
fn first_fetch_is_announced_and_remembered() {
    // cycle 1: fetch [{id=1, end=T+10}] against an empty memory
    let mut set = RetentionSet::new();
    let fetch = vec![ev(1, T, T + 10)];
    let batch = run_cycle(&mut set, &fetch, T);
    assert_eq!(batch.len(), 1);
    assert_eq!(batch[0].id, 1);
    assert!(set.contains(&EventKey { id: 1, end: T + 10 }));
}

#[test]
fn repeated_fetch_is_suppressed_while_unexpired() {
    // cycle 2: the same fetch again; the key is unexpired, nothing is announced
    let mut set = RetentionSet::new();
    let fetch = vec![ev(1, T, T + 10)];
    let first = run_cycle(&mut set, &fetch, T);
    assert_eq!(first.len(), 1);
    let second = run_cycle(&mut set, &fetch, T + 1);
    assert!(second.is_empty());
    assert!(set.contains(&EventKey { id: 1, end: T + 10 }));
}

#[test]
fn expired_key_is_evicted() {
    // cycle 3 at now = T+11: the key (1, T+10) has ended and is dropped
    let mut set = RetentionSet::new();
    let fetch = vec![ev(1, T, T + 10)];
    run_cycle(&mut set, &fetch, T);
    assert!(set.contains(&EventKey { id: 1, end: T + 10 }));
    let empty_fetch: Vec<Event> = Vec::new();
    let batch = run_cycle(&mut set, &empty_fetch, T + 11);
    assert!(batch.is_empty());
    assert!(!set.contains(&EventKey { id: 1, end: T + 10 }));
}

#[test]
fn eviction_is_idempotent() {
    let mut set = RetentionSet::new();
    let fetch = vec![ev(1, T, T + 5), ev(2, T, T + 10), ev(3, T, T + 15)];
    run_cycle(&mut set, &fetch, T);
    set.evict(T + 10);
    let probe = [
        EventKey { id: 1, end: T + 5 },
        EventKey { id: 2, end: T + 10 },
        EventKey { id: 3, end: T + 15 },
    ];
    let after_once: Vec<bool> = probe.iter().map(|k| set.contains(k)).collect();
    assert_eq!(after_once, vec![false, false, true]);
    set.evict(T + 10);
    let after_twice: Vec<bool> = probe.iter().map(|k| set.contains(k)).collect();
    assert_eq!(after_once, after_twice);
}

#[test]
fn dispatch_is_sorted_by_end_time_then_id() {
    let mut set = RetentionSet::new();
    let fetch = vec![
        ev(7, T, T + 30),
        ev(1, T, T + 10),
        ev(2, T, T + 30),
        ev(9, T, T + 20),
    ];
    let batch = run_cycle(&mut set, &fetch, T);
    let order: Vec<(u64, u64)> = batch.iter().map(|e| (e.end, e.id)).collect();
    assert_eq!(
        order,
        vec![(T + 10, 1), (T + 20, 9), (T + 30, 2), (T + 30, 7)]
    );
}

#[test]
fn sort_batch_keeps_every_event() {
    let fetch = vec![ev(3, T, T + 3), ev(1, T, T + 1), ev(2, T, T + 2)];
    let sorted = sort_batch(&fetch);
    let ids: Vec<u64> = sorted.iter().map(|e| e.id).collect();
    assert_eq!(ids, vec![1, 2, 3]);
}

#[test]
fn failed_fetch_abandons_the_cycle() {
    let mut set = RetentionSet::new();
    let fetch = vec![ev(1, T, T + 10)];
    run_cycle(&mut set, &fetch, T);
    let batch = poll_cycle(&mut set, &None, T + 1);
    assert!(batch.is_empty());
    assert!(set.contains(&EventKey { id: 1, end: T + 10 }));
}

#[test]
fn successful_fetch_through_poll_cycle() {
    let mut set = RetentionSet::new();
    let batch = poll_cycle(&mut set, &Some(vec![ev(4, T, T + 4)]), T);
    assert_eq!(batch.len(), 1);
    assert!(set.contains(&EventKey { id: 4, end: T + 4 }));
}

#[test]
fn changed_end_time_is_a_new_key() {
    // known limitation: the same identifier with a changed end time makes a
    // new key, so the event is announced again
    let mut set = RetentionSet::new();
    run_cycle(&mut set, &vec![ev(1, T, T + 10)], T);
    let batch = run_cycle(&mut set, &vec![ev(1, T, T + 12)], T + 1);
    assert_eq!(batch.len(), 1);
    assert!(set.contains(&EventKey { id: 1, end: T + 10 }));
    assert!(set.contains(&EventKey { id: 1, end: T + 12 }));
}

#[test]
fn evict_partition_commit_steps() {
    // the three steps of the cycle, driven one by one
    let mut set = RetentionSet::new();
    let fetch = vec![ev(1, T, T + 10), ev(2, T, T + 20)];
    set.evict(T);
    let unseen = set.unseen(&fetch);
    assert_eq!(unseen.len(), 2);
    set.commit(&unseen);
    assert!(set.contains(&EventKey { id: 1, end: T + 10 }));
    assert!(set.contains(&EventKey { id: 2, end: T + 20 }));
    // a second partition now sees both
    let unseen_again = set.unseen(&fetch);
    assert!(unseen_again.is_empty());
}

#[test]
fn partition_preserves_fetch_order() {
    let mut set = RetentionSet::new();
    run_cycle(&mut set, &vec![ev(5, T, T + 5)], T);
    let fetch = vec![ev(9, T, T + 9), ev(5, T, T + 5), ev(3, T, T + 3)];
    let unseen = set.unseen(&fetch);
    let ids: Vec<u64> = unseen.iter().map(|e| e.id).collect();
    assert_eq!(ids, vec![9, 3]);
}

#[test]
fn partition_evicts_first() {
    // an expired key is evicted before the split, so its event counts as
    // unseen again under the same key
    let mut set = RetentionSet::new();
    run_cycle(&mut set, &vec![ev(1, T, T + 10)], T);
    let fetch = vec![ev(1, T, T + 10), ev(2, T, T + 20)];
    let (unseen, seen) = set.partition(&fetch, T + 10);
    let unseen_ids: Vec<u64> = unseen.iter().map(|e| e.id).collect();
    assert_eq!(unseen_ids, vec![1, 2]);
    assert!(seen.is_empty());
    assert!(!set.contains(&EventKey { id: 1, end: T + 10 }));
}

#[test]
fn partition_keeps_unexpired_keys_seen() {
    let mut set = RetentionSet::new();
    run_cycle(&mut set, &vec![ev(1, T, T + 10)], T);
    let fetch = vec![ev(1, T, T + 10), ev(2, T, T + 20)];
    let (unseen, seen) = set.partition(&fetch, T + 1);
    let unseen_ids: Vec<u64> = unseen.iter().map(|e| e.id).collect();
    let seen_ids: Vec<u64> = seen.iter().map(|e| e.id).collect();
    assert_eq!(unseen_ids, vec![2]);
    assert_eq!(seen_ids, vec![1]);
}

#[test]
fn empty_memory_by_default() {
    let set = RetentionSet::default();
    assert!(!set.contains(&EventKey { id: 1, end: 1 }));
}
