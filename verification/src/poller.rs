//! The poller's cycle: on each tick the fetched events are reconciled with
//! the retention cache — evict expired keys, partition into unseen and
//! already-seen, commit the unseen keys — and the unseen batch is sorted
//! into dispatch order. A failed fetch abandons the cycle untouched.

use vstd::prelude::*;
use crate::EventKey;
use crate::event::Event;
use crate::retention::{RetentionSet, live, unseen_of, key_set};

verus! {

broadcast use vstd::seq_lib::group_seq_properties;

/// Dispatch order: ascending end time, ties broken by ascending identifier
/// for determinism.
pub open spec fn key_le(a: Event, b: Event) -> bool {
    a.end < b.end || (a.end == b.end && a.id <= b.id)
}

/// The batch stands in dispatch order.
pub open spec fn batch_sorted(s: Seq<Event>) -> bool {
    forall|i: int, j: int| 0 <= i < j < s.len() ==> #[trigger] key_le(s[i], s[j])
}

/// The memory after one successful cycle: the unexpired previously
/// remembered keys, plus the keys of the events announced this cycle.
pub open spec fn cycle_set(s: Set<EventKey>, events: Seq<Event>, now: u64) -> Set<EventKey> {
    live(s, now) + key_set(unseen_of(events, live(s, now)))
}

/// The events one successful cycle announces, in fetch order (dispatch
/// then sorts them).
pub open spec fn cycle_batch(s: Set<EventKey>, events: Seq<Event>, now: u64) -> Seq<Event> {
    unseen_of(events, live(s, now))
}

fn key_le_exec(a: &Event, b: &Event) -> (r: bool)
    ensures
        r == key_le(*a, *b),
{
    a.end < b.end || (a.end == b.end && a.id <= b.id)
}

/// Where a new event belongs in an already sorted batch: after everything
/// that must precede it.
fn insertion_point(out: &Vec<Event>, e: &Event) -> (pos: usize)
    requires
        batch_sorted(out@),
    ensures
        pos <= out@.len(),
        forall|m: int| 0 <= m < pos ==> key_le(#[trigger] out@[m], *e),
        pos < out@.len() ==> !key_le(out@[pos as int], *e),
{
    let n = out.len();
    let mut j: usize = 0;
    while j < n
        invariant
            n == out@.len(),
            j <= n,
            forall|m: int| 0 <= m < j ==> key_le(#[trigger] out@[m], *e),
        decreases n - j,
    {
        if !key_le_exec(&out[j], e) {
            return j;
        }
        j += 1;
    }
    j
}

/// Inserting an element anywhere in a batch adds exactly it to the batch's
/// multiset of events.
proof fn lemma_insert_to_multiset(s: Seq<Event>, pos: int, e: Event)
    requires
        0 <= pos <= s.len(),
    ensures
        s.insert(pos, e).to_multiset() == s.to_multiset().insert(e),
{
    broadcast use vstd::multiset::group_multiset_axioms;

    let front = s.subrange(0, pos);
    let back = s.subrange(pos, s.len() as int);
    assert(s.insert(pos, e) == front.push(e) + back);
    vstd::seq_lib::lemma_multiset_commutative(front.push(e), back);
    vstd::seq_lib::lemma_multiset_commutative(front, back);
    assert(front + back =~= s);
    assert(front.push(e).to_multiset() =~= front.to_multiset().insert(e));
    assert(s.insert(pos, e).to_multiset() =~= s.to_multiset().insert(e));
}

/// Sorts a batch into dispatch order without adding, dropping or changing
/// any event.
pub fn sort_batch(events: &Vec<Event>) -> (r: Vec<Event>)
    ensures
        batch_sorted(r@),
        r@.to_multiset() == events@.to_multiset(),
{
    let n = events.len();
    let mut out: Vec<Event> = Vec::new();
    let mut i: usize = 0;
    proof {
        assert(events@.take(0) =~= out@);
    }
    while i < n
        invariant
            n == events@.len(),
            i <= n,
            batch_sorted(out@),
            out@.to_multiset() == events@.take(i as int).to_multiset(),
        decreases n - i,
    {
        let ghost out0 = out@;
        let e = events[i].clone();
        let pos = insertion_point(&out, &e);
        out.insert(pos, e);
        proof {
            out0.insert_ensures(pos as int, e);
            assert forall|a: int, b: int|
                0 <= a < b < out@.len() implies #[trigger] key_le(out@[a], out@[b]) by {
                if b < pos {
                    assert(out@[a] == out0[a] && out@[b] == out0[b]);
                } else if b == pos {
                    assert(out@[b] == e && out@[a] == out0[a]);
                } else {
                    assert(out@[b] == out0[b - 1]);
                    if a < pos {
                        assert(out@[a] == out0[a]);
                        assert(key_le(out0[a], out0[b - 1]));
                    } else if a == pos {
                        assert(out@[a] == e);
                        assert(!key_le(out0[pos as int], e));
                        assert(key_le(out0[pos as int], out0[b - 1]));
                    } else {
                        assert(out@[a] == out0[a - 1]);
                        assert(key_le(out0[a - 1], out0[b - 1]));
                    }
                }
            }
            lemma_insert_to_multiset(out0, pos as int, e);
            assert(events@.take(i + 1) =~= events@.take(i as int).push(events@[i as int]));
        }
        i += 1;
    }
    proof {
        assert(events@.take(n as int) =~= events@);
    }
    out
}

/// One successful poll cycle, as one atomic step over the retention cache:
/// evict expired keys at `now`, partition the fetch into unseen and seen,
/// commit the unseen keys, and hand back the unseen batch sorted into
/// dispatch order. No announced event's key was in the cache when the
/// cycle began and had an end time still in the future.
pub fn run_cycle(set: &mut RetentionSet, events: &Vec<Event>, now: u64) -> (batch: Vec<Event>)
    requires
        old(set).wf(),
    ensures
        final(set).wf(),
        final(set)@ == cycle_set(old(set)@, events@, now),
        batch@.to_multiset() == cycle_batch(old(set)@, events@, now).to_multiset(),
        batch_sorted(batch@),
        forall|i: int|
            0 <= i < batch@.len() ==> !live(old(set)@, now).contains(
                (#[trigger] batch@[i]).spec_key(),
            ),
{
    let (unseen, _) = set.partition(events, now);
    set.commit(&unseen);
    let batch = sort_batch(&unseen);
    proof {
        broadcast use Seq::lemma_filter_pred;

        assert forall|i: int|
            0 <= i < batch@.len() implies !live(old(set)@, now).contains(
            (#[trigger] batch@[i]).spec_key(),
        ) by {
            assert(batch@.contains(batch@[i]));
            assert(batch@.to_multiset().count(batch@[i]) > 0);
            assert(unseen@.to_multiset().count(batch@[i]) > 0);
            assert(unseen@.contains(batch@[i]));
            let m = choose|m: int| 0 <= m < unseen@.len() && unseen@[m] == batch@[i];
            assert(unseen@[m] == unseen_of(events@, live(old(set)@, now))[m]);
        }
    }
    batch
}

/// One poller tick. A failed fetch (`None`) abandons the cycle: the memory
/// is untouched and nothing is dispatched. A successful fetch runs the
/// full evict → partition → commit cycle and yields the dispatch batch.
pub fn poll_cycle(set: &mut RetentionSet, fetch: &Option<Vec<Event>>, now: u64) -> (batch: Vec<
    Event,
>)
    requires
        old(set).wf(),
    ensures
        final(set).wf(),
        match fetch {
            Some(events) => final(set)@ == cycle_set(old(set)@, events@, now)
                && batch@.to_multiset() == cycle_batch(old(set)@, events@, now).to_multiset()
                && batch_sorted(batch@),
            None => *final(set) == *old(set) && batch@ == Seq::<Event>::empty(),
        },
{
    match fetch {
        Some(events) => run_cycle(set, events, now),
        None => Vec::new(),
    }
}

/// Law (no duplicate announcement while unexpired): a key that is in the
/// memory and not yet expired at the cycle's observation time is not the
/// key of any event the cycle announces, and it is still in the memory
/// when the cycle completes.
pub proof fn lemma_no_duplicate_while_unexpired(
    s: Set<EventKey>,
    events: Seq<Event>,
    now: u64,
    k: EventKey,
)
    requires
        s.contains(k),
        k.end > now,
    ensures
        cycle_set(s, events, now).contains(k),
        forall|i: int|
            0 <= i < cycle_batch(s, events, now).len() ==> (#[trigger] cycle_batch(
                s,
                events,
                now,
            )[i]).spec_key() != k,
{
    broadcast use Seq::lemma_filter_pred;

    assert(live(s, now).contains(k));
}

/// The memory left after a whole run of successful cycles, oldest tick
/// first; each tick carries its fetch result and its observation time.
pub open spec fn run_sets(s: Set<EventKey>, ticks: Seq<(Seq<Event>, u64)>) -> Set<EventKey>
    decreases ticks.len(),
{
    if ticks.len() == 0 {
        s
    } else {
        cycle_set(run_sets(s, ticks.drop_last()), ticks.last().0, ticks.last().1)
    }
}

/// What cycle `c` of a run announces, in fetch order.
pub open spec fn tick_batch(s: Set<EventKey>, ticks: Seq<(Seq<Event>, u64)>, c: int) -> Seq<
    Event,
> {
    cycle_batch(run_sets(s, ticks.take(c)), ticks[c].0, ticks[c].1)
}

/// Law (no duplicate announcement while unexpired, whole runs): over any
/// sequence of successful poll cycles, a key remembered at the start is
/// the key of no announced event and survives every cycle, as long as
/// every cycle observes it before its end time.
pub proof fn lemma_no_duplicate_across_cycles(
    s: Set<EventKey>,
    ticks: Seq<(Seq<Event>, u64)>,
    k: EventKey,
)
    requires
        s.contains(k),
        forall|c: int| 0 <= c < ticks.len() ==> (#[trigger] ticks[c]).1 < k.end,
    ensures
        run_sets(s, ticks).contains(k),
        forall|c: int, i: int|
            0 <= c < ticks.len() && 0 <= i < tick_batch(s, ticks, c).len() ==> (#[trigger]
            tick_batch(s, ticks, c)[i]).spec_key() != k,
    decreases ticks.len(),
{
    if ticks.len() > 0 {
        let pre = ticks.drop_last();
        let last = ticks.last();
        lemma_no_duplicate_across_cycles(s, pre, k);
        lemma_no_duplicate_while_unexpired(run_sets(s, pre), last.0, last.1, k);
        assert forall|c: int, i: int|
            0 <= c < ticks.len() && 0 <= i < tick_batch(s, ticks, c).len() implies (#[trigger]
        tick_batch(s, ticks, c)[i]).spec_key() != k by {
            assert(ticks.take(c) =~= pre.take(c));
            if c < ticks.len() - 1 {
                assert(ticks[c] == pre[c]);
                assert(tick_batch(s, ticks, c) == tick_batch(s, pre, c));
            } else {
                assert(ticks.take(c) =~= pre);
                assert(tick_batch(s, ticks, c) == cycle_batch(run_sets(s, pre), last.0, last.1));
            }
        }
    }
}

/// Law (bounded retention): after eviction at observation time `now`, the
/// memory holds no key whose end time is at or before `now`.
pub proof fn lemma_bounded_retention(s: Set<EventKey>, now: u64)
    ensures
        forall|k: EventKey| #[trigger] live(s, now).contains(k) ==> k.end > now,
{
}

/// Law (idempotent eviction): evicting twice at the same observation time,
/// with nothing fetched or committed in between, leaves the memory exactly
/// as one eviction does.
pub proof fn lemma_evict_idempotent(s: Set<EventKey>, now: u64)
    ensures
        live(live(s, now), now) == live(s, now),
{
    assert(live(live(s, now), now) =~= live(s, now));
}

} // verus!
