//! The retention cache: the poller's memory of previously announced
//! events. One cycle evicts the keys of events that have already ended,
//! partitions a fetch into unseen and already-seen events, and commits the
//! keys of the events it is about to announce.

use vstd::prelude::*;
use crate::EventKey;
use crate::event::Event;

verus! {

broadcast use vstd::seq_lib::group_seq_properties;

/// The keys that survive eviction at observation time `now`: exactly those
/// whose end time is still in the future.
pub open spec fn live(s: Set<EventKey>, now: u64) -> Set<EventKey> {
    Set::new(|k: EventKey| s.contains(k) && k.end > now)
}

/// The events of a fetch whose key is not in `s`, in fetch order.
pub open spec fn unseen_of(events: Seq<Event>, s: Set<EventKey>) -> Seq<Event> {
    events.filter(|e: Event| !s.contains(e.spec_key()))
}

/// The events of a fetch whose key is in `s`, in fetch order.
pub open spec fn seen_of(events: Seq<Event>, s: Set<EventKey>) -> Seq<Event> {
    events.filter(|e: Event| s.contains(e.spec_key()))
}

/// The deduplication keys of a batch of events.
pub open spec fn key_set(events: Seq<Event>) -> Set<EventKey> {
    Set::new(
        |k: EventKey|
            exists|i: int| 0 <= i < events.len() && (#[trigger] events[i].spec_key()) == k,
    )
}

/// Extending a batch by one event adds exactly that event's key to its key set.
proof fn lemma_key_set_take_step(events: Seq<Event>, i: int)
    requires
        0 <= i < events.len(),
    ensures
        key_set(events.take(i + 1)) == key_set(events.take(i)).insert(events[i].spec_key()),
{
    let prefix = events.take(i + 1);
    let shorter = events.take(i);
    assert forall|x: EventKey|
        key_set(prefix).contains(x) == key_set(shorter).insert(events[i].spec_key()).contains(
            x,
        ) by {
        if key_set(prefix).contains(x) {
            let m = choose|m: int| 0 <= m < prefix.len() && (#[trigger] prefix[m].spec_key()) == x;
            if m < i {
                assert(shorter[m].spec_key() == x);
            } else {
                assert(prefix[m] == events[i]);
            }
        }
        if key_set(shorter).contains(x) {
            let m = choose|m: int|
                0 <= m < shorter.len() && (#[trigger] shorter[m].spec_key()) == x;
            assert(prefix[m].spec_key() == x);
        }
        if x == events[i].spec_key() {
            assert(prefix[i].spec_key() == x);
        }
    }
    assert(key_set(prefix) =~= key_set(shorter).insert(events[i].spec_key()));
}

/// The process-lifetime set of already-announced event keys, owned by the
/// poller alone and mutated only inside its own cycle.
pub struct RetentionSet {
    keys: Vec<EventKey>,
}

impl View for RetentionSet {
    type V = Set<EventKey>;

    closed spec fn view(&self) -> Set<EventKey> {
        self.keys@.to_set()
    }
}

impl RetentionSet {
    /// No key is remembered twice.
    pub closed spec fn wf(&self) -> bool {
        forall|i: int, j: int|
            0 <= i < j < self.keys@.len() ==> self.keys@[i] != self.keys@[j]
    }

    /// An empty memory: nothing has been announced yet.
    pub fn new() -> (s: Self)
        ensures
            s@ == Set::<EventKey>::empty(),
            s.wf(),
    {
        let s = RetentionSet { keys: Vec::new() };
        proof {
            assert(s.keys@.to_set() =~= Set::<EventKey>::empty());
        }
        s
    }

    /// Whether an event with this key has been announced and not yet evicted.
    pub fn contains(&self, k: &EventKey) -> (b: bool)
        ensures
            b == self@.contains(*k),
    {
        let n = self.keys.len();
        let mut i: usize = 0;
        while i < n
            invariant
                n == self.keys@.len(),
                i <= n,
                forall|j: int| 0 <= j < i ==> self.keys@[j] != *k,
            decreases n - i,
        {
            if self.keys[i] == *k {
                return true;
            }
            i += 1;
        }
        proof {
            assert(!self.keys@.contains(*k));
        }
        false
    }

    /// Remembers one key; remembering a key twice changes nothing.
    fn insert_key(&mut self, k: EventKey)
        requires
            old(self).wf(),
        ensures
            final(self).wf(),
            final(self)@ == old(self)@.insert(k),
    {
        let fresh = !self.contains(&k);
        if fresh {
            self.keys.push(k);
            proof {
                let before = old(self).keys@;
                let after = self.keys@;
                assert forall|x: EventKey| after.contains(x) == before.to_set().insert(k).contains(
                    x,
                ) by {
                    if after.contains(x) {
                        let m = choose|m: int| 0 <= m < after.len() && after[m] == x;
                        if m < before.len() {
                            assert(before[m] == x);
                        }
                    }
                    if before.contains(x) {
                        let m = choose|m: int| 0 <= m < before.len() && before[m] == x;
                        assert(after[m] == x);
                    }
                    if x == k {
                        assert(after[after.len() - 1] == x);
                    }
                }
                assert(after.to_set() =~= before.to_set().insert(k));
                assert(!before.contains(k));
                assert forall|i: int, j: int|
                    0 <= i < j < after.len() implies after[i] != after[j] by {
                    if j == after.len() - 1 {
                        assert(before.contains(before[i]));
                    }
                }
            }
        } else {
            proof {
                assert(old(self)@.insert(k) =~= old(self)@);
            }
        }
    }

    /// Removes every key whose end time is at or before `now`: afterwards
    /// the memory holds exactly the previously remembered keys that are
    /// still unexpired.
    pub fn evict(&mut self, now: u64)
        requires
            old(self).wf(),
        ensures
            final(self).wf(),
            final(self)@ == live(old(self)@, now),
    {
        let ghost ks = old(self).keys@;
        let n = self.keys.len();
        let mut kept: Vec<EventKey> = Vec::new();
        let mut i: usize = 0;
        while i < n
            invariant
                self == old(self),
                old(self).wf(),
                n == ks.len(),
                ks == self.keys@,
                i <= n,
                forall|j: int|
                    0 <= j < kept@.len() ==> ks.take(i as int).contains(#[trigger] kept@[j])
                        && kept@[j].end > now,
                forall|k: EventKey| #[trigger]
                    ks.take(i as int).contains(k) && k.end > now ==> kept@.contains(k),
                forall|a: int, b: int| 0 <= a < b < kept@.len() ==> kept@[a] != kept@[b],
            decreases n - i,
        {
            let k = self.keys[i];
            proof {
                assert(ks.take(i + 1) =~= ks.take(i as int).push(k));
            }
            let ghost kept0 = kept@;
            if k.end > now {
                proof {
                    assert(!kept@.contains(k)) by {
                        if kept@.contains(k) {
                            let j = choose|j: int| 0 <= j < kept@.len() && kept@[j] == k;
                            assert(ks.take(i as int).contains(kept@[j]));
                            let m = choose|m: int|
                                0 <= m < i && ks.take(i as int)[m] == kept@[j];
                            assert(ks[m] == ks[i as int]);
                        }
                    }
                }
                kept.push(k);
                proof {
                    assert forall|j: int|
                        0 <= j < kept@.len() implies ks.take(i + 1).contains(#[trigger] kept@[j])
                            && kept@[j].end > now by {
                        if j < kept@.len() - 1 {
                            let m = choose|m: int|
                                0 <= m < i && ks.take(i as int)[m] == kept0[j];
                            assert(ks.take(i + 1)[m] == kept@[j]);
                        } else {
                            assert(ks.take(i + 1)[i as int] == k);
                        }
                    }
                    assert forall|x: EventKey|
                        ks.take(i + 1).contains(x) && x.end > now implies kept@.contains(x) by {
                        let m = choose|m: int|
                            0 <= m < ks.take(i + 1).len() && #[trigger] ks.take(i + 1)[m] == x;
                        if m < i {
                            assert(ks.take(i as int)[m] == x);
                            assert(ks.take(i as int).contains(x));
                            assert(kept0.contains(x));
                            assert(kept@ == kept0.push(k));
                            assert(kept@.contains(x));
                        } else {
                            assert(kept@[kept@.len() - 1] == x);
                        }
                    }
                }
            } else {
                proof {
                    assert forall|x: EventKey|
                        ks.take(i + 1).contains(x) && x.end > now implies kept@.contains(x) by {
                        let m = choose|m: int|
                            0 <= m < ks.take(i + 1).len() && #[trigger] ks.take(i + 1)[m] == x;
                        assert(m != i);
                        assert(ks.take(i as int)[m] == x);
                        assert(ks.take(i as int).contains(x));
                    }
                }
            }
            i += 1;
        }
        proof {
            assert(ks.take(n as int) =~= ks);
            assert forall|x: EventKey| kept@.to_set().contains(x) == live(
                old(self)@,
                now,
            ).contains(x) by {
                if kept@.contains(x) {
                    let j = choose|j: int| 0 <= j < kept@.len() && kept@[j] == x;
                    assert(ks.contains(kept@[j]));
                }
                if old(self)@.contains(x) && x.end > now {
                    assert(ks.contains(x));
                }
            }
            assert(kept@.to_set() =~= live(old(self)@, now));
        }
        self.keys = kept;
    }

    /// Splits a fetch against the current memory: what is not yet
    /// remembered and what is, both in fetch order.
    fn split(&self, events: &Vec<Event>) -> (r: (Vec<Event>, Vec<Event>))
        ensures
            r.0@ == unseen_of(events@, self@),
            r.1@ == seen_of(events@, self@),
    {
        let n = events.len();
        let mut fresh_events: Vec<Event> = Vec::new();
        let mut known_events: Vec<Event> = Vec::new();
        let mut i: usize = 0;
        proof {
            reveal(Seq::filter);
            assert(events@.take(0) =~= Seq::<Event>::empty());
            assert(fresh_events@ == unseen_of(events@.take(0), self@));
            assert(known_events@ == seen_of(events@.take(0), self@));
        }
        while i < n
            invariant
                n == events@.len(),
                i <= n,
                fresh_events@ == unseen_of(events@.take(i as int), self@),
                known_events@ == seen_of(events@.take(i as int), self@),
            decreases n - i,
        {
            let e = &events[i];
            if self.contains(&e.key()) {
                known_events.push(e.clone());
            } else {
                fresh_events.push(e.clone());
            }
            proof {
                reveal(Seq::filter);
                let prefix = events@.take(i + 1);
                assert(prefix.drop_last() =~= events@.take(i as int));
                assert(prefix.last() == events@[i as int]);
            }
            i += 1;
        }
        proof {
            assert(events@.take(n as int) =~= events@);
        }
        (fresh_events, known_events)
    }

    /// The events of a fetch that are not yet remembered, in fetch order.
    pub fn unseen(&self, events: &Vec<Event>) -> (r: Vec<Event>)
        ensures
            r@ == unseen_of(events@, self@),
    {
        let (fresh_events, _) = self.split(events);
        fresh_events
    }

    /// Eviction, then the split of the fetch against what is still
    /// remembered: first every expired key leaves the memory, then the
    /// fetch parts into `unseen` (key not remembered) and `seen` (key
    /// remembered), both in fetch order. So an event whose prior
    /// announcement has expired counts as seen only while its key is
    /// unexpired; once evicted it is eligible again under the same key.
    pub fn partition(&mut self, events: &Vec<Event>, now: u64) -> (r: (Vec<Event>, Vec<Event>))
        requires
            old(self).wf(),
        ensures
            final(self).wf(),
            final(self)@ == live(old(self)@, now),
            r.0@ == unseen_of(events@, live(old(self)@, now)),
            r.1@ == seen_of(events@, live(old(self)@, now)),
    {
        self.evict(now);
        self.split(events)
    }

    /// Remembers the keys of a freshly announced batch, in the same cycle
    /// in which it is announced.
    pub fn commit(&mut self, batch: &Vec<Event>)
        requires
            old(self).wf(),
        ensures
            final(self).wf(),
            final(self)@ == old(self)@ + key_set(batch@),
    {
        let n = batch.len();
        let mut i: usize = 0;
        proof {
            assert(old(self)@ + key_set(batch@.take(0)) =~= old(self)@);
        }
        while i < n
            invariant
                self.wf(),
                n == batch@.len(),
                i <= n,
                self@ == old(self)@ + key_set(batch@.take(i as int)),
            decreases n - i,
        {
            let k = batch[i].key();
            self.insert_key(k);
            proof {
                lemma_key_set_take_step(batch@, i as int);
                assert(old(self)@ + key_set(batch@.take(i + 1)) =~= (old(self)@ + key_set(
                    batch@.take(i as int),
                )).insert(k));
            }
            i += 1;
        }
        proof {
            assert(batch@.take(n as int) =~= batch@);
        }
    }
}

impl Default for RetentionSet {
    /// Same as `new`: an empty memory.
    fn default() -> (s: Self)
        ensures
            s@ == Set::<EventKey>::empty(),
            s.wf(),
    {
        RetentionSet::new()
    }
}

} // verus!
