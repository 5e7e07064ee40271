//! In-process publish/subscribe bus for domain events.
//!
//! The bus numbers every event it publishes, keeps the most recent ones up to its
//! capacity, and hands them to subscriptions in publication order.
use vstd::prelude::*;

use crate::clock::unix_time_ms;
use crate::domain::event::{event_kind, AppEvent, EventEnvelope, EventEnvelopeView, EventKind};

verus! {

pub const DEFAULT_EVENT_CAPACITY: usize = 256;

/// The sequence number of the event at `index` in publication order (numbering starts at 1
/// and stays at `u64::MAX` once it gets there).
pub open spec fn sequence_for(index: int) -> u64 {
    if index + 1 < u64::MAX {
        (index + 1) as u64
    } else {
        u64::MAX
    }
}

/// Whether a subscription filter accepts events of `kind`; no filter accepts every kind.
pub open spec fn kind_selected(kinds: Option<Seq<EventKind>>, kind: EventKind) -> bool {
    match kinds {
        Some(kinds) => kinds.contains(kind),
        None => true,
    }
}

/// Whether a subscription positioned at `from` with filter `kinds` is owed `envelope`.
pub open spec fn deliverable(
    envelope: EventEnvelopeView,
    from: u64,
    kinds: Option<Seq<EventKind>>,
) -> bool {
    envelope.sequence >= from && kind_selected(kinds, event_kind(envelope.event))
}

pub struct EventBus {
    capacity: usize,
    next_sequence: u64,
    retained: Vec<EventEnvelope>,
    log: Ghost<Seq<EventEnvelopeView>>,
}

/// A subscriber's position in the bus and the kinds it selects.
pub struct Subscription {
    next_sequence: u64,
    kinds: Option<Vec<EventKind>>,
}

impl Subscription {
    pub closed spec fn position(&self) -> u64 {
        self.next_sequence
    }

    pub closed spec fn filter(&self) -> Option<Seq<EventKind>> {
        match self.kinds {
            Some(kinds) => Some(kinds@),
            None => None,
        }
    }
}

impl EventBus {
    /// Every event published on this bus, in order.
    pub closed spec fn published(&self) -> Seq<EventEnvelopeView> {
        self.log@
    }

    /// The most recent events, the ones still available to subscribers.
    pub closed spec fn retained(&self) -> Seq<EventEnvelopeView> {
        self.retained@.map_values(|envelope: EventEnvelope| envelope@)
    }

    pub closed spec fn spec_capacity(&self) -> usize {
        self.capacity
    }

    /// The sequence number the next published event receives.
    pub closed spec fn upcoming_sequence(&self) -> u64 {
        self.next_sequence
    }

    pub closed spec fn wf(&self) -> bool {
        let log = self.log@;
        let retained = self.retained();
        &&& self.capacity > 0
        &&& retained.len() <= self.capacity
        &&& retained.len() <= log.len()
        &&& retained == log.subrange(log.len() - retained.len(), log.len() as int)
        &&& forall|i: int| 0 <= i < log.len() ==> #[trigger] log[i].sequence == sequence_for(i)
        &&& self.next_sequence == sequence_for(log.len() as int)
    }

    /// A bus that retains up to `capacity` events (at least one).
    pub fn new(capacity: usize) -> (r: Self)
        ensures
            r.wf(),
            r.published() == Seq::<EventEnvelopeView>::empty(),
            r.spec_capacity() == (if capacity == 0 { 1 } else { capacity }),
            r.upcoming_sequence() == 1,
    {
        let capacity = if capacity == 0 {
            1
        } else {
            capacity
        };
        let bus = EventBus {
            capacity,
            next_sequence: 1,
            retained: Vec::new(),
            log: Ghost(Seq::empty()),
        };
        assert(bus.retained() =~= Seq::<EventEnvelopeView>::empty());
        assert(bus.log@.subrange(0, 0) =~= Seq::<EventEnvelopeView>::empty());
        bus
    }

    pub fn capacity(&self) -> (r: usize)
        ensures
            r == self.spec_capacity(),
    {
        self.capacity
    }

    /// Publishes `event` with the next sequence number; returns that number.
    pub fn publish(&mut self, event: AppEvent) -> (sequence: u64)
        requires
            old(self).wf(),
        ensures
            final(self).wf(),
            sequence == old(self).upcoming_sequence(),
            final(self).spec_capacity() == old(self).spec_capacity(),
            final(self).published().len() == old(self).published().len() + 1,
            final(self).published().drop_last() == old(self).published(),
            final(self).published().last().sequence == sequence,
            final(self).published().last().event == event@,
    {
        let sequence = self.next_sequence;
        let envelope = EventEnvelope::new(sequence, unix_time_ms(), event);
        let ghost old_retained = self.retained();
        let ghost old_log = self.log@;
        let ghost view = envelope@;
        if self.retained.len() >= self.capacity {
            self.retained.remove(0);
            assert(self.retained() =~= old_retained.drop_first());
        }
        let ghost mid = self.retained();
        self.retained.push(envelope);
        assert(self.retained() =~= mid.push(view));
        self.log = Ghost(old_log.push(view));
        self.next_sequence = if sequence < u64::MAX {
            sequence + 1
        } else {
            u64::MAX
        };
        proof {
            let log = self.log@;
            let retained = self.retained();
            assert(log.drop_last() =~= old_log);
            assert(retained =~= log.subrange(log.len() - retained.len(), log.len() as int));
        }
        sequence
    }

    /// A subscription to every event published from now on.
    pub fn subscribe(&self) -> (r: Subscription)
        ensures
            r.position() == self.upcoming_sequence(),
            r.filter() is None,
    {
        Subscription { next_sequence: self.next_sequence, kinds: None }
    }

    /// A subscription to the events of the given kinds published from now on.
    pub fn subscribe_to(&self, kinds: Vec<EventKind>) -> (r: Subscription)
        ensures
            r.position() == self.upcoming_sequence(),
            r.filter() == Some(kinds@),
    {
        Subscription { next_sequence: self.next_sequence, kinds: Some(kinds) }
    }

    /// The oldest retained event owed to `subscription`, if any; the subscription moves past it,
    /// or to the end of the bus when none is owed.
    pub fn try_recv(&self, subscription: &mut Subscription) -> (r: Option<EventEnvelope>)
        requires
            self.wf(),
        ensures
            final(subscription).filter() == old(subscription).filter(),
            r matches Some(envelope) ==> exists|k: int|
                0 <= k < self.retained().len() && #[trigger] self.retained()[k] == envelope@
                    && deliverable(
                    self.retained()[k],
                    old(subscription).position(),
                    old(subscription).filter(),
                ) && (forall|j: int|
                    0 <= j < k ==> !deliverable(
                        #[trigger] self.retained()[j],
                        old(subscription).position(),
                        old(subscription).filter(),
                    )),
            r matches Some(envelope) ==> final(subscription).position() == (if envelope.sequence
                < u64::MAX {
                (envelope.sequence + 1) as u64
            } else {
                u64::MAX
            }),
            r is None ==> forall|j: int|
                0 <= j < self.retained().len() ==> !deliverable(
                    #[trigger] self.retained()[j],
                    old(subscription).position(),
                    old(subscription).filter(),
                ),
            r is None ==> final(subscription).position() == self.upcoming_sequence(),
    {
        let mut i: usize = 0;
        while i < self.retained.len()
            invariant
                self.wf(),
                *subscription == *old(subscription),
                0 <= i <= self.retained@.len(),
                forall|j: int|
                    0 <= j < i ==> !deliverable(
                        #[trigger] self.retained()[j],
                        subscription.position(),
                        subscription.filter(),
                    ),
            decreases self.retained@.len() - i,
        {
            let envelope = &self.retained[i];
            let selected = match &subscription.kinds {
                Some(kinds) => contains_kind(kinds, envelope.event.kind()),
                None => true,
            };
            assert(self.retained()[i as int] == envelope@);
            if envelope.sequence >= subscription.next_sequence && selected {
                let found = envelope.clone();
                subscription.next_sequence = if envelope.sequence < u64::MAX {
                    envelope.sequence + 1
                } else {
                    u64::MAX
                };
                return Some(found);
            }
            i = i + 1;
        }
        subscription.next_sequence = self.next_sequence;
        None
    }

    /// The retained events, oldest first.
    pub fn retained_events(&self) -> (r: &Vec<EventEnvelope>)
        ensures
            r@.map_values(|envelope: EventEnvelope| envelope@) == self.retained(),
    {
        &self.retained
    }
}

/// Events are numbered in publication order: an earlier event has a smaller sequence number,
/// as long as the numbering has not reached its ceiling.
pub proof fn lemma_published_sequences_increase(bus: EventBus, i: int, j: int)
    requires
        bus.wf(),
        0 <= i < j < bus.published().len(),
        j + 1 < u64::MAX,
    ensures
        bus.published()[i].sequence < bus.published()[j].sequence,
{
}

/// The bus keeps the latest events only: what it retains is the most recent part of what it
/// published, never more than its capacity.
pub proof fn lemma_retained_are_latest(bus: EventBus)
    requires
        bus.wf(),
    ensures
        bus.retained().len() <= bus.spec_capacity(),
        bus.retained() == bus.published().subrange(
            bus.published().len() - bus.retained().len(),
            bus.published().len() as int,
        ),
{
}

impl Default for EventBus {
    fn default() -> (r: Self)
        ensures
            r.wf(),
            r.published() == Seq::<EventEnvelopeView>::empty(),
            r.spec_capacity() == DEFAULT_EVENT_CAPACITY,
    {
        EventBus::new(DEFAULT_EVENT_CAPACITY)
    }
}

/// Whether `kind` is one of `kinds`.
pub fn contains_kind(kinds: &Vec<EventKind>, kind: EventKind) -> (r: bool)
    ensures
        r == kinds@.contains(kind),
{
    let mut i: usize = 0;
    while i < kinds.len()
        invariant
            0 <= i <= kinds@.len(),
            forall|j: int| 0 <= j < i ==> kinds@[j] != kind,
        decreases kinds@.len() - i,
    {
        if kinds[i] == kind {
            assert(kinds@[i as int] == kind);
            return true;
        }
        i = i + 1;
    }
    false
}

} // verus!
