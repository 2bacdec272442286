//! The timeout scheduler: pending expiry deadlines, each tagged with the
//! notification and the generation of the schedule that set it.
//!
//! The scheduler never touches the registry; it only hands out the events
//! whose deadline has passed. Whether such an event still applies is decided
//! by the generation check of the registry.
use vstd::prelude::*;

verus! {

/// A deadline for notification `id`, set by the schedule of `generation`.
#[derive(Clone, Copy, Debug, PartialEq, Eq, Structural)]
pub struct ExpiryEvent {
    pub deadline: u64,
    pub id: u32,
    pub generation: u64,
}

/// The events of `s` that are due at `now`, in the order they were scheduled.
pub open spec fn due_events(s: Seq<ExpiryEvent>, now: u64) -> Seq<ExpiryEvent>
    decreases s.len(),
{
    if s.len() == 0 {
        Seq::empty()
    } else {
        let rest = due_events(s.drop_last(), now);
        if s.last().deadline <= now {
            rest.push(s.last())
        } else {
            rest
        }
    }
}

/// The events of `s` that are still pending at `now`, in the order they were
/// scheduled.
pub open spec fn pending_events(s: Seq<ExpiryEvent>, now: u64) -> Seq<ExpiryEvent>
    decreases s.len(),
{
    if s.len() == 0 {
        Seq::empty()
    } else {
        let rest = pending_events(s.drop_last(), now);
        if s.last().deadline <= now {
            rest
        } else {
            rest.push(s.last())
        }
    }
}

/// Every event that [`due_events`] keeps is due.
pub proof fn lemma_due_events_are_due(s: Seq<ExpiryEvent>, now: u64)
    ensures
        forall|i: int|
            0 <= i < due_events(s, now).len() ==> #[trigger] due_events(s, now)[i].deadline <= now,
    decreases s.len(),
{
    if s.len() > 0 {
        lemma_due_events_are_due(s.drop_last(), now);
        let rest = due_events(s.drop_last(), now);
        assert forall|i: int| 0 <= i < due_events(s, now).len() implies #[trigger] due_events(s, now)[i].deadline <= now by {
            if i < rest.len() {
                assert(rest[i] == due_events(s, now)[i]);
            }
        }
    }
}

/// Every event that [`pending_events`] keeps is not yet due.
pub proof fn lemma_pending_events_are_pending(s: Seq<ExpiryEvent>, now: u64)
    ensures
        forall|i: int|
            0 <= i < pending_events(s, now).len() ==> #[trigger] pending_events(s, now)[i].deadline
                > now,
    decreases s.len(),
{
    if s.len() > 0 {
        lemma_pending_events_are_pending(s.drop_last(), now);
        let rest = pending_events(s.drop_last(), now);
        assert forall|i: int| 0 <= i < pending_events(s, now).len() implies #[trigger] pending_events(s, now)[i].deadline > now by {
            if i < rest.len() {
                assert(rest[i] == pending_events(s, now)[i]);
            }
        }
    }
}

/// `d` is the deadline of some event of `s`, and no event of `s` is due
/// before it.
pub open spec fn is_earliest_deadline(s: Seq<ExpiryEvent>, d: u64) -> bool {
    &&& exists|i: int| 0 <= i < s.len() && #[trigger] s[i].deadline == d
    &&& forall|i: int| 0 <= i < s.len() ==> d <= #[trigger] s[i].deadline
}

/// The pending deadlines.
pub struct Scheduler {
    pending: Vec<ExpiryEvent>,
}

impl View for Scheduler {
    type V = Seq<ExpiryEvent>;

    closed spec fn view(&self) -> Seq<ExpiryEvent> {
        self.pending@
    }
}

impl Scheduler {
    pub fn new() -> (r: Scheduler)
        ensures
            r@ == Seq::<ExpiryEvent>::empty(),
    {
        Scheduler { pending: Vec::new() }
    }

    pub fn len(&self) -> (r: usize)
        ensures
            r == self@.len(),
    {
        self.pending.len()
    }

    /// Add a deadline.
    pub fn schedule(&mut self, event: ExpiryEvent)
        ensures
            final(self)@ == old(self)@.push(event),
    {
        self.pending.push(event);
    }

    /// The earliest pending deadline, if any.
    pub fn next_deadline(&self) -> (r: Option<u64>)
        ensures
            r.is_none() <==> self@.len() == 0,
            r matches Some(d) ==> is_earliest_deadline(self@, d),
    {
        let mut best: Option<u64> = None;
        let mut i: usize = 0;
        while i < self.pending.len()
            invariant
                i <= self@.len(),
                best.is_none() <==> i == 0,
                best matches Some(d) ==> (exists|j: int| 0 <= j < i && #[trigger] self@[j].deadline == d)
                    && forall|j: int| 0 <= j < i ==> d <= #[trigger] self@[j].deadline,
            decreases self@.len() - i,
        {
            let d = self.pending[i].deadline;
            best = match best {
                Some(b) => if d < b {
                    Some(d)
                } else {
                    Some(b)
                },
                None => Some(d),
            };
            i = i + 1;
        }
        best
    }

    /// Take out the events due at `now`; the others stay, in order.
    pub fn take_due(&mut self, now: u64) -> (r: Vec<ExpiryEvent>)
        ensures
            r@ == due_events(old(self)@, now),
            final(self)@ == pending_events(old(self)@, now),
    {
        let mut due: Vec<ExpiryEvent> = Vec::new();
        let mut keep: Vec<ExpiryEvent> = Vec::new();
        let mut i: usize = 0;
        while i < self.pending.len()
            invariant
                i <= self@.len(),
                due@ == due_events(self@.take(i as int), now),
                keep@ == pending_events(self@.take(i as int), now),
            decreases self@.len() - i,
        {
            let e = self.pending[i];
            proof {
                assert(self@.take(i as int + 1).drop_last() =~= self@.take(i as int));
            }
            if e.deadline <= now {
                due.push(e);
            } else {
                keep.push(e);
            }
            i = i + 1;
        }
        proof {
            assert(self@.take(i as int) =~= self@);
        }
        self.pending = keep;
        due
    }
}

} // verus!
