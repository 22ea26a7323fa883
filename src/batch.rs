use vstd::prelude::*;

use crate::event::Event;

verus! {

/// The most events one polling cycle collects.
pub const EVENT_CAPACITY: usize = 128;

/// What the poller does next.
#[derive(Clone, Copy, Debug, PartialEq, Eq, Structural)]
pub enum PollStep {
    /// Block until the native source delivers one event.
    Wait,
    /// Take a queued native event without blocking, if there is one.
    Poll,
    /// The batch is complete.
    Done,
}

/// The first step of a polling cycle: a window that waits for input blocks
/// for one event first; an asynchronous one only drains what is queued.
pub open spec fn first_step(async_mode: bool) -> PollStep {
    if async_mode {
        PollStep::Poll
    } else {
        PollStep::Wait
    }
}

/// `batch` with as much of `converted` appended as capacity leaves room for.
pub open spec fn absorb(batch: Seq<Event>, converted: Seq<Event>) -> Seq<Event> {
    let room = EVENT_CAPACITY - batch.len();
    if converted.len() <= room {
        batch + converted
    } else {
        batch + converted.take(room)
    }
}

/// Draining goes on while the batch is more than two entries short of
/// capacity.
pub open spec fn keeps_polling(batch: Seq<Event>) -> bool {
    batch.len() + 2 < EVENT_CAPACITY
}

/// The batch after taking the translations of queued native events in order,
/// starting from `batch`, until the queue is empty or draining stops.
pub open spec fn drain(batch: Seq<Event>, queue: Seq<Seq<Event>>) -> Seq<Event>
    decreases queue.len(),
{
    if queue.len() == 0 {
        batch
    } else {
        let next = absorb(batch, queue[0]);
        if keeps_polling(next) {
            drain(next, queue.drop_first())
        } else {
            next
        }
    }
}

/// The batch of one polling cycle. `waited` is the translation of the event
/// that a waiting window blocks for (unused by an asynchronous one); `queue`
/// holds the translations of the native events queued after it.
pub open spec fn batch_of(async_mode: bool, waited: Seq<Event>, queue: Seq<Seq<Event>>) -> Seq<
    Event,
> {
    if async_mode {
        drain(seq![], queue)
    } else {
        drain(seq![], seq![waited] + queue)
    }
}

/// The events of one polling cycle, handed out once each, in order.
pub struct EventIter {
    pub events: Vec<Event>,
    /// How many have been handed out.
    pub i: usize,
}

impl EventIter {
    pub open spec fn wf(&self) -> bool {
        self.events@.len() <= EVENT_CAPACITY && self.i <= self.events@.len()
    }

    /// An empty batch.
    pub fn new() -> (r: EventIter)
        ensures
            r.wf(),
            r.events@.len() == 0,
            r.i == 0,
    {
        EventIter { events: Vec::new(), i: 0 }
    }

    /// The first step of a polling cycle.
    pub fn start(async_mode: bool) -> (r: PollStep)
        ensures
            r == first_step(async_mode),
    {
        if async_mode {
            PollStep::Poll
        } else {
            PollStep::Wait
        }
    }

    /// Takes in the outcome of a `Wait` or `Poll`: the translation of the
    /// native event received, or `None` where the queue was empty. Entries
    /// past capacity are dropped.
    pub fn receive(&mut self, converted: Option<Vec<Event>>) -> (r: PollStep)
        requires
            old(self).wf(),
        ensures
            final(self).wf(),
            final(self).i == old(self).i,
            match converted {
                None => final(self).events@ == old(self).events@ && r == PollStep::Done,
                Some(v) => final(self).events@ == absorb(old(self).events@, v@) && r == (if keeps_polling(
                    final(self).events@,
                ) {
                    PollStep::Poll
                } else {
                    PollStep::Done
                }),
            },
    {
        match converted {
            None => PollStep::Done,
            Some(v) => {
                let ghost start = self.events@;
                let mut k: usize = 0;
                while k < v.len() && self.events.len() < EVENT_CAPACITY
                    invariant
                        k <= v@.len(),
                        start.len() <= EVENT_CAPACITY,
                        self.events@ == start + v@.take(k as int),
                        self.events@.len() <= EVENT_CAPACITY,
                        self.i == old(self).i,
                        self.i <= start.len(),
                    decreases v@.len() - k,
                {
                    self.events.push(v[k]);
                    k = k + 1;
                    assert(self.events@ =~= start + v@.take(k as int));
                }
                assert(self.events@ =~= absorb(start, v@));
                if self.events.len() + 2 < EVENT_CAPACITY {
                    PollStep::Poll
                } else {
                    PollStep::Done
                }
            },
        }
    }

    /// How many events the batch holds.
    pub fn count(&self) -> (r: usize)
        ensures
            r == self.events@.len(),
    {
        self.events.len()
    }

    /// The next event not yet handed out, if any.
    pub fn next(&mut self) -> (r: Option<Event>)
        requires
            old(self).wf(),
        ensures
            final(self).wf(),
            final(self).events == old(self).events,
            old(self).i < old(self).events@.len() ==> r == Some(old(self).events@[old(self).i as int])
                && final(self).i == old(self).i + 1,
            old(self).i >= old(self).events@.len() ==> r.is_none() && final(self).i == old(self).i,
    {
        if self.i < self.events.len() {
            let e = self.events[self.i];
            self.i = self.i + 1;
            Some(e)
        } else {
            None
        }
    }
}

proof fn lemma_drain_prefix(batch: Seq<Event>, queue: Seq<Seq<Event>>)
    requires
        batch.len() <= EVENT_CAPACITY,
    ensures
        drain(batch, queue).len() <= EVENT_CAPACITY,
        drain(batch, queue).is_prefix_of(batch + queue.flatten()),
        batch.is_prefix_of(drain(batch, queue)),
    decreases queue.len(),
{
    if queue.len() == 0 {
        assert(batch + queue.flatten() =~= batch);
    } else {
        let next = absorb(batch, queue[0]);
        let rest = queue.drop_first();
        assert(queue.flatten() == queue[0] + rest.flatten());
        assert(next.is_prefix_of(batch + queue.flatten()));
        if keeps_polling(next) {
            assert(next =~= batch + queue[0]);
            lemma_drain_prefix(next, rest);
            assert(next + rest.flatten() =~= batch + queue.flatten());
        }
    }
}

/// One polling cycle never collects more than capacity, and what it collects
/// is the translations of the received native events, in order, cut short
/// rather than overflowing.
pub proof fn lemma_batch_bounded(async_mode: bool, waited: Seq<Event>, queue: Seq<Seq<Event>>)
    ensures
        batch_of(async_mode, waited, queue).len() <= EVENT_CAPACITY,
        async_mode ==> batch_of(async_mode, waited, queue).is_prefix_of(queue.flatten()),
        !async_mode ==> batch_of(async_mode, waited, queue).is_prefix_of(
            (seq![waited] + queue).flatten(),
        ),
{
    let empty: Seq<Event> = seq![];
    if async_mode {
        lemma_drain_prefix(empty, queue);
        assert(empty + queue.flatten() =~= queue.flatten());
    } else {
        lemma_drain_prefix(empty, seq![waited] + queue);
        assert(empty + (seq![waited] + queue).flatten() =~= (seq![waited] + queue).flatten());
    }
}

/// Once more native events are queued than fit, the batch is cut off
/// within two entries of capacity.
pub proof fn lemma_batch_truncates(batch: Seq<Event>, queue: Seq<Seq<Event>>)
    requires
        batch.len() <= EVENT_CAPACITY,
        batch.len() + queue.flatten().len() >= EVENT_CAPACITY,
    ensures
        drain(batch, queue).len() + 2 >= EVENT_CAPACITY,
    decreases queue.len(),
{
    if queue.len() > 0 {
        let next = absorb(batch, queue[0]);
        let rest = queue.drop_first();
        assert(queue.flatten() == queue[0] + rest.flatten());
        if keeps_polling(next) {
            assert(next =~= batch + queue[0]);
            lemma_batch_truncates(next, rest);
        }
    }
}

/// An asynchronous window polls without waiting, and with nothing queued its
/// batch is empty.
pub proof fn lemma_async_empty_queue(waited: Seq<Event>)
    ensures
        first_step(true) == PollStep::Poll,
        batch_of(true, waited, seq![]) == Seq::<Event>::empty(),
{
}

/// A waiting window blocks for exactly one native event first; its batch
/// starts with that event's translation, followed by what was queued; with
/// nothing queued, the batch is that translation alone.
pub proof fn lemma_sync_waits_for_one(waited: Seq<Event>, queue: Seq<Seq<Event>>)
    requires
        waited.len() <= EVENT_CAPACITY,
    ensures
        first_step(false) == PollStep::Wait,
        waited.is_prefix_of(batch_of(false, waited, queue)),
        batch_of(false, waited, seq![]) == waited,
{
    let empty: Seq<Event> = seq![];
    let all = seq![waited] + queue;
    assert(all[0] == waited);
    assert(absorb(empty, waited) =~= waited);
    assert(all.drop_first() =~= queue);
    if keeps_polling(waited) {
        lemma_drain_prefix(waited, queue);
    }
    let one = seq![waited] + Seq::<Seq<Event>>::empty();
    assert(one[0] == waited);
    assert(one.drop_first() =~= Seq::<Seq<Event>>::empty());
    assert(drain(waited, one.drop_first()) == waited);
    assert(drain(empty, one) == waited);
}

} // verus!
