//! The queue of events that wait for the consumer.
//!
//! Whoever translates native events pushes them at the tail; the one consumer
//! pops them at the head. The queue has no bound: what is not consumed stays.
//! It is a plain value with one owner. Where producers and the consumer run on
//! different threads, the caller puts it behind a lock, and the order in which
//! the lock was taken is the order of the pushes.

use std::collections::VecDeque;
use vstd::prelude::*;

use crate::events::Event;

verus! {

/// The event at the head of a queue, if the queue has one.
pub open spec fn front(queue: Seq<Event>) -> Option<Event> {
    if queue.len() > 0 {
        Some(queue[0])
    } else {
        None
    }
}

/// A queue after its head was taken. An empty queue stays empty.
pub open spec fn after_pop(queue: Seq<Event>) -> Seq<Event> {
    if queue.len() > 0 {
        queue.drop_first()
    } else {
        queue
    }
}

/// A queue after `count` pops.
pub open spec fn after_pops(queue: Seq<Event>, count: nat) -> Seq<Event>
    decreases count,
{
    if count == 0 {
        queue
    } else {
        after_pops(after_pop(queue), (count - 1) as nat)
    }
}

/// A queue after the given events were pushed, one after the other.
pub open spec fn after_pushes(queue: Seq<Event>, events: Seq<Event>) -> Seq<Event>
    decreases events.len(),
{
    if events.len() == 0 {
        queue
    } else {
        after_pushes(queue.push(events[0]), events.drop_first())
    }
}

/// Events in the order in which they were pushed.
pub struct PendingQueue {
    events: VecDeque<Event>,
}

impl View for PendingQueue {
    type V = Seq<Event>;

    /// The events that wait, the head first.
    closed spec fn view(&self) -> Seq<Event> {
        self.events@
    }
}

impl PendingQueue {
    /// A queue with nothing in it.
    pub fn new() -> (queue: PendingQueue)
        ensures
            queue@ == Seq::<Event>::empty(),
    {
        PendingQueue { events: VecDeque::new() }
    }

    /// The number of events that wait.
    pub fn len(&self) -> (len: usize)
        ensures
            len == self@.len(),
    {
        self.events.len()
    }

    /// Whether no event waits.
    pub fn is_empty(&self) -> (empty: bool)
        ensures
            empty <==> self@.len() == 0,
    {
        self.events.len() == 0
    }

    /// Puts an event at the tail.
    pub fn push(&mut self, event: Event)
        ensures
            final(self)@ == old(self)@.push(event),
    {
        self.events.push_back(event);
    }

    /// Takes the event at the head. `None` if the queue is empty, which is
    /// then left as it is.
    pub fn pop_front(&mut self) -> (event: Option<Event>)
        ensures
            event == front(old(self)@),
            final(self)@ == after_pop(old(self)@),
    {
        let event = self.events.pop_front();
        assert(self@ =~= after_pop(old(self)@));
        event
    }

    /// Puts the given events at the tail, in their order.
    pub fn extend(&mut self, events: Vec<Event>)
        ensures
            final(self)@ == old(self)@ + events@,
    {
        let mut i: usize = 0;
        while i < events.len()
            invariant
                i <= events@.len(),
                self@ == old(self)@ + events@.take(i as int),
            decreases events@.len() - i,
        {
            self.events.push_back(events[i]);
            assert(events@.take(i as int + 1) =~= events@.take(i as int).push(events@[i as int]));
            assert(self@ =~= old(self)@ + events@.take(i as int + 1));
            i += 1;
        }
        assert(events@.take(events@.len() as int) =~= events@);
    }

    /// Takes every event that waits, the head first, and leaves the queue
    /// empty.
    pub fn drain(&mut self) -> (events: Vec<Event>)
        ensures
            events@ == old(self)@,
            final(self)@ == Seq::<Event>::empty(),
    {
        let mut events: Vec<Event> = Vec::new();
        loop
            invariant
                events@ + self@ == old(self)@,
            ensures
                events@ == old(self)@,
                self@ == Seq::<Event>::empty(),
            decreases self@.len(),
        {
            let ghost waiting = self@;
            match self.events.pop_front() {
                Some(event) => {
                    events.push(event);
                    assert(events@ + self@ =~= old(self)@) by {
                        assert(waiting =~= seq![event] + self@);
                    }
                },
                None => {
                    assert(self@ =~= Seq::<Event>::empty());
                    assert(events@ =~= events@ + self@);
                    break ;
                },
            }
        }
        events
    }
}

/// Pushing events one after the other puts them behind what waits already, in
/// the order of the pushes.
pub proof fn lemma_pushes_append(queue: Seq<Event>, events: Seq<Event>)
    ensures
        after_pushes(queue, events) == queue + events,
    decreases events.len(),
{
    if events.len() == 0 {
        assert(queue + events =~= queue);
    } else {
        lemma_pushes_append(queue.push(events[0]), events.drop_first());
        assert(queue.push(events[0]) + events.drop_first() =~= queue + events);
    }
}

/// Popping `count` times takes the first `count` events away, or all of them
/// where there are fewer.
pub proof fn lemma_pops_skip(queue: Seq<Event>, count: nat)
    ensures
        count <= queue.len() ==> after_pops(queue, count) == queue.skip(count as int),
        count >= queue.len() ==> after_pops(queue, count) == Seq::<Event>::empty(),
    decreases count,
{
    if count == 0 {
        assert(queue.skip(0) =~= queue);
        if queue.len() == 0 {
            assert(queue =~= Seq::<Event>::empty());
        }
    } else {
        lemma_pops_skip(after_pop(queue), (count - 1) as nat);
        if queue.len() > 0 {
            if count <= queue.len() {
                assert(queue.drop_first().skip(count - 1) =~= queue.skip(count as int));
            }
        } else {
            assert(queue =~= Seq::<Event>::empty());
        }
    }
}

/// First in, first out: after any number of pushes onto an empty queue, the
/// pops give the events back in the order in which they were pushed, and the
/// pop after the last of them gives `None`.
pub proof fn lemma_first_in_first_out(events: Seq<Event>, i: nat)
    ensures
        i < events.len() ==> front(after_pops(after_pushes(Seq::empty(), events), i)) == Some(
            events[i as int],
        ),
        i >= events.len() ==> front(after_pops(after_pushes(Seq::empty(), events), i)) is None,
{
    lemma_pushes_append(Seq::empty(), events);
    assert(Seq::<Event>::empty() + events =~= events);
    lemma_pops_skip(events, i);
}

} // verus!
