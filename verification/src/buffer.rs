//! Rate-decoupling middleware: a bounded FIFO queue between producer and
//! consumer, with backpressure instead of loss.

use vstd::prelude::*;

use crate::service::{
    events_view, Event, EventView, Scope, ScopeView, Service, ServiceError,
};

verus! {

/// A bounded FIFO queue of events: the mutable heart of the buffering
/// middleware. A full queue rejects its producer — nothing is dropped
/// and nothing is reordered — until the consumer drains it.
pub struct BoundedQueue {
    items: Vec<Event>,
    capacity: usize,
}

impl View for BoundedQueue {
    type V = Seq<EventView>;

    closed spec fn view(&self) -> Seq<EventView> {
        events_view(self.items@)
    }
}

impl BoundedQueue {
    /// How many events the queue holds at most.
    pub closed spec fn spec_capacity(&self) -> nat {
        self.capacity as nat
    }

    /// The queue never holds more than its capacity, and has room for
    /// at least one event.
    #[verifier::type_invariant]
    closed spec fn wf(self) -> bool {
        self.items@.len() <= self.capacity && self.capacity >= 1
    }

    /// An empty queue of the given capacity.
    pub fn new(capacity: usize) -> (r: Self)
        requires
            capacity >= 1,
        ensures
            r@ == Seq::<EventView>::empty(),
            r.spec_capacity() == capacity,
    {
        let r = BoundedQueue { items: Vec::new(), capacity };
        proof {
            assert(r@ =~= Seq::<EventView>::empty());
        }
        r
    }

    /// How many events are queued.
    pub fn len(&self) -> (r: usize)
        ensures
            r == self@.len(),
    {
        self.items.len()
    }

    /// Whether the producer must suspend.
    pub fn is_full(&self) -> (r: bool)
        ensures
            r == (self@.len() == self.spec_capacity()),
    {
        proof {
            use_type_invariant(self);
        }
        self.items.len() == self.capacity
    }

    /// Accepts `e` at the tail unless the queue is full; a rejected event
    /// is returned to the producer, which is expected to try again once
    /// the consumer has drained — never to drop or reorder.
    pub fn push(&mut self, e: Event) -> (r: Result<(), Event>)
        ensures
            final(self).spec_capacity() == old(self).spec_capacity(),
            old(self)@.len() < old(self).spec_capacity() ==> {
                &&& r is Ok
                &&& final(self)@ == old(self)@.push(e@)
            },
            old(self)@.len() >= old(self).spec_capacity() ==> {
                &&& (match r {
                    Err(back) => back@ == e@,
                    Ok(_) => false,
                })
                &&& final(self)@ == old(self)@
            },
    {
        proof {
            use_type_invariant(&*self);
        }
        if self.items.len() == self.capacity {
            return Err(e);
        }
        let ghost e_snap = e;
        let mut items: Vec<Event> = Vec::new();
        std::mem::swap(&mut items, &mut self.items);
        items.push(e);
        self.items = items;
        proof {
            broadcast use vstd::prelude::Seq::group_seq_extra;

            assert(self@ =~= old(self)@.push(e_snap@));
        }
        Ok(())
    }

    /// Removes and returns the event at the head, if any: exactly the
    /// oldest one still queued.
    pub fn pop(&mut self) -> (r: Option<Event>)
        ensures
            final(self).spec_capacity() == old(self).spec_capacity(),
            old(self)@.len() > 0 ==> {
                &&& (match r {
                    Some(e) => e@ == old(self)@[0],
                    None => false,
                })
                &&& final(self)@ == old(self)@.drop_first()
            },
            old(self)@.len() == 0 ==> {
                &&& r is None
                &&& final(self)@ == old(self)@
            },
    {
        proof {
            use_type_invariant(&*self);
        }
        if self.items.len() == 0 {
            return None;
        }
        let mut items: Vec<Event> = Vec::new();
        std::mem::swap(&mut items, &mut self.items);
        let e = items.remove(0);
        self.items = items;
        proof {
            assert(self@ =~= old(self)@.drop_first());
        }
        Some(e)
    }
}

/// Passes a whole stream through a bounded queue the way the pump task
/// does: the producer enqueues until the queue is full, suspends while
/// the consumer drains, and resumes; the consumer receives every event,
/// in arrival order, none dropped and none duplicated.
pub fn pump_through(queue: &mut BoundedQueue, input: Vec<Event>) -> (out: Vec<Event>)
    requires
        old(queue)@.len() == 0,
    ensures
        events_view(out@) == events_view(input@),
        final(queue)@.len() == 0,
{
    let ghost all = events_view(input@);
    let mut out: Vec<Event> = Vec::new();
    let n = input.len();
    let mut input = input;
    let mut i: usize = 0;
    proof {
        use_type_invariant(&*queue);
        assert(events_view(out@) + queue@ =~= all.take(0));
    }
    while i < n
        invariant
            i <= n,
            n == input@.len(),
            all == events_view(input@),
            queue.spec_capacity() >= 1,
            events_view(out@) + queue@ =~= all.take(i as int),
        decreases n - i, queue@.len(),
    {
        let e = input[i].clone();
        proof {
            assert(e@ == all[i as int]);
        }
        let ghost queue_prior = queue@;
        match queue.push(e) {
            Ok(_) => {
                proof {
                    assert(queue@ == queue_prior.push(all[i as int]));
                    assert(all.take(i + 1) =~= all.take(i as int).push(all[i as int]));
                    assert(events_view(out@) + queue@ =~= (events_view(out@)
                        + queue_prior).push(all[i as int]));
                    assert(events_view(out@) + queue@ =~= all.take(i + 1));
                }
                i = i + 1;
            },
            Err(_) => {
                // The queue is full: the producer suspends while the
                // consumer takes the head; the rejected event is offered
                // again on the next turn.
                match queue.pop() {
                    Some(head) => {
                        let ghost out_prior = out@;
                        let ghost head_snap = head;
                        out.push(head);
                        proof {
                            broadcast use vstd::prelude::Seq::group_seq_extra;

                            assert(events_view(out@) =~= events_view(out_prior).push(head_snap@));
                            assert(events_view(out@) + queue@ =~= all.take(i as int));
                        }
                    },
                    None => {
                        proof {
                            assert(false);
                        }
                    },
                }
            },
        }
    }
    proof {
        assert(all.take(n as int) =~= all);
    }
    while queue.len() > 0
        invariant
            events_view(out@) + queue@ =~= all,
        decreases queue@.len(),
    {
        match queue.pop() {
            Some(head) => {
                let ghost out_prior = out@;
                let ghost head_snap = head;
                out.push(head);
                proof {
                    broadcast use vstd::prelude::Seq::group_seq_extra;

                    assert(events_view(out@) =~= events_view(out_prior).push(head_snap@));
                    assert(events_view(out@) + queue@ =~= all);
                }
            },
            None => {
                proof {
                    assert(false);
                }
            },
        }
    }
    proof {
        assert(events_view(out@) =~= all);
    }
    out
}

/// The queue capacity a buffer uses when none is chosen.
pub const DEFAULT_BUFFER_CAPACITY: usize = 100;

/// Rate-decoupling middleware: the inbound stream crosses a bounded FIFO
/// queue before it reaches the inner service, arriving unchanged.
pub struct Buffer<S> {
    inner: S,
    capacity: usize,
}

impl<S> Buffer<S> {
    /// The capacity of the queue the stream crosses.
    pub closed spec fn spec_capacity(&self) -> nat {
        self.capacity as nat
    }

    /// The wrapped service.
    pub closed spec fn spec_inner(&self) -> S {
        self.inner
    }

    /// Buffers `srv` behind a queue of the default capacity.
    pub fn new(srv: S) -> (r: Self)
        ensures
            r.spec_capacity() == DEFAULT_BUFFER_CAPACITY,
            r.spec_inner() == srv,
    {
        Buffer { inner: srv, capacity: DEFAULT_BUFFER_CAPACITY }
    }

    /// Buffers `srv` behind a queue of the given capacity.
    pub fn with_capacity(srv: S, capacity: usize) -> (r: Self)
        requires
            capacity >= 1,
        ensures
            r.spec_capacity() == capacity,
            r.spec_inner() == srv,
    {
        Buffer { inner: srv, capacity }
    }
}

impl<S: Service> Service for Buffer<S> {
    /// Exactly what the inner service answers: buffering never drops,
    /// duplicates, or reorders.
    open spec fn spec_call(&self, scope: ScopeView, inbound: Seq<EventView>) -> Result<
        Seq<EventView>,
        ServiceError,
    > {
        self.spec_inner().spec_call(scope, inbound)
    }

    fn call(&mut self, scope: &Scope, inbound: Vec<Event>) -> (r: Result<Vec<Event>, ServiceError>)
    {
        let capacity = if self.capacity >= 1 {
            self.capacity
        } else {
            1
        };
        let mut queue = BoundedQueue::new(capacity);
        let buffered = pump_through(&mut queue, inbound);
        self.inner.call(scope, buffered)
    }
}

} // verus!
