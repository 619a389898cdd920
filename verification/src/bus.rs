//! Typed in-process publish/subscribe bus.
//!
//! Producers emit named events carrying raw data; subscribers register for one
//! event name and receive every matching event in order, through a bounded
//! per-subscriber buffer. Delivery is fan-out (every matching subscriber gets
//! every event) and lossy under lag: when a subscriber's buffer is full, the
//! oldest pending event is dropped rather than the producer stalled. Emitting
//! with no matching subscriber is a no-op, never an error.

use vstd::prelude::*;
use crate::scan::str_eq;

verus! {

/// A bus message: the event name it was emitted under and its raw data.
#[derive(Debug, Clone)]
pub struct EventPayload {
    pub event_name: String,
    pub data: String,
}

/// One registered subscriber: the event name it filters for and its pending,
/// not yet taken, matching events (oldest first).
struct Subscriber {
    event_name: String,
    pending: Vec<String>,
}

/// View of one subscriber: its event name and its pending data, oldest first.
#[verifier::ext_equal]
pub struct SubView {
    pub event_name: Seq<char>,
    pub pending: Seq<Seq<char>>,
}

/// View of the bus: its per-subscriber buffer capacity and its subscribers in
/// subscription order.
#[verifier::ext_equal]
pub struct BusView {
    pub capacity: int,
    pub subs: Seq<SubView>,
}

/// Bounded, lossy, fan-out publish/subscribe bus.
pub struct EventEmitter {
    capacity: usize,
    subs: Vec<Subscriber>,
}

impl View for Subscriber {
    type V = SubView;

    closed spec fn view(&self) -> SubView {
        SubView {
            event_name: self.event_name@,
            pending: self.pending@.map_values(|d: String| d@),
        }
    }
}

impl View for EventEmitter {
    type V = BusView;

    closed spec fn view(&self) -> BusView {
        BusView {
            capacity: self.capacity as int,
            subs: self.subs@.map_values(|s: Subscriber| s@),
        }
    }
}

/// One subscriber after an event is emitted: a matching subscriber gets the
/// data appended to its pending buffer, losing its oldest pending event first
/// if the buffer is full; a non-matching subscriber is unchanged.
pub open spec fn sub_after_emit(
    s: SubView,
    capacity: int,
    event_name: Seq<char>,
    data: Seq<char>,
) -> SubView {
    if s.event_name == event_name {
        if s.pending.len() >= capacity && s.pending.len() > 0 {
            SubView { event_name: s.event_name, pending: s.pending.drop_first().push(data) }
        } else {
            SubView { event_name: s.event_name, pending: s.pending.push(data) }
        }
    } else {
        s
    }
}

/// The bus after `emit(event_name, data)`.
pub open spec fn emit_spec(b: BusView, event_name: Seq<char>, data: Seq<char>) -> BusView {
    BusView {
        capacity: b.capacity,
        subs: Seq::new(
            b.subs.len(),
            |i: int| sub_after_emit(b.subs[i], b.capacity, event_name, data),
        ),
    }
}

/// The bus after `on(event_name)`: one more subscriber, with nothing pending.
pub open spec fn on_spec(b: BusView, event_name: Seq<char>) -> BusView {
    BusView {
        capacity: b.capacity,
        subs: b.subs.push(SubView { event_name: event_name, pending: Seq::empty() }),
    }
}

/// The bus after subscriber `id` takes its next event: its oldest pending
/// event is removed; an unknown id or an empty buffer changes nothing.
pub open spec fn next_event_state(b: BusView, id: int) -> BusView {
    if 0 <= id < b.subs.len() && b.subs[id].pending.len() > 0 {
        BusView {
            capacity: b.capacity,
            subs: b.subs.update(
                id,
                SubView {
                    event_name: b.subs[id].event_name,
                    pending: b.subs[id].pending.drop_first(),
                },
            ),
        }
    } else {
        b
    }
}

/// The data subscriber `id` takes next: its oldest pending event, if any.
pub open spec fn next_event_value(b: BusView, id: int) -> Option<Seq<char>> {
    if 0 <= id < b.subs.len() && b.subs[id].pending.len() > 0 {
        Some(b.subs[id].pending.first())
    } else {
        None
    }
}

impl EventEmitter {
    /// Creates a bus whose per-subscriber buffer holds at most `size` events.
    pub fn new(size: usize) -> (r: EventEmitter)
        requires
            size >= 1,
        ensures
            r@.capacity == size as int,
            r@.subs.len() == 0,
    {
        let r = EventEmitter { capacity: size, subs: Vec::new() };
        proof {
            assert(r@.subs =~= Seq::<SubView>::empty());
        }
        r
    }

    /// How many subscribers are registered.
    pub fn subscriber_count(&self) -> (r: usize)
        ensures
            r as int == self@.subs.len(),
    {
        self.subs.len()
    }

    /// Registers a subscriber for `event_name` and returns its id. The new
    /// subscriber starts with an empty buffer: it only receives events
    /// emitted after this call.
    pub fn on(&mut self, event_name: &str) -> (id: usize)
        ensures
            final(self)@ == on_spec(old(self)@, event_name@),
            id as int == old(self)@.subs.len(),
    {
        let id = self.subs.len();
        self.subs.push(Subscriber { event_name: event_name.to_owned(), pending: Vec::new() });
        proof {
            assert(self@ =~~= on_spec(old(self)@, event_name@));
        }
        id
    }

    /// Broadcasts `data` under `event_name` to every subscriber registered
    /// for that name; each one gets it appended to its buffer, losing its
    /// oldest pending event first if the buffer is full. With no matching
    /// subscriber — in particular with no subscriber at all — this changes
    /// nothing and is not an error.
    pub fn emit(&mut self, event_name: &str, data: &str)
        ensures
            final(self)@ == emit_spec(old(self)@, event_name@, data@),
    {
        let n = self.subs.len();
        let mut i: usize = 0;
        while i < n
            invariant
                i <= n,
                n == self.subs@.len(),
                n == old(self).subs@.len(),
                self.capacity == old(self).capacity,
                forall|k: int|
                    0 <= k < i ==> #[trigger] self.subs@[k]@ == sub_after_emit(
                        old(self).subs@[k]@,
                        old(self).capacity as int,
                        event_name@,
                        data@,
                    ),
                forall|k: int| i <= k < n ==> #[trigger] self.subs@[k] == old(self).subs@[k],
            decreases n - i,
        {
            let ghost pre_subs = self.subs@;
            let mut s = self.subs.remove(i);
            let ghost s0 = s@;
            if str_eq(s.event_name.as_str(), event_name) {
                if s.pending.len() >= self.capacity && s.pending.len() > 0 {
                    s.pending.remove(0);
                    proof {
                        assert(s@.pending =~~= s0.pending.drop_first());
                    }
                }
                s.pending.push(data.to_owned());
            }
            proof {
                assert(s@ =~~= sub_after_emit(
                    s0,
                    old(self).capacity as int,
                    event_name@,
                    data@,
                ));
            }
            self.subs.insert(i, s);
            proof {
                assert(self.subs@ =~= pre_subs.update(i as int, s));
            }
            i += 1;
        }
        proof {
            assert(self@ =~~= emit_spec(old(self)@, event_name@, data@));
        }
    }

    /// Takes the oldest pending event for subscriber `id`, as a payload
    /// carrying the subscriber's event name. Returns `None`, changing
    /// nothing, when the id is unknown or nothing is pending.
    pub fn next_event(&mut self, id: usize) -> (r: Option<EventPayload>)
        ensures
            final(self)@ == next_event_state(old(self)@, id as int),
            match r {
                Some(p) => next_event_value(old(self)@, id as int) == Some(p.data@)
                    && p.event_name@ == old(self)@.subs[id as int].event_name,
                None => next_event_value(old(self)@, id as int) is None,
            },
    {
        if id >= self.subs.len() {
            return None;
        }
        let ghost pre_subs = self.subs@;
        let mut s = self.subs.remove(id);
        if s.pending.len() == 0 {
            self.subs.insert(id, s);
            proof {
                assert(self.subs@ =~= pre_subs);
                assert(self@ =~~= next_event_state(old(self)@, id as int));
            }
            return None;
        }
        let data = s.pending.remove(0);
        let name = s.event_name.clone();
        self.subs.insert(id, s);
        proof {
            assert(self.subs@ =~= pre_subs.update(id as int, s));
            assert(self@ =~~= next_event_state(old(self)@, id as int));
        }
        Some(EventPayload { event_name: name, data: data })
    }
}

/// Every subscriber's backlog stays within the bus capacity.
pub open spec fn bus_wf(b: BusView) -> bool {
    b.capacity >= 1 && forall|i: int| 0 <= i < b.subs.len() ==> b.subs[i].pending.len()
        <= b.capacity
}

/// Emitting before anyone has subscribed is a no-op: with no subscribers the
/// bus is unchanged (and `emit` never errors).
pub proof fn lemma_emit_without_subscribers(b: BusView, event_name: Seq<char>, data: Seq<char>)
    requires
        b.subs.len() == 0,
    ensures
        emit_spec(b, event_name, data) == b,
{
    assert(emit_spec(b, event_name, data) =~= b);
}

/// A subscriber registered late starts with an empty buffer: it only receives
/// events emitted after it subscribes, never earlier ones.
pub proof fn lemma_late_subscriber(b: BusView, event_name: Seq<char>)
    ensures
        on_spec(b, event_name).subs.len() == b.subs.len() + 1,
        on_spec(b, event_name).subs.last().pending.len() == 0,
{
}

/// Fan-out: one emitted event reaches every subscriber registered for its
/// name; in particular two independent subscribers to the same name both
/// receive the same emitted value.
pub proof fn lemma_fan_out(b: BusView, i: int, j: int, event_name: Seq<char>, data: Seq<char>)
    requires
        0 <= i < b.subs.len(),
        0 <= j < b.subs.len(),
        b.subs[i].event_name == event_name,
        b.subs[j].event_name == event_name,
    ensures
        emit_spec(b, event_name, data).subs[i].pending.last() == data,
        emit_spec(b, event_name, data).subs[j].pending.last() == data,
{
}

/// Emitting keeps every backlog within the bus capacity: a lagging subscriber
/// loses its oldest event rather than growing the buffer without bound.
pub proof fn lemma_emit_preserves_wf(b: BusView, event_name: Seq<char>, data: Seq<char>)
    requires
        bus_wf(b),
    ensures
        bus_wf(emit_spec(b, event_name, data)),
{
}

/// Subscribing keeps every backlog within the bus capacity.
pub proof fn lemma_on_preserves_wf(b: BusView, event_name: Seq<char>)
    requires
        bus_wf(b),
    ensures
        bus_wf(on_spec(b, event_name)),
{
}

/// Taking an event keeps every backlog within the bus capacity.
pub proof fn lemma_next_event_preserves_wf(b: BusView, id: int)
    requires
        bus_wf(b),
    ensures
        bus_wf(next_event_state(b, id)),
{
}

} // verus!
