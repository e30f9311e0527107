use vstd::prelude::*;

use crate::event::Event;

verus! {

/// Number of pending events a bus keeps by default.
pub const DEFAULT_CAPACITY: usize = 100;

/// What one receive on a subscriber's cursor gives.
#[derive(Clone, Copy, Debug, PartialEq, Eq, Structural)]
pub enum Recv {
    /// The next event in publish order.
    Received(Event),
    /// The subscriber fell behind: this many events were overwritten before it
    /// read them, and its cursor now stands at the oldest event still held.
    Lagged(u64),
    /// Nothing new has been published since the last receive.
    Empty,
    /// The handle is not (or no longer) subscribed.
    Unsubscribed,
}

/// The abstract state of a bus: every event it accepted, in order, its
/// capacity, and one cursor (an index into the history) per subscriber slot.
pub struct BusView {
    pub capacity: nat,
    pub history: Seq<Event>,
    pub cursors: Seq<Option<nat>>,
}

impl BusView {
    pub open spec fn wf(self) -> bool {
        &&& self.capacity > 0
        &&& self.history.len() <= u64::MAX
        &&& forall|i: int|
            0 <= i < self.cursors.len() && #[trigger] self.cursors[i] is Some ==> self.cursors[i].unwrap()
                <= self.history.len()
    }

    pub open spec fn is_subscribed(self, id: nat) -> bool {
        id < self.cursors.len() && self.cursors[id as int] is Some
    }

    pub open spec fn has_subscribers(self) -> bool {
        exists|i: nat| self.is_subscribed(i)
    }

    /// The bus after `publish(e)`: the event is kept when someone listens (and
    /// the sequence counter has room), and dropped otherwise.
    pub open spec fn published(self, e: Event) -> BusView {
        if self.has_subscribers() && self.history.len() < u64::MAX {
            BusView { history: self.history.push(e), ..self }
        } else {
            self
        }
    }

    /// The bus after publishing each of `es` in order.
    pub open spec fn published_all(self, es: Seq<Event>) -> BusView
        decreases es.len(),
    {
        if es.len() == 0 {
            self
        } else {
            self.published_all(es.drop_last()).published(es.last())
        }
    }

    /// The bus after `subscribe()`: a new slot whose cursor stands at "now".
    pub open spec fn subscribed(self) -> BusView {
        BusView { cursors: self.cursors.push(Some(self.history.len())), ..self }
    }

    /// The bus after `unsubscribe(id)`.
    pub open spec fn unsubscribed(self, id: nat) -> BusView {
        if id < self.cursors.len() {
            BusView { cursors: self.cursors.update(id as int, None), ..self }
        } else {
            self
        }
    }

    /// The outcome of one receive on slot `id`.
    pub open spec fn receive_result(self, id: nat) -> Recv {
        if !self.is_subscribed(id) {
            Recv::Unsubscribed
        } else {
            let c = self.cursors[id as int].unwrap();
            let n = self.history.len();
            if n > c + self.capacity {
                Recv::Lagged((n - self.capacity - c) as u64)
            } else if c == n {
                Recv::Empty
            } else {
                Recv::Received(self.history[c as int])
            }
        }
    }

    /// The bus after one receive on slot `id`.
    pub open spec fn received(self, id: nat) -> BusView {
        if !self.is_subscribed(id) {
            self
        } else {
            let c = self.cursors[id as int].unwrap();
            let n = self.history.len();
            if n > c + self.capacity {
                BusView {
                    cursors: self.cursors.update(id as int, Some((n - self.capacity) as nat)),
                    ..self
                }
            } else if c == n {
                self
            } else {
                BusView { cursors: self.cursors.update(id as int, Some(c + 1)), ..self }
            }
        }
    }
}

/// While someone listens, publishing a run of events appends them to the
/// history and leaves every cursor where it was.
pub proof fn lemma_published_all(v: BusView, es: Seq<Event>)
    requires
        v.has_subscribers(),
        v.history.len() + es.len() <= u64::MAX,
    ensures
        v.published_all(es).history == v.history + es,
        v.published_all(es).cursors == v.cursors,
        v.published_all(es).capacity == v.capacity,
    decreases es.len(),
{
    if es.len() == 0 {
        assert(v.history + es =~= v.history);
    } else {
        lemma_published_all(v, es.drop_last());
        let w = v.published_all(es.drop_last());
        assert(w.has_subscribers()) by {
            let i = choose|i: nat| v.is_subscribed(i);
            assert(w.is_subscribed(i));
        }
        assert((v.history + es.drop_last()).push(es.last()) =~= v.history + es);
    }
}

/// Fan-out: every subscriber that is up to date receives each of two events
/// published one after the other, equal to what was published and in the
/// order published.
pub proof fn lemma_fan_out(v: BusView, e1: Event, e2: Event)
    requires
        v.wf(),
        v.capacity >= 2,
        v.history.len() + 2 <= u64::MAX,
    ensures
        forall|id: nat|
            #![trigger v.cursors[id as int]]
            v.is_subscribed(id) && v.cursors[id as int] == Some(v.history.len()) ==> {
                let w = v.published(e1).published(e2);
                &&& w.receive_result(id) == Recv::Received(e1)
                &&& w.received(id).receive_result(id) == Recv::Received(e2)
                &&& w.received(id).received(id).receive_result(id) == Recv::Empty
            },
{
    assert forall|id: nat|
        #![trigger v.cursors[id as int]]
        v.is_subscribed(id) && v.cursors[id as int] == Some(v.history.len()) implies {
            let w = v.published(e1).published(e2);
            &&& w.receive_result(id) == Recv::Received(e1)
            &&& w.received(id).receive_result(id) == Recv::Received(e2)
            &&& w.received(id).received(id).receive_result(id) == Recv::Empty
        } by {
        let n = v.history.len();
        let v1 = v.published(e1);
        assert(v.has_subscribers());
        assert(v1.history == v.history.push(e1));
        assert(v1.is_subscribed(id));
        let w = v1.published(e2);
        assert(w.history == v1.history.push(e2));
        assert(w.history[n as int] == e1);
        assert(w.history[n + 1int] == e2);
        assert(w.received(id).cursors[id as int] == Some(n + 1));
        assert(w.received(id).received(id).cursors[id as int] == Some(n + 2));
    }
}

/// Backpressure: a subscriber that reads nothing while more than `capacity`
/// events are published is told on its next receive how many it lost, and
/// then resumes at the oldest event the bus still holds; the publisher was
/// never held up (every event was kept).
pub proof fn lemma_backpressure(v: BusView, id: nat, es: Seq<Event>)
    requires
        v.wf(),
        v.is_subscribed(id),
        v.cursors[id as int] == Some(v.history.len()),
        es.len() > v.capacity,
        v.history.len() + es.len() <= u64::MAX,
    ensures
        v.published_all(es).history == v.history + es,
        v.published_all(es).receive_result(id) == Recv::Lagged((es.len() - v.capacity) as u64),
        v.published_all(es).received(id).receive_result(id) == Recv::Received(
            es[es.len() - v.capacity],
        ),
{
    lemma_published_all(v, es);
    let w = v.published_all(es);
    let n = v.history.len();
    assert(w.is_subscribed(id));
    let k = (es.len() - v.capacity) as int;
    assert(w.received(id).cursors[id as int] == Some((n + k) as nat));
    assert(w.history[n + k] == es[k]);
}

/// A bounded broadcast bus: any number of subscribers each read every
/// published event in order through their own cursor; a subscriber that
/// falls more than `capacity` events behind loses the oldest ones and is told
/// how many. Publishing never waits for a reader.
pub struct EventBus {
    capacity: usize,
    /// The last `min(capacity, published)` accepted events, oldest first.
    retained: Vec<Event>,
    /// How many events were accepted in all.
    published: u64,
    cursors: Vec<Option<u64>>,
    history: Ghost<Seq<Event>>,
}

pub open spec fn cursor_view(c: Option<u64>) -> Option<nat> {
    match c {
        Some(v) => Some(v as nat),
        None => None,
    }
}

impl View for EventBus {
    type V = BusView;

    closed spec fn view(&self) -> BusView {
        BusView {
            capacity: self.capacity as nat,
            history: self.history@,
            cursors: self.cursors@.map_values(|c: Option<u64>| cursor_view(c)),
        }
    }
}

impl EventBus {
    pub closed spec fn wf(&self) -> bool {
        &&& self@.wf()
        &&& self.published as nat == self.history@.len()
        &&& self.retained@.len() == if self.published <= self.capacity as u64 {
            self.published as nat
        } else {
            self.capacity as nat
        }
        &&& self.retained@ =~= self.history@.subrange(
            self.published - self.retained@.len(),
            self.published as int,
        )
    }

    /// A bus with no subscribers and nothing published, holding up to
    /// `capacity` pending events.
    pub fn new(capacity: usize) -> (r: EventBus)
        requires
            capacity > 0,
        ensures
            r.wf(),
            r@.capacity == capacity,
            r@.history.len() == 0,
            r@.cursors.len() == 0,
    {
        EventBus {
            capacity,
            retained: Vec::new(),
            published: 0,
            cursors: Vec::new(),
            history: Ghost(Seq::empty()),
        }
    }

    /// How many events the bus holds for a subscriber before it overwrites
    /// the oldest.
    pub fn capacity(&self) -> (r: usize)
        ensures
            r == self@.capacity,
    {
        self.capacity
    }

    /// Whether slot `id` is subscribed.
    pub fn is_subscribed(&self, id: usize) -> (r: bool)
        requires
            self.wf(),
        ensures
            r == self@.is_subscribed(id as nat),
    {
        id < self.cursors.len() && self.cursors[id].is_some()
    }

    /// Whether any slot is subscribed.
    pub fn has_subscribers(&self) -> (r: bool)
        requires
            self.wf(),
        ensures
            r == self@.has_subscribers(),
    {
        let mut i: usize = 0;
        while i < self.cursors.len()
            invariant
                i <= self.cursors@.len(),
                forall|j: nat| j < i ==> !self@.is_subscribed(j),
            decreases self.cursors@.len() - i,
        {
            if self.cursors[i].is_some() {
                assert(self@.is_subscribed(i as nat));
                return true;
            }
            i = i + 1;
        }
        proof {
            assert forall|j: nat| !self@.is_subscribed(j) by {
                if j < i {
                }
            }
        }
        false
    }

    /// Opens a new subscriber slot whose cursor starts at "now": it sees only
    /// what is published after this call. Returns the slot's handle.
    pub fn subscribe(&mut self) -> (id: usize)
        requires
            old(self).wf(),
        ensures
            final(self).wf(),
            final(self)@ == old(self)@.subscribed(),
            id == old(self)@.cursors.len(),
    {
        let id = self.cursors.len();
        self.cursors.push(Some(self.published));
        proof {
            assert(self@.cursors =~= old(self)@.cursors.push(Some(old(self)@.history.len())));
        }
        id
    }

    /// Releases slot `id`; later receives on it give `Unsubscribed`.
    pub fn unsubscribe(&mut self, id: usize)
        requires
            old(self).wf(),
        ensures
            final(self).wf(),
            final(self)@ == old(self)@.unsubscribed(id as nat),
    {
        if id < self.cursors.len() {
            self.cursors.set(id, None);
            proof {
                assert(self@.cursors =~= old(self)@.cursors.update(id as int, None));
            }
        }
    }

    /// Publishes `e` to every subscriber without waiting. With no subscriber
    /// the event is dropped. Returns whether the event was kept.
    pub fn publish(&mut self, e: Event) -> (kept: bool)
        requires
            old(self).wf(),
        ensures
            final(self).wf(),
            final(self)@ == old(self)@.published(e),
            kept == (old(self)@.has_subscribers() && old(self)@.history.len() < u64::MAX),
    {
        if !self.has_subscribers() || self.published == u64::MAX {
            return false;
        }
        if self.retained.len() == self.capacity {
            self.retained.remove(0);
        }
        self.retained.push(e);
        self.published = self.published + 1;
        self.history = Ghost(self.history@.push(e));
        proof {
            let h = self.history@;
            assert(self.retained@ =~= h.subrange(
                self.published - self.retained@.len(),
                self.published as int,
            ));
        }
        true
    }

    /// Takes the next event for slot `id`, or reports that it lagged, that
    /// nothing is pending, or that the slot is not subscribed.
    pub fn try_receive(&mut self, id: usize) -> (r: Recv)
        requires
            old(self).wf(),
        ensures
            final(self).wf(),
            r == old(self)@.receive_result(id as nat),
            final(self)@ == old(self)@.received(id as nat),
    {
        if !self.is_subscribed(id) {
            return Recv::Unsubscribed;
        }
        let c = match self.cursors[id] {
            Some(c) => c,
            None => 0,
        };
        assert(self@.cursors[id as int] == Some(c as nat));
        let n = self.published;
        let cap = self.capacity as u64;
        if n - c > cap {
            let missed = n - cap - c;
            self.cursors.set(id, Some(n - cap));
            proof {
                assert(self@.cursors =~= old(self)@.cursors.update(
                    id as int,
                    Some((n - cap) as nat),
                ));
            }
            Recv::Lagged(missed)
        } else if c == n {
            Recv::Empty
        } else {
            let start = n - self.retained.len() as u64;
            let e = self.retained[(c - start) as usize];
            self.cursors.set(id, Some(c + 1));
            proof {
                assert(self@.cursors =~= old(self)@.cursors.update(id as int, Some((c + 1) as nat)));
            }
            Recv::Received(e)
        }
    }
}

} // verus!
