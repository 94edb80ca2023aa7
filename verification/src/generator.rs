//! The configuration and the pull adapter over the event generator.

use vstd::prelude::*;
use vstd::std_specs::convert::FromSpec;
use crate::event::PyEvent;
use crate::source::can_pull;
use crate::source::default_generators;
use crate::source::offset_of;
use crate::source::open_stream;
use crate::source::pull;
use crate::source::pull_is_safe;
use crate::source::stream_generators;
use crate::source::stream_is_plain;
use crate::source::stream_offset;

verus! {

/// The tunables of the generator.
#[derive(Clone, Copy, Debug)]
pub struct PyConfig {
    pub num_event_generators: usize,
}

impl PyConfig {
    /// The default configuration: one generator.
    pub fn new() -> (r: PyConfig)
        ensures
            r.num_event_generators == 1,
    {
        PyConfig { num_event_generators: default_generators() }
    }

    pub fn num_event_generators(&self) -> (r: usize)
        ensures
            r == self.num_event_generators,
    {
        self.num_event_generators
    }

    pub fn set_num_event_generators(&mut self, value: usize)
        ensures
            final(self).num_event_generators == value,
    {
        self.num_event_generators = value;
    }
}

/// The number of generators that a stream is made with: that of the
/// configuration, or one where there is none.
pub open spec fn configured_generators(config: Option<PyConfig>) -> usize {
    match config {
        Some(config) => config.num_event_generators,
        None => 1,
    }
}

/// The events of this crate that stand for events of the generator, one
/// for one and in their order.
pub open spec fn converted(events: Seq<nexmark::event::Event>) -> Seq<PyEvent> {
    Seq::new(events.len(), |i: int| PyEvent::from_spec(events[i]))
}

/// The number of pulls in a row that return an event, out of up to `n`
/// pulls that start at a position.
pub open spec fn safe_run(generators: usize, position: nat, n: nat) -> nat
    decreases n,
{
    if n == 0 || !pull_is_safe(generators, position) {
        0
    } else {
        1 + safe_run(generators, position + 1, (n - 1) as nat)
    }
}

/// The state of a stream.
pub ghost struct StreamView {
    /// The number of generators that the stream was configured with.
    pub generators: usize,
    /// The number of events that the generator has handed out.
    pub position: u64,
    /// Whether the stream has reported its end.
    pub exhausted: bool,
    /// The events that the stream has taken in from the generator, in the
    /// order in which they came.
    pub emitted: Seq<nexmark::event::Event>,
}

impl StreamView {
    /// Whether the next pull returns an event.
    pub open spec fn ready(self) -> bool {
        !self.exhausted && pull_is_safe(self.generators, self.position as nat)
    }

    /// What one pull does: from a ready stream it takes one event of the
    /// generator and returns it converted; any other stream it exhausts, and
    /// returns nothing.
    pub open spec fn pulled(self, next: StreamView, item: Option<PyEvent>) -> bool {
        if self.ready() {
            &&& next.generators == self.generators
            &&& next.position == self.position + 1
            &&& !next.exhausted
            &&& next.emitted =~= self.emitted.push(next.emitted.last())
            &&& item == Some(PyEvent::from_spec(next.emitted.last()))
        } else {
            &&& next.generators == self.generators
            &&& next.position == self.position
            &&& next.exhausted
            &&& next.emitted =~= self.emitted
            &&& item is None
        }
    }

    /// The number of events that a bulk pull of up to `n` returns.
    pub open spec fn yield_count(self, n: nat) -> nat {
        if self.exhausted {
            0
        } else {
            safe_run(self.generators, self.position as nat, n)
        }
    }

    /// What a bulk pull of up to `n` does: it takes as many events of the
    /// generator as can be had, up to `n`, and returns them converted, in
    /// their order. It exhausts the stream where they are fewer than `n`.
    pub open spec fn bulk(self, n: nat, next: StreamView, items: Seq<PyEvent>) -> bool {
        &&& items.len() == self.yield_count(n)
        &&& next.generators == self.generators
        &&& next.position == self.position + items.len()
        &&& next.exhausted == (self.exhausted || items.len() < n)
        &&& next.emitted.len() == self.emitted.len() + items.len()
        &&& next.emitted.take(self.emitted.len() as int) =~= self.emitted
        &&& items =~= converted(next.emitted.skip(self.emitted.len() as int))
    }
}

/// A single-consumer cursor over the generator's events.
pub struct PyEventGenerator {
    inner: nexmark::EventGenerator,
    generators: usize,
    exhausted: bool,
    history: Ghost<Seq<nexmark::event::Event>>,
}

impl View for PyEventGenerator {
    type V = StreamView;

    closed spec fn view(&self) -> StreamView {
        StreamView {
            generators: self.generators,
            position: stream_offset(self.inner),
            exhausted: self.exhausted,
            emitted: self.history@,
        }
    }
}

impl PyEventGenerator {
    #[verifier::type_invariant]
    spec fn linked(self) -> bool {
        stream_is_plain(self.inner) && stream_generators(self.inner) == self.generators
    }

    /// A fresh stream with a copy of the configuration, or with the default
    /// one: nothing pulled, not exhausted.
    pub fn new(config: Option<PyConfig>) -> (r: PyEventGenerator)
        ensures
            r@ == (StreamView {
                generators: configured_generators(config),
                position: 0,
                exhausted: false,
                emitted: Seq::empty(),
            }),
    {
        let generators = match config {
            Some(config) => config.num_event_generators,
            None => default_generators(),
        };
        PyEventGenerator {
            inner: open_stream(generators),
            generators,
            exhausted: false,
            history: Ghost(Seq::empty()),
        }
    }

    /// The number of generators that the stream was configured with.
    pub fn generators(&self) -> (r: usize)
        ensures
            r == self@.generators,
    {
        self.generators
    }

    /// Whether the stream has reported its end.
    pub fn is_exhausted(&self) -> (r: bool)
        ensures
            r == self@.exhausted,
    {
        self.exhausted
    }

    /// The number of events that the generator has handed out.
    pub fn position(&self) -> (r: u64)
        ensures
            r == self@.position,
    {
        offset_of(&self.inner)
    }

    /// Pulls one event. A ready stream takes the generator's next event and
    /// returns it converted; any other stream returns nothing and is
    /// exhausted from then on.
    pub fn __next__(&mut self) -> (r: Option<PyEvent>)
        ensures
            old(self)@.pulled(final(self)@, r),
    {
        proof {
            use_type_invariant(&*self);
        }
        if self.exhausted {
            return None;
        }
        if !can_pull(self.generators, offset_of(&self.inner)) {
            self.exhausted = true;
            return None;
        }
        let pulled = pull(&mut self.inner);
        self.settle(pulled)
    }

    /// Takes in what the generator returned on a pull: its event is put on
    /// record and becomes an event of this crate, and its end exhausts the
    /// stream.
    pub fn settle(&mut self, pulled: Option<nexmark::event::Event>) -> (r: Option<PyEvent>)
        ensures
            final(self)@.generators == old(self)@.generators,
            final(self)@.position == old(self)@.position,
            match pulled {
                Some(event) => {
                    &&& r == Some(PyEvent::from_spec(event))
                    &&& final(self)@.exhausted == old(self)@.exhausted
                    &&& final(self)@.emitted == old(self)@.emitted.push(event)
                },
                None => {
                    &&& r is None
                    &&& final(self)@.exhausted
                    &&& final(self)@.emitted == old(self)@.emitted
                },
            },
    {
        proof {
            use_type_invariant(&*self);
        }
        match pulled {
            Some(event) => {
                self.history = Ghost(self.history@.push(event));
                Some(PyEvent::from(event))
            },
            None => {
                self.exhausted = true;
                None
            },
        }
    }

    /// Pulls up to `n` events and returns them in the order in which the
    /// generator made them. It returns fewer than `n` only where the stream
    /// ran out, and the stream is then exhausted.
    pub fn take(&mut self, n: usize) -> (r: Vec<PyEvent>)
        ensures
            old(self)@.bulk(n as nat, final(self)@, r@),
    {
        let ghost start = self@;
        let ghost base = start.emitted.len() as int;
        let mut events: Vec<PyEvent> = Vec::new();
        let mut open = true;
        while open && events.len() < n
            invariant
                events@.len() <= n,
                base == start.emitted.len(),
                self@.generators == start.generators,
                self@.position == start.position + events@.len(),
                self@.emitted.len() == base + events@.len(),
                self@.emitted.take(base) =~= start.emitted,
                events@ =~= converted(self@.emitted.skip(base)),
                open ==> self@.exhausted == start.exhausted,
                open ==> events@.len() + self@.yield_count((n - events@.len()) as nat)
                    == start.yield_count(n as nat),
                !open ==> self@.exhausted && events@.len() < n && events@.len()
                    == start.yield_count(n as nat),
            decreases (n - events.len()) + (if open { 1int } else { 0int }),
        {
            let ghost before = self@;
            match self.__next__() {
                Some(event) => {
                    events.push(event);
                    assert(self@.emitted.take(base) =~= before.emitted.take(base));
                },
                None => {
                    open = false;
                },
            }
        }
        events
    }
}

/// A list of pulls, one after the other: each state with the state and the
/// item that a pull makes of it.
pub open spec fn pulls(states: Seq<StreamView>, items: Seq<Option<PyEvent>>) -> bool {
    &&& states.len() == items.len() + 1
    &&& forall|i: int|
        #![trigger items[i]]
        0 <= i < items.len() ==> states[i].pulled(states[i + 1], items[i])
}

/// Once a pull has returned nothing, every later pull returns nothing too,
/// and the stream stays as that pull left it.
pub proof fn exhaustion_is_final(
    states: Seq<StreamView>,
    items: Seq<Option<PyEvent>>,
    first: int,
    later: int,
)
    requires
        pulls(states, items),
        0 <= first <= later < items.len(),
        items[first] is None,
    ensures
        items[later] is None,
        states[later + 1] == states[first + 1],
    decreases later - first,
{
    if first < later {
        exhaustion_is_final(states, items, first, later - 1);
        assert(states[later].pulled(states[later + 1], items[later]));
    } else {
        assert(states[first].pulled(states[first + 1], items[first]));
    }
    assert(states[later + 1].emitted =~= states[first + 1].emitted);
}

/// A run of pulls is no longer than the number asked for.
pub proof fn safe_run_is_bounded(generators: usize, position: nat, n: nat)
    ensures
        safe_run(generators, position, n) <= n,
    decreases n,
{
    if n > 0 && pull_is_safe(generators, position) {
        safe_run_is_bounded(generators, position + 1, (n - 1) as nat);
    }
}

/// A run that stops short stops at a position from which nothing can be
/// pulled.
pub proof fn safe_run_ends_unsafe(generators: usize, position: nat, n: nat)
    requires
        safe_run(generators, position, n) < n,
    ensures
        !pull_is_safe(generators, position + safe_run(generators, position, n)),
    decreases n,
{
    if n > 0 && pull_is_safe(generators, position) {
        safe_run_ends_unsafe(generators, position + 1, (n - 1) as nat);
    }
}

/// A run of up to `a + b` pulls is a run of up to `a` and then, where that
/// one was not cut short, a run of up to `b` from where it ended.
pub proof fn safe_run_splits(generators: usize, position: nat, a: nat, b: nat)
    ensures
        safe_run(generators, position, a) == a ==> safe_run(generators, position, a + b) == a
            + safe_run(generators, position + a, b),
        safe_run(generators, position, a) < a ==> safe_run(generators, position, a + b)
            == safe_run(generators, position, a),
    decreases a,
{
    if a > 0 && pull_is_safe(generators, position) {
        safe_run_splits(generators, position + 1, (a - 1) as nat, b);
        assert(a + b - 1 == (a - 1) as nat + b);
    }
}

/// A bulk pull of up to `n` returns at most `n` events. It returns fewer
/// than `n` only where no more were to be had, and it leaves the stream
/// exhausted then.
pub proof fn bulk_pull_is_bounded(stream: StreamView, n: nat, next: StreamView, items: Seq<PyEvent>)
    requires
        stream.bulk(n, next, items),
    ensures
        items.len() <= n,
        items.len() < n ==> next.exhausted,
        items.len() < n && !stream.exhausted ==> !pull_is_safe(
            stream.generators,
            (stream.position + items.len()) as nat,
        ),
{
    safe_run_is_bounded(stream.generators, stream.position as nat, n);
    if !stream.exhausted && items.len() < n {
        safe_run_ends_unsafe(stream.generators, stream.position as nat, n);
    }
}

/// Two bulk pulls, one after the other, return what one bulk pull of both
/// numbers returns, item for item, and leave the stream as that one does.
pub proof fn bulk_pull_splits(
    stream: StreamView,
    a: nat,
    middle: StreamView,
    head: Seq<PyEvent>,
    b: nat,
    next: StreamView,
    tail: Seq<PyEvent>,
)
    requires
        stream.bulk(a, middle, head),
        middle.bulk(b, next, tail),
    ensures
        stream.bulk(a + b, next, head + tail),
{
    safe_run_is_bounded(stream.generators, stream.position as nat, a);
    safe_run_splits(stream.generators, stream.position as nat, a, b);
    let base = stream.emitted.len() as int;
    let mid = middle.emitted.len() as int;
    assert(next.emitted.take(base) =~= next.emitted.take(mid).take(base));
    assert forall|i: int| 0 <= i < head.len() implies (head + tail)[i] == converted(
        next.emitted.skip(base),
    )[i] by {
        assert(next.emitted.take(mid)[base + i] == next.emitted[base + i]);
        assert(middle.emitted.skip(base)[i] == middle.emitted[base + i]);
    }
    assert forall|i: int| head.len() <= i < head.len() + tail.len() implies (head + tail)[i]
        == converted(next.emitted.skip(base))[i] by {
        assert(next.emitted.skip(mid)[i - head.len()] == next.emitted[base + i]);
    }
    assert(head + tail =~= converted(next.emitted.skip(base)));
}

/// A pull that returns an event, and then a bulk pull of up to `n`, return
/// what one bulk pull of up to `n + 1` returns, item for item. A pull that
/// returns nothing is a bulk pull that returns nothing.
pub proof fn bulk_pull_is_repeated_pull(
    stream: StreamView,
    middle: StreamView,
    item: Option<PyEvent>,
    n: nat,
    next: StreamView,
    rest: Seq<PyEvent>,
)
    requires
        stream.pulled(middle, item),
        middle.bulk(n, next, rest),
    ensures
        item matches Some(event) ==> stream.bulk(n + 1, next, seq![event] + rest),
        item is None ==> stream.bulk(n + 1, next, rest) && rest.len() == 0,
{
    match item {
        Some(event) => {
            assert(stream.bulk(1, middle, seq![event])) by {
                assert(safe_run(stream.generators, stream.position as nat + 1, 0) == 0);
                assert(middle.emitted.take(stream.emitted.len() as int) =~= stream.emitted);
                assert(seq![event] =~= converted(middle.emitted.skip(stream.emitted.len() as int)));
            }
            bulk_pull_splits(stream, 1, middle, seq![event], n, next, rest);
        },
        None => {
            assert(stream.yield_count(n + 1) == 0);
            assert(middle.yield_count(n) == 0);
            assert(next.emitted.take(stream.emitted.len() as int) =~= stream.emitted);
        },
    }
}

} // verus!
