//! The typed message queue that feeds one component.
//!
//! A stream is plain owned state: whoever owns it emits into it, and the run
//! loop drains it through its owner. The handles that a shared queue would be
//! reached through are kept as a count, so that the moment the last producer
//! lets go is a state of the stream like any other.

use std::collections::VecDeque;
use vstd::prelude::*;

use crate::state::IntoOption;

verus! {

/// An [`EventStream`] as contracts see it.
pub struct StreamView<MSG> {
    /// The messages that wait for delivery, oldest first.
    pub queue: Seq<MSG>,
    /// How many producer handles are alive.
    pub producers: nat,
    /// Whether a consumer is registered with the run loop.
    pub listening: bool,
}

impl<MSG> StreamView<MSG> {
    /// A stream as `EventStream::new` makes it: empty, held by its creator,
    /// with no consumer yet.
    pub open spec fn fresh() -> Self {
        StreamView { queue: Seq::empty(), producers: 1, listening: false }
    }

    /// Every producer handle is gone while the consumer is still registered.
    pub open spec fn closed(self) -> bool {
        self.listening && self.producers == 0
    }

    /// The run loop delivers from this stream.
    pub open spec fn dispatching(self) -> bool {
        self.listening && self.producers > 0
    }

    /// The stream after one message was emitted.
    pub open spec fn emit(self, msg: MSG) -> Self {
        StreamView { queue: self.queue.push(msg), ..self }
    }

    /// The stream after `msgs` were emitted one after the other.
    pub open spec fn emit_all(self, msgs: Seq<MSG>) -> Self
        decreases msgs.len(),
    {
        if msgs.len() == 0 {
            self
        } else {
            self.emit_all(msgs.drop_last()).emit(msgs.last())
        }
    }

    /// The stream after a handle was cloned. A stream that nobody holds has
    /// no handle to clone, and the count does not leave the machine's range.
    pub open spec fn add_producer(self) -> Self {
        if 0 < self.producers < usize::MAX {
            StreamView { producers: self.producers + 1, ..self }
        } else {
            self
        }
    }

    /// The stream after a handle was dropped.
    pub open spec fn drop_producer(self) -> Self {
        if self.producers > 0 {
            StreamView { producers: (self.producers - 1) as nat, ..self }
        } else {
            self
        }
    }

    /// The stream after its consumer was registered.
    pub open spec fn listen(self) -> Self {
        StreamView { listening: true, ..self }
    }

    /// What one dispatch pass hands to the consumer, in this order.
    pub open spec fn delivery(self) -> Seq<MSG> {
        if self.dispatching() {
            self.queue
        } else {
            Seq::empty()
        }
    }

    /// The stream after one dispatch pass.
    pub open spec fn delivered(self) -> Self {
        if self.dispatching() {
            StreamView { queue: Seq::empty(), ..self }
        } else {
            self
        }
    }
}

/// The messages of `msgs` that carry the tag `producer`, in the order of
/// `msgs`.
pub open spec fn from_producer<MSG>(msgs: Seq<(nat, MSG)>, producer: nat) -> Seq<(nat, MSG)> {
    msgs.filter(|m: (nat, MSG)| m.0 == producer)
}

/// An ordered queue of messages for one consumer.
pub struct EventStream<MSG> {
    events: VecDeque<MSG>,
    producers: usize,
    listening: bool,
}

impl<MSG> View for EventStream<MSG> {
    type V = StreamView<MSG>;

    closed spec fn view(&self) -> StreamView<MSG> {
        StreamView {
            queue: self.events@,
            producers: self.producers as nat,
            listening: self.listening,
        }
    }
}

impl<MSG> EventStream<MSG> {
    /// An empty stream with one producer handle, its creator's, and no
    /// consumer.
    pub fn new() -> (stream: Self)
        ensures
            stream@ == StreamView::<MSG>::fresh(),
    {
        EventStream { events: VecDeque::new(), producers: 1, listening: false }
    }

    /// Queues `msg` behind everything that waits already. This never fails:
    /// a message emitted into a stream without a consumer, or into a closed
    /// one, is accepted and stays where it is.
    pub fn emit(&mut self, msg: MSG)
        ensures
            final(self)@ == old(self)@.emit(msg),
    {
        self.events.push_back(msg);
    }

    /// Runs `callback` and emits what it made, if it made a message: the
    /// adapter between a native signal and this stream.
    pub fn connect<F, R>(&mut self, callback: F)
        where F: FnOnce() -> R, R: IntoOption<MSG>
        requires
            call_requires(callback, ()),
        ensures
            exists|made: R, msg: Option<MSG>|
                {
                    &&& call_ensures(callback, (), made)
                    &&& call_ensures(R::into_option, (made,), msg)
                    &&& final(self)@ == match msg {
                        Some(m) => old(self)@.emit(m),
                        None => old(self)@,
                    }
                },
    {
        let made = callback();
        let msg = made.into_option();
        let ghost sent = msg;
        match msg {
            Some(m) => self.emit(m),
            None => {},
        }
        assert(call_ensures(callback, (), made) && call_ensures(R::into_option, (made,), sent));
    }

    /// Counts one more producer handle and says whether it did: a stream
    /// that no producer holds any more has no handle left to clone.
    pub fn add_producer(&mut self) -> (added: bool)
        ensures
            added == (0 < old(self)@.producers < usize::MAX),
            final(self)@ == old(self)@.add_producer(),
    {
        if 0 < self.producers && self.producers < usize::MAX {
            self.producers = self.producers + 1;
            true
        } else {
            false
        }
    }

    /// Counts one producer handle less. When the last one goes while the
    /// consumer is registered, the stream is closed.
    pub fn drop_producer(&mut self)
        ensures
            final(self)@ == old(self)@.drop_producer(),
    {
        if self.producers > 0 {
            self.producers = self.producers - 1;
        }
    }

    /// Registers the consumer: from now on a dispatch pass delivers.
    pub fn listen(&mut self)
        ensures
            final(self)@ == old(self)@.listen(),
    {
        self.listening = true;
    }

    /// Whether every producer handle is gone while the consumer is still
    /// registered.
    pub fn is_closed(&self) -> (closed: bool)
        ensures
            closed == self@.closed(),
    {
        self.listening && self.producers == 0
    }

    /// Whether a consumer is registered.
    pub fn is_listening(&self) -> (listening: bool)
        ensures
            listening == self@.listening,
    {
        self.listening
    }

    /// The number of producer handles that are alive.
    pub fn producers(&self) -> (count: usize)
        ensures
            count == self@.producers,
    {
        self.producers
    }

    /// The number of messages that wait for delivery.
    pub fn len(&self) -> (len: usize)
        ensures
            len == self@.queue.len(),
    {
        self.events.len()
    }

    /// Whether no message waits for delivery.
    pub fn is_empty(&self) -> (empty: bool)
        ensures
            empty == (self@.queue.len() == 0),
    {
        self.events.len() == 0
    }

    /// Takes the oldest message for delivery. A stream that is not
    /// dispatching hands out nothing and keeps what it holds.
    pub fn next(&mut self) -> (msg: Option<MSG>)
        ensures
            old(self)@.dispatching() && old(self)@.queue.len() > 0 ==> {
                &&& msg == Some(old(self)@.queue[0])
                &&& final(self)@ == StreamView { queue: old(self)@.queue.drop_first(), ..old(self)@ }
            },
            !(old(self)@.dispatching() && old(self)@.queue.len() > 0) ==> {
                &&& msg is None
                &&& final(self)@ == old(self)@
            },
    {
        if self.listening && self.producers > 0 {
            self.events.pop_front()
        } else {
            None
        }
    }
}

/// Emitting messages one after the other appends them to the queue in that
/// order and touches nothing else.
pub proof fn lemma_emit_all_appends<MSG>(s: StreamView<MSG>, msgs: Seq<MSG>)
    ensures
        s.emit_all(msgs) == (StreamView { queue: s.queue + msgs, ..s }),
    decreases msgs.len(),
{
    if msgs.len() == 0 {
        assert(s.queue + msgs =~= s.queue);
    } else {
        lemma_emit_all_appends(s, msgs.drop_last());
        assert((s.queue + msgs.drop_last()).push(msgs.last()) =~= s.queue + msgs);
    }
}

/// Delivery order is emission order. Whatever the interleaving in which
/// several producers emit, tagged here with the producer's number, a
/// dispatching stream delivers what waited before, then the emissions as they
/// came; so the messages of any one producer arrive in the order in which
/// that producer emitted them.
pub proof fn lemma_producer_order<MSG>(
    s: StreamView<(nat, MSG)>,
    emissions: Seq<(nat, MSG)>,
    producer: nat,
)
    ensures
        s.dispatching() ==> s.emit_all(emissions).delivery() == s.queue + emissions,
        s.dispatching() ==> from_producer(s.emit_all(emissions).delivery(), producer)
            == from_producer(s.queue, producer) + from_producer(emissions, producer),
        !s.dispatching() ==> s.emit_all(emissions).delivery() == Seq::<(nat, MSG)>::empty(),
{
    lemma_emit_all_appends(s, emissions);
    Seq::filter_distributes_over_add(s.queue, emissions, |m: (nat, MSG)| m.0 == producer);
}

/// A closed stream stays closed whatever is emitted into it, and neither
/// what it held when the last producer went nor what is queued later is
/// ever delivered: a dispatch pass delivers nothing and leaves it as it is.
pub proof fn lemma_closed_stream_delivers_nothing<MSG>(s: StreamView<MSG>, later: Seq<MSG>)
    requires
        s.closed(),
    ensures
        s.emit_all(later).closed(),
        s.emit_all(later).queue == s.queue + later,
        s.emit_all(later).delivery() == Seq::<MSG>::empty(),
        s.emit_all(later).delivered() == s.emit_all(later),
{
    lemma_emit_all_appends(s, later);
}

/// Dropping the last producer handle of a stream whose consumer is
/// registered closes it, and no handle can be cloned from it afterwards.
pub proof fn lemma_last_drop_closes<MSG>(s: StreamView<MSG>)
    requires
        s.listening,
        s.producers == 1,
    ensures
        s.drop_producer().closed(),
        s.drop_producer().add_producer() == s.drop_producer(),
{
}

/// One dispatch pass over an open stream delivers every emission exactly
/// once: as many messages as were emitted, none twice, none left behind.
pub proof fn lemma_pass_delivers_each_emission_once<MSG>(s: StreamView<MSG>, emissions: Seq<MSG>)
    requires
        s.dispatching(),
        s.queue.len() == 0,
    ensures
        s.emit_all(emissions).delivery() == emissions,
        s.emit_all(emissions).delivery().len() == emissions.len(),
        s.emit_all(emissions).delivered().queue.len() == 0,
        s.emit_all(emissions).delivered().delivery().len() == 0,
{
    lemma_emit_all_appends(s, emissions);
    assert(s.queue + emissions =~= emissions);
}

} // verus!
