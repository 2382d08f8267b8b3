//! Lets a synchronous callback answer code that waits on the run loop.
//!
//! A toolkit callback returns at once, but what it decides is wanted by code
//! that waits on a nested run of the loop. The [`Resolver`] is the callback's
//! end of a one-shot channel to that code. It decides what goes into the
//! channel and when the loop is told to quit; the channel and the loop belong
//! to whoever drives it. The driver reports each thing that happened and does
//! what the resolver answers, until the answer is [`Action::Nothing`]:
//!
//! - `resolve(value)` when the callback has its answer, `dropped()` when the
//!   resolver goes away;
//! - on [`Action::Send`], hand the value to the channel and report the reply
//!   with `sent`;
//! - on [`Action::Flush`], flush the channel and report the reply with
//!   `flushed`;
//! - on [`Action::Quit`], tell the loop to quit;
//! - on [`Action::Fail`], give up: the channel did what a one-shot channel
//!   with a waiting receiver never does.

use std::marker::PhantomData;
use vstd::prelude::*;

verus! {

/// What the channel said when a value was handed to it.
#[derive(Clone, Copy, Debug, PartialEq, Eq, Structural)]
pub enum SendReply {
    /// The channel took the value.
    Ready,
    /// The channel is full and gave the value back.
    NotReady,
    /// The receiver is gone.
    Disconnected,
}

/// What the channel said when it was asked to flush.
#[derive(Clone, Copy, Debug, PartialEq, Eq, Structural)]
pub enum FlushReply {
    /// Everything that was sent is on its way.
    Ready,
    /// The channel is still busy.
    NotReady,
    /// The channel failed.
    Failed,
}

/// How far a resolver is.
#[derive(Clone, Copy, Debug, PartialEq, Eq, Structural)]
pub enum Phase {
    /// Nothing was sent yet.
    Pending,
    /// A value was handed out for the channel; its reply is awaited.
    Sending,
    /// The channel took the value; the reply to the flush is awaited.
    Flushing,
    /// The value reached the channel and the loop was told to quit.
    Sent,
    /// The channel let the resolver down.
    Failed,
}

/// What the driver of a resolver is to do next.
#[derive(Debug, PartialEq, Eq)]
pub enum Action<T> {
    /// Nothing: what was reported changes nothing.
    Nothing,
    /// Hand this value to the channel.
    Send(T),
    /// Flush the channel.
    Flush,
    /// Tell the run loop to quit: the value is on its way.
    Quit,
    /// Give up: the channel refused the one value it was made for.
    Fail,
}

impl Phase {
    /// Where `resolve` leads from this phase, and what is to be done. Only
    /// the first value is sent.
    pub open spec fn resolve<T>(self, value: T) -> (Phase, Action<T>) {
        if self is Pending {
            (Phase::Sending, Action::Send(value))
        } else {
            (self, Action::Nothing)
        }
    }

    /// Where the channel's reply to the value leads, and what is to be done.
    pub open spec fn sent<T>(self, reply: SendReply) -> (Phase, Action<T>) {
        if self is Sending {
            if reply is Ready {
                (Phase::Flushing, Action::Flush)
            } else {
                (Phase::Failed, Action::Fail)
            }
        } else {
            (self, Action::Nothing)
        }
    }

    /// Where the channel's reply to the flush leads, and what is to be done.
    pub open spec fn flushed<T>(self, reply: FlushReply) -> (Phase, Action<T>) {
        if self is Flushing {
            if reply is Ready {
                (Phase::Sent, Action::Quit)
            } else {
                (Phase::Failed, Action::Fail)
            }
        } else {
            (self, Action::Nothing)
        }
    }

    /// The phase after a transmission that the channel carried out: the
    /// value was taken and the flush went through.
    pub open spec fn carried_out(self) -> Phase {
        self.sent::<()>(SendReply::Ready).0.flushed::<()>(FlushReply::Ready).0
    }

    /// Whether dropping a resolver in this phase sends the default value.
    pub open spec fn drop_sends(self) -> bool {
        self is Pending
    }
}

/// The values that go into the channel when `resolve` is called with each of
/// `values` in turn, from `phase` on, the channel carrying out each
/// transmission before the next call.
pub open spec fn transmitted<T>(phase: Phase, values: Seq<T>) -> Seq<T>
    decreases values.len(),
{
    if values.len() == 0 {
        Seq::empty()
    } else {
        let before = transmitted(phase, values.drop_last());
        match settled(phase, values.drop_last()).resolve(values.last()).1 {
            Action::Send(value) => before.push(value),
            _ => before,
        }
    }
}

/// The phase after those calls.
pub open spec fn settled<T>(phase: Phase, values: Seq<T>) -> Phase
    decreases values.len(),
{
    if values.len() == 0 {
        phase
    } else {
        settled(phase, values.drop_last()).resolve(values.last()).0.carried_out()
    }
}

/// The callback's end of a one-shot channel: it sends exactly one value, the
/// one it is resolved with first, or the type's default if it is dropped
/// before.
pub struct Resolver<T: Default> {
    phase: Phase,
    value: PhantomData<T>,
}

impl<T: Default> Resolver<T> {
    /// A resolver that has sent nothing yet.
    pub fn new() -> (resolver: Self)
        ensures
            resolver.phase() is Pending,
    {
        Resolver { phase: Phase::Pending, value: PhantomData }
    }

    /// How far this resolver is, in contracts.
    pub closed spec fn phase(&self) -> Phase {
        self.phase
    }

    /// Whether the value has reached the channel.
    pub fn send_done(&self) -> (done: bool)
        ensures
            done == (self.phase() is Sent),
    {
        match self.phase {
            Phase::Sent => true,
            _ => false,
        }
    }

    /// Whether the channel let this resolver down.
    pub fn has_failed(&self) -> (failed: bool)
        ensures
            failed == (self.phase() is Failed),
    {
        match self.phase {
            Phase::Failed => true,
            _ => false,
        }
    }

    /// Sets the value that the waiting code receives. Only the first call
    /// counts: a later one changes nothing and its value goes nowhere.
    pub fn resolve(&mut self, value: T) -> (action: Action<T>)
        ensures
            (final(self).phase(), action) == old(self).phase().resolve(value),
    {
        match self.phase {
            Phase::Pending => {
                self.phase = Phase::Sending;
                Action::Send(value)
            },
            _ => Action::Nothing,
        }
    }

    /// The resolver is going away. If nothing was sent, the default value
    /// is, so that the waiting code is never left without an answer.
    pub fn dropped(&mut self) -> (action: Action<T>)
        ensures
            old(self).phase().drop_sends() ==> {
                &&& final(self).phase() is Sending
                &&& action matches Action::Send(value) && call_ensures(T::default, (), value)
            },
            !old(self).phase().drop_sends() ==> {
                &&& final(self).phase() == old(self).phase()
                &&& action is Nothing
            },
    {
        match self.phase {
            Phase::Pending => {
                self.phase = Phase::Sending;
                Action::Send(T::default())
            },
            _ => Action::Nothing,
        }
    }

    /// The channel has answered to the value.
    pub fn sent(&mut self, reply: SendReply) -> (action: Action<T>)
        ensures
            (final(self).phase(), action) == old(self).phase().sent::<T>(reply),
    {
        match self.phase {
            Phase::Sending => match reply {
                SendReply::Ready => {
                    self.phase = Phase::Flushing;
                    Action::Flush
                },
                _ => {
                    self.phase = Phase::Failed;
                    Action::Fail
                },
            },
            _ => Action::Nothing,
        }
    }

    /// The channel has answered to the flush.
    pub fn flushed(&mut self, reply: FlushReply) -> (action: Action<T>)
        ensures
            (final(self).phase(), action) == old(self).phase().flushed::<T>(reply),
    {
        match self.phase {
            Phase::Flushing => match reply {
                FlushReply::Ready => {
                    self.phase = Phase::Sent;
                    Action::Quit
                },
                _ => {
                    self.phase = Phase::Failed;
                    Action::Fail
                },
            },
            _ => Action::Nothing,
        }
    }
}

/// A transmission that the channel carries out ends in `Sent`, and a
/// resolver that has sent stays as it is whatever it is resolved with.
pub proof fn lemma_sent_is_final<T>(value: T)
    ensures
        Phase::Pending.resolve(value).0.carried_out() is Sent,
        Phase::Sent.resolve(value) == (Phase::Sent, Action::<T>::Nothing),
        Phase::Sent.carried_out() is Sent,
        !Phase::Sent.drop_sends(),
{
}

/// Exactly one value reaches the receiver. Of a resolver that is resolved
/// any number of times and then dropped, the channel gets the first value
/// and no other; only if it was never resolved does the drop send, and then
/// the default.
pub proof fn lemma_exactly_one_transmission<T>(values: Seq<T>)
    ensures
        values.len() > 0 ==> transmitted(Phase::Pending, values) == seq![values[0]],
        values.len() > 0 ==> settled(Phase::Pending, values) is Sent,
        values.len() > 0 ==> !settled(Phase::Pending, values).drop_sends(),
        values.len() == 0 ==> transmitted(Phase::Pending, values) == Seq::<T>::empty(),
        values.len() == 0 ==> settled(Phase::Pending, values).drop_sends(),
        transmitted(Phase::Pending, values).len() + (if settled(
            Phase::Pending,
            values,
        ).drop_sends() {
            1int
        } else {
            0int
        }) == 1,
    decreases values.len(),
{
    if values.len() > 0 {
        let earlier = values.drop_last();
        lemma_exactly_one_transmission(earlier);
        if earlier.len() == 0 {
            assert(transmitted(Phase::Pending, earlier) == Seq::<T>::empty());
            assert(settled(Phase::Pending, earlier) == Phase::Pending);
            assert(transmitted(Phase::Pending, values) =~= seq![values[0]]);
        } else {
            assert(earlier[0] == values[0]);
            assert(settled(Phase::Pending, earlier) is Sent);
        }
    }
}

} // verus!
