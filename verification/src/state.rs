//! What a component's logic implements, and the handle it is given to its
//! own stream.

use vstd::prelude::*;

use crate::stream::{EventStream, StreamView};

verus! {

/// A human-readable tag for a message, for diagnostics.
pub trait DisplayVariant {
    /// The name of the variant that `self` is.
    fn display_variant(&self) -> &'static str;
}

/// What a signal adapter may hand back: a message, or maybe one.
pub trait IntoOption<T> {
    /// The message to emit, if there is one.
    fn into_option(self) -> Option<T>;
}

impl<T> IntoOption<T> for Option<T> {
    fn into_option(self) -> (msg: Option<T>)
        ensures
            msg == self,
    {
        self
    }
}

/// The logic of a component: a state machine over its model, driven by the
/// messages of its stream. Each step takes the component and gives the next.
pub trait Update: Sized {
    /// The component's private state.
    type Model;

    /// What the model is built from.
    type ModelParam;

    /// The events that the component reacts to.
    type Msg: DisplayVariant;

    /// Builds the initial model. This must not touch the native toolkit:
    /// that is for `view` and `init_view`.
    fn model(relm: &Relm<Self>, param: Self::ModelParam) -> Self::Model;

    /// Wires the native signals that the component cares about to messages.
    /// Called once, when the component is attached and before its stream
    /// starts to dispatch.
    fn subscriptions(self, relm: &Relm<Self>) -> (wired: Self)
        default_ensures
            wired == self,
    {
        self
    }

    /// Reacts to one message.
    fn update(self, event: Self::Msg) -> Self;
}

/// A component that is assembled from its model alone, without a view.
pub trait UpdateNew: Update {
    /// The live component for `model`.
    fn new(relm: &Relm<Self>, model: Self::Model) -> Self;
}

/// The handle through which a component's hooks see the stream that feeds
/// it. It has no life of its own: it is the stream, under the component's
/// type.
pub struct Relm<UPDATE: Update> {
    stream: EventStream<UPDATE::Msg>,
}

impl<UPDATE: Update> View for Relm<UPDATE> {
    type V = StreamView<UPDATE::Msg>;

    open spec fn view(&self) -> StreamView<UPDATE::Msg> {
        self.stream_spec()@
    }
}

impl<UPDATE: Update> Relm<UPDATE> {
    /// The handle for `stream`.
    pub fn new(stream: EventStream<UPDATE::Msg>) -> (relm: Self)
        ensures
            relm@ == stream@,
            relm.stream_spec() == stream,
    {
        Relm { stream }
    }

    /// The stream behind this handle, in contracts.
    pub closed spec fn stream_spec(&self) -> EventStream<UPDATE::Msg> {
        self.stream
    }

    /// The stream behind this handle.
    pub fn stream(&self) -> (stream: &EventStream<UPDATE::Msg>)
        ensures
            *stream == self.stream_spec(),
            stream@ == self@,
    {
        &self.stream
    }

    /// The stream behind this handle, for the component that owns both.
    pub(crate) fn stream_mut(&mut self) -> (stream: &mut EventStream<UPDATE::Msg>)
        ensures
            *stream == old(self).stream_spec(),
            final(self).stream_spec() == *final(stream),
    {
        &mut self.stream
    }
}

} // verus!
