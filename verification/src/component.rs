//! The handle to a running component, and the steps that bring one to life.

use vstd::prelude::*;

use crate::state::{Relm, Update, UpdateNew};
use crate::stream::{EventStream, StreamView};
use crate::widget::Widget;

verus! {

/// `post` is what one run of `update` may make of `pre` on `event`.
pub open spec fn updated<U: Update>(pre: U, event: U::Msg, post: U) -> bool {
    call_ensures(U::update, (pre, event), post)
}

/// `post` is what `pre` becomes when `update` is run on each of `events` in
/// turn, each step starting from what the step before it returned.
pub open spec fn delivers<U: Update>(pre: U, events: Seq<U::Msg>, post: U) -> bool
    decreases events.len(),
{
    if events.len() == 0 {
        post == pre
    } else {
        exists|mid: U|
            delivers(pre, events.drop_last(), mid) && #[trigger] updated(
                mid,
                events.last(),
                post,
            )
    }
}

/// One dispatch pass: hands every message that waits in `stream` to
/// `logic.update`, oldest first, and gives back the logic as the last step
/// left it, with the number of messages delivered. A stream that is not
/// dispatching is passed over: nothing is delivered and nothing changes.
pub fn drain<U: Update>(stream: &mut EventStream<U::Msg>, logic: U) -> (done: (U, usize))
    ensures
        final(stream)@ == old(stream)@.delivered(),
        delivers(logic, old(stream)@.delivery(), done.0),
        done.1 == old(stream)@.delivery().len(),
{
    let ghost start = stream@;
    if !stream.is_listening() || stream.producers() == 0 {
        return (logic, 0);
    }
    let total: usize = stream.len();
    let mut logic = logic;
    let ghost first = logic;
    let mut count: usize = 0;
    assert(start.queue.skip(0) =~= start.queue);
    while count < total
        invariant
            start.dispatching(),
            total == start.queue.len(),
            count <= total,
            stream@ == (StreamView { queue: start.queue.skip(count as int), ..start }),
            delivers(first, start.queue.take(count as int), logic),
        decreases total - count,
    {
        let ghost before = logic;
        let next = stream.next();
        assert(start.queue.skip(count as int)[0] == start.queue[count as int]);
        assert(start.queue.skip(count as int).drop_first() =~= start.queue.skip(count + 1));
        let event = next.unwrap();
        let ghost handed = event;
        logic = logic.update(event);
        proof {
            let sent = start.queue.take(count + 1);
            assert(sent.drop_last() =~= start.queue.take(count as int));
            assert(sent.last() == handed);
            assert(delivers(first, sent.drop_last(), before) && updated(
                before,
                sent.last(),
                logic,
            ));
        }
        count = count + 1;
    }
    assert(start.queue.take(count as int) =~= start.queue);
    assert(start.queue.skip(count as int) =~= Seq::<U::Msg>::empty());
    (logic, count)
}

/// A [`Component`] as contracts see it.
pub struct ComponentView<W: Widget> {
    /// The handle to the component's stream; `relm@` is the stream's state.
    pub relm: Relm<W>,
    /// The native root that was taken from the view when it was built.
    pub root: W::Root,
    /// The live component, once its stream dispatches to it.
    pub logic: Option<W>,
}

/// The handle to a running component: it owns the component's stream, its
/// logic and the native root of its view. Who drops it ends the component.
pub struct Component<W: Widget> {
    relm: Relm<W>,
    widget: W::Root,
    logic: Option<W>,
}

impl<W: Widget> View for Component<W> {
    type V = ComponentView<W>;

    closed spec fn view(&self) -> ComponentView<W> {
        ComponentView { relm: self.relm, root: self.widget, logic: self.logic }
    }
}

impl<W: Widget> Component<W> {
    /// A component around `stream` and the root `widget`, with no logic
    /// wired to the stream yet.
    pub fn new(stream: EventStream<W::Msg>, widget: W::Root) -> (component: Self)
        ensures
            component@.relm.stream_spec() == stream,
            component@.relm@ == stream@,
            component@.root == widget,
            component@.logic is None,
    {
        Component { relm: Relm::new(stream), widget, logic: None }
    }

    /// Emits a message into the component's stream.
    pub fn emit(&mut self, msg: W::Msg)
        ensures
            final(self)@.relm@ == old(self)@.relm@.emit(msg),
            final(self)@.root == old(self)@.root,
            final(self)@.logic == old(self)@.logic,
    {
        self.relm.stream_mut().emit(msg);
    }

    /// The component's stream.
    pub fn stream(&self) -> (stream: &EventStream<W::Msg>)
        ensures
            *stream == self@.relm.stream_spec(),
            stream@ == self@.relm@,
    {
        self.relm.stream()
    }

    /// The native root of the component's view: the handle that `root` gave
    /// when the component was built, the same at every call.
    pub fn widget(&self) -> (root: &W::Root)
        ensures
            *root == self@.root,
    {
        &self.widget
    }

    /// The live component, once it is wired to the stream: for who holds the
    /// handle to look at what the component has become.
    pub fn logic(&self) -> (logic: Option<&W>)
        ensures
            logic == match self@.logic {
                Some(live) => Some(&live),
                None => None,
            },
    {
        match &self.logic {
            Some(live) => Some(live),
            None => None,
        }
    }

    /// Counts one more holder of this component; see
    /// [`EventStream::add_producer`].
    pub fn add_producer(&mut self) -> (added: bool)
        ensures
            added == (0 < old(self)@.relm@.producers < usize::MAX),
            final(self)@.relm@ == old(self)@.relm@.add_producer(),
            final(self)@.root == old(self)@.root,
            final(self)@.logic == old(self)@.logic,
    {
        self.relm.stream_mut().add_producer()
    }

    /// Counts one holder less. When the last one lets go, the component
    /// goes inert: its stream is closed and `dispatch` passes it over.
    pub fn drop_producer(&mut self)
        ensures
            final(self)@.relm@ == old(self)@.relm@.drop_producer(),
            final(self)@.root == old(self)@.root,
            final(self)@.logic == old(self)@.logic,
    {
        self.relm.stream_mut().drop_producer();
    }

    /// One dispatch pass of the run loop over this component: every message
    /// that waits is handed to `update`, oldest first, one after the other.
    /// Returns how many were delivered. A component without logic, or whose
    /// stream is not dispatching, is left exactly as it is.
    pub fn dispatch(&mut self) -> (delivered: usize)
        ensures
            final(self)@.root == old(self)@.root,
            match old(self)@.logic {
                Some(pre) => {
                    &&& final(self)@.logic matches Some(post) && delivers(
                        pre,
                        old(self)@.relm@.delivery(),
                        post,
                    )
                    &&& final(self)@.relm@ == old(self)@.relm@.delivered()
                    &&& delivered == old(self)@.relm@.delivery().len()
                },
                None => final(self)@ == old(self)@ && delivered == 0,
            },
    {
        match self.logic.take() {
            Some(logic) => {
                let (logic, delivered) = drain(self.relm.stream_mut(), logic);
                self.logic = Some(logic);
                delivered
            },
            None => 0,
        }
    }
}

/// `widget` with the root `root` is what the construction hooks make of
/// `param`: `model`, then `view` on that model, then `init_view` on that
/// view, and `root` asked of the result. The hooks see the stream as `relm`.
pub open spec fn built<W: Widget>(
    param: W::ModelParam,
    relm: Relm<W>,
    widget: W,
    root: W::Root,
) -> bool {
    exists|model: W::Model, seen: W|
        {
            &&& #[trigger] call_ensures(W::model, (&relm, param), model)
            &&& #[trigger] call_ensures(W::view, (&relm, model), seen)
            &&& call_ensures(W::init_view, (seen,), widget)
            &&& call_ensures(W::root, (&widget,), root)
        }
}

/// `after` is `before` with `widget` wired to its stream: `subscriptions`
/// ran on the widget, the result is the component's logic, and the stream
/// has its consumer registered. Root and queue are as they were.
pub open spec fn started<W: Widget>(
    before: ComponentView<W>,
    widget: W,
    after: ComponentView<W>,
) -> bool {
    &&& after.logic matches Some(wired) && call_ensures(
        W::subscriptions,
        (widget, &before.relm),
        wired,
    )
    &&& after.relm@ == before.relm@.listen()
    &&& after.root == before.root
}

/// `made` is a running component built from `param` that no container
/// holds: constructed, then wired to a stream that is fresh but for its
/// registered consumer.
pub open spec fn created<W: Widget>(param: W::ModelParam, made: ComponentView<W>) -> bool {
    exists|blank: ComponentView<W>, widget: W|
        {
            &&& blank.relm@ == StreamView::<W::Msg>::fresh()
            &&& blank.logic is None
            &&& #[trigger] built(param, blank.relm, widget, blank.root)
            &&& started(blank, widget, made)
        }
}

/// Builds a component from its model parameter: a fresh stream, the model,
/// the view, its second phase, and the root taken from the finished view.
/// The stream does not dispatch yet, and the widget is handed back for the
/// caller to attach and then wire with [`init_component`].
pub fn create_widget<W: Widget>(model_param: W::ModelParam) -> (made: (Component<W>, W))
    ensures
        made.0@.relm@ == StreamView::<W::Msg>::fresh(),
        made.0@.logic is None,
        built(model_param, made.0@.relm, made.1, made.0@.root),
{
    let relm = Relm::new(EventStream::new());
    let model = W::model(&relm, model_param);
    let seen = W::view(&relm, model);
    let ghost shown = seen;
    let widget = seen.init_view();
    let root = widget.root();
    assert(call_ensures(W::model, (&relm, model_param), model) && call_ensures(
        W::view,
        (&relm, model),
        shown,
    ));
    (Component { relm, widget: root, logic: None }, widget)
}

/// Wires `widget` to the component's stream: runs its `subscriptions`,
/// makes it the component's logic and registers the stream's consumer, so
/// that the next dispatch pass delivers to it.
pub fn init_component<W: Widget>(component: &mut Component<W>, widget: W)
    ensures
        started(old(component)@, widget, final(component)@),
{
    let wired = widget.subscriptions(&component.relm);
    component.logic = Some(wired);
    component.relm.stream_mut().listen();
}

/// Builds a component and wires it at once, without attaching its root to
/// any container: for a root that has no parent, such as a window.
pub fn create_component<W: Widget>(model_param: W::ModelParam) -> (component: Component<W>)
    ensures
        created(model_param, component@),
{
    let (mut component, widget) = create_widget::<W>(model_param);
    let ghost blank = component@;
    init_component(&mut component, widget);
    assert(built(model_param, blank.relm, widget, blank.root) && started(
        blank,
        widget,
        component@,
    ));
    component
}

/// An [`Execution`] as contracts see it.
pub struct ExecutionView<U: Update> {
    /// The handle to the component's stream; `relm@` is the stream's state.
    pub relm: Relm<U>,
    /// The live component.
    pub logic: Option<U>,
}

/// A running component without a view: its stream and its logic.
pub struct Execution<U: Update> {
    relm: Relm<U>,
    logic: Option<U>,
}

impl<U: Update> View for Execution<U> {
    type V = ExecutionView<U>;

    closed spec fn view(&self) -> ExecutionView<U> {
        ExecutionView { relm: self.relm, logic: self.logic }
    }
}

/// `made` is what `execute` makes of `param`: the model, the component
/// assembled from it, its subscriptions, and a stream that is fresh but for
/// its registered consumer.
pub open spec fn executed<U: UpdateNew>(param: U::ModelParam, made: ExecutionView<U>) -> bool {
    exists|relm: Relm<U>, model: U::Model, assembled: U|
        {
            &&& relm@ == StreamView::<U::Msg>::fresh()
            &&& #[trigger] call_ensures(U::model, (&relm, param), model)
            &&& #[trigger] call_ensures(U::new, (&relm, model), assembled)
            &&& made.logic matches Some(wired) && call_ensures(
                U::subscriptions,
                (assembled, &relm),
                wired,
            )
            &&& made.relm@ == relm@.listen()
        }
}

/// Starts a component that has no view: builds its model, assembles it,
/// wires its subscriptions and registers it with its stream.
pub fn execute<U: UpdateNew>(model_param: U::ModelParam) -> (running: Execution<U>)
    ensures
        executed(model_param, running@),
{
    let mut relm = Relm::new(EventStream::new());
    let ghost blank = relm;
    let model = U::model(&relm, model_param);
    let assembled = U::new(&relm, model);
    let ghost whole = assembled;
    let wired = assembled.subscriptions(&relm);
    relm.stream_mut().listen();
    assert(call_ensures(U::model, (&blank, model_param), model) && call_ensures(
        U::new,
        (&blank, model),
        whole,
    ));
    Execution { relm, logic: Some(wired) }
}

impl<U: Update> Execution<U> {
    /// Emits a message into the component's stream.
    pub fn emit(&mut self, msg: U::Msg)
        ensures
            final(self)@.relm@ == old(self)@.relm@.emit(msg),
            final(self)@.logic == old(self)@.logic,
    {
        self.relm.stream_mut().emit(msg);
    }

    /// The component's stream.
    pub fn stream(&self) -> (stream: &EventStream<U::Msg>)
        ensures
            *stream == self@.relm.stream_spec(),
            stream@ == self@.relm@,
    {
        self.relm.stream()
    }

    /// The live component, once it is wired to the stream: for who holds the
    /// handle to look at what the component has become.
    pub fn logic(&self) -> (logic: Option<&U>)
        ensures
            logic == match self@.logic {
                Some(live) => Some(&live),
                None => None,
            },
    {
        match &self.logic {
            Some(live) => Some(live),
            None => None,
        }
    }

    /// Counts one more holder of this component; see
    /// [`EventStream::add_producer`].
    pub fn add_producer(&mut self) -> (added: bool)
        ensures
            added == (0 < old(self)@.relm@.producers < usize::MAX),
            final(self)@.relm@ == old(self)@.relm@.add_producer(),
            final(self)@.logic == old(self)@.logic,
    {
        self.relm.stream_mut().add_producer()
    }

    /// Counts one holder less; see [`EventStream::drop_producer`].
    pub fn drop_producer(&mut self)
        ensures
            final(self)@.relm@ == old(self)@.relm@.drop_producer(),
            final(self)@.logic == old(self)@.logic,
    {
        self.relm.stream_mut().drop_producer();
    }

    /// One dispatch pass of the run loop over this component; see
    /// [`Component::dispatch`].
    pub fn dispatch(&mut self) -> (delivered: usize)
        ensures
            match old(self)@.logic {
                Some(pre) => {
                    &&& final(self)@.logic matches Some(post) && delivers(
                        pre,
                        old(self)@.relm@.delivery(),
                        post,
                    )
                    &&& final(self)@.relm@ == old(self)@.relm@.delivered()
                    &&& delivered == old(self)@.relm@.delivery().len()
                },
                None => final(self)@ == old(self)@ && delivered == 0,
            },
    {
        match self.logic.take() {
            Some(logic) => {
                let (logic, delivered) = drain(self.relm.stream_mut(), logic);
                self.logic = Some(logic);
                delivered
            },
            None => 0,
        }
    }
}

} // verus!
