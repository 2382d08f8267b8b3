//! How a parent attaches a child component into its native container.
//!
//! The native container is the toolkit's: the engine asks it to attach or
//! detach a root and goes by its answer. Everything around that one call is
//! decided here: the child is built before it, told of its parent and wired
//! to its stream only after the toolkit took it, and a refusal ends the
//! composition with the child never started.

use vstd::prelude::*;

use crate::component::{built, create_widget, init_component, started, Component, ComponentView};
use crate::stream::{EventStream, StreamView};
use crate::widget::Widget;

verus! {

/// The toolkit's account of a native operation that it did not carry out.
#[derive(Clone, Copy, Debug, PartialEq, Eq, Structural)]
pub struct NativeError {
    /// The toolkit's own code for what went wrong.
    pub code: i32,
}

/// Why a composition step did not happen.
#[derive(Clone, Copy, Debug, PartialEq, Eq, Structural)]
pub enum Error {
    /// The toolkit did not attach the child's root to the container.
    Attach(NativeError),
    /// The toolkit did not detach the child's root from the container.
    Detach(NativeError),
}

/// A native container that takes roots of type `ROOT`: the toolkit's
/// "attach" and "detach", which act on the native tree behind `self`.
pub trait ContainerExt<ROOT> {
    /// Attaches `widget` as a child of this container.
    fn add(&self, widget: &ROOT) -> Result<(), NativeError>;

    /// Detaches `widget` from this container.
    fn remove(&self, widget: &ROOT) -> Result<(), NativeError>;
}

/// A widget that children can be added to.
pub trait Container: Widget {
    /// The type of the native container that children go into.
    type Container: Clone;

    /// The type that holds the further native containers of a widget with
    /// several regions; `()` where there are none.
    type Containers: Clone;

    /// The native container that children go into.
    fn container(&self) -> &Self::Container;

    /// The further native containers.
    fn other_containers(&self) -> Self::Containers;
}

/// What becomes of a built child once the toolkit has answered: on a
/// refusal the composition fails with that refusal and the child is never
/// started; otherwise `on_add` runs on the widget with its parent, and the
/// result is wired to the child's stream.
pub open spec fn adopted<P: ContainerExt<CHILD::Root>, CHILD: Widget<Parent = P>>(
    parent: &P,
    attached: Result<(), NativeError>,
    blank: ComponentView<CHILD>,
    widget: CHILD,
    outcome: Result<Component<CHILD>, Error>,
) -> bool {
    match attached {
        Err(refusal) => outcome == Err::<Component<CHILD>, Error>(Error::Attach(refusal)),
        Ok(_) => outcome matches Ok(live) && exists|placed: CHILD| #[trigger]
            call_ensures(CHILD::on_add, (widget, parent), placed) && started(
                blank,
                placed,
                live@,
            ),
    }
}

/// The second half of attaching a child, from the toolkit's answer on.
/// `component` and `widget` are the child as `create_widget` built it, and
/// `attached` is what the parent's `add` said of the child's root. Only a
/// child that the toolkit took is told of its parent and then wired to its
/// stream, in this order.
pub fn adopt<P: ContainerExt<CHILD::Root>, CHILD: Widget<Parent = P>>(
    parent: &P,
    attached: Result<(), NativeError>,
    component: Component<CHILD>,
    widget: CHILD,
) -> (outcome: Result<Component<CHILD>, Error>)
    ensures
        adopted(parent, attached, component@, widget, outcome),
{
    match attached {
        Err(refusal) => Err(Error::Attach(refusal)),
        Ok(_) => {
            let mut component = component;
            let placed = widget.on_add(parent);
            init_component(&mut component, placed);
            assert(call_ensures(CHILD::on_add, (widget, parent), placed));
            Ok(component)
        },
    }
}

/// What the toolkit's answer to a detach request means for the caller.
pub fn detached(answer: Result<(), NativeError>) -> (outcome: Result<(), Error>)
    ensures
        outcome == match answer {
            Ok(_) => Ok::<(), Error>(()),
            Err(refusal) => Err::<(), Error>(Error::Detach(refusal)),
        },
{
    match answer {
        Ok(_) => Ok(()),
        Err(refusal) => Err(Error::Detach(refusal)),
    }
}

/// `outcome` is what attaching a child built from `param` to `parent`
/// comes to: the child is built on a fresh stream, its root is handed to
/// the parent's `add`, and the answer decides as [`adopted`] says.
pub open spec fn attached_widget<P: ContainerExt<CHILD::Root>, CHILD: Widget<Parent = P>>(
    parent: &P,
    param: CHILD::ModelParam,
    outcome: Result<Component<CHILD>, Error>,
) -> bool {
    exists|blank: ComponentView<CHILD>, widget: CHILD, attached: Result<(), NativeError>|
        {
            &&& blank.relm@ == StreamView::<CHILD::Msg>::fresh()
            &&& blank.logic is None
            &&& #[trigger] built(param, blank.relm, widget, blank.root)
            &&& #[trigger] call_ensures(P::add, (parent, &blank.root), attached)
            &&& adopted(parent, attached, blank, widget, outcome)
        }
}

/// As [`attached_widget`], for a child that is a container itself: its
/// native containers are taken from the finished view, before the root is
/// attached, and come back beside the component.
pub open spec fn attached_container<P: ContainerExt<CHILD::Root>, CHILD: Container<Parent = P>>(
    parent: &P,
    param: CHILD::ModelParam,
    outcome: Result<ContainerComponent<CHILD>, Error>,
) -> bool {
    exists|
        blank: ComponentView<CHILD>,
        widget: CHILD,
        attached: Result<(), NativeError>,
        inner: Result<Component<CHILD>, Error>,
    |
        {
            &&& blank.relm@ == StreamView::<CHILD::Msg>::fresh()
            &&& blank.logic is None
            &&& #[trigger] built(param, blank.relm, widget, blank.root)
            &&& #[trigger] call_ensures(P::add, (parent, &blank.root), attached)
            &&& #[trigger] adopted(parent, attached, blank, widget, inner)
            &&& match inner {
                Err(e) => outcome == Err::<ContainerComponent<CHILD>, Error>(e),
                Ok(live) => {
                    &&& outcome matches Ok(made)
                    &&& made@.component == live@
                    &&& exists|slot: &CHILD::Container| #[trigger]
                        call_ensures(CHILD::container, (&widget,), slot) && cloned(
                            *slot,
                            made@.container,
                        )
                    &&& call_ensures(CHILD::other_containers, (&widget,), made@.containers)
                },
            }
        }
}

/// `outcome` is what asking `parent` to detach the root of `child` comes
/// to; the child itself is not touched.
pub open spec fn removed_widget<P: ContainerExt<CHILD::Root>, CHILD: Widget>(
    parent: &P,
    child: ComponentView<CHILD>,
    outcome: Result<(), Error>,
) -> bool {
    exists|answer: Result<(), NativeError>| #[trigger]
        call_ensures(P::remove, (parent, &child.root), answer) && outcome == match answer {
            Ok(_) => Ok::<(), Error>(()),
            Err(refusal) => Err::<(), Error>(Error::Detach(refusal)),
        }
}

/// The order of composition, seen from its result. A child that came out of
/// an attach was built, its root is the one that the finished view gave, the
/// toolkit took that root, and only then was the child wired: so its stream
/// has just started to dispatch, holds nothing, and no message has reached
/// the child yet. A composition fails only with an attach error.
pub proof fn lemma_attached_child_is_live_and_unfed<
    P: ContainerExt<CHILD::Root>,
    CHILD: Widget<Parent = P>,
>(parent: &P, param: CHILD::ModelParam, outcome: Result<Component<CHILD>, Error>)
    requires
        attached_widget(parent, param, outcome),
    ensures
        outcome matches Ok(live) ==> live@.relm@ == StreamView::<CHILD::Msg>::fresh().listen(),
        outcome matches Ok(live) ==> live@.relm@.queue.len() == 0 && live@.relm@.dispatching(),
        outcome matches Ok(live) ==> live@.logic is Some,
        outcome matches Ok(live) ==> exists|answer: Result<(), NativeError>| #[trigger]
            call_ensures(P::add, (parent, &live@.root), answer) && answer is Ok,
        outcome matches Ok(live) ==> exists|widget: CHILD| #[trigger]
            call_ensures(CHILD::root, (&widget,), live@.root),
        outcome matches Err(e) ==> e is Attach,
{
    let (blank, widget, attached) = choose|
        blank: ComponentView<CHILD>,
        widget: CHILD,
        attached: Result<(), NativeError>,
    |
        {
            &&& blank.relm@ == StreamView::<CHILD::Msg>::fresh()
            &&& blank.logic is None
            &&& #[trigger] built(param, blank.relm, widget, blank.root)
            &&& #[trigger] call_ensures(P::add, (parent, &blank.root), attached)
            &&& adopted(parent, attached, blank, widget, outcome)
        };
    match outcome {
        Ok(live) => {
            assert(attached is Ok);
            assert(live@.root == blank.root);
            assert(call_ensures(P::add, (parent, &live@.root), attached));
            assert(call_ensures(CHILD::root, (&widget,), live@.root));
        },
        Err(e) => {
            assert(attached matches Err(refusal) && e == Error::Attach(refusal));
        },
    }
}

/// Adding and removing components on any native container.
pub trait ContainerWidget: Sized {
    /// Builds a child that is a container itself and attaches it here.
    ///
    /// Keep the returned handle: whoever drops it ends the child.
    fn add_container<CHILD>(&self, model_param: CHILD::ModelParam) -> (outcome: Result<
        ContainerComponent<CHILD>,
        Error,
    >) where CHILD: Container<Parent = Self>, Self: ContainerExt<CHILD::Root>
        ensures
            attached_container(self, model_param, outcome),
    ;

    /// Builds a child and attaches it here.
    ///
    /// Keep the returned handle: whoever drops it ends the child.
    fn add_widget<CHILD>(&self, model_param: CHILD::ModelParam) -> (outcome: Result<
        Component<CHILD>,
        Error,
    >) where CHILD: Widget<Parent = Self>, Self: ContainerExt<CHILD::Root>
        ensures
            attached_widget(self, model_param, outcome),
    ;

    /// Detaches a child's root from this container. The child keeps its
    /// stream and its logic: it ends when its handle is dropped, not here.
    fn remove_widget<CHILD>(&self, component: &Component<CHILD>) -> (outcome: Result<
        (),
        Error,
    >) where CHILD: Widget, Self: ContainerExt<CHILD::Root>
        ensures
            removed_widget(self, component@, outcome),
    ;
}

impl<W> ContainerWidget for W {
    fn add_container<CHILD>(&self, model_param: CHILD::ModelParam) -> (outcome: Result<
        ContainerComponent<CHILD>,
        Error,
    >) where CHILD: Container<Parent = Self>, Self: ContainerExt<CHILD::Root> {
        let (component, widget) = create_widget::<CHILD>(model_param);
        let ghost blank = component@;
        let slot = widget.container();
        let container = slot.clone();
        let containers = widget.other_containers();
        let attached = self.add(component.widget());
        let inner = adopt(self, attached, component, widget);
        assert(built(model_param, blank.relm, widget, blank.root) && call_ensures(
            W::add,
            (self, &blank.root),
            attached,
        ) && adopted(self, attached, blank, widget, inner));
        match inner {
            Err(e) => Err(e),
            Ok(live) => {
                assert(call_ensures(CHILD::container, (&widget,), slot) && cloned(
                    *slot,
                    container,
                ));
                Ok(ContainerComponent::new(live, container, containers))
            },
        }
    }

    fn add_widget<CHILD>(&self, model_param: CHILD::ModelParam) -> (outcome: Result<
        Component<CHILD>,
        Error,
    >) where CHILD: Widget<Parent = Self>, Self: ContainerExt<CHILD::Root> {
        let (component, widget) = create_widget::<CHILD>(model_param);
        let ghost blank = component@;
        let attached = self.add(component.widget());
        let outcome = adopt(self, attached, component, widget);
        assert(built(model_param, blank.relm, widget, blank.root) && call_ensures(
            W::add,
            (self, &blank.root),
            attached,
        ));
        outcome
    }

    fn remove_widget<CHILD>(&self, component: &Component<CHILD>) -> (outcome: Result<
        (),
        Error,
    >) where CHILD: Widget, Self: ContainerExt<CHILD::Root> {
        let answer = self.remove(component.widget());
        assert(call_ensures(W::remove, (self, &component@.root), answer));
        detached(answer)
    }
}

/// A [`ContainerComponent`] as contracts see it.
pub struct ContainerComponentView<WIDGET: Container> {
    /// The component inside.
    pub component: ComponentView<WIDGET>,
    /// The native container that children go into.
    pub container: WIDGET::Container,
    /// The further native containers.
    pub containers: WIDGET::Containers,
}

/// The handle to a running component that is a container: the component,
/// and the native containers that its own children are attached to.
pub struct ContainerComponent<WIDGET: Container> {
    component: Component<WIDGET>,
    /// The native container that children go into.
    pub container: WIDGET::Container,
    /// The further native containers of a widget with several regions.
    pub containers: WIDGET::Containers,
}

impl<WIDGET: Container> View for ContainerComponent<WIDGET> {
    type V = ContainerComponentView<WIDGET>;

    closed spec fn view(&self) -> ContainerComponentView<WIDGET> {
        ContainerComponentView {
            component: self.component@,
            container: self.container,
            containers: self.containers,
        }
    }
}

impl<WIDGET: Container> ContainerComponent<WIDGET> {
    /// The handle for `component` and its native containers.
    pub fn new(
        component: Component<WIDGET>,
        container: WIDGET::Container,
        containers: WIDGET::Containers,
    ) -> (made: Self)
        ensures
            made@.component == component@,
            made@.container == container,
            made@.containers == containers,
    {
        ContainerComponent { component, container, containers }
    }

    /// Attaches a native widget to this component's container.
    pub fn add<CHILDROOT>(&self, widget: &CHILDROOT) -> (outcome: Result<(), Error>) where
        WIDGET::Container: ContainerExt<CHILDROOT>,

        ensures
            exists|answer: Result<(), NativeError>| #[trigger]
                call_ensures(
                    <WIDGET::Container as ContainerExt<CHILDROOT>>::add,
                    (&self@.container, widget),
                    answer,
                ) && outcome == match answer {
                    Ok(_) => Ok::<(), Error>(()),
                    Err(refusal) => Err::<(), Error>(Error::Attach(refusal)),
                },
    {
        let answer = self.container.add(widget);
        assert(call_ensures(
            <WIDGET::Container as ContainerExt<CHILDROOT>>::add,
            (&self.container, widget),
            answer,
        ));
        match answer {
            Ok(_) => Ok(()),
            Err(refusal) => Err(Error::Attach(refusal)),
        }
    }

    /// Builds a child and attaches it to this component's container.
    ///
    /// Keep the returned handle: whoever drops it ends the child.
    pub fn add_widget<CHILDWIDGET>(&self, model_param: CHILDWIDGET::ModelParam) -> (outcome: Result<
        Component<CHILDWIDGET>,
        Error,
    >) where
        CHILDWIDGET: Widget<Parent = WIDGET::Container>,
        WIDGET::Container: ContainerExt<CHILDWIDGET::Root>,

        ensures
            attached_widget(&self@.container, model_param, outcome),
    {
        self.container.add_widget::<CHILDWIDGET>(model_param)
    }

    /// Emits a message into the component's stream.
    pub fn emit(&mut self, msg: WIDGET::Msg)
        ensures
            final(self)@.component.relm@ == old(self)@.component.relm@.emit(msg),
            final(self)@.component.root == old(self)@.component.root,
            final(self)@.component.logic == old(self)@.component.logic,
            final(self)@.container == old(self)@.container,
            final(self)@.containers == old(self)@.containers,
    {
        self.component.emit(msg);
    }

    /// The component's stream.
    pub fn stream(&self) -> (stream: &EventStream<WIDGET::Msg>)
        ensures
            *stream == self@.component.relm.stream_spec(),
            stream@ == self@.component.relm@,
    {
        self.component.stream()
    }

    /// The native root of the component's view.
    pub fn widget(&self) -> (root: &WIDGET::Root)
        ensures
            *root == self@.component.root,
    {
        self.component.widget()
    }

    /// The live component inside; see [`Component::logic`].
    pub fn logic(&self) -> (logic: Option<&WIDGET>)
        ensures
            logic == match self@.component.logic {
                Some(live) => Some(&live),
                None => None,
            },
    {
        self.component.logic()
    }

    /// One dispatch pass over the component inside; see
    /// [`Component::dispatch`].
    pub fn dispatch(&mut self) -> (delivered: usize)
        ensures
            final(self)@.container == old(self)@.container,
            final(self)@.containers == old(self)@.containers,
            final(self)@.component.root == old(self)@.component.root,
            match old(self)@.component.logic {
                Some(pre) => {
                    &&& final(self)@.component.logic matches Some(post) && crate::component::delivers(
                        pre,
                        old(self)@.component.relm@.delivery(),
                        post,
                    )
                    &&& final(self)@.component.relm@ == old(self)@.component.relm@.delivered()
                    &&& delivered == old(self)@.component.relm@.delivery().len()
                },
                None => final(self)@ == old(self)@ && delivered == 0,
            },
    {
        self.component.dispatch()
    }

    /// Counts one more holder of this component; see
    /// [`EventStream::add_producer`].
    pub fn add_producer(&mut self) -> (added: bool)
        ensures
            added == (0 < old(self)@.component.relm@.producers < usize::MAX),
            final(self)@.component.relm@ == old(self)@.component.relm@.add_producer(),
            final(self)@.component.root == old(self)@.component.root,
            final(self)@.component.logic == old(self)@.component.logic,
            final(self)@.container == old(self)@.container,
            final(self)@.containers == old(self)@.containers,
    {
        self.component.add_producer()
    }

    /// Counts one holder less; see [`Component::drop_producer`].
    pub fn drop_producer(&mut self)
        ensures
            final(self)@.component.relm@ == old(self)@.component.relm@.drop_producer(),
            final(self)@.component.root == old(self)@.component.root,
            final(self)@.component.logic == old(self)@.component.logic,
            final(self)@.container == old(self)@.container,
            final(self)@.containers == old(self)@.containers,
    {
        self.component.drop_producer();
    }
}

} // verus!
